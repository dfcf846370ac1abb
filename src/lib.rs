//! Icon-font metadata normalisation and LaTeX package synthesis.
use vstd::prelude::*;

pub mod names;
pub mod table;
pub mod extract;
pub mod svg;
pub mod iconset;
pub mod filter;
pub mod package;

verus! {

} // verus!
