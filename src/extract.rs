//! Table mode: glyph names and codepoints read from a codepoints table with a
//! two-group pattern.
use crate::names::{kebab_of, to_glyph_name};
use crate::table::{inserted_all, opt_view, Glyph, GlyphModel, GlyphTable};
use vstd::prelude::*;
use vstd::string::StringExecFns;

verus! {

#[verifier::external_type_specification]
#[verifier::external_body]
pub struct ExRegexError(regex::Error);

/// Whether `regex::Regex::new` accepts a pattern.
pub uninterp spec fn pattern_compiles(p: Seq<char>) -> bool;

/// The first two groups of each successive non-overlapping match of a pattern in a
/// text, as `regex::Regex::captures_iter` finds them (`None` for a group that took
/// no part in the match).
pub uninterp spec fn pattern_captures(p: Seq<char>, t: Seq<char>) -> Seq<
    (Option<Seq<char>>, Option<Seq<char>>),
>;

/// What `str::to_uppercase` produces.
pub uninterp spec fn upper_of(s: Seq<char>) -> Seq<char>;

/// Relies on `regex::Regex::new` and `Regex::captures_iter`: compiles the pattern,
/// then lists groups 1 and 2 of every match in order.
#[verifier::external_body]
fn capture_pairs(pattern: &str, text: &str) -> (r: Result<
    Vec<(Option<String>, Option<String>)>,
    regex::Error,
>)
    ensures
        r is Ok <==> pattern_compiles(pattern@),
        r matches Ok(v) ==> pair_views(v@) == pattern_captures(pattern@, text@),
{
    let re = regex::Regex::new(pattern)?;
    Ok(
        re.captures_iter(text).map(
            |c| (c.get(1).map(|m| m.as_str().to_string()), c.get(2).map(|m| m.as_str().to_string())),
        ).collect(),
    )
}

/// Relies on `str::to_uppercase`.
#[verifier::external_body]
fn uppercase(s: &str) -> (r: String)
    ensures
        r@ == upper_of(s@),
{
    s.to_uppercase()
}

pub open spec fn pair_views(v: Seq<(Option<String>, Option<String>)>) -> Seq<
    (Option<Seq<char>>, Option<Seq<char>>),
> {
    v.map_values(|p: (Option<String>, Option<String>)| (opt_view(p.0), opt_view(p.1)))
}

pub open spec fn complete(c: (Option<Seq<char>>, Option<Seq<char>>)) -> bool {
    c.0 is Some && c.1 is Some
}

/// Every match took both groups.
pub open spec fn all_complete(cs: Seq<(Option<Seq<char>>, Option<Seq<char>>)>) -> bool {
    forall|i: int| 0 <= i < cs.len() ==> complete(#[trigger] cs[i])
}

/// The glyph-name and codepoint of one complete match.
pub open spec fn table_pair(c: (Option<Seq<char>>, Option<Seq<char>>)) -> (Seq<char>, Seq<char>) {
    (kebab_of(c.0.unwrap()), upper_of(c.1.unwrap()))
}

/// Why a codepoints table could not be read.
#[derive(Debug)]
pub enum ExtractError {
    /// The pattern is not a valid regular expression.
    InvalidPattern(regex::Error),
    /// The match with this index (counting from 0) lacked the name or the codepoint group.
    MissingGroup(usize),
}

pub open spec fn string_pairs(v: Seq<(String, String)>) -> Seq<(Seq<char>, Seq<char>)> {
    v.map_values(|p: (String, String)| (p.0@, p.1@))
}

/// Reads `(name, codepoint)` pairs from a codepoints table, first match first: the
/// name in kebab case, the codepoint upper-cased as it stands in the text.
pub fn extract_table(text: &str, pattern: &str) -> (r: Result<Vec<(String, String)>, ExtractError>)
    ensures
        r matches Err(ExtractError::InvalidPattern(_)) <==> !pattern_compiles(pattern@),
        r matches Err(ExtractError::MissingGroup(i)) ==> pattern_compiles(pattern@) && i
            < pattern_captures(pattern@, text@).len() && !complete(
            pattern_captures(pattern@, text@)[i as int],
        ) && all_complete(pattern_captures(pattern@, text@).take(i as int)),
        r is Ok <==> pattern_compiles(pattern@) && all_complete(pattern_captures(pattern@, text@)),
        r matches Ok(v) ==> string_pairs(v@) == pattern_captures(pattern@, text@).map_values(
            |c: (Option<Seq<char>>, Option<Seq<char>>)| table_pair(c),
        ),
{
    let caps = match capture_pairs(pattern, text) {
        Ok(v) => v,
        Err(e) => {
            return Err(ExtractError::InvalidPattern(e));
        },
    };
    let ghost cs = pattern_captures(pattern@, text@);
    let mut out: Vec<(String, String)> = Vec::new();
    let mut i: usize = 0;
    while i < caps.len()
        invariant
            pair_views(caps@) == cs,
            cs == pattern_captures(pattern@, text@),
            pattern_compiles(pattern@),
            i <= caps@.len(),
            all_complete(cs.take(i as int)),
            string_pairs(out@) == cs.take(i as int).map_values(
                |c: (Option<Seq<char>>, Option<Seq<char>>)| table_pair(c),
            ),
        decreases caps@.len() - i,
    {
        assert(cs[i as int] == (opt_view(caps@[i as int].0), opt_view(caps@[i as int].1)));
        match (&caps[i].0, &caps[i].1) {
            (Some(name), Some(symbol)) => {
                let n = to_glyph_name(name.as_str());
                let s = uppercase(symbol.as_str());
                let ghost before = out@;
                out.push((n, s));
                assert(table_pair(cs[i as int]) == (n@, s@));
                assert(string_pairs(out@) =~= string_pairs(before).push((n@, s@)));
                assert(cs.take(i + 1) =~= cs.take(i as int).push(cs[i as int]));
                assert(string_pairs(out@) =~= cs.take(i + 1).map_values(
                    |c: (Option<Seq<char>>, Option<Seq<char>>)| table_pair(c),
                ));
            },
            _ => {
                assert(!complete(cs[i as int]));
                assert(!all_complete(cs));
                return Err(ExtractError::MissingGroup(i));
            },
        }
        i = i + 1;
    }
    assert(cs.take(i as int) =~= cs);
    Ok(out)
}

/// The glyphs that a list of table pairs gives in `family`, each name joined to
/// `suffix` with a hyphen where there is one.
pub open spec fn table_glyphs(
    pairs: Seq<(Seq<char>, Seq<char>)>,
    family: Seq<char>,
    suffix: Option<Seq<char>>,
) -> Seq<(Seq<char>, GlyphModel)> {
    pairs.map_values(
        |p: (Seq<char>, Seq<char>)|
            (
                match suffix {
                    Some(s) => p.0 + seq!['-'] + s,
                    None => p.0,
                },
                (family, p.1, None::<Seq<char>>),
            ),
    )
}

/// Inserts the pairs into `table` in order as glyphs of `family`, the names joined
/// to `suffix` where there is one; a name seen before takes the later codepoint.
pub fn add_table_glyphs(
    table: &mut GlyphTable,
    pairs: &Vec<(String, String)>,
    family: &str,
    suffix: Option<&str>,
)
    requires
        old(table).wf(),
    ensures
        final(table).wf(),
        final(table)@ == inserted_all(
            old(table)@,
            table_glyphs(
                string_pairs(pairs@),
                family@,
                match suffix {
                    Some(s) => Some(s@),
                    None => None,
                },
            ),
        ),
{
    let ghost sfx = match suffix {
        Some(s) => Some(s@),
        None => None,
    };
    let ghost all = table_glyphs(string_pairs(pairs@), family@, sfx);
    let ghost start = table@;
    let mut i: usize = 0;
    while i < pairs.len()
        invariant
            table.wf(),
            i <= pairs@.len(),
            all == table_glyphs(string_pairs(pairs@), family@, sfx),
            table@ == inserted_all(start, all.take(i as int)),
            sfx == match suffix {
                Some(s) => Some(s@),
                None => None::<Seq<char>>,
            },
        decreases pairs@.len() - i,
    {
        let name = match suffix {
            Some(s) => {
                let mut n = pairs[i].0.clone();
                n.append("-");
                n.append(s);
                n
            },
            None => pairs[i].0.clone(),
        };
        proof {
            reveal_strlit("-");
        }
        let glyph = Glyph { family: String::from_str(family), codepoint: pairs[i].1.clone(), svg: None };
        assert(all.take(i + 1).drop_last() =~= all.take(i as int));
        assert(name@ == all[i as int].0);
        table.insert(name, glyph);
        i = i + 1;
    }
    assert(all.take(i as int) =~= all);
}

} // verus!
