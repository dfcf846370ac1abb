//! SVG mode: glyph bodies wrapped in a document, normalised, and given sequential
//! private-use codepoints.
use crate::table::{inserted_all, opt_view, Glyph, GlyphModel, GlyphTable};
use vstd::prelude::*;
use vstd::string::{StrSliceExecFns, StringExecFns};

verus! {

/// The first codepoint handed out to vector glyphs.
pub const FIRST_CODEPOINT: u128 = 0xE000;

/// One raw glyph: its name, its vector body, and its own size, if any, as decimal text.
#[derive(Clone, Debug)]
pub struct IconSource {
    pub name: String,
    pub body: String,
    pub width: Option<String>,
    pub height: Option<String>,
}

/// The sizes that an icon set gives for glyphs without their own, as decimal text.
#[derive(Clone, Debug)]
pub struct SetSizes {
    pub width: Option<String>,
    pub height: Option<String>,
    pub info_height: Option<String>,
}

/// A glyph left out because its document could not be normalised, with the cause.
#[derive(Clone, Debug)]
pub struct SkippedGlyph {
    pub name: String,
    pub cause: String,
}

/// What SVG mode yields: the glyphs that normalised, and a warning for each that did not.
pub struct SvgGlyphs {
    pub glyphs: GlyphTable,
    pub skipped: Vec<SkippedGlyph>,
}

/// The first size given, else 24.
pub open spec fn size_of(a: Option<Seq<char>>, b: Option<Seq<char>>, c: Option<Seq<char>>) -> Seq<char> {
    match a {
        Some(x) => x,
        None => match b {
            Some(x) => x,
            None => match c {
                Some(x) => x,
                None => "24"@,
            },
        },
    }
}

/// The minimal document that wraps a glyph body.
pub open spec fn envelope(w: Seq<char>, h: Seq<char>, body: Seq<char>) -> Seq<char> {
    "<svg xmlns=\"http://www.w3.org/2000/svg\" viewBox=\"0 0 "@ + w + " "@ + h + "\">"@ + body
        + "</svg>"@
}

/// The document for one icon: its own width, else the set's, else the set
/// information's height, else 24; likewise its height.
pub open spec fn icon_document(icon: IconSource, sizes: SetSizes) -> Seq<char> {
    envelope(
        size_of(opt_view(icon.width), opt_view(sizes.width), opt_view(sizes.info_height)),
        size_of(opt_view(icon.height), opt_view(sizes.height), opt_view(sizes.info_height)),
        icon.body@,
    )
}

pub open spec fn hex_digit(d: nat) -> char {
    "0123456789ABCDEF"@[d as int]
}

/// Upper-case hexadecimal text of `n`, without leading zeros.
pub open spec fn hex_text(n: nat) -> Seq<char>
    decreases n,
{
    if n < 16 {
        seq![hex_digit(n)]
    } else {
        hex_text(n / 16).push(hex_digit(n % 16))
    }
}

/// Relies on `usvg::Tree::from_str` and `Tree::to_string` with default options. The
/// outcome may depend on files that the markup points to, so nothing is stated of it.
#[verifier::external_body]
fn normalize_svg(doc: &str) -> (r: Result<String, String>) {
    let tree = usvg::Tree::from_str(doc, &usvg::Options::default()).map_err(|e| e.to_string())?;
    Ok(tree.to_string(&usvg::WriteOptions::default()))
}

fn pick_size(a: &Option<String>, b: &Option<String>, c: &Option<String>) -> (r: String)
    ensures
        r@ == size_of(opt_view(*a), opt_view(*b), opt_view(*c)),
{
    match a {
        Some(x) => x.clone(),
        None => match b {
            Some(x) => x.clone(),
            None => match c {
                Some(x) => x.clone(),
                None => String::from_str("24"),
            },
        },
    }
}

/// Wraps an icon's body in a document of the size that the fallbacks give.
pub fn glyph_document(icon: &IconSource, sizes: &SetSizes) -> (r: String)
    ensures
        r@ == icon_document(*icon, *sizes),
{
    let w = pick_size(&icon.width, &sizes.width, &sizes.info_height);
    let h = pick_size(&icon.height, &sizes.height, &sizes.info_height);
    let mut doc = String::from_str("<svg xmlns=\"http://www.w3.org/2000/svg\" viewBox=\"0 0 ");
    doc.append(w.as_str());
    doc.append(" ");
    doc.append(h.as_str());
    doc.append("\">");
    doc.append(icon.body.as_str());
    doc.append("</svg>");
    doc
}

/// Appends the upper-case hexadecimal text of `n`.
pub fn push_hex(s: &mut String, n: u128)
    ensures
        final(s)@ == old(s)@ + hex_text(n as nat),
    decreases n,
{
    proof {
        reveal_strlit("0123456789ABCDEF");
    }
    let digits = "0123456789ABCDEF";
    if n >= 16 {
        push_hex(s, n / 16);
    }
    let d = digits.get_char((n % 16) as usize);
    crate::names::push_char(s, d);
    assert(hex_text(n as nat) == if n < 16 {
        seq![hex_digit(n as nat)]
    } else {
        hex_text((n / 16) as nat).push(hex_digit((n % 16) as nat))
    });
}

/// Upper-case hexadecimal text of a codepoint.
pub fn codepoint_text(n: u128) -> (r: String)
    ensures
        r@ == hex_text(n as nat),
{
    let mut s = String::new();
    push_hex(&mut s, n);
    s
}

pub open spec fn outcome_view(r: Result<String, String>) -> Option<Seq<char>> {
    match r {
        Ok(s) => Some(s@),
        Err(_) => None,
    }
}

/// The glyphs that the first `k` icons give: each icon whose document normalised
/// takes the next codepoint from `0xE000`; one that failed takes none.
pub open spec fn accepted(
    names: Seq<Seq<char>>,
    outs: Seq<Option<Seq<char>>>,
    family: Seq<char>,
    k: int,
) -> Seq<(Seq<char>, GlyphModel)>
    decreases k,
{
    if k <= 0 {
        Seq::empty()
    } else {
        let prev = accepted(names, outs, family, k - 1);
        match outs[k - 1] {
            Some(svg) => prev.push(
                (names[k - 1], (family, hex_text((FIRST_CODEPOINT + prev.len()) as nat), Some(svg))),
            ),
            None => prev,
        }
    }
}

/// The names, among the first `k`, whose document did not normalise.
pub open spec fn skipped(names: Seq<Seq<char>>, outs: Seq<Option<Seq<char>>>, k: int) -> Seq<Seq<char>>
    decreases k,
{
    if k <= 0 {
        Seq::empty()
    } else {
        let prev = skipped(names, outs, k - 1);
        match outs[k - 1] {
            Some(_) => prev,
            None => prev.push(names[k - 1]),
        }
    }
}

pub proof fn lemma_accepted_len(names: Seq<Seq<char>>, outs: Seq<Option<Seq<char>>>, family: Seq<char>, k: int)
    requires
        k >= 0,
    ensures
        accepted(names, outs, family, k).len() <= k,
    decreases k,
{
    if k > 0 {
        lemma_accepted_len(names, outs, family, k - 1);
    }
}

pub open spec fn name_views(v: Seq<String>) -> Seq<Seq<char>> {
    v.map_values(|s: String| s@)
}

pub open spec fn outcome_views(v: Seq<Result<String, String>>) -> Seq<Option<Seq<char>>> {
    v.map_values(|r: Result<String, String>| outcome_view(r))
}

pub open spec fn skipped_names(v: Seq<SkippedGlyph>) -> Seq<Seq<char>> {
    v.map_values(|s: SkippedGlyph| s.name@)
}

/// Builds the glyph table of `family` from each name and the outcome of normalising
/// its document: a success takes the next codepoint from `0xE000` and keeps the
/// normalised markup; a failure is listed with its cause and leaves no gap.
pub fn collect_glyphs(family: &str, names: &Vec<String>, outcomes: &Vec<Result<String, String>>) -> (r:
    SvgGlyphs)
    requires
        names@.len() == outcomes@.len(),
    ensures
        r.glyphs.wf(),
        r.glyphs@ == inserted_all(
            Seq::empty(),
            accepted(name_views(names@), outcome_views(outcomes@), family@, names@.len() as int),
        ),
        skipped_names(r.skipped@) == skipped(
            name_views(names@),
            outcome_views(outcomes@),
            names@.len() as int,
        ),
{
    let ghost ns = name_views(names@);
    let ghost os = outcome_views(outcomes@);
    let mut glyphs = GlyphTable::new();
    let mut warnings: Vec<SkippedGlyph> = Vec::new();
    let mut code: u128 = FIRST_CODEPOINT;
    let mut i: usize = 0;
    while i < names.len()
        invariant
            ns == name_views(names@),
            os == outcome_views(outcomes@),
            names@.len() == outcomes@.len(),
            i <= names@.len(),
            glyphs.wf(),
            glyphs@ == inserted_all(Seq::empty(), accepted(ns, os, family@, i as int)),
            skipped_names(warnings@) == skipped(ns, os, i as int),
            code as int == FIRST_CODEPOINT + accepted(ns, os, family@, i as int).len(),
            accepted(ns, os, family@, i as int).len() <= i,
        decreases names@.len() - i,
    {
        proof {
            lemma_accepted_len(ns, os, family@, i + 1);
        }
        let ghost prev = accepted(ns, os, family@, i as int);
        match &outcomes[i] {
            Ok(svg) => {
                let glyph = Glyph {
                    family: String::from_str(family),
                    codepoint: codepoint_text(code),
                    svg: Some(svg.clone()),
                };
                let ghost next = accepted(ns, os, family@, i + 1);
                assert(next.drop_last() =~= prev);
                glyphs.insert(names[i].clone(), glyph);
                code = code + 1;
            },
            Err(cause) => {
                let ghost before = warnings@;
                warnings.push(SkippedGlyph { name: names[i].clone(), cause: cause.clone() });
                assert(skipped_names(warnings@) =~= skipped_names(before).push(names@[i as int]@));
            },
        }
        i = i + 1;
    }
    SvgGlyphs { glyphs, skipped: warnings }
}

pub open spec fn icon_names(icons: Seq<IconSource>) -> Seq<Seq<char>> {
    icons.map_values(|i: IconSource| i.name@)
}

/// Wraps and normalises each icon in order. The glyph table and the warnings are
/// what `collect_glyphs` makes of the names and of the normaliser's outcomes,
/// whatever those were.
pub fn normalize_icons(family: &str, icons: &Vec<IconSource>, sizes: &SetSizes) -> (r: SvgGlyphs)
    ensures
        r.glyphs.wf(),
        exists|outs: Seq<Option<Seq<char>>>|
            outs.len() == icons@.len() && r.glyphs@ == inserted_all(
                Seq::empty(),
                accepted(icon_names(icons@), outs, family@, icons@.len() as int),
            ) && skipped_names(r.skipped@) == skipped(icon_names(icons@), outs, icons@.len() as int),
{
    let mut names: Vec<String> = Vec::new();
    let mut outcomes: Vec<Result<String, String>> = Vec::new();
    let mut i: usize = 0;
    while i < icons.len()
        invariant
            i <= icons@.len(),
            names@.len() == i,
            outcomes@.len() == i,
            name_views(names@) == icon_names(icons@).take(i as int),
        decreases icons@.len() - i,
    {
        let doc = glyph_document(&icons[i], sizes);
        let outcome = normalize_svg(doc.as_str());
        names.push(icons[i].name.clone());
        outcomes.push(outcome);
        assert(name_views(names@) =~= icon_names(icons@).take(i + 1));
        i = i + 1;
    }
    assert(icon_names(icons@).take(i as int) =~= icon_names(icons@));
    let r = collect_glyphs(family, &names, &outcomes);
    assert(outcome_views(outcomes@).len() == icons@.len());
    r
}

} // verus!
