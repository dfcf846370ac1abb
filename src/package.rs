//! Package synthesis: the style file, the documentation file and the font files of
//! one icon set.
use crate::iconset::{binding_views, IconSet};
use crate::table::{opt_view, GlyphModel};
use vstd::prelude::*;
use vstd::string::StringExecFns;

verus! {

/// The line ending of the generated text.
#[derive(Clone, Copy, Debug, PartialEq, Eq)]
pub enum LineEnding {
    Lf,
    CrLf,
}

pub open spec fn eol_text(e: LineEnding) -> Seq<char> {
    match e {
        LineEnding::Lf => "\n"@,
        LineEnding::CrLf => "\r\n"@,
    }
}

pub open spec fn info_text(name: Seq<char>, version: Option<Seq<char>>) -> Seq<char> {
    match version {
        None => name,
        Some(v) => name + " v"@ + v,
    }
}

pub open spec fn font_line(b: (Seq<char>, Seq<char>)) -> Seq<char> {
    "\\newfontfamily{\\"@ + b.0 + "Font}{"@ + b.1 + "}"@
}

/// One line per font family, each ended by `eol`.
pub open spec fn font_block(fonts: Seq<(Seq<char>, Seq<char>)>, eol: Seq<char>) -> Seq<char>
    decreases fonts.len(),
{
    if fonts.len() == 0 {
        Seq::empty()
    } else {
        font_block(fonts.drop_last(), eol) + font_line(fonts.last()) + eol
    }
}

/// The macro that binds `{prefix}:{name}` to the glyph's codepoint in its family.
pub open spec fn mapping_line(prefix: Seq<char>, e: (Seq<char>, GlyphModel)) -> Seq<char> {
    "\\expandafter\\def\\csname icon@"@ + prefix + ":"@ + e.0 + "\\endcsname {\\"@ + e.1.0
        + "Font \\symbol{\""@ + e.1.1 + "}}"@
}

pub open spec fn mapping_block(prefix: Seq<char>, es: Seq<(Seq<char>, GlyphModel)>, eol: Seq<char>) -> Seq<
    char,
>
    decreases es.len(),
{
    if es.len() == 0 {
        Seq::empty()
    } else {
        mapping_block(prefix, es.drop_last(), eol) + mapping_line(prefix, es.last()) + eol
    }
}

/// The documentation row of one glyph.
pub open spec fn doc_row(prefix: Seq<char>, e: (Seq<char>, GlyphModel)) -> Seq<char> {
    "\\texttt{"@ + prefix + ":"@ + e.0 + "} & \\texicon{"@ + prefix + ":"@ + e.0 + "} \\\\"@
}

pub open spec fn doc_block(prefix: Seq<char>, es: Seq<(Seq<char>, GlyphModel)>, eol: Seq<char>) -> Seq<char>
    decreases es.len(),
{
    if es.len() == 0 {
        Seq::empty()
    } else {
        doc_block(prefix, es.drop_last(), eol) + doc_row(prefix, es.last()) + eol
    }
}

pub open spec fn package_name(prefix: Seq<char>) -> Seq<char> {
    "texicons-"@ + prefix
}

/// The style file's text.
pub open spec fn style_text(
    prefix: Seq<char>,
    info: Seq<char>,
    date: Seq<char>,
    fonts: Seq<(Seq<char>, Seq<char>)>,
    es: Seq<(Seq<char>, GlyphModel)>,
    eol: Seq<char>,
) -> Seq<char> {
    "\\NeedsTeXFormat{LaTeX2e}"@ + eol + "\\ProvidesPackage{"@ + package_name(prefix) + "}["@ + date
        + " TeXicons set for "@ + info + "]"@ + eol + "\\RequirePackage{fontspec}"@ + eol + eol
        + font_block(fonts, eol) + eol + mapping_block(prefix, es, eol) + eol
        + "\\newcommand{\\texicon}[1]{\\csname icon@#1\\endcsname}"@ + eol
}

/// The documentation file's text: a table of every glyph name and its rendering.
pub open spec fn docs_text(prefix: Seq<char>, es: Seq<(Seq<char>, GlyphModel)>, eol: Seq<char>) -> Seq<char> {
    "\\documentclass{article}"@ + eol + "\\usepackage{"@ + package_name(prefix) + "}"@ + eol
        + "\\begin{document}"@ + eol + "\\begin{tabular}{ll}"@ + eol + doc_block(prefix, es, eol)
        + "\\end{tabular}"@ + eol + "\\end{document}"@ + eol
}

pub open spec fn set_style_text(set: IconSet, date: Seq<char>, eol: LineEnding) -> Seq<char> {
    style_text(
        set.prefix@,
        info_text(set.name@, opt_view(set.version)),
        date,
        binding_views(set.fonts@),
        set.glyphs@,
        eol_text(eol),
    )
}

fn eol_str(e: LineEnding) -> (r: &'static str)
    ensures
        r@ == eol_text(e),
{
    match e {
        LineEnding::Lf => "\n",
        LineEnding::CrLf => "\r\n",
    }
}

fn render_info(set: &IconSet) -> (r: String)
    ensures
        r@ == info_text(set.name@, opt_view(set.version)),
{
    let mut s = set.name.clone();
    match &set.version {
        Some(v) => {
            s.append(" v");
            s.append(v.as_str());
        },
        None => {},
    }
    s
}

/// Renders the style file: header, one font family per binding, one macro per glyph
/// in table order, and the lookup command.
pub fn render_style(set: &IconSet, date: &str, eol: LineEnding) -> (r: String)
    ensures
        r@ == set_style_text(*set, date@, eol),
{
    let nl = eol_str(eol);
    let prefix = set.prefix.as_str();
    let mut s = String::from_str("\\NeedsTeXFormat{LaTeX2e}");
    s.append(nl);
    s.append("\\ProvidesPackage{");
    s.append("texicons-");
    s.append(prefix);
    s.append("}[");
    s.append(date);
    s.append(" TeXicons set for ");
    let info = render_info(set);
    s.append(info.as_str());
    s.append("]");
    s.append(nl);
    s.append("\\RequirePackage{fontspec}");
    s.append(nl);
    s.append(nl);
    let ghost head = s@;
    assert(head =~= "\\NeedsTeXFormat{LaTeX2e}"@ + nl@ + "\\ProvidesPackage{"@ + package_name(set.prefix@)
        + "}["@ + date@ + " TeXicons set for "@ + info_text(set.name@, opt_view(set.version)) + "]"@
        + nl@ + "\\RequirePackage{fontspec}"@ + nl@ + nl@);
    let ghost fonts = binding_views(set.fonts@);
    let mut i: usize = 0;
    while i < set.fonts.len()
        invariant
            i <= set.fonts@.len(),
            fonts == binding_views(set.fonts@),
            nl@ == eol_text(eol),
            s@ == head + font_block(fonts.take(i as int), nl@),
        decreases set.fonts@.len() - i,
    {
        s.append("\\newfontfamily{\\");
        s.append(set.fonts[i].family.as_str());
        s.append("Font}{");
        s.append(set.fonts[i].font_file.as_str());
        s.append("}");
        s.append(nl);
        assert(fonts.take(i + 1).drop_last() =~= fonts.take(i as int));
        i = i + 1;
    }
    assert(fonts.take(i as int) =~= fonts);
    s.append(nl);
    let ghost mid = s@;
    let es = set.glyphs.entries();
    let ghost gs = set.glyphs@;
    let mut j: usize = 0;
    while j < es.len()
        invariant
            j <= es@.len(),
            es@.len() == gs.len(),
            gs == set.glyphs@,
            prefix@ == set.prefix@,
            forall|k: int| 0 <= k < es@.len() ==> (#[trigger] es@[k]).0@ == gs[k].0 && es@[k].1.model() == gs[k].1,
            nl@ == eol_text(eol),
            s@ == mid + mapping_block(set.prefix@, gs.take(j as int), nl@),
        decreases es@.len() - j,
    {
        assert(es@[j as int].0@ == gs[j as int].0 && es@[j as int].1.model() == gs[j as int].1);
        let ghost before = s@;
        s.append("\\expandafter\\def\\csname icon@");
        s.append(prefix);
        s.append(":");
        s.append(es[j].0.as_str());
        s.append("\\endcsname {\\");
        s.append(es[j].1.family.as_str());
        s.append("Font \\symbol{\"");
        s.append(es[j].1.codepoint.as_str());
        s.append("}}");
        s.append(nl);
        assert(gs.take(j + 1).drop_last() =~= gs.take(j as int));
        assert(gs.take(j + 1).last() == gs[j as int]);
        assert(s@ =~= before + mapping_line(set.prefix@, gs[j as int]) + nl@);
        assert(s@ =~= mid + mapping_block(set.prefix@, gs.take(j as int), nl@) + mapping_line(
            set.prefix@,
            gs[j as int],
        ) + nl@);
        j = j + 1;
    }
    assert(gs.take(j as int) =~= gs);
    s.append(nl);
    s.append("\\newcommand{\\texicon}[1]{\\csname icon@#1\\endcsname}");
    s.append(nl);
    assert(s@ =~= set_style_text(*set, date@, eol));
    s
}

/// Renders the documentation file: one table row per glyph, in table order.
pub fn render_docs(set: &IconSet, eol: LineEnding) -> (r: String)
    ensures
        r@ == docs_text(set.prefix@, set.glyphs@, eol_text(eol)),
{
    let nl = eol_str(eol);
    let prefix = set.prefix.as_str();
    let mut s = String::from_str("\\documentclass{article}");
    s.append(nl);
    s.append("\\usepackage{");
    s.append("texicons-");
    s.append(prefix);
    s.append("}");
    s.append(nl);
    s.append("\\begin{document}");
    s.append(nl);
    s.append("\\begin{tabular}{ll}");
    s.append(nl);
    let ghost head = s@;
    let es = set.glyphs.entries();
    let ghost gs = set.glyphs@;
    let mut j: usize = 0;
    while j < es.len()
        invariant
            j <= es@.len(),
            es@.len() == gs.len(),
            gs == set.glyphs@,
            prefix@ == set.prefix@,
            forall|k: int| 0 <= k < es@.len() ==> (#[trigger] es@[k]).0@ == gs[k].0 && es@[k].1.model() == gs[k].1,
            nl@ == eol_text(eol),
            s@ == head + doc_block(set.prefix@, gs.take(j as int), nl@),
        decreases es@.len() - j,
    {
        assert(es@[j as int].0@ == gs[j as int].0 && es@[j as int].1.model() == gs[j as int].1);
        let ghost before = s@;
        s.append("\\texttt{");
        s.append(prefix);
        s.append(":");
        s.append(es[j].0.as_str());
        s.append("} & \\texicon{");
        s.append(prefix);
        s.append(":");
        s.append(es[j].0.as_str());
        s.append("} \\\\");
        s.append(nl);
        assert(gs.take(j + 1).drop_last() =~= gs.take(j as int));
        assert(gs.take(j + 1).last() == gs[j as int]);
        assert(s@ =~= before + doc_row(set.prefix@, gs[j as int]) + nl@);
        assert(s@ =~= head + doc_block(set.prefix@, gs.take(j as int), nl@) + doc_row(
            set.prefix@,
            gs[j as int],
        ) + nl@);
        j = j + 1;
    }
    assert(gs.take(j as int) =~= gs);
    s.append("\\end{tabular}");
    s.append(nl);
    s.append("\\end{document}");
    s.append(nl);
    assert(s@ =~= docs_text(set.prefix@, set.glyphs@, eol_text(eol)));
    s
}

/// One generated text file of a package, at a path relative to the output root.
#[derive(Clone, Debug)]
pub struct PackageFile {
    pub path: String,
    pub contents: String,
}

/// A font file to copy into the package directory, and where it goes.
#[derive(Clone, Debug)]
pub struct FontCopy {
    pub font_file: String,
    pub target: String,
}

/// Everything written for one icon set.
#[derive(Clone, Debug)]
pub struct Package {
    pub style: PackageFile,
    pub docs: PackageFile,
    pub fonts: Vec<FontCopy>,
}

/// `{prefix}/texicons-{prefix}.{ext}`.
pub open spec fn package_path(prefix: Seq<char>, ext: Seq<char>) -> Seq<char> {
    prefix + "/"@ + package_name(prefix) + "."@ + ext
}

pub open spec fn copies_view(v: Seq<FontCopy>) -> Seq<(Seq<char>, Seq<char>)> {
    v.map_values(|c: FontCopy| (c.font_file@, c.target@))
}

/// Each font file of the set, copied to `{prefix}/{file}`.
pub open spec fn font_copies(prefix: Seq<char>, fonts: Seq<(Seq<char>, Seq<char>)>) -> Seq<
    (Seq<char>, Seq<char>),
> {
    fonts.map_values(|b: (Seq<char>, Seq<char>)| (b.1, prefix + "/"@ + b.1))
}

/// `p` is the package of `set` made on `date` with line ending `eol`.
pub open spec fn is_package_of(p: Package, set: IconSet, date: Seq<char>, eol: LineEnding) -> bool {
    &&& p.style.path@ == package_path(set.prefix@, "sty"@)
    &&& p.style.contents@ == set_style_text(set, date, eol)
    &&& p.docs.path@ == package_path(set.prefix@, "tex"@)
    &&& p.docs.contents@ == docs_text(set.prefix@, set.glyphs@, eol_text(eol))
    &&& copies_view(p.fonts@) == font_copies(set.prefix@, binding_views(set.fonts@))
}

fn package_file_path(prefix: &str, ext: &str) -> (r: String)
    ensures
        r@ == package_path(prefix@, ext@),
{
    let mut s = String::from_str(prefix);
    s.append("/");
    s.append("texicons-");
    s.append(prefix);
    s.append(".");
    s.append(ext);
    s
}

/// Synthesises the package of an icon set: the style file, the documentation file,
/// and the copies of its font files, all under the directory named by the prefix.
pub fn synthesize(set: &IconSet, date: &str, eol: LineEnding) -> (r: Package)
    ensures
        is_package_of(r, *set, date@, eol),
{
    let prefix = set.prefix.as_str();
    let style = PackageFile { path: package_file_path(prefix, "sty"), contents: render_style(set, date, eol) };
    let docs = PackageFile { path: package_file_path(prefix, "tex"), contents: render_docs(set, eol) };
    let ghost bs = binding_views(set.fonts@);
    let mut fonts: Vec<FontCopy> = Vec::new();
    let mut i: usize = 0;
    while i < set.fonts.len()
        invariant
            i <= set.fonts@.len(),
            bs == binding_views(set.fonts@),
            prefix@ == set.prefix@,
            copies_view(fonts@) == font_copies(set.prefix@, bs.take(i as int)),
        decreases set.fonts@.len() - i,
    {
        let mut target = String::from_str(prefix);
        target.append("/");
        target.append(set.fonts[i].font_file.as_str());
        let ghost before = fonts@;
        fonts.push(FontCopy { font_file: set.fonts[i].font_file.clone(), target });
        assert(copies_view(fonts@) =~= copies_view(before).push(
            (set.fonts@[i as int].font_file@, set.prefix@ + "/"@ + set.fonts@[i as int].font_file@),
        ));
        assert(font_copies(set.prefix@, bs.take(i + 1)) =~= font_copies(set.prefix@, bs.take(i as int)).push(
            (bs[i as int].1, set.prefix@ + "/"@ + bs[i as int].1),
        ));
        i = i + 1;
    }
    assert(bs.take(i as int) =~= bs);
    Package { style, docs, fonts }
}

/// Synthesis is reproducible: two packages made from the same icon set, date and
/// line ending hold the same paths, the same text and the same font copies.
pub proof fn lemma_synthesis_reproducible(
    p1: Package,
    p2: Package,
    set: IconSet,
    date: Seq<char>,
    eol: LineEnding,
)
    requires
        is_package_of(p1, set, date, eol),
        is_package_of(p2, set, date, eol),
    ensures
        p1.style.path@ == p2.style.path@,
        p1.style.contents@ == p2.style.contents@,
        p1.docs.path@ == p2.docs.path@,
        p1.docs.contents@ == p2.docs.contents@,
        copies_view(p1.fonts@) == copies_view(p2.fonts@),
{
}

/// Relies on `chrono::Utc::now` and `format("%Y-%m-%d")`: today's date in UTC. It
/// depends on the clock, so nothing is stated of it.
#[verifier::external_body]
fn today() -> (r: String) {
    chrono::Utc::now().format("%Y-%m-%d").to_string()
}

/// Synthesises the package of an icon set dated today (UTC).
pub fn synthesize_today(set: &IconSet, eol: LineEnding) -> (r: Package)
    ensures
        exists|date: Seq<char>| is_package_of(r, *set, date, eol),
{
    let date = today();
    synthesize(set, date.as_str(), eol)
}

} // verus!
