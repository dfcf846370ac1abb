//! The merged icon set and the two ways of building it: from codepoint tables with
//! their variants, or from vector glyph bodies.
use crate::extract::{
    add_table_glyphs, all_complete, extract_table, pattern_captures, pattern_compiles, table_glyphs,
    table_pair, ExtractError,
};
use crate::names::{family_of, to_family_identifier};
use crate::svg::{accepted, icon_names, normalize_icons, skipped, skipped_names, IconSource, SetSizes, SkippedGlyph};
use crate::table::{inserted_all, GlyphModel, GlyphTable};
use vstd::prelude::*;
use vstd::string::StringExecFns;

verus! {

/// A font family of a package and the font file that it loads.
#[derive(Clone, Debug)]
pub struct FontBinding {
    pub family: String,
    pub font_file: String,
}

pub open spec fn binding_views(v: Seq<FontBinding>) -> Seq<(Seq<char>, Seq<char>)> {
    v.map_values(|b: FontBinding| (b.family@, b.font_file@))
}

/// An icon set ready for packaging: its glyphs in order and the font families that
/// render them, the base family first.
pub struct IconSet {
    pub prefix: String,
    pub name: String,
    pub version: Option<String>,
    pub font_id: String,
    pub glyphs: GlyphTable,
    pub fonts: Vec<FontBinding>,
}

impl IconSet {
    pub open spec fn wf(&self) -> bool {
        self.glyphs.wf()
    }
}

/// A font and its codepoints table, with the two-group pattern that reads the table.
#[derive(Clone, Debug)]
pub struct TableSource {
    pub font_file: String,
    pub codepoints: String,
    pub pattern: String,
}

/// An icon set described by codepoint tables: a base font and its variants, each
/// variant under its key.
#[derive(Clone, Debug)]
pub struct TableIconSetSource {
    pub prefix: String,
    pub name: String,
    pub version: Option<String>,
    pub base: TableSource,
    pub variants: Vec<(String, TableSource)>,
}

/// An icon set described by vector glyph bodies.
#[derive(Clone, Debug)]
pub struct SvgIconSetSource {
    pub prefix: String,
    pub name: String,
    pub version: Option<String>,
    pub icons: Vec<IconSource>,
    pub sizes: SetSizes,
}

pub open spec fn table_ok(t: TableSource) -> bool {
    pattern_compiles(t.pattern@) && all_complete(pattern_captures(t.pattern@, t.codepoints@))
}

pub open spec fn table_pairs(t: TableSource) -> Seq<(Seq<char>, Seq<char>)> {
    pattern_captures(t.pattern@, t.codepoints@).map_values(
        |c: (Option<Seq<char>>, Option<Seq<char>>)| table_pair(c),
    )
}

/// The family identifier of a variant.
pub open spec fn variant_family(prefix: Seq<char>, key: Seq<char>) -> Seq<char> {
    family_of(prefix + seq!['-'] + key)
}

/// The glyph table after the base table and the first `k` variants, each variant's
/// names suffixed with its key.
pub open spec fn merged(src: TableIconSetSource, k: int) -> Seq<(Seq<char>, GlyphModel)>
    decreases k,
{
    if k <= 0 {
        inserted_all(Seq::empty(), table_glyphs(table_pairs(src.base), family_of(src.prefix@), None))
    } else {
        let (key, t) = src.variants@[k - 1];
        inserted_all(
            merged(src, k - 1),
            table_glyphs(table_pairs(t), variant_family(src.prefix@, key@), Some(key@)),
        )
    }
}

/// The font bindings of the base font and the first `k` variants.
pub open spec fn table_bindings(src: TableIconSetSource, k: int) -> Seq<(Seq<char>, Seq<char>)>
    decreases k,
{
    if k <= 0 {
        seq![(family_of(src.prefix@), src.base.font_file@)]
    } else {
        let (key, t) = src.variants@[k - 1];
        table_bindings(src, k - 1).push((variant_family(src.prefix@, key@), t.font_file@))
    }
}

pub open spec fn variants_ok(src: TableIconSetSource, k: int) -> bool {
    forall|i: int| 0 <= i < k ==> table_ok((#[trigger] src.variants@[i]).1)
}

fn read_table(t: &TableSource) -> (r: Result<Vec<(String, String)>, ExtractError>)
    ensures
        r is Ok <==> table_ok(*t),
        r matches Ok(v) ==> crate::extract::string_pairs(v@) == table_pairs(*t),
{
    extract_table(t.codepoints.as_str(), t.pattern.as_str())
}

/// Builds an icon set from codepoint tables: the base table's glyphs in the base
/// family, then each variant's glyphs as `{name}-{key}` in the variant's family.
/// Fails, with the first error met, when a pattern is invalid or a match lacks a group.
pub fn build_table_icon_set(src: &TableIconSetSource) -> (r: Result<IconSet, ExtractError>)
    ensures
        r is Ok <==> table_ok(src.base) && variants_ok(*src, src.variants@.len() as int),
        r matches Ok(set) ==> {
            &&& set.wf()
            &&& set.prefix@ == src.prefix@
            &&& set.name@ == src.name@
            &&& set.version == src.version
            &&& set.font_id@ == family_of(src.prefix@)
            &&& set.glyphs@ == merged(*src, src.variants@.len() as int)
            &&& binding_views(set.fonts@) == table_bindings(*src, src.variants@.len() as int)
        },
{
    let font_id = to_family_identifier(src.prefix.as_str());
    let base = match read_table(&src.base) {
        Ok(v) => v,
        Err(e) => {
            return Err(e);
        },
    };
    let mut glyphs = GlyphTable::new();
    add_table_glyphs(&mut glyphs, &base, font_id.as_str(), None);
    let mut fonts: Vec<FontBinding> = Vec::new();
    fonts.push(FontBinding { family: font_id.clone(), font_file: src.base.font_file.clone() });
    assert(binding_views(fonts@) =~= table_bindings(*src, 0));
    let mut k: usize = 0;
    while k < src.variants.len()
        invariant
            k <= src.variants@.len(),
            table_ok(src.base),
            variants_ok(*src, k as int),
            glyphs.wf(),
            glyphs@ == merged(*src, k as int),
            binding_views(fonts@) == table_bindings(*src, k as int),
        decreases src.variants@.len() - k,
    {
        let key = &src.variants[k].0;
        let t = &src.variants[k].1;
        let pairs = match read_table(t) {
            Ok(v) => v,
            Err(e) => {
                assert(!variants_ok(*src, src.variants@.len() as int)) by {
                    assert(!table_ok(src.variants@[k as int].1));
                }
                return Err(e);
            },
        };
        let mut joined = src.prefix.clone();
        joined.append("-");
        joined.append(key.as_str());
        proof {
            reveal_strlit("-");
        }
        assert(joined@ =~= src.prefix@ + seq!['-'] + key@);
        let family = to_family_identifier(joined.as_str());
        add_table_glyphs(&mut glyphs, &pairs, family.as_str(), Some(key.as_str()));
        let ghost before = fonts@;
        fonts.push(FontBinding { family, font_file: t.font_file.clone() });
        assert(binding_views(fonts@) =~= binding_views(before).push((family@, t.font_file@)));
        k = k + 1;
    }
    Ok(
        IconSet {
            prefix: src.prefix.clone(),
            name: src.name.clone(),
            version: src.version.clone(),
            font_id,
            glyphs,
            fonts,
        },
    )
}

/// The one font file of a vector icon set: `{prefix}.ttf`.
pub open spec fn svg_font_file(prefix: Seq<char>) -> Seq<char> {
    prefix + ".ttf"@
}

/// Builds an icon set from vector glyph bodies: every glyph in the family of the
/// prefix, with sequential codepoints for those that normalise, and a warning for
/// each that does not.
pub fn clean_icon_set(src: &SvgIconSetSource) -> (r: (IconSet, Vec<SkippedGlyph>))
    ensures
        r.0.wf(),
        r.0.prefix@ == src.prefix@,
        r.0.name@ == src.name@,
        r.0.version == src.version,
        r.0.font_id@ == family_of(src.prefix@),
        binding_views(r.0.fonts@) == seq![(family_of(src.prefix@), svg_font_file(src.prefix@))],
        exists|outs: Seq<Option<Seq<char>>>|
            outs.len() == src.icons@.len() && r.0.glyphs@ == inserted_all(
                Seq::empty(),
                accepted(icon_names(src.icons@), outs, family_of(src.prefix@), src.icons@.len() as int),
            ) && skipped_names(r.1@) == skipped(icon_names(src.icons@), outs, src.icons@.len() as int),
{
    let font_id = to_family_identifier(src.prefix.as_str());
    let out = normalize_icons(font_id.as_str(), &src.icons, &src.sizes);
    let mut font_file = src.prefix.clone();
    font_file.append(".ttf");
    let mut fonts: Vec<FontBinding> = Vec::new();
    fonts.push(FontBinding { family: font_id.clone(), font_file });
    assert(binding_views(fonts@) =~= seq![(family_of(src.prefix@), svg_font_file(src.prefix@))]);
    let set = IconSet {
        prefix: src.prefix.clone(),
        name: src.name.clone(),
        version: src.version.clone(),
        font_id,
        glyphs: out.glyphs,
        fonts,
    };
    (set, out.skipped)
}

} // verus!
