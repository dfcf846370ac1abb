use texicons::extract::{add_table_glyphs, extract_table, ExtractError};
use texicons::filter::prefix_allowed;
use texicons::iconset::{build_table_icon_set, clean_icon_set, SvgIconSetSource, TableIconSetSource, TableSource};
use texicons::names::{replace_numbers_to_letters, to_family_identifier, to_glyph_name};
use texicons::package::{render_docs, render_style, synthesize, synthesize_today, LineEnding};
use texicons::svg::{codepoint_text, collect_glyphs, glyph_document, IconSource, SetSizes};
use texicons::table::{Glyph, GlyphTable};

fn strings(v: &[&str]) -> Vec<String> {
    v.iter().map(|s| s.to_string()).collect()
}

fn no_sizes() -> SetSizes {
    SetSizes { width: None, height: None, info_height: None }
}

fn icon(name: &str, body: &str) -> IconSource {
    IconSource { name: name.to_string(), body: body.to_string(), width: None, height: None }
}

fn table_source(font: &str, codepoints: &str) -> TableSource {
    TableSource {
        font_file: font.to_string(),
        codepoints: codepoints.to_string(),
        pattern: r"([\w-]+) ([0-9a-fA-F]+)".to_string(),
    }
}

fn entry_list(t: &GlyphTable) -> Vec<(String, String, String)> {
    t.entries().into_iter().map(|(n, g)| (n, g.family, g.codepoint)).collect()
}

#[test]
fn digits_become_letters() {
    assert_eq!(replace_numbers_to_letters("0123456789"), "slatexicon");
    assert_eq!(replace_numbers_to_letters("ab12"), "abla");
    assert_eq!(replace_numbers_to_letters(""), "");
    assert_eq!(replace_numbers_to_letters("icons"), "icons");
}

#[test]
fn other_numerals_become_s() {
    assert_eq!(replace_numbers_to_letters("x\u{0663}"), "xs");
    assert_eq!(replace_numbers_to_letters("\u{00bd}"), "s");
}

#[test]
fn family_identifier_is_camel_case() {
    assert_eq!(to_family_identifier("material-design"), "materialDesign");
    assert_eq!(to_family_identifier("demo"), "demo");
    assert_eq!(to_family_identifier(""), "");
}

#[test]
fn family_identifier_has_no_digits() {
    for p in ["3d-icons", "a1b2c3", "icon-park-2", "42", "fa6-brands"] {
        let id = to_family_identifier(p);
        assert!(!id.chars().any(|c| c.is_ascii_digit()), "{} gave {}", p, id);
    }
    assert_eq!(to_family_identifier("3d-icons"), "tdIcons");
}

#[test]
fn glyph_names_are_kebab_case() {
    assert_eq!(to_glyph_name("My Icon"), "my-icon");
    assert_eq!(to_glyph_name("homeOutline"), "home-outline");
    assert_eq!(to_glyph_name("icon-a"), "icon-a");
    assert_eq!(to_glyph_name(""), "");
}

#[test]
fn glyph_name_is_idempotent() {
    for raw in ["My Icon", "homeOutline", "arrow_back_2", "ABC-def", "x1y2", "a--b"] {
        let once = to_glyph_name(raw);
        assert_eq!(to_glyph_name(&once), once);
    }
}

#[test]
fn duplicate_table_names_keep_last_codepoint() {
    let pairs = extract_table("icon-a E001\nicon-a E002", r"([\w-]+) ([0-9a-fA-F]+)").unwrap();
    assert_eq!(pairs.len(), 2);
    let mut t = GlyphTable::new();
    add_table_glyphs(&mut t, &pairs, "demoFont", None);
    assert_eq!(entry_list(&t), vec![("icon-a".to_string(), "demoFont".to_string(), "E002".to_string())]);
}

#[test]
fn table_codepoints_are_upper_cased_in_order() {
    let pairs = extract_table("arrowBack e0a1\nhome f00d\n", r"(\w+) ([0-9a-fA-F]+)").unwrap();
    assert_eq!(
        pairs,
        vec![("arrow-back".to_string(), "E0A1".to_string()), ("home".to_string(), "F00D".to_string())]
    );
}

#[test]
fn invalid_pattern_is_reported() {
    assert!(matches!(extract_table("a b", "(a"), Err(ExtractError::InvalidPattern(_))));
}

#[test]
fn missing_group_is_reported() {
    assert!(matches!(extract_table("x a", r"(a)|(b)"), Err(ExtractError::MissingGroup(0))));
    assert!(matches!(extract_table("n 1\nm", r"(\w) ?(\d)?"), Err(ExtractError::MissingGroup(1))));
}

#[test]
fn table_insert_keeps_first_place() {
    let mut t = GlyphTable::new();
    let g = |c: &str| Glyph { family: "f".to_string(), codepoint: c.to_string(), svg: None };
    t.insert("a".to_string(), g("1"));
    t.insert("b".to_string(), g("2"));
    t.insert("a".to_string(), g("3"));
    let names: Vec<(String, String)> = t.entries().into_iter().map(|(n, g)| (n, g.codepoint)).collect();
    assert_eq!(names, vec![("a".to_string(), "3".to_string()), ("b".to_string(), "2".to_string())]);
}

#[test]
fn variant_glyphs_do_not_collide() {
    let src = TableIconSetSource {
        prefix: "demo".to_string(),
        name: "Demo".to_string(),
        version: None,
        base: table_source("demo.ttf", "home E001"),
        variants: vec![("bold".to_string(), table_source("demo-bold.ttf", "home F001"))],
    };
    let set = build_table_icon_set(&src).unwrap();
    assert_eq!(
        entry_list(&set.glyphs),
        vec![
            ("home".to_string(), "demo".to_string(), "E001".to_string()),
            ("home-bold".to_string(), "demoBold".to_string(), "F001".to_string()),
        ]
    );
    let fonts: Vec<(String, String)> = set.fonts.iter().map(|b| (b.family.clone(), b.font_file.clone())).collect();
    assert_eq!(
        fonts,
        vec![("demo".to_string(), "demo.ttf".to_string()), ("demoBold".to_string(), "demo-bold.ttf".to_string())]
    );
}

#[test]
fn variant_with_bad_pattern_fails_the_set() {
    let mut bad = table_source("b.ttf", "home F001");
    bad.pattern = "(".to_string();
    let src = TableIconSetSource {
        prefix: "demo".to_string(),
        name: "Demo".to_string(),
        version: None,
        base: table_source("demo.ttf", "home E001"),
        variants: vec![("bold".to_string(), bad)],
    };
    assert!(matches!(build_table_icon_set(&src), Err(ExtractError::InvalidPattern(_))));
}

#[test]
fn codepoints_in_hex() {
    assert_eq!(codepoint_text(0xE000), "E000");
    assert_eq!(codepoint_text(0), "0");
    assert_eq!(codepoint_text(255), "FF");
    assert_eq!(codepoint_text(0x1F600), "1F600");
}

#[test]
fn document_size_fallbacks() {
    let mut i = icon("a", "<path/>");
    assert_eq!(
        glyph_document(&i, &no_sizes()),
        "<svg xmlns=\"http://www.w3.org/2000/svg\" viewBox=\"0 0 24 24\"><path/></svg>"
    );
    let sizes = SetSizes { width: Some("16".to_string()), height: None, info_height: Some("32".to_string()) };
    assert_eq!(
        glyph_document(&i, &sizes),
        "<svg xmlns=\"http://www.w3.org/2000/svg\" viewBox=\"0 0 16 32\"><path/></svg>"
    );
    i.width = Some("20.5".to_string());
    i.height = Some("10".to_string());
    assert_eq!(
        glyph_document(&i, &sizes),
        "<svg xmlns=\"http://www.w3.org/2000/svg\" viewBox=\"0 0 20.5 10\"><path/></svg>"
    );
}

#[test]
fn skipped_glyph_leaves_no_codepoint_gap() {
    let names = strings(&["a", "b", "c"]);
    let outcomes = vec![Ok("<svg/>".to_string()), Err("broken".to_string()), Ok("<svg/>".to_string())];
    let out = collect_glyphs("demo", &names, &outcomes);
    let cps: Vec<(String, String)> = out.glyphs.entries().into_iter().map(|(n, g)| (n, g.codepoint)).collect();
    assert_eq!(cps, vec![("a".to_string(), "E000".to_string()), ("c".to_string(), "E001".to_string())]);
    assert_eq!(out.skipped.len(), 1);
    assert_eq!(out.skipped[0].name, "b");
    assert_eq!(out.skipped[0].cause, "broken");
}

#[test]
fn normalisation_failure_skips_the_glyph() {
    let src = SvgIconSetSource {
        prefix: "demo".to_string(),
        name: "Demo".to_string(),
        version: None,
        icons: vec![
            icon("one", "<path d=\"M0 0H24V24H0Z\"/>"),
            icon("two", "<path d=\"M0 0H24V24H0Z\""),
            icon("three", "<path d=\"M0 0H12V12H0Z\"/>"),
        ],
        sizes: no_sizes(),
    };
    let (set, skipped) = clean_icon_set(&src);
    let cps: Vec<(String, String)> = set.glyphs.entries().into_iter().map(|(n, g)| (n, g.codepoint)).collect();
    assert_eq!(cps, vec![("one".to_string(), "E000".to_string()), ("three".to_string(), "E001".to_string())]);
    assert_eq!(skipped.len(), 1);
    assert_eq!(skipped[0].name, "two");
    assert!(!skipped[0].cause.is_empty());
}

#[test]
fn normalised_svg_is_rewritten() {
    let src = SvgIconSetSource {
        prefix: "demo".to_string(),
        name: "Demo".to_string(),
        version: None,
        icons: vec![icon("sq", "<rect width=\"10\" height=\"10\"/>")],
        sizes: no_sizes(),
    };
    let (set, skipped) = clean_icon_set(&src);
    assert!(skipped.is_empty());
    let es = set.glyphs.entries();
    let doc = glyph_document(&src.icons[0], &src.sizes);
    let svg = es[0].1.svg.clone().unwrap();
    assert_ne!(svg, doc);
    assert!(svg.contains("<svg"));
}

#[test]
fn filter_lists() {
    let none: Vec<String> = vec![];
    assert!(prefix_allowed("foo", &none, &none));
    assert!(!prefix_allowed("foo", &strings(&["bar"]), &none));
    assert!(!prefix_allowed("foo", &none, &strings(&["foo"])));
    assert!(!prefix_allowed("foo", &strings(&["foo"]), &strings(&["foo"])));
    assert!(prefix_allowed("foo", &strings(&["bar", "foo"]), &strings(&["baz"])));
}

fn demo_set() -> texicons::iconset::IconSet {
    let src = SvgIconSetSource {
        prefix: "demo".to_string(),
        name: "Demo".to_string(),
        version: Some("1.2".to_string()),
        icons: vec![icon("star", "M0 0H24V24H0Z")],
        sizes: SetSizes { width: None, height: None, info_height: Some("24".to_string()) },
    };
    let (set, skipped) = clean_icon_set(&src);
    assert!(skipped.is_empty());
    set
}

#[test]
fn end_to_end_package() {
    let set = demo_set();
    assert_eq!(set.font_id, "demo");
    let p = synthesize(&set, "2024-11-13", LineEnding::Lf);
    assert_eq!(p.style.path, "demo/texicons-demo.sty");
    assert_eq!(p.docs.path, "demo/texicons-demo.tex");
    assert_eq!(
        p.style.contents,
        "\\NeedsTeXFormat{LaTeX2e}\n\
         \\ProvidesPackage{texicons-demo}[2024-11-13 TeXicons set for Demo v1.2]\n\
         \\RequirePackage{fontspec}\n\
         \n\
         \\newfontfamily{\\demoFont}{demo.ttf}\n\
         \n\
         \\expandafter\\def\\csname icon@demo:star\\endcsname {\\demoFont \\symbol{\"E000}}\n\
         \n\
         \\newcommand{\\texicon}[1]{\\csname icon@#1\\endcsname}\n"
    );
    assert_eq!(
        p.docs.contents,
        "\\documentclass{article}\n\
         \\usepackage{texicons-demo}\n\
         \\begin{document}\n\
         \\begin{tabular}{ll}\n\
         \\texttt{demo:star} & \\texicon{demo:star} \\\\\n\
         \\end{tabular}\n\
         \\end{document}\n"
    );
    assert_eq!(p.fonts.len(), 1);
    assert_eq!(p.fonts[0].font_file, "demo.ttf");
    assert_eq!(p.fonts[0].target, "demo/demo.ttf");
}

#[test]
fn synthesis_is_reproducible() {
    let set = demo_set();
    let a = synthesize(&set, "2024-01-02", LineEnding::Lf);
    let b = synthesize(&set, "2024-01-02", LineEnding::Lf);
    assert_eq!(a.style.contents, b.style.contents);
    assert_eq!(a.docs.contents, b.docs.contents);
    assert_eq!(a.style.path, b.style.path);
}

#[test]
fn crlf_line_endings() {
    let set = demo_set();
    let style = render_style(&set, "2024-01-02", LineEnding::CrLf);
    let docs = render_docs(&set, LineEnding::CrLf);
    assert!(style.starts_with("\\NeedsTeXFormat{LaTeX2e}\r\n"));
    assert_eq!(style.matches("\r\n").count(), style.matches('\n').count());
    assert_eq!(docs.matches("\r\n").count(), docs.matches('\n').count());
    assert!(docs.ends_with("\\end{document}\r\n"));
}

#[test]
fn package_without_version() {
    let mut set = demo_set();
    set.version = None;
    let style = render_style(&set, "2024-01-02", LineEnding::Lf);
    assert!(style.contains("[2024-01-02 TeXicons set for Demo]"));
}

#[test]
fn package_dated_today() {
    let set = demo_set();
    let p = synthesize_today(&set, LineEnding::Lf);
    let line = p.style.contents.lines().nth(1).unwrap().to_string();
    assert!(line.starts_with("\\ProvidesPackage{texicons-demo}["));
    let date = &line["\\ProvidesPackage{texicons-demo}[".len()..][..10];
    assert_eq!(date.as_bytes()[4], b'-');
    assert_eq!(date.as_bytes()[7], b'-');
}

#[test]
fn variant_table_package() {
    let src = TableIconSetSource {
        prefix: "demo".to_string(),
        name: "Demo".to_string(),
        version: None,
        base: table_source("demo.ttf", "home e001"),
        variants: vec![("bold".to_string(), table_source("demo-bold.ttf", "home f001"))],
    };
    let set = build_table_icon_set(&src).unwrap();
    let p = synthesize(&set, "2024-01-02", LineEnding::Lf);
    assert!(p.style.contents.contains("\\newfontfamily{\\demoBoldFont}{demo-bold.ttf}\n"));
    assert!(p
        .style
        .contents
        .contains("\\expandafter\\def\\csname icon@demo:home-bold\\endcsname {\\demoBoldFont \\symbol{\"F001}}\n"));
    let targets: Vec<String> = p.fonts.iter().map(|f| f.target.clone()).collect();
    assert_eq!(targets, vec!["demo/demo.ttf".to_string(), "demo/demo-bold.ttf".to_string()]);
}
