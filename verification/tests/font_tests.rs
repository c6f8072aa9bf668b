//! Tests of font-table extraction, metrics, and shaping, against a
//! minimal font binary assembled byte by byte.

use fontlayout::font_metrics::{get_font_metrics, FontMetrics};
use fontlayout::script::{estimate_script_and_language, language_tag, script_tag, tag, ScriptFamily};
use fontlayout::shaping::ParsedFont;

fn be16(v: u16) -> [u8; 2] {
    v.to_be_bytes()
}

fn be16i(v: i16) -> [u8; 2] {
    v.to_be_bytes()
}

fn be32(v: u32) -> [u8; 4] {
    v.to_be_bytes()
}

fn head_table(units_per_em: u16) -> Vec<u8> {
    let mut t = Vec::new();
    t.extend(be16(1)); // major version
    t.extend(be16(0)); // minor version
    t.extend(be32(0x0001_0000)); // font revision
    t.extend(be32(0)); // checksum adjustment
    t.extend(be32(0x5F0F_3CF5)); // magic number
    t.extend(be16(0)); // flags
    t.extend(be16(units_per_em));
    t.extend([0u8; 8]); // created
    t.extend([0u8; 8]); // modified
    t.extend(be16i(-10)); // x min
    t.extend(be16i(-20)); // y min
    t.extend(be16i(100)); // x max
    t.extend(be16i(200)); // y max
    t.extend(be16(0)); // mac style
    t.extend(be16(8)); // lowest rec ppem
    t.extend(be16i(2)); // font direction hint
    t.extend(be16i(0)); // index to loc format
    t.extend(be16i(0)); // glyph data format
    t
}

fn hhea_like_table(ascender: i16, descender: i16, line_gap: i16, num_metrics: u16) -> Vec<u8> {
    let mut t = Vec::new();
    t.extend(be16(1)); // major version
    t.extend(be16(0)); // minor version
    t.extend(be16i(ascender));
    t.extend(be16i(descender));
    t.extend(be16i(line_gap));
    t.extend(be16(600)); // advance width max
    t.extend(be16i(0)); // min left side bearing
    t.extend(be16i(0)); // min right side bearing
    t.extend(be16i(100)); // x max extent
    t.extend(be16i(1)); // caret slope rise
    t.extend(be16i(0)); // caret slope run
    t.extend(be16i(0)); // caret offset
    t.extend([0u8; 8]); // reserved
    t.extend(be16i(0)); // metric data format
    t.extend(be16(num_metrics));
    t
}

fn maxp_table(num_glyphs: u16) -> Vec<u8> {
    let mut t = Vec::new();
    t.extend(be32(0x0000_5000));
    t.extend(be16(num_glyphs));
    t
}

/// Two long metrics: (advance, left side bearing) for glyphs 0 and 1.
fn mtx_table(adv0: u16, adv1: u16) -> Vec<u8> {
    let mut t = Vec::new();
    t.extend(be16(adv0));
    t.extend(be16i(0));
    t.extend(be16(adv1));
    t.extend(be16i(10));
    t
}

/// A format 4 subtable mapping 'A' to glyph 1 under the Windows Unicode
/// BMP encoding.
fn cmap_table() -> Vec<u8> {
    let mut t = Vec::new();
    t.extend(be16(0)); // version
    t.extend(be16(1)); // one encoding record
    t.extend(be16(3)); // platform: Windows
    t.extend(be16(1)); // encoding: Unicode BMP
    t.extend(be32(12)); // subtable offset
    // format 4 subtable, two segments: ['A','A'] and the 0xFFFF terminator
    t.extend(be16(4)); // format
    t.extend(be16(32)); // length
    t.extend(be16(0)); // language
    t.extend(be16(4)); // seg count x2
    t.extend(be16(4)); // search range
    t.extend(be16(1)); // entry selector
    t.extend(be16(0)); // range shift
    t.extend(be16(0x0041)); // end codes
    t.extend(be16(0xFFFF));
    t.extend(be16(0)); // reserved pad
    t.extend(be16(0x0041)); // start codes
    t.extend(be16(0xFFFF));
    t.extend(be16i(1 - 0x41)); // id delta: 'A' maps to glyph 1
    t.extend(be16i(1));
    t.extend(be16(0)); // id range offsets
    t.extend(be16(0));
    t
}

/// An empty substitution or positioning table: no scripts, no features,
/// no lookups.
fn empty_layout_table() -> Vec<u8> {
    let mut t = Vec::new();
    t.extend(be32(0x0001_0000)); // version
    t.extend(be16(10)); // script list offset
    t.extend(be16(12)); // feature list offset
    t.extend(be16(14)); // lookup list offset
    t.extend(be16(0)); // script count
    t.extend(be16(0)); // feature count
    t.extend(be16(0)); // lookup count
    t
}

fn gdef_table() -> Vec<u8> {
    let mut t = Vec::new();
    t.extend(be16(1)); // major version
    t.extend(be16(0)); // minor version
    t.extend(be16(0)); // glyph class def offset
    t.extend(be16(0)); // attach list offset
    t.extend(be16(0)); // lig caret list offset
    t.extend(be16(0)); // mark attach class def offset
    t
}

/// Assembles a font file out of (tag, table) pairs.
fn assemble(tables: &[([u8; 4], Vec<u8>)]) -> Vec<u8> {
    let mut font = Vec::new();
    font.extend(be32(0x0001_0000)); // sfnt version
    font.extend(be16(tables.len() as u16));
    font.extend(be16(0)); // search range
    font.extend(be16(0)); // entry selector
    font.extend(be16(0)); // range shift
    let mut offset = 12 + 16 * tables.len();
    for (tag_bytes, data) in tables {
        font.extend(tag_bytes);
        font.extend(be32(0)); // checksum
        font.extend(be32(offset as u32));
        font.extend(be32(data.len() as u32));
        offset += data.len();
    }
    for (_, data) in tables {
        font.extend(data);
    }
    font
}

/// A cmap with one sequential (format 12) subtable holding the given
/// (start char, end char, start glyph) groups, under the Windows
/// full-Unicode encoding.
fn cmap_format12(groups: &[(u32, u32, u32)]) -> Vec<u8> {
    let mut t = Vec::new();
    t.extend(be16(0)); // version
    t.extend(be16(1)); // one encoding record
    t.extend(be16(3)); // platform: Windows
    t.extend(be16(10)); // encoding: full Unicode
    t.extend(be32(12)); // subtable offset
    t.extend(be16(12)); // format
    t.extend(be16(0)); // reserved
    t.extend(be32(16 + 12 * groups.len() as u32)); // length
    t.extend(be32(0)); // language
    t.extend(be32(groups.len() as u32));
    for &(start, end, glyph) in groups {
        t.extend(be32(start));
        t.extend(be32(end));
        t.extend(be32(glyph));
    }
    t
}

/// The minimal font with its cmap swapped for a format 12 one.
fn font_with_cmap12(groups: &[(u32, u32, u32)]) -> Vec<u8> {
    assemble(&[
        (*b"GDEF", gdef_table()),
        (*b"GPOS", empty_layout_table()),
        (*b"GSUB", empty_layout_table()),
        (*b"cmap", cmap_format12(groups)),
        (*b"head", head_table(1000)),
        (*b"hhea", hhea_like_table(800, -200, 90, 2)),
        (*b"hmtx", mtx_table(500, 600)),
        (*b"maxp", maxp_table(2)),
        (*b"vhea", hhea_like_table(500, -500, 0, 2)),
        (*b"vmtx", mtx_table(700, 800)),
    ])
}

/// A complete minimal font: two glyphs, 'A' mapped to glyph 1, empty
/// substitution and positioning rules.
fn minimal_font() -> Vec<u8> {
    assemble(&[
        (*b"GDEF", gdef_table()),
        (*b"GPOS", empty_layout_table()),
        (*b"GSUB", empty_layout_table()),
        (*b"cmap", cmap_table()),
        (*b"head", head_table(1000)),
        (*b"hhea", hhea_like_table(800, -200, 90, 2)),
        (*b"hmtx", mtx_table(500, 600)),
        (*b"maxp", maxp_table(2)),
        (*b"vhea", hhea_like_table(500, -500, 0, 2)),
        (*b"vmtx", mtx_table(700, 800)),
    ])
}

/// The same font without its hhea table.
fn font_missing_hhea() -> Vec<u8> {
    assemble(&[
        (*b"GDEF", gdef_table()),
        (*b"GPOS", empty_layout_table()),
        (*b"GSUB", empty_layout_table()),
        (*b"cmap", cmap_table()),
        (*b"head", head_table(1000)),
        (*b"hmtx", mtx_table(500, 600)),
        (*b"maxp", maxp_table(2)),
        (*b"vhea", hhea_like_table(500, -500, 0, 2)),
        (*b"vmtx", mtx_table(700, 800)),
    ])
}

#[test]
fn tag_packs_four_bytes() {
    assert_eq!(tag(*b"glyf"), 0x676C7966);
    assert_eq!(tag(*b"lao "), 0x6C616F20);
}

#[test]
fn metrics_extraction_is_idempotent() {
    let font = minimal_font();
    let first = get_font_metrics(&font, 0);
    let second = get_font_metrics(&font, 0);
    assert_eq!(first, second);
    assert_eq!(first.units_per_em, 1000);
    assert_eq!(first.ascender, 800);
    assert_eq!(first.descender, -200);
    assert_eq!(first.line_gap, 90);
    assert_eq!(first.x_min, -10);
    assert_eq!(first.y_max, 200);
    assert_eq!(first.num_h_metrics, 2);
    // no OS/2 table: the optional tiers stay absent
    assert_eq!(first.s_typo_ascender, None);
    assert_eq!(first.us_weight_class, 0);
}

#[test]
fn metrics_units_per_em_zero_falls_back_to_default() {
    let font = assemble(&[
        (*b"head", head_table(0)),
        (*b"hhea", hhea_like_table(800, -200, 90, 2)),
    ]);
    let metrics = get_font_metrics(&font, 0);
    assert_eq!(metrics.units_per_em, 1000);
    assert_eq!(metrics.ascender, 800);
}

#[test]
fn malformed_font_missing_hhea_gives_no_font_and_default_metrics() {
    let font = font_missing_hhea();
    assert!(ParsedFont::from_bytes(&font, 0).is_none());
    assert_eq!(get_font_metrics(&font, 0), FontMetrics::default());
}

#[test]
fn truncated_font_gives_no_font_and_default_metrics() {
    let font = minimal_font();
    let truncated = &font[..10];
    assert!(ParsedFont::from_bytes(truncated, 0).is_none());
    assert_eq!(get_font_metrics(truncated, 0), FontMetrics::default());
    assert_eq!(get_font_metrics(&[], 0), FontMetrics::default());
}

#[test]
fn from_bytes_loads_the_minimal_font() {
    let font_bytes = minimal_font();
    let font = ParsedFont::from_bytes(&font_bytes, 0).expect("font should load");
    assert_eq!(font.num_glyphs, 2);
    assert_eq!(font.hhea.num_h_metrics, 2);
    assert_eq!(font.vhea.num_h_metrics, 2);
    assert_eq!(font.hmtx_data.len(), 8);
    assert_eq!(font.font_metrics.units_per_em, 1000);
}

#[test]
fn glyph_lookup_and_advances() {
    let font_bytes = minimal_font();
    let font = ParsedFont::from_bytes(&font_bytes, 0).expect("font should load");
    assert_eq!(font.lookup_glyph_index('A' as u32), 1);
    assert_eq!(font.lookup_glyph_index('B' as u32), 0);
    assert_eq!(font.get_advance(0), Some((500, 700)));
    assert_eq!(font.get_advance(1), Some((600, 800)));
    // a glyph outside the font advances zero
    assert_eq!(font.get_advance(9), Some((0, 0)));
}

#[test]
fn glyph_mapping_attaches_variation_selectors() {
    let font_bytes = minimal_font();
    let font = ParsedFont::from_bytes(&font_bytes, 0).expect("font should load");
    let text: Vec<char> = vec!['A', '\u{FE0F}', 'A'];
    let mapped = font.map_glyphs(&text);
    assert_eq!(mapped.len(), 2);
    assert_eq!(mapped[0].glyph_index, 1);
    assert!(mapped[0].variation.is_some());
    assert_eq!(mapped[1].glyph_index, 1);
    assert!(mapped[1].variation.is_none());
}

#[test]
fn shaping_is_deterministic() {
    let font_bytes = minimal_font();
    let font = ParsedFont::from_bytes(&font_bytes, 0).expect("font should load");
    let (script, lang) = (script_tag(ScriptFamily::Latin), language_tag(&b"eng".to_vec()));
    let text: Vec<char> = vec!['A', 'B', 'A'];
    let first = font.shape(&text, script, lang);
    let second = font.shape(&text, script, lang);
    assert_eq!(first, second);
    let glyphs_a: Vec<u16> = first.infos.iter().map(|i| i.glyph.glyph_index).collect();
    let glyphs_b: Vec<u16> = second.infos.iter().map(|i| i.glyph.glyph_index).collect();
    assert_eq!(glyphs_a, glyphs_b);
    let advances_a: Vec<(u16, u16, i16)> =
        first.infos.iter().map(|i| (i.size.x, i.size.y, i.size.kerning)).collect();
    let advances_b: Vec<(u16, u16, i16)> =
        second.infos.iter().map(|i| (i.size.x, i.size.y, i.size.kerning)).collect();
    assert_eq!(advances_a, advances_b);
}

#[test]
fn shaping_computes_advances_from_the_metrics_tables() {
    let font_bytes = minimal_font();
    let font = ParsedFont::from_bytes(&font_bytes, 0).expect("font should load");
    let text: Vec<char> = vec!['A', 'B'];
    let run = font.shape(&text, script_tag(ScriptFamily::Latin), language_tag(&b"eng".to_vec()));
    assert_eq!(run.infos.len(), 2);
    assert_eq!(run.infos[0].glyph.glyph_index, 1);
    assert_eq!(run.infos[0].size.x, 600);
    assert_eq!(run.infos[0].size.y, 800);
    assert_eq!(run.infos[1].glyph.glyph_index, 0);
    assert_eq!(run.infos[1].size.x, 500);
    assert_eq!(run.infos[1].size.kerning, 0);
    assert_eq!(run.get_word_visual_width_unscaled(), 1100);
}

#[test]
fn sequential_cmap_loads_and_maps() {
    let bytes = font_with_cmap12(&[(0x41, 0x42, 1)]);
    let font = ParsedFont::from_bytes(&bytes, 0).expect("font should load");
    assert_eq!(font.lookup_glyph_index('A' as u32), 1);
    assert_eq!(font.lookup_glyph_index('C' as u32), 0);
    let run = font.shape(
        &vec!['A'],
        script_tag(ScriptFamily::Latin),
        language_tag(&b"eng".to_vec()),
    );
    assert_eq!(run.infos.len(), 1);
    assert_eq!(run.infos[0].glyph.glyph_index, 1);
}

#[test]
fn overflowing_sequential_cmap_group_is_rejected() {
    // a lookup in this group would push the glyph id past the 32-bit
    // range; the loader must refuse the face instead of computing it
    let bytes = font_with_cmap12(&[(0x41, 0x42, u32::MAX)]);
    assert!(ParsedFont::from_bytes(&bytes, 0).is_none());
    // a reversed group is malformed and is refused as well
    let reversed = font_with_cmap12(&[(0x42, 0x41, 1)]);
    assert!(ParsedFont::from_bytes(&reversed, 0).is_none());
    // the rejection is about the mapping groups, not about format 12
    let fine = font_with_cmap12(&[(0x41, 0x41, 1), (0xFFFF, 0xFFFF, 0)]);
    assert!(ParsedFont::from_bytes(&fine, 0).is_some());
}

#[test]
fn script_tag_table_values() {
    assert_eq!(script_tag(ScriptFamily::Latin), tag(*b"latn"));
    assert_eq!(script_tag(ScriptFamily::Arabic), tag(*b"arab"));
    // both Japanese syllabaries shape under the kana tag
    assert_eq!(script_tag(ScriptFamily::Hiragana), tag(*b"kana"));
    assert_eq!(script_tag(ScriptFamily::Katakana), tag(*b"kana"));
    assert_eq!(script_tag(ScriptFamily::Mandarin), tag(*b"hani"));
    assert_eq!(script_tag(ScriptFamily::Gurmukhi), tag(*b"gur2"));
    assert_eq!(script_tag(ScriptFamily::Thai), tag(*b"thai"));
}

#[test]
fn language_tag_uppercases_and_pads() {
    assert_eq!(language_tag(&b"eng".to_vec()), tag(*b"ENG "));
    assert_eq!(language_tag(&b"deu".to_vec()), tag(*b"DEU "));
    assert_eq!(language_tag(&b"x".to_vec()), tag(*b"X   "));
}

#[test]
fn estimate_script_and_language_detects_english() {
    let text = "The quick brown fox jumps over the lazy dog while the rain keeps \
                falling on the quiet old town and nobody seems to mind at all.";
    let (script, lang) = estimate_script_and_language(text);
    assert_eq!(script, tag(*b"latn"));
    assert_eq!(lang, tag(*b"ENG "));
}

#[test]
fn estimate_script_and_language_falls_back_on_empty_text() {
    let (script, lang) = estimate_script_and_language("");
    assert_eq!(script, tag(*b"latn"));
    assert_eq!(lang, tag(*b"ENG "));
}

#[test]
fn estimate_script_and_language_detects_cyrillic() {
    let text = "Быстрая коричневая лиса прыгает через ленивую собаку каждое утро.";
    let (script, _lang) = estimate_script_and_language(text);
    assert_eq!(script, tag(*b"cyrl"));
}
