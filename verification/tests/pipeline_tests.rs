//! End-to-end tests: text through splitting, shaping, scaling and line
//! breaking against a hand-assembled font.

use fontlayout::pipeline::{layout_text_node, shape_words};
use fontlayout::script::{language_tag, script_tag, ScriptFamily};
use fontlayout::shaping::ParsedFont;
use fontlayout::text_layout::{
    split_text_into_words, PixelValue, ResolvedTextLayoutOptions, TextLayoutOptions,
};

fn u16be(v: u16) -> [u8; 2] {
    v.to_be_bytes()
}

fn u32be(v: u32) -> [u8; 4] {
    v.to_be_bytes()
}

/// The same minimal font the shaping tests use: two glyphs, 'A' mapped
/// to glyph 1, glyph advances 500 and 600 at 1000 units per em.
fn pipeline_font() -> Vec<u8> {
    let head: Vec<u8> = {
        let mut t = Vec::new();
        t.extend(u16be(1));
        t.extend(u16be(0));
        t.extend(u32be(0x0001_0000));
        t.extend(u32be(0));
        t.extend(u32be(0x5F0F_3CF5));
        t.extend(u16be(0));
        t.extend(u16be(1000));
        t.extend([0u8; 16]);
        t.extend((-10i16).to_be_bytes());
        t.extend((-20i16).to_be_bytes());
        t.extend(100i16.to_be_bytes());
        t.extend(200i16.to_be_bytes());
        t.extend(u16be(0));
        t.extend(u16be(8));
        t.extend(2i16.to_be_bytes());
        t.extend(0i16.to_be_bytes());
        t.extend(0i16.to_be_bytes());
        t
    };
    let hhea_like = |asc: i16, num: u16| -> Vec<u8> {
        let mut t = Vec::new();
        t.extend(u16be(1));
        t.extend(u16be(0));
        t.extend(asc.to_be_bytes());
        t.extend((-200i16).to_be_bytes());
        t.extend(90i16.to_be_bytes());
        t.extend(u16be(600));
        t.extend([0u8; 6]);
        t.extend(1i16.to_be_bytes());
        t.extend([0u8; 4]);
        t.extend([0u8; 8]);
        t.extend(0i16.to_be_bytes());
        t.extend(u16be(num));
        t
    };
    let maxp: Vec<u8> = {
        let mut t = Vec::new();
        t.extend(u32be(0x0000_5000));
        t.extend(u16be(2));
        t
    };
    let mtx = |adv0: u16, adv1: u16| -> Vec<u8> {
        let mut t = Vec::new();
        t.extend(u16be(adv0));
        t.extend(0i16.to_be_bytes());
        t.extend(u16be(adv1));
        t.extend(10i16.to_be_bytes());
        t
    };
    let cmap: Vec<u8> = {
        let mut t = Vec::new();
        t.extend(u16be(0));
        t.extend(u16be(1));
        t.extend(u16be(3));
        t.extend(u16be(1));
        t.extend(u32be(12));
        t.extend(u16be(4));
        t.extend(u16be(32));
        t.extend(u16be(0));
        t.extend(u16be(4));
        t.extend(u16be(4));
        t.extend(u16be(1));
        t.extend(u16be(0));
        t.extend(u16be(0x0041));
        t.extend(u16be(0xFFFF));
        t.extend(u16be(0));
        t.extend(u16be(0x0041));
        t.extend(u16be(0xFFFF));
        t.extend((1i16 - 0x41).to_be_bytes());
        t.extend(1i16.to_be_bytes());
        t.extend(u16be(0));
        t.extend(u16be(0));
        t
    };
    let layout_table: Vec<u8> = {
        let mut t = Vec::new();
        t.extend(u32be(0x0001_0000));
        t.extend(u16be(10));
        t.extend(u16be(12));
        t.extend(u16be(14));
        t.extend(u16be(0));
        t.extend(u16be(0));
        t.extend(u16be(0));
        t
    };
    let gdef: Vec<u8> = {
        let mut t = Vec::new();
        t.extend(u16be(1));
        t.extend(u16be(0));
        t.extend([0u8; 8]);
        t
    };
    let tables: Vec<([u8; 4], Vec<u8>)> = vec![
        (*b"GDEF", gdef),
        (*b"GPOS", layout_table.clone()),
        (*b"GSUB", layout_table),
        (*b"cmap", cmap),
        (*b"head", head),
        (*b"hhea", hhea_like(800, 2)),
        (*b"hmtx", mtx(500, 600)),
        (*b"maxp", maxp),
        (*b"vhea", hhea_like(500, 2)),
        (*b"vmtx", mtx(700, 800)),
    ];
    let mut font = Vec::new();
    font.extend(u32be(0x0001_0000));
    font.extend(u16be(tables.len() as u16));
    font.extend([0u8; 6]);
    let mut offset = 12 + 16 * tables.len();
    for (tag_bytes, data) in &tables {
        font.extend(tag_bytes);
        font.extend(u32be(0));
        font.extend(u32be(offset as u32));
        font.extend(u32be(data.len() as u32));
        offset += data.len();
    }
    for (_, data) in &tables {
        font.extend(data);
    }
    font
}

#[test]
fn shape_words_scales_word_widths() {
    let bytes = pipeline_font();
    let font = ParsedFont::from_bytes(&bytes, 0).expect("font should load");
    // "AA A": one word of two 'A's (glyph 1, advance 600) and one of one
    let text: Vec<char> = "AA A".chars().collect();
    let words = split_text_into_words(&text);
    let scaled = shape_words(
        &font,
        &text,
        &words,
        script_tag(ScriptFamily::Latin),
        language_tag(&b"eng".to_vec()),
        16,
    );
    // 1200 font units at 16px / 1000upem = 19px; 600 units = 9px
    assert_eq!(scaled.word_widths, vec![19, 9]);
    // the space glyph is unmapped, so it falls back to glyph 0 (500 units)
    assert_eq!(scaled.space_advance_px, 8);
}

#[test]
fn layout_text_node_wraps_at_the_maximum_width() {
    let bytes = pipeline_font();
    let font = ParsedFont::from_bytes(&bytes, 0).expect("font should load");
    let text: Vec<char> = "AA A".chars().collect();
    let options = ResolvedTextLayoutOptions {
        font_size_px: 16,
        max_horizontal_width: Some(20),
        ..Default::default()
    };
    let (words, scaled, layout) = layout_text_node(
        &font,
        &text,
        &options,
        script_tag(ScriptFamily::Latin),
        language_tag(&b"eng".to_vec()),
    );
    assert_eq!(words.items.len(), 3);
    assert_eq!(scaled.word_widths.len(), 2);
    // 19 + 8 + 9 = 36 > 20: the second word wraps
    assert_eq!(layout.lines.len(), 2);
    assert_eq!(layout.lines[0].word_end, layout.lines[1].word_start);

    let one_line = layout_text_node(
        &font,
        &text,
        &ResolvedTextLayoutOptions { font_size_px: 16, ..Default::default() },
        script_tag(ScriptFamily::Latin),
        language_tag(&b"eng".to_vec()),
    );
    assert_eq!(one_line.2.lines.len(), 1);
}

#[test]
fn unresolved_options_resolve_to_whole_pixels() {
    let options = TextLayoutOptions {
        font_size_px: PixelValue { thousandths: 16_500 },
        line_height: Some(150),
        letter_spacing: Some(PixelValue { thousandths: 2_000 }),
        word_spacing: Some(120),
        tab_width: None,
        max_horizontal_width: Some(PixelValue { thousandths: 100_999 }),
        leading: Some(PixelValue::px(7)),
        holes: Vec::new(),
    };
    let resolved = options.to_resolved();
    assert_eq!(resolved.font_size_px, 16); // rounds down
    assert_eq!(resolved.line_height, Some(150));
    assert_eq!(resolved.letter_spacing, Some(2));
    assert_eq!(resolved.word_spacing, Some(120));
    assert_eq!(resolved.tab_width, None);
    assert_eq!(resolved.max_horizontal_width, Some(100));
    assert_eq!(resolved.leading, Some(7));

    let default_options = TextLayoutOptions::default();
    assert_eq!(default_options.font_size_px.thousandths, 16_000);
    assert_eq!(default_options.to_resolved().font_size_px, 16);
}
