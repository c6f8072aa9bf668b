//! Tests of line breaking, alignment and text splitting.

use fontlayout::geometry::{LayoutPoint, LayoutRect, LayoutSize};
use fontlayout::text_layout::{
    calculate_horizontal_shift_multiplier, calculate_vertical_shift_multiplier, layout_words,
    scale_font_unit, split_text_into_words, InlineTextLayout, InlineTextLine,
    ResolvedTextLayoutOptions, ShiftMultiplier, TextAlignmentHorz, TextAlignmentVert, WordType,
};

fn rect(x: i64, y: i64, w: i64, h: i64) -> LayoutRect {
    LayoutRect::new(LayoutPoint::new(x, y), LayoutSize::new(w, h))
}

fn two_line_layout() -> InlineTextLayout {
    InlineTextLayout::new(vec![
        InlineTextLine::new(rect(0, 0, 50, 10), 0, 1),
        InlineTextLine::new(rect(0, 10, 100, 10), 1, 2),
    ])
}

#[test]
fn shift_multipliers_match_the_alignment() {
    assert_eq!(calculate_horizontal_shift_multiplier(TextAlignmentHorz::Left), None);
    assert_eq!(
        calculate_horizontal_shift_multiplier(TextAlignmentHorz::Center),
        Some(ShiftMultiplier::Half)
    );
    assert_eq!(
        calculate_horizontal_shift_multiplier(TextAlignmentHorz::Right),
        Some(ShiftMultiplier::Full)
    );
    assert_eq!(calculate_vertical_shift_multiplier(TextAlignmentVert::Top), None);
    assert_eq!(
        calculate_vertical_shift_multiplier(TextAlignmentVert::Center),
        Some(ShiftMultiplier::Half)
    );
    assert_eq!(
        calculate_vertical_shift_multiplier(TextAlignmentVert::Bottom),
        Some(ShiftMultiplier::Full)
    );
}

#[test]
fn bounds_leading_and_trailing() {
    let layout = two_line_layout();
    assert_eq!(layout.get_bounds(), rect(0, 0, 100, 20));
    assert_eq!(layout.get_leading(), 0);
    assert_eq!(layout.get_trailing(), 50);
    let empty = InlineTextLayout::new(Vec::new());
    assert_eq!(empty.get_bounds(), rect(0, 0, 0, 0));
    assert_eq!(empty.get_leading(), 0);
    assert_eq!(empty.get_trailing(), 0);
}

#[test]
fn horizontal_diff_measures_both_gaps() {
    let layout = two_line_layout();
    let bounds = layout.get_bounds();
    let diff = layout.get_children_horizontal_diff_to_right_edge(&bounds);
    // for each line the gap sum equals the block width minus the line width
    assert_eq!(diff, vec![50, 0]);
}

#[test]
fn left_alignment_moves_nothing() {
    let mut layout = two_line_layout();
    let before = layout.clone();
    layout.align_children_horizontal(TextAlignmentHorz::Left);
    assert_eq!(layout, before);
}

#[test]
fn center_alignment_moves_each_line_by_half_its_gap() {
    let mut layout = two_line_layout();
    layout.align_children_horizontal(TextAlignmentHorz::Center);
    assert_eq!(layout.lines[0].bounds.origin.x, 25);
    assert_eq!(layout.lines[1].bounds.origin.x, 0);
    // word ranges and sizes are untouched
    assert_eq!(layout.lines[0].word_start, 0);
    assert_eq!(layout.lines[0].bounds.size.width, 50);
}

#[test]
fn right_alignment_moves_each_line_by_its_whole_gap() {
    let mut layout = two_line_layout();
    layout.align_children_horizontal(TextAlignmentHorz::Right);
    assert_eq!(layout.lines[0].bounds.origin.x, 50);
    assert_eq!(layout.lines[1].bounds.origin.x, 0);
}

#[test]
fn vertical_alignment_shifts_lines_uniformly() {
    let parent = LayoutSize::new(200, 100);

    let mut top = two_line_layout();
    top.align_children_vertical_in_parent_bounds(&parent, TextAlignmentVert::Top);
    assert_eq!(top.lines[0].bounds.origin.y, 0);
    assert_eq!(top.lines[1].bounds.origin.y, 10);

    let mut center = two_line_layout();
    center.align_children_vertical_in_parent_bounds(&parent, TextAlignmentVert::Center);
    assert_eq!(center.lines[0].bounds.origin.y, 40);
    assert_eq!(center.lines[1].bounds.origin.y, 50);

    let mut bottom = two_line_layout();
    bottom.align_children_vertical_in_parent_bounds(&parent, TextAlignmentVert::Bottom);
    assert_eq!(bottom.lines[0].bounds.origin.y, 80);
    assert_eq!(bottom.lines[1].bounds.origin.y, 90);
}

#[test]
fn simple_word_wrap_produces_two_contiguous_lines() {
    // a text block 100px wide holding two words of 150px combined width
    let options = ResolvedTextLayoutOptions {
        font_size_px: 16,
        max_horizontal_width: Some(100),
        ..Default::default()
    };
    let word_widths: Vec<i64> = vec![70, 75];
    let space_advance: i64 = 5;
    assert_eq!(70 + 5 + 75, 150);
    let layout = layout_words(&word_widths, space_advance, &options);
    assert_eq!(layout.lines.len(), 2);
    assert_eq!(layout.lines[0].word_start, 0);
    assert_eq!(layout.lines[0].word_end, layout.lines[1].word_start);
    assert_eq!(layout.lines[1].word_end, 2);
    assert_eq!(layout.lines[0].bounds.size.width, 70);
    assert_eq!(layout.lines[1].bounds.size.width, 75);
    // lines stack at one line height (16px at the default multiplier)
    assert_eq!(layout.lines[0].bounds.origin.y, 0);
    assert_eq!(layout.lines[1].bounds.origin.y, 16);
    assert_eq!(layout.lines[0].bounds.size.height, 16);
}

#[test]
fn without_a_maximum_width_nothing_wraps() {
    let options = ResolvedTextLayoutOptions { font_size_px: 16, ..Default::default() };
    let layout = layout_words(&vec![70, 75, 300], 5, &options);
    assert_eq!(layout.lines.len(), 1);
    assert_eq!(layout.lines[0].word_start, 0);
    assert_eq!(layout.lines[0].word_end, 3);
    assert_eq!(layout.lines[0].bounds.size.width, 70 + 5 + 75 + 5 + 300);
}

#[test]
fn an_oversized_word_stands_alone_on_its_line() {
    let options = ResolvedTextLayoutOptions {
        font_size_px: 10,
        max_horizontal_width: Some(50),
        ..Default::default()
    };
    let layout = layout_words(&vec![80, 20, 20], 5, &options);
    assert_eq!(layout.lines.len(), 2);
    assert_eq!((layout.lines[0].word_start, layout.lines[0].word_end), (0, 1));
    assert_eq!((layout.lines[1].word_start, layout.lines[1].word_end), (1, 3));
    assert_eq!(layout.lines[1].bounds.size.width, 45);
}

#[test]
fn no_words_give_no_lines() {
    let options = ResolvedTextLayoutOptions { font_size_px: 16, ..Default::default() };
    let layout = layout_words(&Vec::new(), 5, &options);
    assert_eq!(layout.lines.len(), 0);
}

#[test]
fn leading_offsets_the_first_line_and_line_height_scales() {
    let options = ResolvedTextLayoutOptions {
        font_size_px: 20,
        line_height: Some(150),
        leading: Some(7),
        max_horizontal_width: Some(30),
        ..Default::default()
    };
    let layout = layout_words(&vec![25, 25], 5, &options);
    assert_eq!(layout.lines.len(), 2);
    assert_eq!(layout.lines[0].bounds.origin.x, 7);
    assert_eq!(layout.lines[1].bounds.origin.x, 0);
    // 20px at a 1.5 multiplier
    assert_eq!(layout.lines[0].bounds.size.height, 30);
    assert_eq!(layout.lines[1].bounds.origin.y, 30);
}

#[test]
fn word_spacing_scales_the_gap() {
    let options = ResolvedTextLayoutOptions {
        font_size_px: 16,
        word_spacing: Some(200),
        ..Default::default()
    };
    let layout = layout_words(&vec![10, 10], 6, &options);
    assert_eq!(layout.lines[0].bounds.size.width, 10 + 12 + 10);
}

#[test]
fn scale_font_unit_converts_to_pixels() {
    assert_eq!(scale_font_unit(1000, 16, 1000), 16);
    assert_eq!(scale_font_unit(500, 32, 1000), 16);
    assert_eq!(scale_font_unit(600, 16, 1000), 9); // rounds down
    assert_eq!(scale_font_unit(0, 16, 1000), 0);
}

#[test]
fn split_text_separates_words_and_separators() {
    let text: Vec<char> = "ab cd\tef\ngh".chars().collect();
    let words = split_text_into_words(&text);
    let shape: Vec<(usize, usize, WordType)> =
        words.items.iter().map(|w| (w.start, w.end, w.word_type)).collect();
    assert_eq!(
        shape,
        vec![
            (0, 2, WordType::Word),
            (2, 3, WordType::Space),
            (3, 5, WordType::Word),
            (5, 6, WordType::Tab),
            (6, 8, WordType::Word),
            (8, 9, WordType::Return),
            (9, 11, WordType::Word),
        ]
    );
}

#[test]
fn split_text_handles_edges() {
    let empty: Vec<char> = Vec::new();
    assert_eq!(split_text_into_words(&empty).items.len(), 0);
    let spaces: Vec<char> = "  ".chars().collect();
    let words = split_text_into_words(&spaces);
    assert_eq!(words.items.len(), 2);
    assert_eq!(words.items[0].word_type, WordType::Space);
    let single: Vec<char> = "hi".chars().collect();
    let words = split_text_into_words(&single);
    assert_eq!(words.items.len(), 1);
    assert_eq!((words.items[0].start, words.items[0].end), (0, 2));
    assert_eq!(words.items[0].word_type, WordType::Word);
}
