//! Inline text layout: line boxes over word ranges, greedy line breaking,
//! and horizontal/vertical alignment of the produced lines.

use vstd::prelude::*;

use crate::geometry::{
    px_bounded, rects_bounded, spec_bounds, union_rects, lemma_extrema_bounds,
    lemma_extrema_contain, lemma_rects_bounded_widen, LayoutPoint, LayoutRect, LayoutSize,
    ABS_PX, LINE_PX, MAX_PX, SHIFTED_PX,
};

verus! {

/// Default font size, in pixels.
pub const DEFAULT_FONT_SIZE_PX: i64 = 16;

/// Default line-height multiplier, in hundredths (a factor of one).
pub const DEFAULT_LINE_HEIGHT: i64 = 100;

/// Default word-spacing multiplier, in hundredths (a factor of one).
pub const DEFAULT_WORD_SPACING: i64 = 100;

/// Default extra letter spacing, in pixels (none).
pub const DEFAULT_LETTER_SPACING: i64 = 0;

/// Default tab width, in hundredths of the space advance (four spaces).
pub const DEFAULT_TAB_WIDTH: i64 = 400;

/// Largest accepted font size, in pixels.
pub const MAX_FONT_PX: i64 = 0x10_0000;

/// Largest accepted multiplier, in hundredths.
pub const MAX_HUNDREDTHS: i64 = 10_000;

/// Largest accepted width of a single shaped word, in pixels.
pub const MAX_WORD_PX: i64 = 0x400_0000;

/// Largest accepted number of words in one text block.
pub const MAX_WORDS: usize = 0x8_0000;

/// Horizontal text alignment: exactly three values.
#[derive(Debug, Copy, Clone, PartialEq, Eq, Structural)]
pub enum TextAlignmentHorz {
    Left,
    Center,
    Right,
}

/// Vertical text alignment: exactly three values.
#[derive(Debug, Copy, Clone, PartialEq, Eq, Structural)]
pub enum TextAlignmentVert {
    Top,
    Center,
    Bottom,
}

/// How far a line is moved relative to its computed gap: by half of it or
/// by all of it.
#[derive(Debug, Copy, Clone, PartialEq, Eq, Structural)]
pub enum ShiftMultiplier {
    Half,
    Full,
}

impl ShiftMultiplier {
    /// The shift applied to a gap of `d` pixels.  Halving truncates toward
    /// zero.
    pub open spec fn spec_apply(self, d: int) -> int {
        match self {
            ShiftMultiplier::Half => if d >= 0 { d / 2 } else { -((-d) / 2) },
            ShiftMultiplier::Full => d,
        }
    }

    pub fn apply(self, d: i64) -> (r: i64)
        requires
            px_bounded(d as int, 2 * (ABS_PX as int)),
        ensures
            r as int == self.spec_apply(d as int),
    {
        match self {
            ShiftMultiplier::Half => {
                if d >= 0 {
                    ((d as u64) / 2) as i64
                } else {
                    -((((-d) as u64) / 2) as i64)
                }
            },
            ShiftMultiplier::Full => d,
        }
    }
}

/// Horizontal alignment moves no line when the text is left-aligned,
/// otherwise by half (centered) or all (right-aligned) of the line's gap.
pub open spec fn spec_h_shift_multiplier(h: TextAlignmentHorz) -> Option<ShiftMultiplier> {
    match h {
        TextAlignmentHorz::Left => None,
        TextAlignmentHorz::Center => Some(ShiftMultiplier::Half),
        TextAlignmentHorz::Right => Some(ShiftMultiplier::Full),
    }
}

/// Vertical alignment moves no line when the text is top-aligned,
/// otherwise by half (centered) or all (bottom-aligned) of the block's gap.
pub open spec fn spec_v_shift_multiplier(v: TextAlignmentVert) -> Option<ShiftMultiplier> {
    match v {
        TextAlignmentVert::Top => None,
        TextAlignmentVert::Center => Some(ShiftMultiplier::Half),
        TextAlignmentVert::Bottom => Some(ShiftMultiplier::Full),
    }
}

pub fn calculate_horizontal_shift_multiplier(horizontal_alignment: TextAlignmentHorz) -> (r:
    Option<ShiftMultiplier>)
    ensures
        r == spec_h_shift_multiplier(horizontal_alignment),
{
    match horizontal_alignment {
        TextAlignmentHorz::Left => None,
        TextAlignmentHorz::Center => Some(ShiftMultiplier::Half),
        TextAlignmentHorz::Right => Some(ShiftMultiplier::Full),
    }
}

pub fn calculate_vertical_shift_multiplier(vertical_alignment: TextAlignmentVert) -> (r: Option<
    ShiftMultiplier>)
    ensures
        r == spec_v_shift_multiplier(vertical_alignment),
{
    match vertical_alignment {
        TextAlignmentVert::Top => None,
        TextAlignmentVert::Center => Some(ShiftMultiplier::Half),
        TextAlignmentVert::Bottom => Some(ShiftMultiplier::Full),
    }
}

/// One visual line of shaped text: its bounding rectangle and the
/// half-open range of word indices it covers.
#[derive(Debug, Copy, Clone, PartialEq, Eq, Structural)]
pub struct InlineTextLine {
    pub bounds: LayoutRect,
    /// At which word does this line start?
    pub word_start: usize,
    /// Before which word does this line end?
    pub word_end: usize,
}

impl InlineTextLine {
    pub fn new(bounds: LayoutRect, word_start: usize, word_end: usize) -> (r: Self)
        ensures
            r == (InlineTextLine { bounds, word_start, word_end }),
    {
        Self { bounds, word_start, word_end }
    }
}

/// The bounding rectangles of a sequence of lines.
pub open spec fn line_rects(s: Seq<InlineTextLine>) -> Seq<LayoutRect> {
    s.map_values(|l: InlineTextLine| l.bounds)
}

/// All line rectangles lie within `[-b, b]`.
pub open spec fn lines_bounded(s: Seq<InlineTextLine>, b: int) -> bool {
    rects_bounded(line_rects(s), b)
}

/// The signed gap of line `i`: its distance to the left edge of the
/// block's own bounding box plus its distance to the right edge.
pub open spec fn line_h_diff(s: Seq<InlineTextLine>, i: int) -> int {
    let bb = spec_bounds(line_rects(s));
    (s[i].bounds.origin.x - bb.origin.x) + (bb.spec_max_x() - s[i].bounds.spec_max_x())
}

/// `l` moved right by `dx` pixels; nothing else changes.
pub open spec fn h_shifted_line(l: InlineTextLine, dx: int) -> InlineTextLine {
    InlineTextLine {
        bounds: LayoutRect {
            origin: LayoutPoint { x: (l.bounds.origin.x + dx) as i64, y: l.bounds.origin.y },
            size: l.bounds.size,
        },
        word_start: l.word_start,
        word_end: l.word_end,
    }
}

/// `l` moved down by `dy` pixels; nothing else changes.
pub open spec fn v_shifted_line(l: InlineTextLine, dy: int) -> InlineTextLine {
    InlineTextLine {
        bounds: LayoutRect {
            origin: LayoutPoint { x: l.bounds.origin.x, y: (l.bounds.origin.y + dy) as i64 },
            size: l.bounds.size,
        },
        word_start: l.word_start,
        word_end: l.word_end,
    }
}

/// The uniform vertical shift that bottom-aligns the block in a parent of
/// height `parent_height`; vertical alignment scales it.
pub open spec fn v_shift_base(s: Seq<InlineTextLine>, parent_height: int) -> int {
    let bb = spec_bounds(line_rects(s));
    bb.origin.y + (parent_height - bb.spec_max_y())
}

/// An ordered sequence of line boxes for one text node.
#[derive(Debug, Clone, PartialEq)]
pub struct InlineTextLayout {
    pub lines: Vec<InlineTextLine>,
}

impl InlineTextLayout {
    pub fn new(lines: Vec<InlineTextLine>) -> (r: Self)
        ensures
            r.lines == lines,
    {
        Self { lines }
    }

    /// The x origin of the first line, zero when there are no lines.
    pub fn get_leading(&self) -> (r: i64)
        ensures
            self.lines@.len() == 0 ==> r == 0,
            self.lines@.len() > 0 ==> r == self.lines@[0].bounds.origin.x,
    {
        if self.lines.len() == 0 {
            0
        } else {
            self.lines[0].bounds.origin.x
        }
    }

    /// The right edge of the first line, zero when there are no lines.
    pub fn get_trailing(&self) -> (r: i64)
        requires
            lines_bounded(self.lines@, ABS_PX as int),
        ensures
            self.lines@.len() == 0 ==> r == 0,
            self.lines@.len() > 0 ==> r as int == self.lines@[0].bounds.spec_max_x(),
    {
        if self.lines.len() == 0 {
            0
        } else {
            assert(line_rects(self.lines@)[0].bounded(ABS_PX as int));
            self.lines[0].bounds.max_x()
        }
    }

    /// The union of all line rectangles, the zero rectangle when there are
    /// no lines.  Recomputed on demand; nothing is cached.
    pub fn get_bounds(&self) -> (r: LayoutRect)
        requires
            lines_bounded(self.lines@, ABS_PX as int),
        ensures
            r == spec_bounds(line_rects(self.lines@)),
    {
        let mut rects: Vec<LayoutRect> = Vec::new();
        let mut i: usize = 0;
        while i < self.lines.len()
            invariant
                0 <= i <= self.lines@.len(),
                rects@ == line_rects(self.lines@).take(i as int),
            decreases self.lines@.len() - i,
        {
            rects.push(self.lines[i].bounds);
            i += 1;
        }
        proof {
            assert(rects@ =~= line_rects(self.lines@));
        }
        match union_rects(&rects) {
            Some(r) => r,
            None => LayoutRect::zero(),
        }
    }

    /// For every line, the signed gap between the line's own horizontal
    /// extent and `parent`: distance from the left edges plus distance
    /// from the right edges.
    pub fn get_children_horizontal_diff_to_right_edge(&self, parent: &LayoutRect) -> (r: Vec<i64>)
        requires
            lines_bounded(self.lines@, SHIFTED_PX as int),
            parent.bounded(2 * (SHIFTED_PX as int)),
        ensures
            r@.len() == self.lines@.len(),
            forall|i: int|
                0 <= i < self.lines@.len() ==> #[trigger] r@[i] as int == (
                self.lines@[i].bounds.origin.x - parent.origin.x) + (parent.spec_max_x()
                    - self.lines@[i].bounds.spec_max_x()),
    {
        let parent_left_edge: i64 = parent.origin.x;
        let parent_right_edge: i64 = parent_left_edge + parent.size.width;
        let mut r: Vec<i64> = Vec::new();
        let mut i: usize = 0;
        while i < self.lines.len()
            invariant
                0 <= i <= self.lines@.len(),
                lines_bounded(self.lines@, SHIFTED_PX as int),
                parent.bounded(2 * (SHIFTED_PX as int)),
                parent_left_edge == parent.origin.x,
                parent_right_edge as int == parent.spec_max_x(),
                r@.len() == i,
                forall|j: int|
                    0 <= j < i ==> #[trigger] r@[j] as int == (self.lines@[j].bounds.origin.x
                        - parent.origin.x) + (parent.spec_max_x()
                        - self.lines@[j].bounds.spec_max_x()),
            decreases self.lines@.len() - i,
        {
            assert(line_rects(self.lines@)[i as int].bounded(SHIFTED_PX as int));
            let line = &self.lines[i];
            let child_left_edge: i64 = line.bounds.origin.x;
            let child_right_edge: i64 = child_left_edge + line.bounds.size.width;
            r.push((child_left_edge - parent_left_edge) + (parent_right_edge - child_right_edge));
            i += 1;
        }
        r
    }

    /// Aligns the lines horizontally relative to *their own bounding box*:
    /// left alignment moves nothing, centering moves each line by half its
    /// gap, right alignment by the whole gap.
    pub fn align_children_horizontal(&mut self, horizontal_alignment: TextAlignmentHorz)
        requires
            lines_bounded(old(self).lines@, LINE_PX as int),
        ensures
            final(self).lines@.len() == old(self).lines@.len(),
            lines_bounded(final(self).lines@, SHIFTED_PX as int),
            match spec_h_shift_multiplier(horizontal_alignment) {
                None => final(self).lines@ == old(self).lines@,
                Some(m) => forall|i: int|
                    0 <= i < old(self).lines@.len() ==> #[trigger] final(self).lines@[i]
                        == h_shifted_line(
                        old(self).lines@[i],
                        m.spec_apply(line_h_diff(old(self).lines@, i)),
                    ),
            },
    {
        let shift_multiplier = match calculate_horizontal_shift_multiplier(horizontal_alignment) {
            None => {
                proof {
                    lemma_rects_bounded_widen(
                        line_rects(self.lines@),
                        LINE_PX as int,
                        SHIFTED_PX as int,
                    );
                }
                return ;
            },
            Some(s) => s,
        };
        proof {
            lemma_rects_bounded_widen(line_rects(self.lines@), LINE_PX as int, ABS_PX as int);
            lemma_rects_bounded_widen(line_rects(self.lines@), LINE_PX as int, SHIFTED_PX as int);
        }
        let self_bounds = self.get_bounds();
        proof {
            if self.lines@.len() > 0 {
                lemma_extrema_bounds(
                    line_rects(self.lines@),
                    self.lines@.len() as int,
                    LINE_PX as int,
                );
            }
        }
        let horz_diff = self.get_children_horizontal_diff_to_right_edge(&self_bounds);

        let ghost orig = self.lines@;
        let mut shifted: Vec<InlineTextLine> = Vec::new();
        let mut i: usize = 0;
        while i < self.lines.len()
            invariant
                0 <= i <= orig.len(),
                self.lines@ == orig,
                lines_bounded(orig, LINE_PX as int),
                horz_diff@.len() == orig.len(),
                forall|j: int|
                    0 <= j < orig.len() ==> #[trigger] horz_diff@[j] as int == line_h_diff(orig, j),
                shifted@.len() == i,
                forall|j: int|
                    0 <= j < i ==> #[trigger] shifted@[j] == h_shifted_line(
                        orig[j],
                        shift_multiplier.spec_apply(line_h_diff(orig, j)),
                    ),
                forall|j: int|
                    0 <= j < i ==> #[trigger] shifted@[j].bounds.bounded(SHIFTED_PX as int),
            decreases orig.len() - i,
        {
            proof {
                assert(line_rects(orig)[i as int].bounded(LINE_PX as int));
                lemma_extrema_bounds(line_rects(orig), orig.len() as int, LINE_PX as int);
                lemma_extrema_contain(line_rects(orig), orig.len() as int, i as int);
            }
            let mut line = self.lines[i];
            let shift = shift_multiplier.apply(horz_diff[i]);
            line.bounds.origin.x = line.bounds.origin.x + shift;
            shifted.push(line);
            i += 1;
        }
        self.lines = shifted;
        proof {
            assert forall|j: int| 0 <= j < self.lines@.len() implies #[trigger] line_rects(
                self.lines@,
            )[j].bounded(SHIFTED_PX as int) by {
                assert(self.lines@[j].bounds.bounded(SHIFTED_PX as int));
            }
        }
    }

    /// Aligns the lines vertically inside a parent container of the given
    /// size: top alignment moves nothing, centering moves every line by
    /// half the leftover vertical space, bottom alignment by all of it.
    /// The shift is uniform across the lines.
    pub fn align_children_vertical_in_parent_bounds(
        &mut self,
        parent_size: &LayoutSize,
        vertical_alignment: TextAlignmentVert,
    )
        requires
            lines_bounded(old(self).lines@, SHIFTED_PX as int),
            parent_size.wf(),
        ensures
            final(self).lines@.len() == old(self).lines@.len(),
            lines_bounded(final(self).lines@, ABS_PX as int),
            match spec_v_shift_multiplier(vertical_alignment) {
                None => final(self).lines@ == old(self).lines@,
                Some(m) => forall|i: int|
                    0 <= i < old(self).lines@.len() ==> #[trigger] final(self).lines@[i]
                        == v_shifted_line(
                        old(self).lines@[i],
                        m.spec_apply(v_shift_base(old(self).lines@, parent_size.height as int)),
                    ),
            },
    {
        let shift_multiplier = match calculate_vertical_shift_multiplier(vertical_alignment) {
            None => {
                proof {
                    lemma_rects_bounded_widen(
                        line_rects(self.lines@),
                        SHIFTED_PX as int,
                        ABS_PX as int,
                    );
                }
                return ;
            },
            Some(s) => s,
        };
        proof {
            lemma_rects_bounded_widen(line_rects(self.lines@), SHIFTED_PX as int, ABS_PX as int);
            if self.lines@.len() > 0 {
                lemma_extrema_bounds(
                    line_rects(self.lines@),
                    self.lines@.len() as int,
                    SHIFTED_PX as int,
                );
            }
        }
        let self_bounds = self.get_bounds();
        let child_top_edge: i64 = self_bounds.origin.y;
        let child_bottom_edge: i64 = child_top_edge + self_bounds.size.height;
        let shift_base: i64 = child_top_edge + (parent_size.height - child_bottom_edge);
        let shift = shift_multiplier.apply(shift_base);

        let ghost orig = self.lines@;
        let mut shifted: Vec<InlineTextLine> = Vec::new();
        let mut i: usize = 0;
        while i < self.lines.len()
            invariant
                0 <= i <= orig.len(),
                self.lines@ == orig,
                lines_bounded(orig, SHIFTED_PX as int),
                shift as int == shift_multiplier.spec_apply(
                    v_shift_base(orig, parent_size.height as int),
                ),
                px_bounded(shift as int, 3 * (SHIFTED_PX as int) + MAX_PX as int),
                shifted@.len() == i,
                forall|j: int|
                    0 <= j < i ==> #[trigger] shifted@[j] == v_shifted_line(
                        orig[j],
                        shift_multiplier.spec_apply(v_shift_base(orig, parent_size.height as int)),
                    ),
                forall|j: int| 0 <= j < i ==> #[trigger] shifted@[j].bounds.bounded(ABS_PX as int),
            decreases orig.len() - i,
        {
            proof {
                assert(line_rects(orig)[i as int].bounded(SHIFTED_PX as int));
            }
            let mut line = self.lines[i];
            line.bounds.origin.y = line.bounds.origin.y + shift;
            shifted.push(line);
            i += 1;
        }
        self.lines = shifted;
        proof {
            assert forall|j: int| 0 <= j < self.lines@.len() implies #[trigger] line_rects(
                self.lines@,
            )[j].bounded(ABS_PX as int) by {
                assert(self.lines@[j].bounds.bounded(ABS_PX as int));
            }
        }
    }
}

/// Law: left alignment never moves a line.  Centering moves a line by
/// half its gap (truncated toward zero) and right alignment by the whole
/// gap, and any horizontal move leaves the sum of the line's left and
/// right margins to the block's old bounding box equal to the gap that
/// was computed before the move.
pub proof fn lemma_alignment_invariant(s: Seq<InlineTextLine>, i: int, dx: int)
    requires
        0 <= i < s.len(),
        lines_bounded(s, SHIFTED_PX as int),
    ensures
        (spec_h_shift_multiplier(TextAlignmentHorz::Left) is None),
        line_h_diff(s, i) >= 0,
        ShiftMultiplier::Full.spec_apply(line_h_diff(s, i)) == line_h_diff(s, i),
        2 * ShiftMultiplier::Half.spec_apply(line_h_diff(s, i)) + line_h_diff(s, i) % 2
            == line_h_diff(s, i),
        gap_sum(h_shifted_line(s[i], dx), spec_bounds(line_rects(s))) == line_h_diff(s, i),
{
    assert(line_rects(s)[i] == s[i].bounds);
    lemma_extrema_bounds(line_rects(s), s.len() as int, SHIFTED_PX as int);
    lemma_extrema_contain(line_rects(s), s.len() as int, i);
}

/// The line's distance to the left edge of `bb` plus its distance to the
/// right edge of `bb`.
pub open spec fn gap_sum(l: InlineTextLine, bb: LayoutRect) -> int {
    (l.bounds.origin.x - bb.origin.x) + (bb.spec_max_x() - l.bounds.spec_max_x())
}

/// Layout options with every quantity resolved to whole pixels.
/// Multipliers are carried in hundredths, so a value of 100 is a factor
/// of one.
#[derive(Debug, Clone, PartialEq)]
pub struct ResolvedTextLayoutOptions {
    /// Font size (in pixels) that this text has been laid out with.
    pub font_size_px: i64,
    /// Multiplier for the line height, in hundredths; unset means 100.
    pub line_height: Option<i64>,
    /// Additional spacing between glyphs (in pixels); unset means 0.
    /// Reserved: the line breaker does not consume it yet.
    pub letter_spacing: Option<i64>,
    /// Multiplier for the advance of the space glyph, in hundredths;
    /// unset means 100.
    pub word_spacing: Option<i64>,
    /// How many spaces a tab character emulates, in hundredths; unset
    /// means 400.  Reserved: the line breaker prices every separator at
    /// the one inter-word gap and does not consume this yet.
    pub tab_width: Option<i64>,
    /// Maximum width of the text, in pixels; unset means no wrapping.
    pub max_horizontal_width: Option<i64>,
    /// How many pixels of leading the first line has; unset means 0.
    pub leading: Option<i64>,
    /// Rectangles punched out of the text flow (for floated content).
    /// Reserved: no algorithm consumes them yet.
    pub holes: Vec<LayoutRect>,
}

impl ResolvedTextLayoutOptions {
    pub open spec fn wf(self) -> bool {
        &&& 0 < self.font_size_px <= MAX_FONT_PX as int
        &&& match self.line_height {
            Option::Some(v) => 0 <= v <= MAX_HUNDREDTHS as int,
            Option::None => true,
        }
        &&& match self.letter_spacing {
            Option::Some(v) => 0 <= v <= MAX_WORD_PX as int,
            Option::None => true,
        }
        &&& match self.word_spacing {
            Option::Some(v) => 0 <= v <= MAX_HUNDREDTHS as int,
            Option::None => true,
        }
        &&& match self.tab_width {
            Option::Some(v) => 0 <= v <= MAX_HUNDREDTHS as int,
            Option::None => true,
        }
        &&& match self.max_horizontal_width {
            Option::Some(v) => 0 <= v <= MAX_PX as int,
            Option::None => true,
        }
        &&& match self.leading {
            Option::Some(v) => 0 <= v <= MAX_PX as int,
            Option::None => true,
        }
    }

    /// Effective line-height multiplier, in hundredths.
    pub open spec fn spec_line_height_hundredths(self) -> int {
        match self.line_height {
            Option::Some(v) => v as int,
            Option::None => DEFAULT_LINE_HEIGHT as int,
        }
    }

    /// Effective word-spacing multiplier, in hundredths.
    pub open spec fn spec_word_spacing_hundredths(self) -> int {
        match self.word_spacing {
            Option::Some(v) => v as int,
            Option::None => DEFAULT_WORD_SPACING as int,
        }
    }

    /// Height of one line box: the font size scaled by the line-height
    /// multiplier.
    pub open spec fn spec_line_height_px(self) -> int {
        self.font_size_px * self.spec_line_height_hundredths() / 100
    }

    /// Width of one inter-word gap: the space advance scaled by the
    /// word-spacing multiplier.
    pub open spec fn spec_space_px(self, space_advance: int) -> int {
        space_advance * self.spec_word_spacing_hundredths() / 100
    }

    /// Leading of the first line, in pixels.
    pub open spec fn spec_leading_px(self) -> int {
        match self.leading {
            Option::Some(v) => v as int,
            Option::None => 0,
        }
    }

    pub fn line_height_px(&self) -> (r: i64)
        requires
            self.wf(),
        ensures
            r as int == self.spec_line_height_px(),
            0 <= r <= MAX_LINE_HEIGHT_PX,
    {
        let mult: i64 = match self.line_height {
            Option::Some(v) => v,
            Option::None => DEFAULT_LINE_HEIGHT,
        };
        proof {
            assert((self.font_size_px as u64) * (mult as u64) <= 0x10_0000u64 * 10_000u64)
                by (nonlinear_arith)
                requires
                    0 <= self.font_size_px <= 0x10_0000,
                    0 <= mult <= 10_000,
            ;
            assert((self.font_size_px as u64) * (mult as u64) == (self.font_size_px as int) * (
            mult as int)) by (nonlinear_arith)
                requires
                    0 <= self.font_size_px,
                    0 <= mult,
                    (self.font_size_px as u64) == self.font_size_px as int,
                    (mult as u64) == mult as int,
            ;
        }
        (((self.font_size_px as u64) * (mult as u64)) / 100) as i64
    }

    pub fn space_px(&self, space_advance: i64) -> (r: i64)
        requires
            self.wf(),
            0 <= space_advance <= MAX_WORD_PX,
        ensures
            r as int == self.spec_space_px(space_advance as int),
            0 <= r <= MAX_SPACE_PX,
    {
        let mult: i64 = match self.word_spacing {
            Option::Some(v) => v,
            Option::None => DEFAULT_WORD_SPACING,
        };
        proof {
            assert((space_advance as u64) * (mult as u64) <= 0x400_0000u64 * 10_000u64)
                by (nonlinear_arith)
                requires
                    0 <= space_advance <= 0x400_0000,
                    0 <= mult <= 10_000,
            ;
            assert((space_advance as u64) * (mult as u64) == (space_advance as int) * (mult as int))
                by (nonlinear_arith)
                requires
                    0 <= space_advance,
                    0 <= mult,
                    (space_advance as u64) == space_advance as int,
                    (mult as u64) == mult as int,
            ;
        }
        (((space_advance as u64) * (mult as u64)) / 100) as i64
    }
}

/// Largest effective line height, in pixels.
pub const MAX_LINE_HEIGHT_PX: i64 = 0x8000_0000;

/// Largest effective inter-word gap, in pixels.
pub const MAX_SPACE_PX: i64 = 0x4_0000_0000;

impl Default for ResolvedTextLayoutOptions {
    /// The default options: 16px font, no wrapping, all multipliers at
    /// their documented defaults.
    fn default() -> (r: Self)
        ensures
            r.font_size_px == DEFAULT_FONT_SIZE_PX,
            r.line_height is None,
            r.letter_spacing is None,
            r.word_spacing is None,
            r.tab_width is None,
            r.max_horizontal_width is None,
            r.leading is None,
            r.holes@ == Seq::<LayoutRect>::empty(),
            r.wf(),
    {
        ResolvedTextLayoutOptions {
            font_size_px: DEFAULT_FONT_SIZE_PX,
            line_height: None,
            letter_spacing: None,
            word_spacing: None,
            tab_width: None,
            max_horizontal_width: None,
            leading: None,
            holes: Vec::new(),
        }
    }
}

/// Scales a quantity given in font units to pixels at the given font
/// size: `value * font_size_px / units_per_em`, rounded down.
pub fn scale_font_unit(value: u16, font_size_px: i64, units_per_em: u16) -> (r: i64)
    requires
        0 < font_size_px <= MAX_FONT_PX,
        units_per_em > 0,
    ensures
        r as int == value * font_size_px / (units_per_em as int),
        0 <= r,
    {
    proof {
        assert((value as u64) * (font_size_px as u64) <= 0xFFFFu64 * 0x10_0000u64)
            by (nonlinear_arith)
            requires
                0 <= value <= 0xFFFF,
                0 <= font_size_px <= 0x10_0000,
        ;
        assert((value as u64) * (font_size_px as u64) == (value as int) * (font_size_px as int))
            by (nonlinear_arith)
            requires
                0 <= value,
                0 <= font_size_px,
                (value as u64) == value as int,
                (font_size_px as u64) == font_size_px as int,
        ;
    }
    (((value as u64) * (font_size_px as u64)) / (units_per_em as u64)) as i64
}

/// The total width of the half-open word range `[start, end)`: the word
/// widths plus one inter-word gap between neighbours.
pub open spec fn words_width(w: Seq<i64>, space: int, start: int, end: int) -> int
    decreases end - start,
{
    if start >= end {
        0
    } else if start + 1 == end {
        w[start] as int
    } else {
        words_width(w, space, start, end - 1) + space + w[end - 1]
    }
}

/// Every word width lies in `[0, MAX_WORD_PX]` and there are at most
/// `MAX_WORDS` words.
pub open spec fn words_bounded(w: Seq<i64>) -> bool {
    &&& w.len() <= MAX_WORDS as int
    &&& forall|i: int| 0 <= i < w.len() ==> 0 <= #[trigger] w[i] <= MAX_WORD_PX as int
}

pub proof fn lemma_words_width_bound(w: Seq<i64>, space: int, start: int, end: int)
    requires
        words_bounded(w),
        0 <= space <= MAX_SPACE_PX as int,
        0 <= start <= end,
        end <= w.len(),
    ensures
        0 <= words_width(w, space, start, end) <= (end - start) * (
        MAX_SPACE_PX as int + MAX_WORD_PX as int),
        words_width(w, space, start, end) <= LINE_PX as int,
    decreases end - start,
{
    assert((end - start) * (MAX_SPACE_PX as int + MAX_WORD_PX as int) <= MAX_WORDS as int * (
    MAX_SPACE_PX as int + MAX_WORD_PX as int)) by (nonlinear_arith)
        requires
            end - start <= MAX_WORDS as int,
            0 <= MAX_SPACE_PX as int + MAX_WORD_PX as int,
    ;
    if start >= end {
    } else if start + 1 == end {
        assert(0 <= w[start] <= MAX_WORD_PX as int);
    } else {
        lemma_words_width_bound(w, space, start, end - 1);
        assert(0 <= w[end - 1] <= MAX_WORD_PX as int);
        assert((end - start) * (MAX_SPACE_PX as int + MAX_WORD_PX as int) == (end - 1 - start) * (
        MAX_SPACE_PX as int + MAX_WORD_PX as int) + (MAX_SPACE_PX as int + MAX_WORD_PX as int))
            by (nonlinear_arith);
    }
}

/// The bounding rectangle the line breaker gives to line number `i` of
/// content width `width`: the first line starts at the leading, every
/// line is one line height tall and stacked directly under its
/// predecessor.
pub open spec fn spec_line_bounds(i: int, width: int, line_h: int, leading: int) -> LayoutRect {
    LayoutRect {
        origin: LayoutPoint {
            x: if i == 0 {
                leading as i64
            } else {
                0i64
            },
            y: (i * line_h) as i64,
        },
        size: LayoutSize { width: width as i64, height: line_h as i64 },
    }
}

/// The word ranges of `ls` tile `[0, n)`: they are contiguous, in order,
/// non-overlapping and non-empty.
pub open spec fn lines_partition(ls: Seq<InlineTextLine>, n: int) -> bool {
    &&& ls.len() > 0
    &&& ls[0].word_start == 0
    &&& ls[ls.len() - 1].word_end == n
    &&& forall|i: int| 0 <= i < ls.len() ==> (#[trigger] ls[i].word_start) < ls[i].word_end
    &&& forall|i: int| 0 < i < ls.len() ==> (#[trigger] ls[i].word_start) == ls[i - 1].word_end
}

/// Line `j` of `ls` carries the geometry the breaker computed for it and
/// fits the maximum width unless it holds a single word.
pub open spec fn line_ok(
    ls: Seq<InlineTextLine>,
    j: int,
    w: Seq<i64>,
    space: int,
    line_h: int,
    leading: int,
    max_w: Option<i64>,
) -> bool {
    &&& ls[j].word_start < ls[j].word_end <= w.len()
    &&& ls[j].bounds == spec_line_bounds(
        j,
        words_width(w, space, ls[j].word_start as int, ls[j].word_end as int),
        line_h,
        leading,
    )
    &&& match max_w {
        Option::Some(mw) => words_width(w, space, ls[j].word_start as int, ls[j].word_end as int)
            <= mw || ls[j].word_start + 1 == ls[j].word_end,
        Option::None => true,
    }
}

/// Line `j` of `ls` could not have taken the next word as well.
pub open spec fn line_maximal(
    ls: Seq<InlineTextLine>,
    j: int,
    w: Seq<i64>,
    space: int,
    max_w: Option<i64>,
) -> bool {
    match max_w {
        Option::Some(mw) => words_width(
            w,
            space,
            ls[j].word_start as int,
            ls[j].word_end as int + 1,
        ) > mw,
        Option::None => false,
    }
}

/// The full statement of what the line breaker produces for a non-empty
/// word sequence `w`: a partition of the words into greedy lines with the
/// stacked line geometry.
pub open spec fn spec_lines_ok(
    ls: Seq<InlineTextLine>,
    w: Seq<i64>,
    space: int,
    line_h: int,
    leading: int,
    max_w: Option<i64>,
) -> bool {
    &&& lines_partition(ls, w.len() as int)
    &&& forall|j: int| 0 <= j < ls.len() ==> #[trigger] line_ok(ls, j, w, space, line_h, leading, max_w)
    &&& forall|j: int| 0 <= j < ls.len() - 1 ==> #[trigger] line_maximal(ls, j, w, space, max_w)
    &&& (max_w is None ==> ls.len() == 1)
}

/// Law (an invariant of engine-produced lines): the word ranges of the
/// lines are ordered and non-overlapping — an earlier line ends no later
/// than a later line starts.
pub proof fn lemma_line_ranges_disjoint(ls: Seq<InlineTextLine>, n: int, i: int, j: int)
    requires
        lines_partition(ls, n),
        0 <= i < j < ls.len(),
    ensures
        ls[i].word_end <= ls[j].word_start,
    decreases j - i,
{
    assert(ls[j].word_start == ls[j - 1].word_end);
    if i < j - 1 {
        lemma_line_ranges_disjoint(ls, n, i, j - 1);
        assert(ls[j - 1].word_start < ls[j - 1].word_end);
    }
}

/// Breaks a sequence of shaped words into greedy line boxes.
///
/// `word_widths` holds the width of each shaped word in pixels,
/// `space_advance` the width of the space glyph.  Words are put on the
/// current line as long as the line, with one inter-word gap before each
/// added word, stays within the maximum horizontal width; a word that
/// does not fit opens the next line, and a word wider than the maximum
/// stands alone on its line.  Without a maximum width nothing wraps.
pub fn layout_words(
    word_widths: &Vec<i64>,
    space_advance: i64,
    options: &ResolvedTextLayoutOptions,
) -> (r: InlineTextLayout)
    requires
        options.wf(),
        0 <= space_advance <= MAX_WORD_PX,
        words_bounded(word_widths@),
    ensures
        (r.lines@.len() == 0) <==> (word_widths@.len() == 0),
        lines_bounded(r.lines@, LINE_PX as int),
        word_widths@.len() > 0 ==> spec_lines_ok(
            r.lines@,
            word_widths@,
            options.spec_space_px(space_advance as int),
            options.spec_line_height_px(),
            options.spec_leading_px(),
            options.max_horizontal_width,
        ),
{
    let n = word_widths.len();
    if n == 0 {
        return InlineTextLayout { lines: Vec::new() };
    }
    let line_h = options.line_height_px();
    let space = options.space_px(space_advance);
    let leading: i64 = match options.leading {
        Option::Some(v) => v,
        Option::None => 0,
    };
    let max_w = options.max_horizontal_width;
    let ghost w = word_widths@;
    let ghost spc = space as int;

    let mut lines: Vec<InlineTextLine> = Vec::new();
    let mut line_start: usize = 0;
    let mut cur_width: i64 = word_widths[0];
    let mut i: usize = 1;
    while i < n
        invariant
            1 <= i <= n,
            n == w.len(),
            w == word_widths@,
            words_bounded(w),
            0 <= line_start < i,
            lines@.len() <= line_start,
            line_h as int == options.spec_line_height_px(),
            0 <= line_h <= MAX_LINE_HEIGHT_PX,
            spc == options.spec_space_px(space_advance as int),
            space as int == spc,
            0 <= space <= MAX_SPACE_PX,
            leading as int == options.spec_leading_px(),
            0 <= leading <= MAX_PX,
            max_w == options.max_horizontal_width,
            cur_width as int == words_width(w, spc, line_start as int, i as int),
            match max_w {
                Option::Some(mw) => cur_width <= mw || line_start + 1 == i,
                Option::None => lines@.len() == 0,
            },
            lines@.len() == 0 ==> line_start == 0,
            lines@.len() > 0 ==> lines@[0].word_start == 0 && lines@[lines@.len()
                - 1].word_end == line_start,
            forall|j: int| 0 <= j < lines@.len() ==> (#[trigger] lines@[j].word_start)
                < lines@[j].word_end,
            forall|j: int| 0 < j < lines@.len() ==> (#[trigger] lines@[j].word_start) == lines@[j
                - 1].word_end,
            forall|j: int| 0 <= j < lines@.len() ==> #[trigger] line_ok(
                lines@, j, w, spc, line_h as int, leading as int, max_w),
            forall|j: int| 0 <= j < lines@.len() ==> #[trigger] line_maximal(
                lines@, j, w, spc, max_w),
        decreases n - i,
    {
        assert(0 <= w[i as int] <= MAX_WORD_PX as int);
        proof {
            lemma_words_width_bound(w, spc, line_start as int, i as int);
        }
        let word_w = word_widths[i];
        let candidate = cur_width + space + word_w;
        assert(candidate as int == words_width(w, spc, line_start as int, i as int + 1));
        let must_break = match max_w {
            Option::Some(mw) => candidate > mw,
            Option::None => false,
        };
        if must_break {
            proof {
                lemma_mul_line_y(lines@.len() as int, line_h as int);
            }
            let y = (lines.len() as i64) * line_h;
            let x = if lines.len() == 0 { leading } else { 0 };
            let bounds = LayoutRect {
                origin: LayoutPoint { x, y },
                size: LayoutSize { width: cur_width, height: line_h },
            };
            let line = InlineTextLine { bounds, word_start: line_start, word_end: i };
            let ghost prev = lines@;
            lines.push(line);
            proof {
                let nl = lines@;
                assert(nl[nl.len() - 1] == line);
                assert forall|j: int| 0 <= j < nl.len() implies #[trigger] line_ok(
                    nl, j, w, spc, line_h as int, leading as int, max_w) by {
                    if j < nl.len() - 1 {
                        assert(nl[j] == prev[j]);
                        assert(line_ok(prev, j, w, spc, line_h as int, leading as int, max_w));
                    }
                }
                assert forall|j: int| 0 <= j < nl.len() implies #[trigger] line_maximal(
                    nl, j, w, spc, max_w) by {
                    if j < nl.len() - 1 {
                        assert(nl[j] == prev[j]);
                        assert(line_maximal(prev, j, w, spc, max_w));
                    }
                }
            }
            line_start = i;
            cur_width = word_w;
        } else {
            cur_width = candidate;
        }
        i += 1;
    }
    proof {
        lemma_words_width_bound(w, spc, line_start as int, n as int);
        lemma_mul_line_y(lines@.len() as int, line_h as int);
    }
    let y = (lines.len() as i64) * line_h;
    let x = if lines.len() == 0 { leading } else { 0 };
    let bounds = LayoutRect {
        origin: LayoutPoint { x, y },
        size: LayoutSize { width: cur_width, height: line_h },
    };
    let line = InlineTextLine { bounds, word_start: line_start, word_end: n };
    let ghost prev = lines@;
    let mut lines = lines;
    lines.push(line);
    proof {
        let nl = lines@;
        assert(nl[nl.len() - 1] == line);
        assert forall|j: int| 0 <= j < nl.len() implies #[trigger] line_ok(
            nl, j, w, spc, line_h as int, leading as int, max_w) by {
            if j < nl.len() - 1 {
                assert(nl[j] == prev[j]);
                assert(line_ok(prev, j, w, spc, line_h as int, leading as int, max_w));
            }
        }
        assert forall|j: int| 0 <= j < nl.len() - 1 implies #[trigger] line_maximal(
            nl, j, w, spc, max_w) by {
            assert(nl[j] == prev[j]);
            assert(line_maximal(prev, j, w, spc, max_w));
        }
    }
    proof {
        assert forall|j: int| 0 <= j < lines@.len() implies #[trigger] line_rects(
            lines@,
        )[j].bounded(LINE_PX as int) by {
            assert(line_ok(lines@, j, w, spc, line_h as int, leading as int, max_w));
            lemma_words_width_bound(
                w,
                spc,
                lines@[j].word_start as int,
                lines@[j].word_end as int,
            );
            lemma_mul_line_y(j, line_h as int);
            assert(line_rects(lines@)[j] == lines@[j].bounds);
        };
    }
    InlineTextLayout { lines }
}

/// The y origin of line `j` stays within the line-box bound.
proof fn lemma_mul_line_y(j: int, line_h: int)
    requires
        0 <= j <= MAX_WORDS as int,
        0 <= line_h <= MAX_LINE_HEIGHT_PX as int,
    ensures
        0 <= j * line_h <= MAX_WORDS as int * MAX_LINE_HEIGHT_PX as int,
{
    assert(0 <= j * line_h <= MAX_WORDS as int * MAX_LINE_HEIGHT_PX as int) by (nonlinear_arith)
        requires
            0 <= j <= MAX_WORDS as int,
            0 <= line_h <= MAX_LINE_HEIGHT_PX as int,
    ;
}

/// What one item of a split text is: a run of visible characters, or a
/// single space, tab or line break.
#[derive(Debug, Copy, Clone, PartialEq, Eq, Structural)]
pub enum WordType {
    Word,
    Tab,
    Return,
    Space,
}

/// One item of a split text: the half-open character range it covers.
#[derive(Debug, Copy, Clone, PartialEq, Eq, Structural)]
pub struct Word {
    pub start: usize,
    pub end: usize,
    pub word_type: WordType,
}

/// The text of one node split into words.
#[derive(Debug, Clone, PartialEq)]
pub struct Words {
    pub items: Vec<Word>,
}

/// The characters that separate words.
pub open spec fn spec_is_word_separator(c: char) -> bool {
    c == ' ' || c == '\t' || c == '\n'
}

/// `it` is a well-formed item of `text`: separator items cover exactly
/// their one character, word items cover a maximal run of visible
/// characters.
pub open spec fn word_item_ok(text: Seq<char>, it: Word) -> bool {
    &&& 0 <= it.start < it.end <= text.len()
    &&& match it.word_type {
        WordType::Space => it.end == it.start + 1 && text[it.start as int] == ' ',
        WordType::Tab => it.end == it.start + 1 && text[it.start as int] == '\t',
        WordType::Return => it.end == it.start + 1 && text[it.start as int] == '\n',
        WordType::Word => {
            &&& forall|k: int|
                it.start <= k < it.end ==> !spec_is_word_separator(#[trigger] text[k])
            &&& it.end < text.len() ==> spec_is_word_separator(text[it.end as int])
            &&& it.start > 0 ==> spec_is_word_separator(text[it.start - 1])
        },
    }
}

/// The items tile the whole text: they are contiguous, in order, and
/// cover every character exactly once.
pub open spec fn words_tile(items: Seq<Word>, n: int) -> bool {
    &&& (items.len() == 0 <==> n == 0)
    &&& items.len() > 0 ==> items[0].start == 0 && items[items.len() - 1].end == n
    &&& forall|i: int| 0 < i < items.len() ==> (#[trigger] items[i].start) == items[i - 1].end
}

/// Splits a text into words and separator items.  Every character lands
/// in exactly one item; runs of visible characters become single `Word`
/// items, and every space, tab or line break becomes an item of its own.
pub fn split_text_into_words(text: &Vec<char>) -> (r: Words)
    ensures
        words_tile(r.items@, text@.len() as int),
        forall|i: int| 0 <= i < r.items@.len() ==> word_item_ok(text@, #[trigger] r.items@[i]),
{
    let n = text.len();
    let mut items: Vec<Word> = Vec::new();
    let mut cur_start: usize = 0;
    let mut i: usize = 0;
    while i < n
        invariant
            0 <= cur_start <= i <= n,
            n == text@.len(),
            forall|j: int| 0 <= j < items@.len() ==> word_item_ok(text@, #[trigger] items@[j]),
            items@.len() == 0 ==> cur_start == 0,
            items@.len() > 0 ==> items@[0].start == 0 && items@[items@.len() - 1].end == cur_start,
            forall|j: int| 0 < j < items@.len() ==> (#[trigger] items@[j].start) == items@[j
                - 1].end,
            forall|k: int| cur_start <= k < i ==> !spec_is_word_separator(#[trigger] text@[k]),
            cur_start > 0 ==> spec_is_word_separator(text@[cur_start - 1]),
        decreases n - i,
    {
        let c = text[i];
        let sep_type: Option<WordType> = if c == ' ' {
            Some(WordType::Space)
        } else if c == '\t' {
            Some(WordType::Tab)
        } else if c == '\n' {
            Some(WordType::Return)
        } else {
            None
        };
        match sep_type {
            Some(word_type) => {
                if cur_start < i {
                    items.push(Word { start: cur_start, end: i, word_type: WordType::Word });
                }
                items.push(Word { start: i, end: i + 1, word_type });
                cur_start = i + 1;
            },
            None => {},
        }
        i += 1;
    }
    if cur_start < n {
        items.push(Word { start: cur_start, end: n, word_type: WordType::Word });
    }
    Words { items }
}

/// An absolute pixel quantity carried in thousandths of a pixel, as the
/// style system hands it over once every percentage has been resolved.
#[derive(Debug, Copy, Clone, PartialEq, Eq, Structural)]
pub struct PixelValue {
    pub thousandths: i64,
}

impl PixelValue {
    pub open spec fn wf(self) -> bool {
        0 <= self.thousandths <= 1000 * (MAX_PX as int)
    }

    /// The quantity in whole pixels, rounded down.
    pub open spec fn spec_px(self) -> int {
        self.thousandths / 1000
    }

    /// A whole-pixel value.
    pub fn px(px: i64) -> (r: PixelValue)
        requires
            0 <= px <= MAX_PX,
        ensures
            r.thousandths == 1000 * px,
            r.wf(),
            r.spec_px() == px,
    {
        let r = PixelValue { thousandths: 1000 * px };
        proof {
            assert((1000 * px) / 1000 == px) by (nonlinear_arith)
                requires
                    0 <= px,
            ;
        }
        r
    }

    pub fn to_px(&self) -> (r: i64)
        requires
            self.wf(),
        ensures
            r as int == self.spec_px(),
            0 <= r <= MAX_PX,
    {
        proof {
            assert(0 <= (self.thousandths as int) / 1000 <= MAX_PX as int) by (nonlinear_arith)
                requires
                    0 <= self.thousandths <= 1000 * (MAX_PX as int),
            ;
        }
        ((self.thousandths as u64) / 1000) as i64
    }
}

/// Layout options as the style system delivers them, with pixel
/// quantities still in thousandths.  `to_resolved` turns them into the
/// whole-pixel options the line breaker takes.
#[derive(Debug, Clone, PartialEq)]
pub struct TextLayoutOptions {
    /// Font size that this text is laid out with.
    pub font_size_px: PixelValue,
    /// Multiplier for the line height, in hundredths; unset means 100.
    pub line_height: Option<i64>,
    /// Additional spacing between glyphs; unset means none.
    pub letter_spacing: Option<PixelValue>,
    /// Multiplier for the advance of the space glyph, in hundredths;
    /// unset means 100.
    pub word_spacing: Option<i64>,
    /// How many spaces a tab character emulates, in hundredths; unset
    /// means 400.
    pub tab_width: Option<i64>,
    /// Maximum width of the text; unset means no wrapping.
    pub max_horizontal_width: Option<PixelValue>,
    /// How many pixels of leading the first line has; unset means 0.
    pub leading: Option<PixelValue>,
    /// Rectangles punched out of the text flow (for floated content).
    /// Reserved: no algorithm consumes them yet.
    pub holes: Vec<LayoutRect>,
}

impl TextLayoutOptions {
    pub open spec fn wf(self) -> bool {
        &&& self.font_size_px.wf()
        &&& 0 < self.font_size_px.spec_px() <= MAX_FONT_PX as int
        &&& match self.line_height {
            Option::Some(v) => 0 <= v <= MAX_HUNDREDTHS as int,
            Option::None => true,
        }
        &&& match self.letter_spacing {
            Option::Some(v) => v.wf() && v.spec_px() <= MAX_WORD_PX as int,
            Option::None => true,
        }
        &&& match self.word_spacing {
            Option::Some(v) => 0 <= v <= MAX_HUNDREDTHS as int,
            Option::None => true,
        }
        &&& match self.tab_width {
            Option::Some(v) => 0 <= v <= MAX_HUNDREDTHS as int,
            Option::None => true,
        }
        &&& match self.max_horizontal_width {
            Option::Some(v) => v.wf(),
            Option::None => true,
        }
        &&& match self.leading {
            Option::Some(v) => v.wf(),
            Option::None => true,
        }
    }

    /// Resolves every pixel quantity to whole pixels, keeping the
    /// multipliers and the reserved holes as they are.
    pub fn to_resolved(&self) -> (r: ResolvedTextLayoutOptions)
        requires
            self.wf(),
        ensures
            r.font_size_px as int == self.font_size_px.spec_px(),
            r.line_height == self.line_height,
            r.word_spacing == self.word_spacing,
            r.tab_width == self.tab_width,
            match (self.letter_spacing, r.letter_spacing) {
                (Option::Some(v), Option::Some(p)) => p as int == v.spec_px(),
                (Option::None, Option::None) => true,
                _ => false,
            },
            match (self.max_horizontal_width, r.max_horizontal_width) {
                (Option::Some(v), Option::Some(p)) => p as int == v.spec_px(),
                (Option::None, Option::None) => true,
                _ => false,
            },
            match (self.leading, r.leading) {
                (Option::Some(v), Option::Some(p)) => p as int == v.spec_px(),
                (Option::None, Option::None) => true,
                _ => false,
            },
            r.holes@ == self.holes@,
            r.wf(),
    {
        ResolvedTextLayoutOptions {
            font_size_px: self.font_size_px.to_px(),
            line_height: self.line_height,
            letter_spacing: match &self.letter_spacing {
                Some(v) => Some(v.to_px()),
                None => None,
            },
            word_spacing: self.word_spacing,
            tab_width: self.tab_width,
            max_horizontal_width: match &self.max_horizontal_width {
                Some(v) => Some(v.to_px()),
                None => None,
            },
            leading: match &self.leading {
                Some(v) => Some(v.to_px()),
                None => None,
            },
            holes: self.holes.clone(),
        }
    }
}

impl Default for TextLayoutOptions {
    /// The default unresolved options: 16px font, no wrapping, all
    /// multipliers at their documented defaults.
    fn default() -> (r: Self)
        ensures
            r.font_size_px.thousandths == 1000 * DEFAULT_FONT_SIZE_PX,
            r.line_height is None,
            r.letter_spacing is None,
            r.word_spacing is None,
            r.tab_width is None,
            r.max_horizontal_width is None,
            r.leading is None,
            r.holes@ == Seq::<LayoutRect>::empty(),
            r.wf(),
    {
        let r = TextLayoutOptions {
            font_size_px: PixelValue { thousandths: 1000 * DEFAULT_FONT_SIZE_PX },
            line_height: None,
            letter_spacing: None,
            word_spacing: None,
            tab_width: None,
            max_horizontal_width: None,
            leading: None,
            holes: Vec::new(),
        };
        proof {
            assert(r.font_size_px.spec_px() == 16);
        }
        r
    }
}

} // verus!
