//! The box-model solver's per-node output: positioning schemes, overflow
//! bookkeeping and the positioned rectangle with its derived boxes.

use vstd::prelude::*;

use crate::geometry::{px_wf, LayoutPoint, LayoutRect, LayoutSize, ResolvedOffsets, MAX_PX};
use crate::text_layout::{InlineTextLayout, ResolvedTextLayoutOptions};

verus! {

/// Positioning scheme of one node.  Every variant carries the resolved
/// offset of the node and the static (pre-offset flow) position.
#[derive(Debug, Copy, Clone, PartialEq, Eq, Structural)]
pub enum PositionInfo {
    Static { x_offset: i64, y_offset: i64, static_x_offset: i64, static_y_offset: i64 },
    Fixed { x_offset: i64, y_offset: i64, static_x_offset: i64, static_y_offset: i64 },
    Absolute { x_offset: i64, y_offset: i64, static_x_offset: i64, static_y_offset: i64 },
    Relative { x_offset: i64, y_offset: i64, static_x_offset: i64, static_y_offset: i64 },
}

impl PositionInfo {
    pub open spec fn spec_x_offset(self) -> int {
        match self {
            PositionInfo::Static { x_offset, .. } => x_offset as int,
            PositionInfo::Fixed { x_offset, .. } => x_offset as int,
            PositionInfo::Absolute { x_offset, .. } => x_offset as int,
            PositionInfo::Relative { x_offset, .. } => x_offset as int,
        }
    }

    pub open spec fn spec_y_offset(self) -> int {
        match self {
            PositionInfo::Static { y_offset, .. } => y_offset as int,
            PositionInfo::Fixed { y_offset, .. } => y_offset as int,
            PositionInfo::Absolute { y_offset, .. } => y_offset as int,
            PositionInfo::Relative { y_offset, .. } => y_offset as int,
        }
    }

    pub open spec fn spec_static_x_offset(self) -> int {
        match self {
            PositionInfo::Static { static_x_offset, .. } => static_x_offset as int,
            PositionInfo::Fixed { static_x_offset, .. } => static_x_offset as int,
            PositionInfo::Absolute { static_x_offset, .. } => static_x_offset as int,
            PositionInfo::Relative { static_x_offset, .. } => static_x_offset as int,
        }
    }

    pub open spec fn spec_static_y_offset(self) -> int {
        match self {
            PositionInfo::Static { static_y_offset, .. } => static_y_offset as int,
            PositionInfo::Fixed { static_y_offset, .. } => static_y_offset as int,
            PositionInfo::Absolute { static_y_offset, .. } => static_y_offset as int,
            PositionInfo::Relative { static_y_offset, .. } => static_y_offset as int,
        }
    }

    pub open spec fn wf(self) -> bool {
        &&& px_wf(self.spec_x_offset())
        &&& px_wf(self.spec_y_offset())
        &&& px_wf(self.spec_static_x_offset())
        &&& px_wf(self.spec_static_y_offset())
    }

    /// A node is "positioned" under every scheme but the static one.
    pub open spec fn spec_is_positioned(self) -> bool {
        !(self is Static)
    }

    pub fn is_positioned(&self) -> (r: bool)
        ensures
            r == self.spec_is_positioned(),
    {
        match self {
            PositionInfo::Static { .. } => false,
            PositionInfo::Fixed { .. } => true,
            PositionInfo::Absolute { .. } => true,
            PositionInfo::Relative { .. } => true,
        }
    }

    /// The same scheme with the main offsets moved by `(dx, dy)`; the
    /// static offsets do not move.
    pub open spec fn spec_shifted(self, dx: int, dy: int) -> PositionInfo {
        match self {
            PositionInfo::Static { x_offset, y_offset, static_x_offset, static_y_offset } =>
                PositionInfo::Static {
                    x_offset: (x_offset + dx) as i64,
                    y_offset: (y_offset + dy) as i64,
                    static_x_offset,
                    static_y_offset,
                },
            PositionInfo::Fixed { x_offset, y_offset, static_x_offset, static_y_offset } =>
                PositionInfo::Fixed {
                    x_offset: (x_offset + dx) as i64,
                    y_offset: (y_offset + dy) as i64,
                    static_x_offset,
                    static_y_offset,
                },
            PositionInfo::Absolute { x_offset, y_offset, static_x_offset, static_y_offset } =>
                PositionInfo::Absolute {
                    x_offset: (x_offset + dx) as i64,
                    y_offset: (y_offset + dy) as i64,
                    static_x_offset,
                    static_y_offset,
                },
            PositionInfo::Relative { x_offset, y_offset, static_x_offset, static_y_offset } =>
                PositionInfo::Relative {
                    x_offset: (x_offset + dx) as i64,
                    y_offset: (y_offset + dy) as i64,
                    static_x_offset,
                    static_y_offset,
                },
        }
    }
}

/// How much the children overflow the node on one axis, together with the
/// node's overflow mode on that axis.
///
/// `amount: None` means the node has no children, so no overflow can be
/// measured; that is distinct from a measured amount of zero.  A
/// non-positive amount means the children do not overflow the node.  A
/// positive amount is by how many pixels the content exceeds the
/// container.
#[derive(Debug, Copy, Clone, PartialEq, Eq, Structural)]
pub enum DirectionalOverflowInfo {
    Scroll { amount: Option<i64> },
    Auto { amount: Option<i64> },
    Hidden { amount: Option<i64> },
    Visible { amount: Option<i64> },
}

impl Default for DirectionalOverflowInfo {
    fn default() -> (r: DirectionalOverflowInfo)
        ensures
            r == (DirectionalOverflowInfo::Auto { amount: Option::<i64>::None }),
    {
        DirectionalOverflowInfo::Auto { amount: None }
    }
}

impl DirectionalOverflowInfo {
    pub open spec fn spec_amount(self) -> Option<i64> {
        match self {
            DirectionalOverflowInfo::Scroll { amount } => amount,
            DirectionalOverflowInfo::Auto { amount } => amount,
            DirectionalOverflowInfo::Hidden { amount } => amount,
            DirectionalOverflowInfo::Visible { amount } => amount,
        }
    }

    pub fn get_amount(&self) -> (r: Option<i64>)
        ensures
            r == self.spec_amount(),
    {
        match self {
            DirectionalOverflowInfo::Scroll { amount: Some(s) } => Some(*s),
            DirectionalOverflowInfo::Auto { amount: Some(s) } => Some(*s),
            DirectionalOverflowInfo::Hidden { amount: Some(s) } => Some(*s),
            DirectionalOverflowInfo::Visible { amount: Some(s) } => Some(*s),
            _ => None,
        }
    }

    /// "No overflow": either nothing was measured or the measured amount
    /// is non-positive.  No scrollbar is needed in either case.
    pub open spec fn spec_is_negative(self) -> bool {
        match self.spec_amount() {
            Option::Some(s) => s <= 0,
            Option::None => true,
        }
    }

    pub fn is_negative(&self) -> (r: bool)
        ensures
            r == self.spec_is_negative(),
    {
        match self.get_amount() {
            Some(s) => s <= 0,
            None => true,
        }
    }

    pub open spec fn spec_is_none(self) -> bool {
        self.spec_amount() is None
    }

    pub fn is_none(&self) -> (r: bool)
        ensures
            r == self.spec_is_none(),
    {
        match self.get_amount() {
            Some(_) => false,
            None => true,
        }
    }

    pub open spec fn wf(self) -> bool {
        match self.spec_amount() {
            Option::Some(a) => -9 * (MAX_PX as int) <= a <= 9 * (MAX_PX as int),
            Option::None => true,
        }
    }
}

/// Per-axis overflow of one node.
#[derive(Debug, Default, Copy, Clone, PartialEq, Eq, Structural)]
pub struct OverflowInfo {
    pub overflow_x: DirectionalOverflowInfo,
    pub overflow_y: DirectionalOverflowInfo,
}

/// The overflow mode one axis of a node's style asks for, before any
/// amount has been measured.
#[derive(Debug, Copy, Clone, PartialEq, Eq, Structural)]
pub enum OverflowMode {
    Scroll,
    Auto,
    Hidden,
    Visible,
}

/// The directional overflow that mode `mode` resolves to when the
/// container's content extent is `container` and the union of the
/// children's margin-box extents is `children` (`None`: no children).
pub open spec fn spec_resolve_overflow(
    mode: OverflowMode,
    container: int,
    children: Option<i64>,
) -> DirectionalOverflowInfo {
    let amount = match children {
        Option::Some(c) => Option::Some((c - container) as i64),
        Option::None => Option::<i64>::None,
    };
    match mode {
        OverflowMode::Scroll => DirectionalOverflowInfo::Scroll { amount },
        OverflowMode::Auto => DirectionalOverflowInfo::Auto { amount },
        OverflowMode::Hidden => DirectionalOverflowInfo::Hidden { amount },
        OverflowMode::Visible => DirectionalOverflowInfo::Visible { amount },
    }
}

/// Resolves the overflow of one axis: the measured amount is the
/// children's combined extent minus the container's extent, and `None`
/// when the node has no children.
pub fn resolve_directional_overflow(
    mode: OverflowMode,
    container_extent: i64,
    children_extent: Option<i64>,
) -> (r: DirectionalOverflowInfo)
    requires
        px_wf(container_extent as int),
        match children_extent {
            Option::Some(c) => -8 * (MAX_PX as int) <= c <= 8 * (MAX_PX as int),
            Option::None => true,
        },
    ensures
        r == spec_resolve_overflow(mode, container_extent as int, children_extent),
        r.wf(),
    {
    let amount = match children_extent {
        Some(c) => Some(c - container_extent),
        None => None,
    };
    match mode {
        OverflowMode::Scroll => DirectionalOverflowInfo::Scroll { amount },
        OverflowMode::Auto => DirectionalOverflowInfo::Auto { amount },
        OverflowMode::Hidden => DirectionalOverflowInfo::Hidden { amount },
        OverflowMode::Visible => DirectionalOverflowInfo::Visible { amount },
    }
}

/// Law: with a container of content extent `w` and children of combined
/// margin-box extent `c`, the resolved overflow amount is exactly
/// `c - w`; when `c <= w` the amount is non-positive and counts as "no
/// overflow"; with no children the amount is `None`, not zero.
pub proof fn lemma_overflow_sign_convention(mode: OverflowMode, w: int, c: Option<i64>)
    requires
        px_wf(w),
        match c {
            Option::Some(cc) => -8 * (MAX_PX as int) <= cc <= 8 * (MAX_PX as int),
            Option::None => true,
        },
    ensures
        match c {
            Option::Some(cc) => spec_resolve_overflow(mode, w, c).spec_amount() == Option::Some(
                (cc - w) as i64,
            ),
            Option::None => spec_resolve_overflow(mode, w, c).spec_is_none(),
        },
        (match c {
            Option::Some(cc) => cc <= w,
            Option::None => true,
        }) ==> spec_resolve_overflow(mode, w, c).spec_is_negative(),
{
}

/// Final geometry of one layout-tree node.
#[derive(Debug, Clone, PartialEq)]
pub struct PositionedRectangle {
    /// Outer bounds of the rectangle.
    pub size: LayoutSize,
    /// How the rectangle is positioned.
    pub position: PositionInfo,
    /// Padding of the rectangle.
    pub padding: ResolvedOffsets,
    /// Margin of the rectangle.
    pub margin: ResolvedOffsets,
    /// Border widths of the rectangle.
    pub border_widths: ResolvedOffsets,
    /// For an inline rectangle, the resolved text layout options, the
    /// laid-out lines, and the rectangle of the text's bounds.
    pub resolved_text_layout_options: Option<(ResolvedTextLayoutOptions, InlineTextLayout, LayoutRect)>,
    /// Whether and by how much the children overflow this rectangle.
    pub overflow: OverflowInfo,
}

impl Default for PositionedRectangle {
    fn default() -> (r: Self)
        ensures
            r.size == (LayoutSize { width: 0i64, height: 0i64 }),
            r.position == (PositionInfo::Static {
                x_offset: 0i64,
                y_offset: 0i64,
                static_x_offset: 0i64,
                static_y_offset: 0i64,
            }),
            r.padding == (ResolvedOffsets { top: 0i64, left: 0i64, right: 0i64, bottom: 0i64 }),
            r.margin == (ResolvedOffsets { top: 0i64, left: 0i64, right: 0i64, bottom: 0i64 }),
            r.border_widths == (ResolvedOffsets {
                top: 0i64,
                left: 0i64,
                right: 0i64,
                bottom: 0i64,
            }),
            r.resolved_text_layout_options is None,
            r.overflow.overflow_x == (DirectionalOverflowInfo::Auto { amount: Option::<i64>::None }),
            r.overflow.overflow_y == (DirectionalOverflowInfo::Auto { amount: Option::<i64>::None }),
            r.wf(),
    {
        PositionedRectangle {
            size: LayoutSize::zero(),
            position: PositionInfo::Static {
                x_offset: 0,
                y_offset: 0,
                static_x_offset: 0,
                static_y_offset: 0,
            },
            padding: ResolvedOffsets::zero(),
            margin: ResolvedOffsets::zero(),
            border_widths: ResolvedOffsets::zero(),
            resolved_text_layout_options: None,
            overflow: OverflowInfo {
                overflow_x: DirectionalOverflowInfo::Auto { amount: None },
                overflow_y: DirectionalOverflowInfo::Auto { amount: None },
            },
        }
    }
}

/// Same as `PositionedRectangle`, but without the text layout payload, so
/// that the struct is `Copy`.
#[derive(Debug, Copy, Clone, PartialEq, Eq, Structural)]
pub struct LayoutedRectangle {
    /// Outer bounds of the rectangle.
    pub size: LayoutSize,
    /// How the rectangle is positioned.
    pub position: PositionInfo,
    /// Padding of the rectangle.
    pub padding: ResolvedOffsets,
    /// Margin of the rectangle.
    pub margin: ResolvedOffsets,
    /// Border widths of the rectangle.
    pub border_widths: ResolvedOffsets,
    /// Whether and by how much the children overflow this rectangle.
    pub overflow: OverflowInfo,
}

impl PositionedRectangle {
    pub open spec fn wf(self) -> bool {
        &&& self.size.wf()
        &&& self.position.wf()
        &&& self.padding.wf()
        &&& self.margin.wf()
        &&& self.border_widths.wf()
    }

    /// The margin box is always the additive extent of content, padding,
    /// border and margin.
    pub open spec fn spec_margin_box_width(self) -> int {
        self.size.width + self.padding.spec_total_horizontal()
            + self.border_widths.spec_total_horizontal() + self.margin.spec_total_horizontal()
    }

    pub open spec fn spec_margin_box_height(self) -> int {
        self.size.height + self.padding.spec_total_vertical()
            + self.border_widths.spec_total_vertical() + self.margin.spec_total_vertical()
    }

    /// Only the static and relative schemes expose a pre-offset flow
    /// position; absolute and fixed nodes do not take part in static flow.
    pub open spec fn spec_static_bounds(self) -> Option<LayoutRect> {
        match self.position {
            PositionInfo::Static { static_x_offset, static_y_offset, .. } => Option::Some(
                LayoutRect {
                    origin: LayoutPoint { x: static_x_offset, y: static_y_offset },
                    size: self.size,
                },
            ),
            PositionInfo::Fixed { .. } => Option::None,
            PositionInfo::Absolute { .. } => Option::None,
            PositionInfo::Relative { static_x_offset, static_y_offset, .. } => Option::Some(
                LayoutRect {
                    origin: LayoutPoint { x: static_x_offset, y: static_y_offset },
                    size: self.size,
                },
            ),
        }
    }

    pub fn get_static_bounds(&self) -> (r: Option<LayoutRect>)
        ensures
            r == self.spec_static_bounds(),
    {
        match self.position {
            PositionInfo::Static { static_x_offset, static_y_offset, .. } => Some(
                LayoutRect::new(
                    LayoutPoint::new(static_x_offset, static_y_offset),
                    self.size,
                ),
            ),
            PositionInfo::Fixed { .. } => None,
            PositionInfo::Absolute { .. } => None,
            PositionInfo::Relative { static_x_offset, static_y_offset, .. } => Some(
                LayoutRect::new(
                    LayoutPoint::new(static_x_offset, static_y_offset),
                    self.size,
                ),
            ),
        }
    }

    /// The copyable part of this rectangle: all fields but the text
    /// layout payload, unchanged.
    pub fn to_layouted_rectangle(&self) -> (r: LayoutedRectangle)
        ensures
            r == (LayoutedRectangle {
                size: self.size,
                position: self.position,
                padding: self.padding,
                margin: self.margin,
                border_widths: self.border_widths,
                overflow: self.overflow,
            }),
    {
        LayoutedRectangle {
            size: self.size,
            position: self.position,
            padding: self.padding,
            margin: self.margin,
            border_widths: self.border_widths,
            overflow: self.overflow,
        }
    }

    /// The rectangle where the content itself (for example the text) is
    /// placed.
    pub fn get_content_size(&self) -> (r: LayoutSize)
        ensures
            r == self.size,
    {
        self.size
    }

    /// The size of the background box: the content expanded by padding
    /// and border on each axis.
    pub open spec fn spec_background_size(self) -> LayoutSize {
        LayoutSize {
            width: (self.size.width + self.padding.spec_total_horizontal()
                + self.border_widths.spec_total_horizontal()) as i64,
            height: (self.size.height + self.padding.spec_total_vertical()
                + self.border_widths.spec_total_vertical()) as i64,
        }
    }

    /// The position of the background box: the offsets moved up and left
    /// by padding plus border, so the box aligns with the border edge
    /// under every positioning scheme.
    pub open spec fn spec_background_position(self) -> PositionInfo {
        self.position.spec_shifted(
            0 - self.padding.left - self.border_widths.left,
            0 - self.padding.top - self.border_widths.top,
        )
    }

    /// The bounds that a background fill covers: the content size
    /// expanded by padding and border, positioned so that it starts at
    /// the border edge.
    pub fn get_background_bounds(&self) -> (r: (LayoutSize, PositionInfo))
        requires
            self.wf(),
        ensures
            r.0 == self.spec_background_size(),
            r.1 == self.spec_background_position(),
    {
        let b_size = LayoutSize {
            width: self.size.width + self.padding.total_horizontal()
                + self.border_widths.total_horizontal(),
            height: self.size.height + self.padding.total_vertical()
                + self.border_widths.total_vertical(),
        };
        let x_offset_add = 0 - self.padding.left - self.border_widths.left;
        let y_offset_add = 0 - self.padding.top - self.border_widths.top;
        let b_position = match self.position {
            PositionInfo::Static { x_offset, y_offset, static_x_offset, static_y_offset } =>
                PositionInfo::Static {
                x_offset: x_offset + x_offset_add,
                y_offset: y_offset + y_offset_add,
                static_x_offset,
                static_y_offset,
            },
            PositionInfo::Fixed { x_offset, y_offset, static_x_offset, static_y_offset } =>
                PositionInfo::Fixed {
                x_offset: x_offset + x_offset_add,
                y_offset: y_offset + y_offset_add,
                static_x_offset,
                static_y_offset,
            },
            PositionInfo::Absolute { x_offset, y_offset, static_x_offset, static_y_offset } =>
                PositionInfo::Absolute {
                x_offset: x_offset + x_offset_add,
                y_offset: y_offset + y_offset_add,
                static_x_offset,
                static_y_offset,
            },
            PositionInfo::Relative { x_offset, y_offset, static_x_offset, static_y_offset } =>
                PositionInfo::Relative {
                x_offset: x_offset + x_offset_add,
                y_offset: y_offset + y_offset_add,
                static_x_offset,
                static_y_offset,
            },
        };
        (b_size, b_position)
    }

    /// Content width plus the horizontal padding, border and margin.
    pub fn get_margin_box_width(&self) -> (r: i64)
        requires
            self.wf(),
        ensures
            r as int == self.spec_margin_box_width(),
    {
        self.size.width + self.padding.total_horizontal() + self.border_widths.total_horizontal()
            + self.margin.total_horizontal()
    }

    /// Content height plus the vertical padding, border and margin.
    pub fn get_margin_box_height(&self) -> (r: i64)
        requires
            self.wf(),
        ensures
            r as int == self.spec_margin_box_height(),
    {
        self.size.height + self.padding.total_vertical() + self.border_widths.total_vertical()
            + self.margin.total_vertical()
    }

    /// How far the content is inset from the left margin edge.
    pub fn get_left_leading(&self) -> (r: i64)
        requires
            self.wf(),
        ensures
            r as int == self.margin.left + self.padding.left + self.border_widths.left,
    {
        self.margin.left + self.padding.left + self.border_widths.left
    }

    /// How far the content is inset from the top margin edge.
    pub fn get_top_leading(&self) -> (r: i64)
        requires
            self.wf(),
        ensures
            r as int == self.margin.top + self.padding.top + self.border_widths.top,
    {
        self.margin.top + self.padding.top + self.border_widths.top
    }
}

/// Law: for every well-formed positioned rectangle the margin-box width
/// is the sum of the content width and the left and right padding,
/// border and margin; the same holds of the height on the vertical axis.
pub proof fn lemma_margin_box_additivity(r: PositionedRectangle)
    ensures
        r.spec_margin_box_width() == r.size.width + r.padding.left + r.padding.right
            + r.border_widths.left + r.border_widths.right + r.margin.left + r.margin.right,
        r.spec_margin_box_height() == r.size.height + r.padding.top + r.padding.bottom
            + r.border_widths.top + r.border_widths.bottom + r.margin.top + r.margin.bottom,
{
}

/// The farthest right edge that any child's margin box reaches, measured
/// from the parent's content origin: the horizontal extent of the union
/// of the children's margin boxes.
pub open spec fn spec_children_extent_x(s: Seq<PositionedRectangle>, n: int) -> int
    recommends
        0 < n <= s.len(),
    decreases n,
{
    let this = s[n - 1].position.spec_x_offset() + s[n - 1].spec_margin_box_width();
    if n <= 1 {
        this
    } else {
        let rest = spec_children_extent_x(s, n - 1);
        if this > rest {
            this
        } else {
            rest
        }
    }
}

/// The farthest bottom edge that any child's margin box reaches.
pub open spec fn spec_children_extent_y(s: Seq<PositionedRectangle>, n: int) -> int
    recommends
        0 < n <= s.len(),
    decreases n,
{
    let this = s[n - 1].position.spec_y_offset() + s[n - 1].spec_margin_box_height();
    if n <= 1 {
        this
    } else {
        let rest = spec_children_extent_y(s, n - 1);
        if this > rest {
            this
        } else {
            rest
        }
    }
}

pub open spec fn children_wf(s: Seq<PositionedRectangle>) -> bool {
    forall|i: int| 0 <= i < s.len() ==> #[trigger] s[i].wf()
}

proof fn lemma_children_extent_bounds(s: Seq<PositionedRectangle>, n: int)
    requires
        children_wf(s),
        0 < n <= s.len(),
    ensures
        -(MAX_PX as int) <= spec_children_extent_x(s, n) <= 2 * (MAX_PX as int) + 6 * (
        MAX_PX as int),
        -(MAX_PX as int) <= spec_children_extent_y(s, n) <= 2 * (MAX_PX as int) + 6 * (
        MAX_PX as int),
    decreases n,
{
    assert(s[n - 1].wf());
    if n > 1 {
        lemma_children_extent_bounds(s, n - 1);
    }
}

/// Measures both children extents: `None` when there are no children.
pub fn get_children_extents(children: &Vec<PositionedRectangle>) -> (r: Option<(i64, i64)>)
    requires
        children_wf(children@),
    ensures
        children@.len() == 0 ==> r is None,
        children@.len() > 0 ==> r == Option::Some(
            (
                spec_children_extent_x(children@, children@.len() as int) as i64,
                spec_children_extent_y(children@, children@.len() as int) as i64,
            ),
        ),
{
    if children.len() == 0 {
        return None;
    }
    let mut max_x: i64 = 0;
    let mut max_y: i64 = 0;
    let mut i: usize = 0;
    while i < children.len()
        invariant
            0 <= i <= children@.len(),
            children@.len() > 0,
            children_wf(children@),
            i > 0 ==> max_x as int == spec_children_extent_x(children@, i as int),
            i > 0 ==> max_y as int == spec_children_extent_y(children@, i as int),
        decreases children@.len() - i,
    {
        proof {
            assert(children@[i as int].wf());
            if i > 0 {
                lemma_children_extent_bounds(children@, i as int);
            }
        }
        let child = &children[i];
        let x_off = match child.position {
            PositionInfo::Static { x_offset, .. } => x_offset,
            PositionInfo::Fixed { x_offset, .. } => x_offset,
            PositionInfo::Absolute { x_offset, .. } => x_offset,
            PositionInfo::Relative { x_offset, .. } => x_offset,
        };
        let y_off = match child.position {
            PositionInfo::Static { y_offset, .. } => y_offset,
            PositionInfo::Fixed { y_offset, .. } => y_offset,
            PositionInfo::Absolute { y_offset, .. } => y_offset,
            PositionInfo::Relative { y_offset, .. } => y_offset,
        };
        let this_x = x_off + child.get_margin_box_width();
        let this_y = y_off + child.get_margin_box_height();
        if i == 0 {
            max_x = this_x;
            max_y = this_y;
        } else {
            if this_x > max_x {
                max_x = this_x;
            }
            if this_y > max_y {
                max_y = this_y;
            }
        }
        i += 1;
    }
    Some((max_x, max_y))
}

/// Resolves the overflow of one node on both axes from its content size
/// and its children's combined margin-box extents.
pub fn resolve_overflow(
    mode_x: OverflowMode,
    mode_y: OverflowMode,
    content_size: &LayoutSize,
    children: &Vec<PositionedRectangle>,
) -> (r: OverflowInfo)
    requires
        content_size.wf(),
        children_wf(children@),
    ensures
        children@.len() == 0 ==> r == (OverflowInfo {
            overflow_x: spec_resolve_overflow(mode_x, content_size.width as int, Option::None),
            overflow_y: spec_resolve_overflow(mode_y, content_size.height as int, Option::None),
        }),
        children@.len() > 0 ==> r == (OverflowInfo {
            overflow_x: spec_resolve_overflow(
                mode_x,
                content_size.width as int,
                Option::Some(spec_children_extent_x(children@, children@.len() as int) as i64),
            ),
            overflow_y: spec_resolve_overflow(
                mode_y,
                content_size.height as int,
                Option::Some(spec_children_extent_y(children@, children@.len() as int) as i64),
            ),
        }),
        r.overflow_x.wf(),
        r.overflow_y.wf(),
{
    proof {
        if children@.len() > 0 {
            lemma_children_extent_bounds(children@, children@.len() as int);
        }
    }
    let (ext_x, ext_y) = match get_children_extents(children) {
        Some((x, y)) => (Some(x), Some(y)),
        None => (None, None),
    };
    OverflowInfo {
        overflow_x: resolve_directional_overflow(mode_x, content_size.width, ext_x),
        overflow_y: resolve_directional_overflow(mode_y, content_size.height, ext_y),
    }
}

} // verus!
