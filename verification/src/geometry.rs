//! Plain rectangle geometry: points, sizes, rectangles and four-sided
//! box edges, all in whole pixels.

use vstd::prelude::*;

verus! {

/// Largest magnitude a well-formed pixel coordinate or dimension may have.
///
/// The bound (2^50) leaves enough headroom in `i64` that every sum the
/// solver forms out of a handful of well-formed quantities is free of
/// overflow.
pub const MAX_PX: i64 = 0x0004_0000_0000_0000;

/// Bound (2^54) on the coordinates of freshly laid-out line boxes.
pub const LINE_PX: i64 = 0x0040_0000_0000_0000;

/// Bound (2^58) on line coordinates after horizontal alignment.
pub const SHIFTED_PX: i64 = 0x0400_0000_0000_0000;

/// Loosest coordinate bound (2^61) under which the geometry helpers still
/// compute without overflow.  Alignment passes may push coordinates past
/// `MAX_PX`, but never past this.
pub const ABS_PX: i64 = 0x2000_0000_0000_0000;

/// `v` lies within `[-b, b]`.
pub open spec fn px_bounded(v: int, b: int) -> bool {
    -b <= v <= b
}

/// A pixel quantity small enough to take part in the solver's sums.
pub open spec fn px_wf(v: int) -> bool {
    px_bounded(v, MAX_PX as int)
}

#[derive(Debug, Copy, Clone, PartialEq, Eq, Structural)]
pub struct LayoutPoint {
    pub x: i64,
    pub y: i64,
}

#[derive(Debug, Copy, Clone, PartialEq, Eq, Structural)]
pub struct LayoutSize {
    pub width: i64,
    pub height: i64,
}

/// An axis-aligned rectangle, given by its top-left origin and its size.
#[derive(Debug, Copy, Clone, PartialEq, Eq, Structural)]
pub struct LayoutRect {
    pub origin: LayoutPoint,
    pub size: LayoutSize,
}

impl LayoutPoint {
    pub open spec fn bounded(self, b: int) -> bool {
        px_bounded(self.x as int, b) && px_bounded(self.y as int, b)
    }

    pub open spec fn wf(self) -> bool {
        self.bounded(MAX_PX as int)
    }

    pub fn new(x: i64, y: i64) -> (r: Self)
        ensures
            r == (LayoutPoint { x, y }),
    {
        LayoutPoint { x, y }
    }

    pub fn zero() -> (r: Self)
        ensures
            r == (LayoutPoint { x: 0i64, y: 0i64 }),
    {
        LayoutPoint { x: 0, y: 0 }
    }
}

impl LayoutSize {
    /// Sizes are never negative.
    pub open spec fn bounded(self, b: int) -> bool {
        0 <= self.width <= b && 0 <= self.height <= b
    }

    pub open spec fn wf(self) -> bool {
        self.bounded(MAX_PX as int)
    }

    pub fn new(width: i64, height: i64) -> (r: Self)
        ensures
            r == (LayoutSize { width, height }),
    {
        LayoutSize { width, height }
    }

    pub fn zero() -> (r: Self)
        ensures
            r == (LayoutSize { width: 0i64, height: 0i64 }),
    {
        LayoutSize { width: 0, height: 0 }
    }
}

impl LayoutRect {
    pub open spec fn bounded(self, b: int) -> bool {
        self.origin.bounded(b) && self.size.bounded(b)
    }

    pub open spec fn wf(self) -> bool {
        self.bounded(MAX_PX as int)
    }

    /// Right edge of the rectangle.
    pub open spec fn spec_max_x(self) -> int {
        self.origin.x + self.size.width
    }

    /// Bottom edge of the rectangle.
    pub open spec fn spec_max_y(self) -> int {
        self.origin.y + self.size.height
    }

    pub fn new(origin: LayoutPoint, size: LayoutSize) -> (r: Self)
        ensures
            r == (LayoutRect { origin, size }),
    {
        LayoutRect { origin, size }
    }

    pub fn zero() -> (r: Self)
        ensures
            r == spec_rect_zero(),
    {
        LayoutRect { origin: LayoutPoint { x: 0, y: 0 }, size: LayoutSize { width: 0, height: 0 } }
    }

    pub fn max_x(&self) -> (r: i64)
        requires
            self.bounded(ABS_PX as int),
        ensures
            r as int == self.spec_max_x(),
    {
        self.origin.x + self.size.width
    }

    pub fn max_y(&self) -> (r: i64)
        requires
            self.bounded(ABS_PX as int),
        ensures
            r as int == self.spec_max_y(),
    {
        self.origin.y + self.size.height
    }
}

pub open spec fn spec_rect_zero() -> LayoutRect {
    LayoutRect {
        origin: LayoutPoint { x: 0i64, y: 0i64 },
        size: LayoutSize { width: 0i64, height: 0i64 },
    }
}

/// Smallest x coordinate among the first `n` rectangles.
pub open spec fn min_left(s: Seq<LayoutRect>, n: int) -> int
    recommends
        0 < n <= s.len(),
    decreases n,
{
    if n <= 1 {
        s[0].origin.x as int
    } else {
        let rest = min_left(s, n - 1);
        if s[n - 1].origin.x < rest {
            s[n - 1].origin.x as int
        } else {
            rest
        }
    }
}

/// Smallest y coordinate among the first `n` rectangles.
pub open spec fn min_top(s: Seq<LayoutRect>, n: int) -> int
    recommends
        0 < n <= s.len(),
    decreases n,
{
    if n <= 1 {
        s[0].origin.y as int
    } else {
        let rest = min_top(s, n - 1);
        if s[n - 1].origin.y < rest {
            s[n - 1].origin.y as int
        } else {
            rest
        }
    }
}

/// Largest right edge among the first `n` rectangles.
pub open spec fn max_right(s: Seq<LayoutRect>, n: int) -> int
    recommends
        0 < n <= s.len(),
    decreases n,
{
    if n <= 1 {
        s[0].spec_max_x()
    } else {
        let rest = max_right(s, n - 1);
        if s[n - 1].spec_max_x() > rest {
            s[n - 1].spec_max_x()
        } else {
            rest
        }
    }
}

/// Largest bottom edge among the first `n` rectangles.
pub open spec fn max_bottom(s: Seq<LayoutRect>, n: int) -> int
    recommends
        0 < n <= s.len(),
    decreases n,
{
    if n <= 1 {
        s[0].spec_max_y()
    } else {
        let rest = max_bottom(s, n - 1);
        if s[n - 1].spec_max_y() > rest {
            s[n - 1].spec_max_y()
        } else {
            rest
        }
    }
}

/// The union of a non-empty sequence of rectangles: the smallest rectangle
/// containing them all.
pub open spec fn spec_union(s: Seq<LayoutRect>) -> LayoutRect
    recommends
        s.len() > 0,
{
    let n = s.len() as int;
    LayoutRect {
        origin: LayoutPoint { x: min_left(s, n) as i64, y: min_top(s, n) as i64 },
        size: LayoutSize {
            width: (max_right(s, n) - min_left(s, n)) as i64,
            height: (max_bottom(s, n) - min_top(s, n)) as i64,
        },
    }
}

/// The union of a sequence of rectangles, or the zero rectangle when the
/// sequence is empty.
pub open spec fn spec_bounds(s: Seq<LayoutRect>) -> LayoutRect {
    if s.len() == 0 {
        spec_rect_zero()
    } else {
        spec_union(s)
    }
}

/// Every rectangle in `s` has coordinates within `[-b, b]` and sizes
/// within `[0, b]`.
pub open spec fn rects_bounded(s: Seq<LayoutRect>, b: int) -> bool {
    forall|i: int| 0 <= i < s.len() ==> #[trigger] s[i].bounded(b)
}

/// Every coordinate of every rectangle in `s` is well formed.
pub open spec fn rects_wf(s: Seq<LayoutRect>) -> bool {
    rects_bounded(s, MAX_PX as int)
}

pub proof fn lemma_rects_bounded_widen(s: Seq<LayoutRect>, b1: int, b2: int)
    requires
        rects_bounded(s, b1),
        b1 <= b2,
    ensures
        rects_bounded(s, b2),
{
    assert forall|i: int| 0 <= i < s.len() implies #[trigger] s[i].bounded(b2) by {
        assert(s[i].bounded(b1));
    }
}

/// The prefix extrema stay within `[-b, 2 * b]` for rectangles bounded by
/// `b`, and the minima never exceed the corresponding maxima.
pub proof fn lemma_extrema_bounds(s: Seq<LayoutRect>, n: int, b: int)
    requires
        rects_bounded(s, b),
        0 < n <= s.len(),
        0 <= b,
    ensures
        -b <= min_left(s, n) <= b,
        -b <= min_top(s, n) <= b,
        min_left(s, n) <= max_right(s, n) <= 2 * b,
        min_top(s, n) <= max_bottom(s, n) <= 2 * b,
    decreases n,
{
    assert(s[0].bounded(b));
    assert(s[n - 1].bounded(b));
    if n > 1 {
        lemma_extrema_bounds(s, n - 1, b);
    }
}

/// Every rectangle of the prefix lies inside the prefix extrema.
pub proof fn lemma_extrema_contain(s: Seq<LayoutRect>, n: int, i: int)
    requires
        0 <= i < n <= s.len(),
    ensures
        min_left(s, n) <= s[i].origin.x,
        min_top(s, n) <= s[i].origin.y,
        s[i].spec_max_x() <= max_right(s, n),
        s[i].spec_max_y() <= max_bottom(s, n),
    decreases n,
{
    if i < n - 1 {
        lemma_extrema_contain(s, n - 1, i);
    }
}

/// Computes the union of all rectangles in `rects`, `None` when there are
/// none.
pub fn union_rects(rects: &Vec<LayoutRect>) -> (r: Option<LayoutRect>)
    requires
        rects_bounded(rects@, ABS_PX as int),
    ensures
        rects@.len() == 0 ==> r is None,
        rects@.len() > 0 ==> r == Some(spec_union(rects@)),
{
    if rects.len() == 0 {
        return None;
    }
    proof {
        assert(rects@[0].bounded(ABS_PX as int));
    }
    let first = rects[0];
    let mut left: i64 = first.origin.x;
    let mut top: i64 = first.origin.y;
    let mut right: i64 = first.max_x();
    let mut bottom: i64 = first.max_y();
    let mut i: usize = 1;
    while i < rects.len()
        invariant
            1 <= i <= rects@.len(),
            rects@.len() > 0,
            rects_bounded(rects@, ABS_PX as int),
            left as int == min_left(rects@, i as int),
            top as int == min_top(rects@, i as int),
            right as int == max_right(rects@, i as int),
            bottom as int == max_bottom(rects@, i as int),
        decreases rects@.len() - i,
    {
        proof {
            assert(rects@[i as int].bounded(ABS_PX as int));
            lemma_extrema_bounds(rects@, i as int, ABS_PX as int);
        }
        let rect = rects[i];
        if rect.origin.x < left {
            left = rect.origin.x;
        }
        if rect.origin.y < top {
            top = rect.origin.y;
        }
        let rx = rect.max_x();
        if rx > right {
            right = rx;
        }
        let ry = rect.max_y();
        if ry > bottom {
            bottom = ry;
        }
        i += 1;
    }
    proof {
        lemma_extrema_bounds(rects@, rects@.len() as int, ABS_PX as int);
    }
    Some(
        LayoutRect {
            origin: LayoutPoint { x: left, y: top },
            size: LayoutSize { width: right - left, height: bottom - top },
        },
    )
}

/// Four-sided edge widths (padding, margin or border of one node).
#[derive(Debug, Default, Copy, Clone, PartialEq, Eq, Structural)]
pub struct ResolvedOffsets {
    pub top: i64,
    pub left: i64,
    pub right: i64,
    pub bottom: i64,
}

impl ResolvedOffsets {
    /// Well-formed edge widths are non-negative and bounded.
    pub open spec fn wf(self) -> bool {
        &&& 0 <= self.top <= MAX_PX as int
        &&& 0 <= self.left <= MAX_PX as int
        &&& 0 <= self.right <= MAX_PX as int
        &&& 0 <= self.bottom <= MAX_PX as int
    }

    pub fn zero() -> (r: Self)
        ensures
            r == (ResolvedOffsets { top: 0i64, left: 0i64, right: 0i64, bottom: 0i64 }),
    {
        ResolvedOffsets { top: 0, left: 0, right: 0, bottom: 0 }
    }

    pub open spec fn spec_total_vertical(self) -> int {
        self.top + self.bottom
    }

    pub open spec fn spec_total_horizontal(self) -> int {
        self.left + self.right
    }

    pub fn total_vertical(&self) -> (r: i64)
        requires
            self.wf(),
        ensures
            r as int == self.spec_total_vertical(),
    {
        self.top + self.bottom
    }

    pub fn total_horizontal(&self) -> (r: i64)
        requires
            self.wf(),
        ensures
            r as int == self.spec_total_horizontal(),
    {
        self.left + self.right
    }
}

} // verus!
