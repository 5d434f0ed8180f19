//! Integer device-pixel geometry used by the widget bookkeeping.
//!
//! All coordinates are whole device pixels stored as `i64`. Values used by
//! widget code are expected to stay within [`COORD_LIMIT`]; rectangles built
//! from them (a layout rectangle inflated by paint insets, unions of such
//! rectangles) then stay within [`RECT_LIMIT`], so none of the arithmetic
//! below can overflow.

use vstd::prelude::*;

verus! {

/// Bound on a single coordinate, size component, inset or baseline offset.
pub const COORD_LIMIT: i64 = 0x1_0000_0000;

/// Bound on the coordinates of a rectangle derived from in-bound values.
pub const RECT_LIMIT: i64 = 0x8_0000_0000;

/// A point, in whole device pixels.
#[derive(Clone, Copy, PartialEq, Eq, Structural, Debug)]
pub struct Point {
    pub x: i64,
    pub y: i64,
}

/// A size, in whole device pixels.
#[derive(Clone, Copy, PartialEq, Eq, Structural, Debug)]
pub struct Size {
    pub width: i64,
    pub height: i64,
}

/// Extra space around a rectangle's four edges, in whole device pixels.
#[derive(Clone, Copy, PartialEq, Eq, Structural, Debug)]
pub struct Insets {
    pub x0: i64,
    pub y0: i64,
    pub x1: i64,
    pub y1: i64,
}

/// An axis-aligned rectangle `[x0, x1) x [y0, y1)`, in whole device pixels.
#[derive(Clone, Copy, PartialEq, Eq, Structural, Debug)]
pub struct Rect {
    pub x0: i64,
    pub y0: i64,
    pub x1: i64,
    pub y1: i64,
}

impl Point {
    /// Both coordinates stay within the coordinate bound.
    pub open spec fn wf(self) -> bool {
        -COORD_LIMIT <= self.x <= COORD_LIMIT && -COORD_LIMIT <= self.y <= COORD_LIMIT
    }

    pub fn new(x: i64, y: i64) -> (r: Point)
        ensures
            r == (Point { x, y }),
    {
        Point { x, y }
    }

    /// The origin, `(0, 0)`.
    pub fn zero() -> (r: Point)
        ensures
            r == (Point { x: 0, y: 0 }),
            r.wf(),
    {
        Point { x: 0, y: 0 }
    }

    /// The componentwise sum of two points, treating `other` as an offset.
    pub open spec fn spec_translate(self, other: Point) -> Point {
        Point { x: (self.x + other.x) as i64, y: (self.y + other.y) as i64 }
    }

    /// Translate this point by `other`.
    pub fn translate(self, other: Point) -> (r: Point)
        requires
            -RECT_LIMIT <= self.x + other.x <= RECT_LIMIT,
            -RECT_LIMIT <= self.y + other.y <= RECT_LIMIT,
        ensures
            r == self.spec_translate(other),
            r.x == self.x + other.x,
            r.y == self.y + other.y,
    {
        Point { x: self.x + other.x, y: self.y + other.y }
    }
}

impl Size {
    /// Non-negative components within the coordinate bound.
    pub open spec fn wf(self) -> bool {
        0 <= self.width <= COORD_LIMIT && 0 <= self.height <= COORD_LIMIT
    }

    pub fn new(width: i64, height: i64) -> (r: Size)
        ensures
            r == (Size { width, height }),
    {
        Size { width, height }
    }

    /// The empty size.
    pub fn zero() -> (r: Size)
        ensures
            r == (Size { width: 0, height: 0 }),
            r.wf(),
    {
        Size { width: 0, height: 0 }
    }
}

impl Insets {
    /// Every component stays within the coordinate bound.
    pub open spec fn wf(self) -> bool {
        &&& -COORD_LIMIT <= self.x0 <= COORD_LIMIT
        &&& -COORD_LIMIT <= self.y0 <= COORD_LIMIT
        &&& -COORD_LIMIT <= self.x1 <= COORD_LIMIT
        &&& -COORD_LIMIT <= self.y1 <= COORD_LIMIT
    }

    /// All components are zero or more: the insets only ever grow a rectangle.
    pub open spec fn nonneg(self) -> bool {
        self.x0 >= 0 && self.y0 >= 0 && self.x1 >= 0 && self.y1 >= 0
    }

    pub fn new(x0: i64, y0: i64, x1: i64, y1: i64) -> (r: Insets)
        ensures
            r == (Insets { x0, y0, x1, y1 }),
    {
        Insets { x0, y0, x1, y1 }
    }

    /// No insets at all.
    pub fn zero() -> (r: Insets)
        ensures
            r == (Insets { x0: 0, y0: 0, x1: 0, y1: 0 }),
            r.wf(),
            r.nonneg(),
    {
        Insets { x0: 0, y0: 0, x1: 0, y1: 0 }
    }

    /// The same insets with every negative component replaced by zero.
    pub open spec fn spec_nonnegative(self) -> Insets {
        Insets {
            x0: if self.x0 >= 0 { self.x0 } else { 0 },
            y0: if self.y0 >= 0 { self.y0 } else { 0 },
            x1: if self.x1 >= 0 { self.x1 } else { 0 },
            y1: if self.y1 >= 0 { self.y1 } else { 0 },
        }
    }

    /// Clamp every component to be zero or more.
    pub fn nonnegative(self) -> (r: Insets)
        ensures
            r == self.spec_nonnegative(),
            self.wf() ==> r.wf(),
            r.nonneg(),
    {
        Insets {
            x0: if self.x0 >= 0 { self.x0 } else { 0 },
            y0: if self.y0 >= 0 { self.y0 } else { 0 },
            x1: if self.x1 >= 0 { self.x1 } else { 0 },
            y1: if self.y1 >= 0 { self.y1 } else { 0 },
        }
    }
}

impl Rect {
    /// Every coordinate stays within the rectangle bound.
    pub open spec fn wf(self) -> bool {
        &&& -RECT_LIMIT <= self.x0 <= RECT_LIMIT
        &&& -RECT_LIMIT <= self.y0 <= RECT_LIMIT
        &&& -RECT_LIMIT <= self.x1 <= RECT_LIMIT
        &&& -RECT_LIMIT <= self.y1 <= RECT_LIMIT
    }

    /// The empty rectangle at the origin.
    pub fn zero() -> (r: Rect)
        ensures
            r == (Rect { x0: 0, y0: 0, x1: 0, y1: 0 }),
            r.wf(),
    {
        Rect { x0: 0, y0: 0, x1: 0, y1: 0 }
    }

    /// The rectangle spanned by `origin` and `size`.
    pub open spec fn spec_from_origin_size(origin: Point, size: Size) -> Rect {
        Rect {
            x0: origin.x,
            y0: origin.y,
            x1: (origin.x + size.width) as i64,
            y1: (origin.y + size.height) as i64,
        }
    }

    pub fn from_origin_size(origin: Point, size: Size) -> (r: Rect)
        requires
            origin.wf(),
            size.wf(),
        ensures
            r == Rect::spec_from_origin_size(origin, size),
            r.wf(),
    {
        Rect {
            x0: origin.x,
            y0: origin.y,
            x1: origin.x + size.width,
            y1: origin.y + size.height,
        }
    }

    /// The rectangle grown outward by `insets`.
    pub open spec fn spec_inflate(self, insets: Insets) -> Rect {
        Rect {
            x0: (self.x0 - insets.x0) as i64,
            y0: (self.y0 - insets.y0) as i64,
            x1: (self.x1 + insets.x1) as i64,
            y1: (self.y1 + insets.y1) as i64,
        }
    }

    /// Grow the rectangle outward by `insets`.
    pub fn inflate(self, insets: Insets) -> (r: Rect)
        requires
            -RECT_LIMIT <= self.x0 - insets.x0 <= RECT_LIMIT,
            -RECT_LIMIT <= self.y0 - insets.y0 <= RECT_LIMIT,
            -RECT_LIMIT <= self.x1 + insets.x1 <= RECT_LIMIT,
            -RECT_LIMIT <= self.y1 + insets.y1 <= RECT_LIMIT,
        ensures
            r == self.spec_inflate(insets),
            r.wf(),
    {
        Rect {
            x0: self.x0 - insets.x0,
            y0: self.y0 - insets.y0,
            x1: self.x1 + insets.x1,
            y1: self.y1 + insets.y1,
        }
    }

    /// The smallest rectangle containing both operands.
    pub open spec fn spec_union(self, other: Rect) -> Rect {
        Rect {
            x0: if self.x0 <= other.x0 { self.x0 } else { other.x0 },
            y0: if self.y0 <= other.y0 { self.y0 } else { other.y0 },
            x1: if self.x1 >= other.x1 { self.x1 } else { other.x1 },
            y1: if self.y1 >= other.y1 { self.y1 } else { other.y1 },
        }
    }

    /// The smallest rectangle containing both `self` and `other`.
    pub fn union(self, other: Rect) -> (r: Rect)
        ensures
            r == self.spec_union(other),
            self.wf() && other.wf() ==> r.wf(),
    {
        Rect {
            x0: if self.x0 <= other.x0 { self.x0 } else { other.x0 },
            y0: if self.y0 <= other.y0 { self.y0 } else { other.y0 },
            x1: if self.x1 >= other.x1 { self.x1 } else { other.x1 },
            y1: if self.y1 >= other.y1 { self.y1 } else { other.y1 },
        }
    }

    /// Whether `p` lies inside the half-open rectangle.
    pub open spec fn spec_contains(self, p: Point) -> bool {
        self.x0 <= p.x < self.x1 && self.y0 <= p.y < self.y1
    }

    /// Whether `p` lies inside the half-open rectangle.
    pub fn contains(self, p: Point) -> (r: bool)
        ensures
            r == self.spec_contains(p),
    {
        self.x0 <= p.x && p.x < self.x1 && self.y0 <= p.y && p.y < self.y1
    }
}

} // verus!
