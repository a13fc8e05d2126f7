//! Points, sizes and rectangles on the integer grid of logical pixels.
//!
//! Arithmetic on coordinates saturates at the bounds of `i32`, so that no
//! coordinate handed in by a client can make the compositor overflow.

use vstd::prelude::*;

verus! {

/// `v` brought into the range of `i32`.
pub open spec fn saturate(v: int) -> i32 {
    if v > i32::MAX {
        i32::MAX
    } else if v < i32::MIN {
        i32::MIN
    } else {
        v as i32
    }
}

/// `a + b`, saturating at the bounds of `i32`.
pub fn saturating_add(a: i32, b: i32) -> (sum: i32)
    ensures
        sum == saturate(a + b),
{
    saturated(a as i64 + b as i64)
}

/// `a - b`, saturating at the bounds of `i32`.
pub fn saturating_sub(a: i32, b: i32) -> (difference: i32)
    ensures
        difference == saturate(a - b),
{
    saturated(a as i64 - b as i64)
}

/// `v` brought into the range of `i32`.
pub fn saturated(v: i64) -> (s: i32)
    ensures
        s == saturate(v as int),
{
    if v > i32::MAX as i64 {
        i32::MAX
    } else if v < i32::MIN as i64 {
        i32::MIN
    } else {
        v as i32
    }
}

/// A point on the integer grid of logical pixels.
#[derive(Debug, Clone, Copy, PartialEq, Eq, Hash, Structural)]
pub struct Point {
    pub x: i32,
    pub y: i32,
}

impl Point {
    /// The point with the given coordinates.
    pub fn new(x: i32, y: i32) -> (p: Point)
        ensures
            p == (Point { x, y }),
    {
        Point { x, y }
    }

    /// The point moved by `other`, coordinate by coordinate, saturating.
    pub open spec fn spec_plus(self, other: Point) -> Point {
        Point { x: saturate(self.x + other.x), y: saturate(self.y + other.y) }
    }

    /// The point moved back by `other`, coordinate by coordinate, saturating.
    pub open spec fn spec_minus(self, other: Point) -> Point {
        Point { x: saturate(self.x - other.x), y: saturate(self.y - other.y) }
    }

    /// The point moved by `other`, coordinate by coordinate, saturating.
    #[verifier::when_used_as_spec(spec_plus)]
    pub fn plus(self, other: Point) -> (p: Point)
        ensures
            p == self.spec_plus(other),
    {
        Point { x: saturating_add(self.x, other.x), y: saturating_add(self.y, other.y) }
    }

    /// The point moved back by `other`, coordinate by coordinate, saturating.
    #[verifier::when_used_as_spec(spec_minus)]
    pub fn minus(self, other: Point) -> (p: Point)
        ensures
            p == self.spec_minus(other),
    {
        Point { x: saturating_sub(self.x, other.x), y: saturating_sub(self.y, other.y) }
    }
}

/// A width and a height.
#[derive(Debug, Clone, Copy, PartialEq, Eq, Hash, Structural)]
pub struct Size {
    pub w: i32,
    pub h: i32,
}

impl Size {
    /// The size with the given extents.
    pub fn new(w: i32, h: i32) -> (s: Size)
        ensures
            s == (Size { w, h }),
    {
        Size { w, h }
    }

    /// Neither dimension is negative.
    pub open spec fn non_negative(self) -> bool {
        self.w >= 0 && self.h >= 0
    }
}

/// An axis-aligned rectangle, given by its top-left corner and its size.
#[derive(Debug, Clone, Copy, PartialEq, Eq, Hash, Structural)]
pub struct Rect {
    pub loc: Point,
    pub size: Size,
}

impl Rect {
    /// The rectangle with the given corner and size.
    pub fn from_loc_and_size(loc: Point, size: Size) -> (r: Rect)
        ensures
            r == (Rect { loc, size }),
    {
        Rect { loc, size }
    }

    /// The x coordinate just past the right edge, saturating.
    pub open spec fn right(self) -> i32 {
        saturate(self.loc.x + self.size.w)
    }

    /// The y coordinate just past the bottom edge, saturating.
    pub open spec fn bottom(self) -> i32 {
        saturate(self.loc.y + self.size.h)
    }

    /// Whether the two rectangles share more than a border.
    pub open spec fn spec_overlaps(self, other: Rect) -> bool {
        &&& self.loc.x < other.right()
        &&& other.loc.x < self.right()
        &&& self.loc.y < other.bottom()
        &&& other.loc.y < self.bottom()
    }

    /// Whether the two rectangles share more than a border.
    #[verifier::when_used_as_spec(spec_overlaps)]
    pub fn overlaps(self, other: Rect) -> (b: bool)
        ensures
            b == self.spec_overlaps(other),
    {
        self.loc.x < saturating_add(other.loc.x, other.size.w)
            && other.loc.x < saturating_add(self.loc.x, self.size.w)
            && self.loc.y < saturating_add(other.loc.y, other.size.h)
            && other.loc.y < saturating_add(self.loc.y, self.size.h)
    }

    /// Whether `point` lies in the rectangle. The left and the top border
    /// belong to the rectangle, the right and the bottom border do not.
    pub open spec fn spec_contains(self, point: Point) -> bool {
        &&& point.x >= self.loc.x
        &&& point.x < self.right()
        &&& point.y >= self.loc.y
        &&& point.y < self.bottom()
    }

    /// Whether `point` lies in the rectangle.
    #[verifier::when_used_as_spec(spec_contains)]
    pub fn contains(self, point: Point) -> (b: bool)
        ensures
            b == self.spec_contains(point),
    {
        point.x >= self.loc.x && point.x < saturating_add(self.loc.x, self.size.w) && point.y
            >= self.loc.y && point.y < saturating_add(self.loc.y, self.size.h)
    }

    /// Whether the two rectangles share a point or at least touch along an
    /// edge or at a corner.
    pub open spec fn spec_overlaps_or_touches(self, other: Rect) -> bool {
        &&& self.loc.x <= other.right()
        &&& other.loc.x <= self.right()
        &&& self.loc.y <= other.bottom()
        &&& other.loc.y <= self.bottom()
    }

    /// Whether the two rectangles share a point or at least touch along an
    /// edge or at a corner.
    #[verifier::when_used_as_spec(spec_overlaps_or_touches)]
    pub fn overlaps_or_touches(self, other: Rect) -> (b: bool)
        ensures
            b == self.spec_overlaps_or_touches(other),
    {
        self.loc.x <= saturating_add(other.loc.x, other.size.w)
            && other.loc.x <= saturating_add(self.loc.x, self.size.w)
            && self.loc.y <= saturating_add(other.loc.y, other.size.h)
            && other.loc.y <= saturating_add(self.loc.y, self.size.h)
    }
}

} // verus!
