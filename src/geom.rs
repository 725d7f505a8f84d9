//! Integer points, sizes and axis-aligned rectangles.
use vstd::prelude::*;

verus! {

/// A point with integer coordinates.
#[derive(Clone, Copy, Debug, PartialEq, Eq, Structural)]
pub struct IntPoint {
    pub x: i32,
    pub y: i32,
}

/// A size with integer extents.
#[derive(Clone, Copy, Debug, PartialEq, Eq, Structural)]
pub struct IntSize {
    pub width: i32,
    pub height: i32,
}

/// An axis-aligned rectangle given by its minimum and maximum corners
/// (the maximum corner is exclusive).
#[derive(Clone, Copy, Debug, PartialEq, Eq, Structural)]
pub struct IntRect {
    pub min: IntPoint,
    pub max: IntPoint,
}

/// True when two rectangles share a point of positive area.
pub open spec fn rects_intersect(a: IntRect, b: IntRect) -> bool {
    &&& a.min.x < b.max.x
    &&& b.min.x < a.max.x
    &&& a.min.y < b.max.y
    &&& b.min.y < a.max.y
}

/// True when `r` grown by the non-negative `d` on each side still has `i32` coordinates.
pub open spec fn inflate_fits(r: IntRect, d: int) -> bool {
    &&& 0 <= d <= i32::MAX
    &&& i32::MIN <= r.min.x - d
    &&& i32::MIN <= r.min.y - d
    &&& r.max.x + d <= i32::MAX
    &&& r.max.y + d <= i32::MAX
}

/// `r` grown by `d` on each of its four sides.
pub open spec fn inflated(r: IntRect, d: int) -> IntRect
    recommends
        inflate_fits(r, d),
{
    IntRect {
        min: IntPoint { x: (r.min.x - d) as i32, y: (r.min.y - d) as i32 },
        max: IntPoint { x: (r.max.x + d) as i32, y: (r.max.y + d) as i32 },
    }
}

pub open spec fn max_i32(a: i32, b: i32) -> i32 {
    if a >= b { a } else { b }
}

pub open spec fn min_i32(a: i32, b: i32) -> i32 {
    if a <= b { a } else { b }
}

/// The common part of two intersecting rectangles.
pub open spec fn intersection_of(a: IntRect, b: IntRect) -> IntRect {
    IntRect {
        min: IntPoint { x: max_i32(a.min.x, b.min.x), y: max_i32(a.min.y, b.min.y) },
        max: IntPoint { x: min_i32(a.max.x, b.max.x), y: min_i32(a.max.y, b.max.y) },
    }
}

/// The extent of `r`, wrapped to `i32`.
pub open spec fn rect_size(r: IntRect) -> IntSize {
    IntSize { width: (r.max.x - r.min.x) as i32, height: (r.max.y - r.min.y) as i32 }
}

/// True when `r` moved by `(dx, dy)` still has `i32` coordinates.
pub open spec fn translate_fits(r: IntRect, dx: int, dy: int) -> bool {
    &&& i32::MIN <= r.min.x + dx <= i32::MAX
    &&& i32::MIN <= r.max.x + dx <= i32::MAX
    &&& i32::MIN <= r.min.y + dy <= i32::MAX
    &&& i32::MIN <= r.max.y + dy <= i32::MAX
}

/// `r` moved by `(dx, dy)`.
pub open spec fn translated(r: IntRect, dx: int, dy: int) -> IntRect {
    IntRect {
        min: IntPoint { x: (r.min.x + dx) as i32, y: (r.min.y + dy) as i32 },
        max: IntPoint { x: (r.max.x + dx) as i32, y: (r.max.y + dy) as i32 },
    }
}

impl IntRect {
    /// The rectangle with both corners at the origin.
    pub open spec fn zero_spec() -> IntRect {
        IntRect { min: IntPoint { x: 0, y: 0 }, max: IntPoint { x: 0, y: 0 } }
    }

    pub fn new(min_x: i32, min_y: i32, max_x: i32, max_y: i32) -> (r: IntRect)
        ensures
            r == (IntRect { min: IntPoint { x: min_x, y: min_y }, max: IntPoint { x: max_x, y: max_y } }),
    {
        IntRect { min: IntPoint { x: min_x, y: min_y }, max: IntPoint { x: max_x, y: max_y } }
    }

    /// The rectangle with both corners at the origin.
    pub fn zero() -> (r: IntRect)
        ensures
            r == IntRect::zero_spec(),
    {
        IntRect::new(0, 0, 0, 0)
    }

    pub fn intersects(&self, other: &IntRect) -> (r: bool)
        ensures
            r == rects_intersect(*self, *other),
    {
        self.min.x < other.max.x && other.min.x < self.max.x && self.min.y < other.max.y
            && other.min.y < self.max.y
    }

    pub fn inflate(&self, d: i32) -> (r: IntRect)
        requires
            inflate_fits(*self, d as int),
        ensures
            r == inflated(*self, d as int),
    {
        IntRect::new(self.min.x - d, self.min.y - d, self.max.x + d, self.max.y + d)
    }

    /// The common part of two rectangles, or `None` when they do not intersect.
    pub fn intersection(&self, other: &IntRect) -> (r: Option<IntRect>)
        ensures
            r == (if rects_intersect(*self, *other) {
                Some(intersection_of(*self, *other))
            } else {
                None
            }),
    {
        if !self.intersects(other) {
            return None;
        }
        let min_x = if self.min.x >= other.min.x { self.min.x } else { other.min.x };
        let min_y = if self.min.y >= other.min.y { self.min.y } else { other.min.y };
        let max_x = if self.max.x <= other.max.x { self.max.x } else { other.max.x };
        let max_y = if self.max.y <= other.max.y { self.max.y } else { other.max.y };
        Some(IntRect::new(min_x, min_y, max_x, max_y))
    }

    /// The extent of the rectangle, wrapped to `i32`.
    pub fn size(&self) -> (r: IntSize)
        ensures
            r == rect_size(*self),
    {
        IntSize {
            width: (self.max.x as i64 - self.min.x as i64) as i32,
            height: (self.max.y as i64 - self.min.y as i64) as i32,
        }
    }

    /// The rectangle moved by `(dx, dy)`.
    pub fn translate(&self, dx: i32, dy: i32) -> (r: IntRect)
        requires
            translate_fits(*self, dx as int, dy as int),
        ensures
            r == translated(*self, dx as int, dy as int),
    {
        IntRect::new(self.min.x + dx, self.min.y + dy, self.max.x + dx, self.max.y + dy)
    }
}

} // verus!
