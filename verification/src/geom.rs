//! Axis-aligned rectangles in whole world units: the bounding boxes of
//! entities and the static tiles of the level geometry.

use vstd::prelude::*;

verus! {

/// An axis-aligned rectangle; `x`/`y` is the top-left corner.
#[derive(Clone, Copy, Debug, PartialEq, Eq, Structural)]
pub struct Rect {
    pub x: i64,
    pub y: i64,
    pub w: i64,
    pub h: i64,
}

/// A valid static tile: positive extent, coordinates within the level-scale
/// bound.
pub open spec fn tile_wf(t: Rect) -> bool {
    &&& 0 < t.w <= 1_000_000
    &&& 0 < t.h <= 1_000_000
    &&& -1_000_000 <= t.x <= 1_000_000
    &&& -1_000_000 <= t.y <= 1_000_000
}

/// A valid entity bounding box: positive extent, coordinates within twice
/// the level-scale bound (a collision snap against a far tile stays inside).
pub open spec fn rect_wf(r: Rect) -> bool {
    &&& 0 < r.w <= 1_000_000
    &&& 0 < r.h <= 1_000_000
    &&& -2_000_000 <= r.x <= 2_000_000
    &&& -2_000_000 <= r.y <= 2_000_000
}

/// Do two rectangles overlap on a region of positive area?  Rectangles that
/// only share an edge do not intersect.
pub open spec fn intersects_spec(a: Rect, b: Rect) -> bool {
    &&& a.x < b.x + b.w
    &&& b.x < a.x + a.w
    &&& a.y < b.y + b.h
    &&& b.y < a.y + a.h
}

/// Is the point inside the rectangle?  The left and top edges are inside,
/// the right and bottom edges are not.
pub open spec fn contains_point_spec(r: Rect, px: int, py: int) -> bool {
    &&& r.x <= px < r.x + r.w
    &&& r.y <= py < r.y + r.h
}

impl Rect {
    /// The rectangle with top-left corner `(x, y)` and extent `w` by `h`.
    pub fn new(x: i64, y: i64, w: i64, h: i64) -> (r: Rect)
        ensures
            r == (Rect { x, y, w, h }),
    {
        Rect { x, y, w, h }
    }

    /// Do `self` and `other` overlap on a region of positive area?
    pub fn has_intersection(&self, other: &Rect) -> (r: bool)
        requires
            rect_wf(*self) || tile_wf(*self),
            rect_wf(*other) || tile_wf(*other),
        ensures
            r == intersects_spec(*self, *other),
    {
        self.x < other.x + other.w && other.x < self.x + self.w && self.y < other.y + other.h
            && other.y < self.y + self.h
    }

    /// Is `(px, py)` inside `self`?
    pub fn contains_point(&self, px: i64, py: i64) -> (r: bool)
        requires
            rect_wf(*self) || tile_wf(*self),
            -2_000_000_000 <= px <= 2_000_000_000,
            -2_000_000_000 <= py <= 2_000_000_000,
        ensures
            r == contains_point_spec(*self, px as int, py as int),
    {
        self.x <= px && px < self.x + self.w && self.y <= py && py < self.y + self.h
    }

    /// The center point (halves rounded toward the top-left corner).
    pub fn center(&self) -> (c: (i64, i64))
        requires
            rect_wf(*self) || tile_wf(*self),
        ensures
            c.0 == self.x + self.w / 2,
            c.1 == self.y + self.h / 2,
    {
        let hw: i64 = ((self.w as u64) / 2) as i64;
        let hh: i64 = ((self.h as u64) / 2) as i64;
        (self.x + hw, self.y + hh)
    }
}

} // verus!
