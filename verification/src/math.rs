//! Two-dimensional fixed-point vectors with componentwise arithmetic.

use vstd::prelude::*;

use crate::fixed::{fx_div, fx_div_spec, fx_mul, fx_mul_spec, in_fx_range};

verus! {

/// A 2D vector; both components are fixed-point world quantities.
#[derive(Clone, Copy, Debug, PartialEq, Eq, Structural)]
pub struct Vec2 {
    pub x: i64,
    pub y: i64,
}

/// Both components within the global fixed-point bound.
pub open spec fn vec2_wf(v: Vec2) -> bool {
    &&& in_fx_range(v.x as int)
    &&& in_fx_range(v.y as int)
}

impl Vec2 {
    /// The vector `(x, y)`.
    pub fn new(x: i64, y: i64) -> (r: Vec2)
        ensures
            r == (Vec2 { x, y }),
    {
        Vec2 { x, y }
    }

    /// This vector scaled by the fixed-point factor `n`.
    pub fn mult(&self, n: i64) -> (r: Vec2)
        requires
            vec2_wf(*self),
            in_fx_range(n as int),
        ensures
            r.x == fx_mul_spec(self.x as int, n as int),
            r.y == fx_mul_spec(self.y as int, n as int),
    {
        Vec2 { x: fx_mul(self.x, n), y: fx_mul(self.y, n) }
    }

    /// Componentwise sum.
    pub fn add(&self, other: Vec2) -> (r: Vec2)
        requires
            vec2_wf(*self),
            vec2_wf(other),
        ensures
            r.x == self.x + other.x,
            r.y == self.y + other.y,
    {
        Vec2 { x: self.x + other.x, y: self.y + other.y }
    }

    /// Componentwise difference.
    pub fn sub(&self, other: Vec2) -> (r: Vec2)
        requires
            vec2_wf(*self),
            vec2_wf(other),
        ensures
            r.x == self.x - other.x,
            r.y == self.y - other.y,
    {
        Vec2 { x: self.x - other.x, y: self.y - other.y }
    }

    /// Componentwise fixed-point product.
    pub fn mul(&self, other: Vec2) -> (r: Vec2)
        requires
            vec2_wf(*self),
            vec2_wf(other),
        ensures
            r.x == fx_mul_spec(self.x as int, other.x as int),
            r.y == fx_mul_spec(self.y as int, other.y as int),
    {
        Vec2 { x: fx_mul(self.x, other.x), y: fx_mul(self.y, other.y) }
    }

    /// Componentwise fixed-point quotient.
    pub fn div(&self, other: Vec2) -> (r: Vec2)
        requires
            vec2_wf(*self),
            vec2_wf(other),
            other.x != 0,
            other.y != 0,
        ensures
            r.x == fx_div_spec(self.x as int, other.x as int),
            r.y == fx_div_spec(self.y as int, other.y as int),
    {
        Vec2 { x: fx_div(self.x, other.x), y: fx_div(self.y, other.y) }
    }
}

} // verus!
