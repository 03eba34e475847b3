//! Plane vectors over saturating fixed-point scalars.

use vstd::prelude::*;

use crate::fp::{clip, fp_mul_spec, mul_fp, sat_add, sat_sub};

verus! {

/// A point, displacement, velocity or acceleration in the plane, with
/// fixed-point components. The y axis points down, as in viewport coordinates.
#[derive(Clone, Copy, Debug, PartialEq, Eq, Structural)]
pub struct Vec2 {
    pub x: i64,
    pub y: i64,
}

/// Componentwise saturating sum.
pub open spec fn v_add(a: Vec2, b: Vec2) -> Vec2 {
    Vec2 { x: clip(a.x + b.x) as i64, y: clip(a.y + b.y) as i64 }
}

/// Componentwise saturating difference.
pub open spec fn v_sub(a: Vec2, b: Vec2) -> Vec2 {
    Vec2 { x: clip(a.x - b.x) as i64, y: clip(a.y - b.y) as i64 }
}

/// Componentwise fixed-point product.
pub open spec fn v_mul(a: Vec2, b: Vec2) -> Vec2 {
    Vec2 { x: fp_mul_spec(a.x as int, b.x as int) as i64, y: fp_mul_spec(a.y as int, b.y as int) as i64 }
}

impl Vec2 {
    pub fn new(x: i64, y: i64) -> (v: Vec2)
        ensures
            v == (Vec2 { x, y }),
    {
        Vec2 { x, y }
    }

    /// Saturating vector sum.
    pub fn add(self, other: Vec2) -> (r: Vec2)
        ensures
            r == v_add(self, other),
    {
        Vec2 { x: sat_add(self.x, other.x), y: sat_add(self.y, other.y) }
    }

    /// Saturating vector difference.
    pub fn sub(self, other: Vec2) -> (r: Vec2)
        ensures
            r == v_sub(self, other),
    {
        Vec2 { x: sat_sub(self.x, other.x), y: sat_sub(self.y, other.y) }
    }

    /// Componentwise fixed-point product.
    pub fn mul(self, other: Vec2) -> (r: Vec2)
        ensures
            r == v_mul(self, other),
    {
        Vec2 { x: mul_fp(self.x, other.x), y: mul_fp(self.y, other.y) }
    }

    /// The vector with both components scaled by the same fixed-point factor.
    pub fn scale(self, factor: i64) -> (r: Vec2)
        ensures
            r == v_mul(self, Vec2 { x: factor, y: factor }),
    {
        Vec2 { x: mul_fp(self.x, factor), y: mul_fp(self.y, factor) }
    }
}

} // verus!
