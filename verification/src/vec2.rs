//! Two-dimensional fixed-point vectors.
use vstd::prelude::*;

use crate::fix::{sat64, sat_add, sat_sub, mul_div, tdiv, sadd, ssub, smuldiv};

verus! {

/// A 2D vector whose components are fixed-point world-space values
/// (`POS_SCALE` units per pixel).
#[derive(Clone, Copy, PartialEq, Eq, Structural, Debug)]
pub struct Vec2i {
    pub x: i64,
    pub y: i64,
}

/// Componentwise saturating sum, at the specification level.
pub open spec fn vplus(a: Vec2i, b: Vec2i) -> Vec2i {
    Vec2i { x: sadd(a.x, b.x), y: sadd(a.y, b.y) }
}

/// Componentwise saturating difference, at the specification level.
pub open spec fn vminus(a: Vec2i, b: Vec2i) -> Vec2i {
    Vec2i { x: ssub(a.x, b.x), y: ssub(a.y, b.y) }
}

/// Componentwise saturating `v * num / den`, at the specification level.
pub open spec fn vscaled(v: Vec2i, num: i64, den: i64) -> Vec2i {
    Vec2i { x: smuldiv(v.x, num, den), y: smuldiv(v.y, num, den) }
}

/// Linear interpolation from `a` toward `b` by the fixed-point fraction
/// `f / 1000`, at the specification level.
pub open spec fn vlerp(a: Vec2i, b: Vec2i, f: i64) -> Vec2i {
    vplus(a, vscaled(vminus(b, a), f, 1000))
}

impl Vec2i {
    /// The vector `(x, y)`.
    pub fn new(x: i64, y: i64) -> (v: Vec2i)
        ensures
            v == (Vec2i { x, y }),
    {
        Vec2i { x, y }
    }

    /// The zero vector.
    pub fn zero() -> (v: Vec2i)
        ensures
            v == (Vec2i { x: 0, y: 0 }),
    {
        Vec2i { x: 0, y: 0 }
    }

    /// Componentwise saturating sum.
    pub fn plus(self, o: Vec2i) -> (v: Vec2i)
        ensures
            v.x as int == sat64(self.x + o.x),
            v.y as int == sat64(self.y + o.y),
            v == vplus(self, o),
    {
        Vec2i { x: sat_add(self.x, o.x), y: sat_add(self.y, o.y) }
    }

    /// Componentwise saturating difference.
    pub fn minus(self, o: Vec2i) -> (v: Vec2i)
        ensures
            v.x as int == sat64(self.x - o.x),
            v.y as int == sat64(self.y - o.y),
            v == vminus(self, o),
    {
        Vec2i { x: sat_sub(self.x, o.x), y: sat_sub(self.y, o.y) }
    }

    /// Both components multiplied by the fixed-point ratio `num / den`.
    pub fn scaled(self, num: i64, den: i64) -> (v: Vec2i)
        requires
            den > 0,
        ensures
            v.x as int == sat64(tdiv(self.x * num, den as int)),
            v.y as int == sat64(tdiv(self.y * num, den as int)),
            v == vscaled(self, num, den),
    {
        Vec2i { x: mul_div(self.x, num, den), y: mul_div(self.y, num, den) }
    }

    /// Linear interpolation from `self` toward `o` by the fixed-point
    /// fraction `f / 1000`.
    pub fn lerp(self, o: Vec2i, f: i64) -> (v: Vec2i)
        ensures
            v == vlerp(self, o, f),
    {
        self.plus(o.minus(self).scaled(f, 1000))
    }
}

} // verus!
