//! Plane vectors and rotations in fixed point.
//!
//! A rotation is stored as the direction vector `(cos, sin)` scaled by
//! `SCALE`, so that applying it is exact integer arithmetic.  Callers that
//! think in radians convert once at the boundary.

use vstd::prelude::*;
use vstd::math::abs;
use crate::fixed::{SCALE, COORD_LIMIT, spec_clamp, spec_clamp_unit, spec_tdiv, clamp_coord, clamp_unit, mul64, tdiv};

verus! {

/// A 2D vector in fixed-point coordinates.
#[derive(Debug, Clone, Copy, PartialEq, Eq, Structural)]
pub struct Vec2 {
    pub x: i64,
    pub y: i64,
}

/// A rotation of the plane: the image of the unit x-axis, scaled by `SCALE`.
#[derive(Debug, Clone, Copy, PartialEq, Eq, Structural)]
pub struct Angle {
    pub cos: i64,
    pub sin: i64,
}

/// Where `rotate` sends a vector: the usual rotation matrix, with each
/// component rescaled by `SCALE` and truncated toward zero.
pub open spec fn spec_rotate_x(a: Angle, v: Vec2) -> int {
    spec_tdiv(a.cos * v.x - a.sin * v.y, SCALE as int)
}

/// The y component of the image of `v` under `a`.
pub open spec fn spec_rotate_y(a: Angle, v: Vec2) -> int {
    spec_tdiv(a.sin * v.x + a.cos * v.y, SCALE as int)
}

impl Vec2 {
    /// Both components lie within the simulation's coordinate range.
    pub open spec fn in_bounds(self) -> bool {
        abs(self.x as int) <= COORD_LIMIT && abs(self.y as int) <= COORD_LIMIT
    }

    /// The origin.
    pub fn zero() -> (r: Vec2)
        ensures
            r == (Vec2 { x: 0, y: 0 }),
    {
        Vec2 { x: 0, y: 0 }
    }

    /// The vector `(x, y)`.
    pub fn new(x: i64, y: i64) -> (r: Vec2)
        ensures
            r == (Vec2 { x: x, y: y }),
    {
        Vec2 { x, y }
    }

    /// Component-wise sum.
    pub fn plus(self, o: Vec2) -> (r: Vec2)
        requires
            i64::MIN <= self.x + o.x <= i64::MAX,
            i64::MIN <= self.y + o.y <= i64::MAX,
        ensures
            r.x as int == self.x + o.x,
            r.y as int == self.y + o.y,
    {
        Vec2 { x: self.x + o.x, y: self.y + o.y }
    }

    /// Component-wise difference.
    pub fn minus(self, o: Vec2) -> (r: Vec2)
        requires
            i64::MIN <= self.x - o.x <= i64::MAX,
            i64::MIN <= self.y - o.y <= i64::MAX,
        ensures
            r.x as int == self.x - o.x,
            r.y as int == self.y - o.y,
    {
        Vec2 { x: self.x - o.x, y: self.y - o.y }
    }

    /// The opposite vector.
    pub fn flipped(self) -> (r: Vec2)
        requires
            self.x != i64::MIN,
            self.y != i64::MIN,
        ensures
            r.x as int == -(self.x as int),
            r.y as int == -(self.y as int),
    {
        Vec2 { x: -self.x, y: -self.y }
    }

    /// Both components clamped into the coordinate range.
    pub fn clamped(self) -> (r: Vec2)
        ensures
            r.x as int == spec_clamp(self.x as int),
            r.y as int == spec_clamp(self.y as int),
            r.in_bounds(),
    {
        Vec2 { x: clamp_coord(self.x), y: clamp_coord(self.y) }
    }
}

impl Angle {
    /// The stored direction has components no larger than one unit.
    pub open spec fn wf(self) -> bool {
        abs(self.cos as int) <= SCALE && abs(self.sin as int) <= SCALE
    }

    /// The rotation by zero.
    pub fn identity() -> (r: Angle)
        ensures
            r == (Angle { cos: SCALE, sin: 0 }),
            r.wf(),
    {
        Angle { cos: SCALE, sin: 0 }
    }

    /// The rotation sending the unit x-axis to `(cos, sin) / SCALE`.
    pub fn new(cos: i64, sin: i64) -> (r: Angle)
        requires
            abs(cos as int) <= SCALE,
            abs(sin as int) <= SCALE,
        ensures
            r == (Angle { cos: cos, sin: sin }),
            r.wf(),
    {
        Angle { cos, sin }
    }

    /// The inverse rotation.
    pub fn inverse(self) -> (r: Angle)
        requires
            self.wf(),
        ensures
            r == (Angle { cos: self.cos, sin: -(self.sin as int) as i64 }),
            r.wf(),
    {
        Angle { cos: self.cos, sin: -self.sin }
    }

    /// The rotation a quarter turn counter-clockwise from this one.
    pub fn perp(self) -> (r: Angle)
        requires
            self.wf(),
        ensures
            r == (Angle { cos: -(self.sin as int) as i64, sin: self.cos }),
            r.wf(),
    {
        Angle { cos: -self.sin, sin: self.cos }
    }

    /// The same aim mirrored across the vertical axis.
    pub fn mirrored(self) -> (r: Angle)
        requires
            self.wf(),
        ensures
            r == (Angle { cos: -(self.cos as int) as i64, sin: self.sin }),
            r.wf(),
    {
        Angle { cos: -self.cos, sin: self.sin }
    }

    /// The composite of two rotations (this one, then `o`): the complex
    /// product of their direction vectors, rescaled and clamped back into
    /// the unit range.
    pub open spec fn spec_compose(self, o: Angle) -> Angle {
        Angle {
            cos: spec_clamp_unit(
                spec_tdiv(self.cos * o.cos - self.sin * o.sin, SCALE as int),
            ) as i64,
            sin: spec_clamp_unit(
                spec_tdiv(self.sin * o.cos + self.cos * o.sin, SCALE as int),
            ) as i64,
        }
    }

    /// Compose two rotations.
    pub fn compose(self, o: Angle) -> (r: Angle)
        requires
            self.wf(),
            o.wf(),
        ensures
            r == self.spec_compose(o),
            r.wf(),
    {
        let cc = mul64(self.cos, o.cos);
        let ss = mul64(self.sin, o.sin);
        let sc = mul64(self.sin, o.cos);
        let cs = mul64(self.cos, o.sin);
        proof {
            crate::fixed::lemma_abs_mul_bound(self.cos as int, o.cos as int, SCALE as int, SCALE as int);
            crate::fixed::lemma_abs_mul_bound(self.sin as int, o.sin as int, SCALE as int, SCALE as int);
            crate::fixed::lemma_abs_mul_bound(self.sin as int, o.cos as int, SCALE as int, SCALE as int);
            crate::fixed::lemma_abs_mul_bound(self.cos as int, o.sin as int, SCALE as int, SCALE as int);
        }
        Angle { cos: clamp_unit(tdiv(cc - ss, SCALE)), sin: clamp_unit(tdiv(sc + cs, SCALE)) }
    }

    /// Apply the rotation to a vector.
    pub fn rotate(self, v: Vec2) -> (r: Vec2)
        requires
            self.wf(),
            abs(v.x as int) <= 0x8000_0000,
            abs(v.y as int) <= 0x8000_0000,
        ensures
            r.x as int == spec_rotate_x(self, v),
            r.y as int == spec_rotate_y(self, v),
            abs(r.x as int) <= abs(v.x as int) + abs(v.y as int),
            abs(r.y as int) <= abs(v.x as int) + abs(v.y as int),
    {
        let cx = mul64(self.cos, v.x);
        let sy = mul64(self.sin, v.y);
        let sx = mul64(self.sin, v.x);
        let cy = mul64(self.cos, v.y);
        proof {
            let k: int = (abs(v.x as int) + abs(v.y as int)) as int;
            crate::fixed::lemma_abs_mul_bound(self.cos as int, v.x as int, SCALE as int, abs(v.x as int) as int);
            crate::fixed::lemma_abs_mul_bound(self.sin as int, v.y as int, SCALE as int, abs(v.y as int) as int);
            crate::fixed::lemma_abs_mul_bound(self.sin as int, v.x as int, SCALE as int, abs(v.x as int) as int);
            crate::fixed::lemma_abs_mul_bound(self.cos as int, v.y as int, SCALE as int, abs(v.y as int) as int);
            crate::fixed::lemma_tdiv_quotient_bound(cx as int - sy as int, SCALE as int, k);
            crate::fixed::lemma_tdiv_quotient_bound(sx as int + cy as int, SCALE as int, k);
        }
        let rx = tdiv(cx - sy, SCALE);
        let ry = tdiv(sx + cy, SCALE);
        Vec2 { x: rx, y: ry }
    }

    /// The point at distance `len` from the origin in this direction.
    pub fn offset(self, len: i64) -> (r: Vec2)
        requires
            self.wf(),
            abs(len as int) <= 0x8000_0000,
        ensures
            r.x as int == spec_rotate_x(self, Vec2 { x: len, y: 0 }),
            r.y as int == spec_rotate_y(self, Vec2 { x: len, y: 0 }),
            abs(r.x as int) <= abs(len as int),
            abs(r.y as int) <= abs(len as int),
    {
        self.rotate(Vec2 { x: len, y: 0 })
    }
}

} // verus!
