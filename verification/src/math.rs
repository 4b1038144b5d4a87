//! Two-dimensional fixed-point vectors.
//!
//! `Vec2` stores fixed-point components (see [`crate::fx`]); every method is
//! specified exactly against the mathematical pair type [`V2i`].

use vstd::prelude::*;
use crate::fx::{Fx, FX_ONE, fx_add, fx_sub, fx_neg, fx_mul, fx_div, fx_sqrt, fx_min, fx_max,
    fx_clamp, fx_cos, fx_sin, fx_add_s, fx_sub_s, fx_neg_s, fx_mul_s, fx_div_s, fx_sqrt_s,
    fx_cos_s, fx_sin_s};

verus! {

/// A 2D vector with fixed-point components.
#[derive(Clone, Copy, Debug, PartialEq, Eq, Structural)]
pub struct Vec2 {
    pub x: Fx,
    pub y: Fx,
}

/// The mathematical value of a `Vec2`: a pair of unbounded integers.
pub ghost struct V2i {
    pub x: int,
    pub y: int,
}

/// The mathematical pair carried by a `Vec2`.
pub open spec fn vw(v: Vec2) -> V2i {
    V2i { x: v.x as int, y: v.y as int }
}

pub open spec fn v2i(x: int, y: int) -> V2i {
    V2i { x: x, y: y }
}

pub open spec fn v_add_s(a: V2i, b: V2i) -> V2i {
    V2i { x: fx_add_s(a.x, b.x), y: fx_add_s(a.y, b.y) }
}

pub open spec fn v_sub_s(a: V2i, b: V2i) -> V2i {
    V2i { x: fx_sub_s(a.x, b.x), y: fx_sub_s(a.y, b.y) }
}

pub open spec fn v_neg_s(a: V2i) -> V2i {
    V2i { x: fx_neg_s(a.x), y: fx_neg_s(a.y) }
}

pub open spec fn v_scale_s(a: V2i, k: int) -> V2i {
    V2i { x: fx_mul_s(a.x, k), y: fx_mul_s(a.y, k) }
}

pub open spec fn v_div_s(a: V2i, k: int) -> V2i {
    V2i { x: fx_div_s(a.x, k), y: fx_div_s(a.y, k) }
}

pub open spec fn dot_s(a: V2i, b: V2i) -> int {
    fx_add_s(fx_mul_s(a.x, b.x), fx_mul_s(a.y, b.y))
}

pub open spec fn cross_s(a: V2i, b: V2i) -> int {
    fx_sub_s(fx_mul_s(a.x, b.y), fx_mul_s(a.y, b.x))
}

pub open spec fn sqr_mag_s(a: V2i) -> int {
    dot_s(a, a)
}

pub open spec fn mag_s(a: V2i) -> int {
    fx_sqrt_s(sqr_mag_s(a))
}

pub open spec fn dist_s(a: V2i, b: V2i) -> int {
    mag_s(v_sub_s(a, b))
}

pub open spec fn sqr_dist_s(a: V2i, b: V2i) -> int {
    sqr_mag_s(v_sub_s(a, b))
}

pub open spec fn normalized_s(a: V2i) -> V2i {
    let m = mag_s(a);
    if m > 0 {
        V2i { x: fx_div_s(a.x, m), y: fx_div_s(a.y, m) }
    } else {
        V2i { x: 0, y: 0 }
    }
}

pub open spec fn perp_s(a: V2i) -> V2i {
    V2i { x: fx_neg_s(a.y), y: a.x }
}

/// Rotation by `angle` (fixed-point radians) using the fixed-point
/// cosine/sine approximations.
pub open spec fn rotated_s(a: V2i, angle: int) -> V2i {
    let c = fx_cos_s(angle);
    let s = fx_sin_s(angle);
    V2i {
        x: fx_sub_s(fx_mul_s(a.x, c), fx_mul_s(a.y, s)),
        y: fx_add_s(fx_mul_s(a.x, s), fx_mul_s(a.y, c)),
    }
}

/// Rotation of `v` about `center` by `angle`.
pub open spec fn rotate_about_s(v: V2i, center: V2i, angle: int) -> V2i {
    v_add_s(rotated_s(v_sub_s(v, center), angle), center)
}

pub open spec fn lerp_s(a: V2i, b: V2i, t: int) -> V2i {
    V2i {
        x: fx_add_s(a.x, fx_mul_s(fx_sub_s(b.x, a.x), t)),
        y: fx_add_s(a.y, fx_mul_s(fx_sub_s(b.y, a.y), t)),
    }
}

impl Vec2 {
    /// Creates a new `Vec2`.
    pub fn new(x: Fx, y: Fx) -> (r: Self)
        ensures
            vw(r) == v2i(x as int, y as int),
    {
        Vec2 { x, y }
    }

    pub fn zero() -> (r: Self)
        ensures
            vw(r) == v2i(0, 0),
    {
        Vec2 { x: 0, y: 0 }
    }

    pub fn one() -> (r: Self)
        ensures
            vw(r) == v2i(FX_ONE as int, FX_ONE as int),
    {
        Vec2 { x: FX_ONE, y: FX_ONE }
    }

    /// Component-wise sum.
    pub fn plus(&self, other: &Vec2) -> (r: Vec2)
        ensures
            vw(r) == v_add_s(vw(*self), vw(*other)),
    {
        Vec2 { x: fx_add(self.x, other.x), y: fx_add(self.y, other.y) }
    }

    /// Component-wise difference.
    pub fn minus(&self, other: &Vec2) -> (r: Vec2)
        ensures
            vw(r) == v_sub_s(vw(*self), vw(*other)),
    {
        Vec2 { x: fx_sub(self.x, other.x), y: fx_sub(self.y, other.y) }
    }

    /// Component-wise negation.
    pub fn negated(&self) -> (r: Vec2)
        ensures
            vw(r) == v_neg_s(vw(*self)),
    {
        Vec2 { x: fx_neg(self.x), y: fx_neg(self.y) }
    }

    /// Multiplication by a fixed-point scalar.
    pub fn scaled(&self, k: Fx) -> (r: Vec2)
        ensures
            vw(r) == v_scale_s(vw(*self), k as int),
    {
        Vec2 { x: fx_mul(self.x, k), y: fx_mul(self.y, k) }
    }

    /// Division by a fixed-point scalar; zero divisor yields zero.
    pub fn divided(&self, k: Fx) -> (r: Vec2)
        ensures
            vw(r) == v_div_s(vw(*self), k as int),
    {
        Vec2 { x: fx_div(self.x, k), y: fx_div(self.y, k) }
    }

    /// Returns the magnitude (length) of the vector.
    pub fn magnitude(&self) -> (r: Fx)
        ensures
            r == mag_s(vw(*self)),
            0 <= r,
    {
        fx_sqrt(self.sqr_magnitude())
    }

    /// Returns the squared magnitude of the vector.
    pub fn sqr_magnitude(&self) -> (r: Fx)
        ensures
            r == sqr_mag_s(vw(*self)),
    {
        self.dot(self)
    }

    /// Returns a normalized version of the vector (unit vector), or zero
    /// when the magnitude is zero.
    pub fn normalized(&self) -> (r: Vec2)
        ensures
            vw(r) == normalized_s(vw(*self)),
    {
        let mag = self.magnitude();
        if mag > 0 {
            Vec2 { x: fx_div(self.x, mag), y: fx_div(self.y, mag) }
        } else {
            Vec2 { x: 0, y: 0 }
        }
    }

    /// Normalizes the vector in place.
    pub fn normalize(&mut self)
        ensures
            vw(*final(self)) == normalized_s(vw(*old(self))),
    {
        let mag = self.magnitude();
        if mag > 0 {
            self.x = fx_div(self.x, mag);
            self.y = fx_div(self.y, mag);
        } else {
            self.x = 0;
            self.y = 0;
        }
    }

    /// Dot product of two vectors.
    pub fn dot(&self, other: &Vec2) -> (r: Fx)
        ensures
            r == dot_s(vw(*self), vw(*other)),
    {
        fx_add(fx_mul(self.x, other.x), fx_mul(self.y, other.y))
    }

    /// Cross product of two vectors (the z-component, since it is 2D).
    pub fn cross(&self, other: &Vec2) -> (r: Fx)
        ensures
            r == cross_s(vw(*self), vw(*other)),
    {
        fx_sub(fx_mul(self.x, other.y), fx_mul(self.y, other.x))
    }

    /// Returns the distance between two vectors.
    pub fn distance(&self, other: &Vec2) -> (r: Fx)
        ensures
            r == dist_s(vw(*self), vw(*other)),
            0 <= r,
    {
        self.minus(other).magnitude()
    }

    /// Returns the squared distance between two vectors.
    pub fn sqr_distance(&self, other: &Vec2) -> (r: Fx)
        ensures
            r == sqr_dist_s(vw(*self), vw(*other)),
    {
        self.minus(other).sqr_magnitude()
    }

    /// Linearly interpolates between two vectors.
    pub fn lerp(a: Self, b: Self, t: Fx) -> (r: Self)
        ensures
            vw(r) == lerp_s(vw(a), vw(b), t as int),
    {
        Vec2 {
            x: fx_add(a.x, fx_mul(fx_sub(b.x, a.x), t)),
            y: fx_add(a.y, fx_mul(fx_sub(b.y, a.y), t)),
        }
    }

    /// Returns a vector with components clamped between `min` and `max`.
    pub fn clamp(&self, min: Self, max: Self) -> (r: Self)
        ensures
            r.x == if (self.x as int) > (max.x as int) {
                max.x as int
            } else if (self.x as int) < (min.x as int) {
                min.x as int
            } else {
                self.x as int
            },
            r.y == if (self.y as int) > (max.y as int) {
                max.y as int
            } else if (self.y as int) < (min.y as int) {
                min.y as int
            } else {
                self.y as int
            },
    {
        Vec2 { x: fx_clamp(self.x, min.x, max.x), y: fx_clamp(self.y, min.y, max.y) }
    }

    /// Returns the perpendicular vector (rotated 90 degrees
    /// counter-clockwise).
    pub fn perpendicular(&self) -> (r: Self)
        ensures
            vw(r) == perp_s(vw(*self)),
    {
        Vec2 { x: fx_neg(self.y), y: self.x }
    }

    /// Rotates the vector by the given angle in fixed-point radians.
    pub fn rotated(&self, angle: Fx) -> (r: Self)
        ensures
            vw(r) == rotated_s(vw(*self), angle as int),
    {
        let c = fx_cos(angle);
        let s = fx_sin(angle);
        Vec2 {
            x: fx_sub(fx_mul(self.x, c), fx_mul(self.y, s)),
            y: fx_add(fx_mul(self.x, s), fx_mul(self.y, c)),
        }
    }

    /// Returns the component-wise minimum of two vectors.
    pub fn min(&self, other: Self) -> (r: Self)
        ensures
            r.x == if (self.x as int) <= (other.x as int) {
                self.x as int
            } else {
                other.x as int
            },
            r.y == if (self.y as int) <= (other.y as int) {
                self.y as int
            } else {
                other.y as int
            },
    {
        Vec2 { x: fx_min(self.x, other.x), y: fx_min(self.y, other.y) }
    }

    /// Returns the component-wise maximum of two vectors.
    pub fn max(&self, other: Self) -> (r: Self)
        ensures
            r.x == if (self.x as int) >= (other.x as int) {
                self.x as int
            } else {
                other.x as int
            },
            r.y == if (self.y as int) >= (other.y as int) {
                self.y as int
            } else {
                other.y as int
            },
    {
        Vec2 { x: fx_max(self.x, other.x), y: fx_max(self.y, other.y) }
    }
}

/// Rotates `to_rotate` about `center` by `angle`, returning the result.
pub fn rotate(to_rotate: Vec2, center: Vec2, angle: Fx) -> (r: Vec2)
    ensures
        vw(r) == rotate_about_s(vw(to_rotate), vw(center), angle as int),
{
    to_rotate.minus(&center).rotated(angle).plus(&center)
}

/// Rotates `to_rotate` about `center` by `angle`, in place.
pub fn rotate_in_place(to_rotate: &mut Vec2, center: Vec2, angle: Fx)
    ensures
        vw(*final(to_rotate)) == rotate_about_s(vw(*old(to_rotate)), vw(center), angle as int),
{
    let rotated = rotate(*to_rotate, center, angle);
    to_rotate.x = rotated.x;
    to_rotate.y = rotated.y;
}

} // verus!
