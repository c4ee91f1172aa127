//! Three-component vectors in fixed-point micro-units.

use vstd::prelude::*;
use crate::fx::{
    abs_u128, add_fx, clip, div_fx, fx_add, fx_div, fx_mul, fx_neg, fx_sub, isqrt, mul_fx, neg_fx,
    sqrt_floor, sub_fx,
};

verus! {

/// A vector whose components are micro-unit scalars.
#[derive(Clone, Copy, Debug, PartialEq, Eq, Structural)]
pub struct Vec3Fx {
    pub x: i64,
    pub y: i64,
    pub z: i64,
}

pub open spec fn v3(x: int, y: int, z: int) -> Vec3Fx {
    Vec3Fx { x: clip(x) as i64, y: clip(y) as i64, z: clip(z) as i64 }
}

pub open spec fn v3_add(a: Vec3Fx, b: Vec3Fx) -> Vec3Fx {
    v3(fx_add(a.x as int, b.x as int), fx_add(a.y as int, b.y as int), fx_add(
        a.z as int,
        b.z as int,
    ))
}

pub open spec fn v3_sub(a: Vec3Fx, b: Vec3Fx) -> Vec3Fx {
    v3(fx_sub(a.x as int, b.x as int), fx_sub(a.y as int, b.y as int), fx_sub(
        a.z as int,
        b.z as int,
    ))
}

pub open spec fn v3_neg(a: Vec3Fx) -> Vec3Fx {
    v3(fx_neg(a.x as int), fx_neg(a.y as int), fx_neg(a.z as int))
}

pub open spec fn v3_scale(a: Vec3Fx, s: int) -> Vec3Fx {
    v3(fx_mul(a.x as int, s), fx_mul(a.y as int, s), fx_mul(a.z as int, s))
}

/// Scalar product of two vectors, in micro-units.
pub open spec fn v3_dot(a: Vec3Fx, b: Vec3Fx) -> int {
    clip(
        fx_mul(a.x as int, b.x as int) + fx_mul(a.y as int, b.y as int) + fx_mul(
            a.z as int,
            b.z as int,
        ),
    )
}

/// Cross product of two vectors, in micro-units.
pub open spec fn v3_cross(a: Vec3Fx, b: Vec3Fx) -> Vec3Fx {
    v3(
        fx_sub(fx_mul(a.y as int, b.z as int), fx_mul(a.z as int, b.y as int)),
        fx_sub(fx_mul(a.z as int, b.x as int), fx_mul(a.x as int, b.z as int)),
        fx_sub(fx_mul(a.x as int, b.y as int), fx_mul(a.y as int, b.x as int)),
    )
}

/// Length of a vector in micro-units: the rounded-down square root of
/// the sum of the squared components.
pub open spec fn v3_len(a: Vec3Fx) -> int {
    clip(sqrt_floor(a.x as int * a.x as int + a.y as int * a.y as int + a.z as int * a.z as int))
}

/// The vector scaled to unit length, rounded toward zero per
/// component; the zero vector stays zero.
pub open spec fn v3_normalize(a: Vec3Fx) -> Vec3Fx {
    let l = v3_len(a);
    v3(fx_div(a.x as int, l), fx_div(a.y as int, l), fx_div(a.z as int, l))
}

impl Vec3Fx {
    pub fn new(x: i64, y: i64, z: i64) -> (r: Vec3Fx)
        ensures
            r == (Vec3Fx { x, y, z }),
    {
        Vec3Fx { x, y, z }
    }

    pub fn zero() -> (r: Vec3Fx)
        ensures
            r == v3(0, 0, 0),
    {
        Vec3Fx { x: 0, y: 0, z: 0 }
    }

    pub fn add(self, b: Vec3Fx) -> (r: Vec3Fx)
        ensures
            r == v3_add(self, b),
    {
        Vec3Fx { x: add_fx(self.x, b.x), y: add_fx(self.y, b.y), z: add_fx(self.z, b.z) }
    }

    pub fn sub(self, b: Vec3Fx) -> (r: Vec3Fx)
        ensures
            r == v3_sub(self, b),
    {
        Vec3Fx { x: sub_fx(self.x, b.x), y: sub_fx(self.y, b.y), z: sub_fx(self.z, b.z) }
    }

    pub fn neg(self) -> (r: Vec3Fx)
        ensures
            r == v3_neg(self),
    {
        Vec3Fx { x: neg_fx(self.x), y: neg_fx(self.y), z: neg_fx(self.z) }
    }

    pub fn scale(self, s: i64) -> (r: Vec3Fx)
        ensures
            r == v3_scale(self, s as int),
    {
        Vec3Fx { x: mul_fx(self.x, s), y: mul_fx(self.y, s), z: mul_fx(self.z, s) }
    }

    pub fn dot(self, b: Vec3Fx) -> (r: i64)
        ensures
            r as int == v3_dot(self, b),
    {
        let xx = mul_fx(self.x, b.x);
        let yy = mul_fx(self.y, b.y);
        let zz = mul_fx(self.z, b.z);
        crate::fx::clip64(xx as i128 + yy as i128 + zz as i128)
    }

    pub fn cross(self, b: Vec3Fx) -> (r: Vec3Fx)
        ensures
            r == v3_cross(self, b),
    {
        Vec3Fx {
            x: sub_fx(mul_fx(self.y, b.z), mul_fx(self.z, b.y)),
            y: sub_fx(mul_fx(self.z, b.x), mul_fx(self.x, b.z)),
            z: sub_fx(mul_fx(self.x, b.y), mul_fx(self.y, b.x)),
        }
    }

    pub fn len(self) -> (r: i64)
        ensures
            r as int == v3_len(self),
    {
        let sx = abs_u128(self.x);
        let sy = abs_u128(self.y);
        let sz = abs_u128(self.z);
        proof {
            assert(sx * sx <= 0x8000_0000_0000_0000u128 * 0x8000_0000_0000_0000u128
                && sx * sx == self.x as int * self.x as int) by (nonlinear_arith)
                requires
                    sx <= 0x8000_0000_0000_0000u128 && sx == crate::fx::abs_int(self.x as int),
            ;
            assert(sy * sy <= 0x8000_0000_0000_0000u128 * 0x8000_0000_0000_0000u128
                && sy * sy == self.y as int * self.y as int) by (nonlinear_arith)
                requires
                    sy <= 0x8000_0000_0000_0000u128 && sy == crate::fx::abs_int(self.y as int),
            ;
            assert(sz * sz <= 0x8000_0000_0000_0000u128 * 0x8000_0000_0000_0000u128
                && sz * sz == self.z as int * self.z as int) by (nonlinear_arith)
                requires
                    sz <= 0x8000_0000_0000_0000u128 && sz == crate::fx::abs_int(self.z as int),
            ;
        }
        let n: u128 = sx * sx + sy * sy + sz * sz;
        let root: u128 = isqrt(n);
        proof {
            crate::fx::lemma_sqrt_floor(n as int);
        }
        if root > i64::MAX as u128 {
            i64::MAX
        } else {
            root as i64
        }
    }

    pub fn normalize(self) -> (r: Vec3Fx)
        ensures
            r == v3_normalize(self),
    {
        let l = self.len();
        Vec3Fx { x: div_fx(self.x, l), y: div_fx(self.y, l), z: div_fx(self.z, l) }
    }
}

} // verus!
