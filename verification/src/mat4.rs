//! Column-major 4x4 matrices and rotation quaternions in fixed-point
//! micro-units, with the camera-oriented constructors: look-at view
//! matrices, right-handed perspective projection, and rotation plus
//! translation.

use vstd::prelude::*;
use crate::fx::{
    add_fx, clip, div_fx, div_int, fx_add, fx_div, fx_mul, fx_neg, fx_sub, fx_cos, fx_sin, mul_fx,
    neg_fx, sincos, sub_fx, trunc_div, SCALE,
};
use crate::vec3::{v3_cross, v3_dot, v3_normalize, v3_sub, Vec3Fx};

verus! {

/// A column of a matrix: four micro-unit scalars.
#[derive(Clone, Copy, Debug, PartialEq, Eq, Structural)]
pub struct Vec4Fx {
    pub x: i64,
    pub y: i64,
    pub z: i64,
    pub w: i64,
}

pub open spec fn v4(x: int, y: int, z: int, w: int) -> Vec4Fx {
    Vec4Fx { x: clip(x) as i64, y: clip(y) as i64, z: clip(z) as i64, w: clip(w) as i64 }
}

impl Vec4Fx {
    pub fn new(x: i64, y: i64, z: i64, w: i64) -> (r: Vec4Fx)
        ensures
            r == (Vec4Fx { x, y, z, w }),
    {
        Vec4Fx { x, y, z, w }
    }
}

/// A 4x4 matrix held as four columns, as the GPU consumes it.
#[derive(Clone, Copy, Debug, PartialEq, Eq, Structural)]
pub struct Mat4Fx {
    pub x_axis: Vec4Fx,
    pub y_axis: Vec4Fx,
    pub z_axis: Vec4Fx,
    pub w_axis: Vec4Fx,
}

/// A rotation quaternion in micro-units.
#[derive(Clone, Copy, Debug, PartialEq, Eq, Structural)]
pub struct QuatFx {
    pub x: i64,
    pub y: i64,
    pub z: i64,
    pub w: i64,
}

pub open spec fn mat4_identity() -> Mat4Fx {
    Mat4Fx {
        x_axis: v4(SCALE as int, 0, 0, 0),
        y_axis: v4(0, SCALE as int, 0, 0),
        z_axis: v4(0, 0, SCALE as int, 0),
        w_axis: v4(0, 0, 0, SCALE as int),
    }
}

/// One component of a matrix-vector product: the dot product of a row
/// with a column, accumulated exactly and then clipped once.
pub open spec fn row_dot(a: int, b: int, c: int, d: int, vx: int, vy: int, vz: int, vw: int) -> int {
    clip(fx_mul(a, vx) + fx_mul(b, vy) + fx_mul(c, vz) + fx_mul(d, vw))
}

pub open spec fn mat4_mul_vec4(m: Mat4Fx, v: Vec4Fx) -> Vec4Fx {
    v4(
        row_dot(
            m.x_axis.x as int,
            m.y_axis.x as int,
            m.z_axis.x as int,
            m.w_axis.x as int,
            v.x as int,
            v.y as int,
            v.z as int,
            v.w as int,
        ),
        row_dot(
            m.x_axis.y as int,
            m.y_axis.y as int,
            m.z_axis.y as int,
            m.w_axis.y as int,
            v.x as int,
            v.y as int,
            v.z as int,
            v.w as int,
        ),
        row_dot(
            m.x_axis.z as int,
            m.y_axis.z as int,
            m.z_axis.z as int,
            m.w_axis.z as int,
            v.x as int,
            v.y as int,
            v.z as int,
            v.w as int,
        ),
        row_dot(
            m.x_axis.w as int,
            m.y_axis.w as int,
            m.z_axis.w as int,
            m.w_axis.w as int,
            v.x as int,
            v.y as int,
            v.z as int,
            v.w as int,
        ),
    )
}

/// Matrix product, column by column.
pub open spec fn mat4_mul(a: Mat4Fx, b: Mat4Fx) -> Mat4Fx {
    Mat4Fx {
        x_axis: mat4_mul_vec4(a, b.x_axis),
        y_axis: mat4_mul_vec4(a, b.y_axis),
        z_axis: mat4_mul_vec4(a, b.z_axis),
        w_axis: mat4_mul_vec4(a, b.w_axis),
    }
}

/// A right-handed look-at view matrix: rows are the camera frame
/// (side, corrected up, negated forward), with the eye translation.
pub open spec fn mat4_look_at_rh(eye: Vec3Fx, center: Vec3Fx, up: Vec3Fx) -> Mat4Fx {
    let f = v3_normalize(v3_sub(center, eye));
    let s = v3_normalize(v3_cross(f, up));
    let u = v3_cross(s, f);
    Mat4Fx {
        x_axis: v4(s.x as int, u.x as int, fx_neg(f.x as int), 0),
        y_axis: v4(s.y as int, u.y as int, fx_neg(f.y as int), 0),
        z_axis: v4(s.z as int, u.z as int, fx_neg(f.z as int), 0),
        w_axis: v4(
            fx_neg(v3_dot(s, eye)),
            fx_neg(v3_dot(u, eye)),
            v3_dot(f, eye),
            SCALE as int,
        ),
    }
}

/// A right-handed perspective projection with depth mapped to
/// `[0, 1]`: focal scale from the cotangent of half the field of view.
pub open spec fn mat4_perspective_rh(fov_y: int, aspect: int, z_near: int, z_far: int) -> Mat4Fx {
    let half = trunc_div(fov_y, 2);
    let h = fx_div(fx_cos(half), fx_sin(half));
    let w = fx_div(h, aspect);
    let r = fx_div(z_far, fx_sub(z_near, z_far));
    Mat4Fx {
        x_axis: v4(w, 0, 0, 0),
        y_axis: v4(0, h, 0, 0),
        z_axis: v4(0, 0, r, fx_neg(SCALE as int)),
        w_axis: v4(0, 0, fx_mul(r, z_near), 0),
    }
}

/// Rotation by a quaternion followed by a translation.
pub open spec fn mat4_from_rotation_translation(q: QuatFx, t: Vec3Fx) -> Mat4Fx {
    let x2 = fx_add(q.x as int, q.x as int);
    let y2 = fx_add(q.y as int, q.y as int);
    let z2 = fx_add(q.z as int, q.z as int);
    let xx = fx_mul(q.x as int, x2);
    let xy = fx_mul(q.x as int, y2);
    let xz = fx_mul(q.x as int, z2);
    let yy = fx_mul(q.y as int, y2);
    let yz = fx_mul(q.y as int, z2);
    let zz = fx_mul(q.z as int, z2);
    let wx = fx_mul(q.w as int, x2);
    let wy = fx_mul(q.w as int, y2);
    let wz = fx_mul(q.w as int, z2);
    Mat4Fx {
        x_axis: v4(
            fx_sub(SCALE as int, fx_add(yy, zz)),
            fx_add(xy, wz),
            fx_sub(xz, wy),
            0,
        ),
        y_axis: v4(
            fx_sub(xy, wz),
            fx_sub(SCALE as int, fx_add(xx, zz)),
            fx_add(yz, wx),
            0,
        ),
        z_axis: v4(
            fx_add(xz, wy),
            fx_sub(yz, wx),
            fx_sub(SCALE as int, fx_add(xx, yy)),
            0,
        ),
        w_axis: v4(t.x as int, t.y as int, t.z as int, SCALE as int),
    }
}

impl Mat4Fx {
    pub fn identity() -> (r: Mat4Fx)
        ensures
            r == mat4_identity(),
    {
        Mat4Fx {
            x_axis: Vec4Fx { x: SCALE, y: 0, z: 0, w: 0 },
            y_axis: Vec4Fx { x: 0, y: SCALE, z: 0, w: 0 },
            z_axis: Vec4Fx { x: 0, y: 0, z: SCALE, w: 0 },
            w_axis: Vec4Fx { x: 0, y: 0, z: 0, w: SCALE },
        }
    }

    pub fn mul_vec4(&self, v: Vec4Fx) -> (r: Vec4Fx)
        ensures
            r == mat4_mul_vec4(*self, v),
    {
        let x = Self::dot4(self.x_axis.x, self.y_axis.x, self.z_axis.x, self.w_axis.x, v);
        let y = Self::dot4(self.x_axis.y, self.y_axis.y, self.z_axis.y, self.w_axis.y, v);
        let z = Self::dot4(self.x_axis.z, self.y_axis.z, self.z_axis.z, self.w_axis.z, v);
        let w = Self::dot4(self.x_axis.w, self.y_axis.w, self.z_axis.w, self.w_axis.w, v);
        Vec4Fx { x, y, z, w }
    }

    fn dot4(a: i64, b: i64, c: i64, d: i64, v: Vec4Fx) -> (r: i64)
        ensures
            r as int == row_dot(
                a as int,
                b as int,
                c as int,
                d as int,
                v.x as int,
                v.y as int,
                v.z as int,
                v.w as int,
            ),
    {
        let p0 = mul_fx(a, v.x);
        let p1 = mul_fx(b, v.y);
        let p2 = mul_fx(c, v.z);
        let p3 = mul_fx(d, v.w);
        crate::fx::clip64(p0 as i128 + p1 as i128 + p2 as i128 + p3 as i128)
    }

    pub fn mul(&self, b: &Mat4Fx) -> (r: Mat4Fx)
        ensures
            r == mat4_mul(*self, *b),
    {
        Mat4Fx {
            x_axis: self.mul_vec4(b.x_axis),
            y_axis: self.mul_vec4(b.y_axis),
            z_axis: self.mul_vec4(b.z_axis),
            w_axis: self.mul_vec4(b.w_axis),
        }
    }

    pub fn look_at_rh(eye: Vec3Fx, center: Vec3Fx, up: Vec3Fx) -> (r: Mat4Fx)
        ensures
            r == mat4_look_at_rh(eye, center, up),
    {
        let f = center.sub(eye).normalize();
        let s = f.cross(up).normalize();
        let u = s.cross(f);
        Mat4Fx {
            x_axis: Vec4Fx { x: s.x, y: u.x, z: neg_fx(f.x), w: 0 },
            y_axis: Vec4Fx { x: s.y, y: u.y, z: neg_fx(f.y), w: 0 },
            z_axis: Vec4Fx { x: s.z, y: u.z, z: neg_fx(f.z), w: 0 },
            w_axis: Vec4Fx {
                x: neg_fx(s.dot(eye)),
                y: neg_fx(u.dot(eye)),
                z: f.dot(eye),
                w: SCALE,
            },
        }
    }

    pub fn perspective_rh(fov_y: i64, aspect: i64, z_near: i64, z_far: i64) -> (r: Mat4Fx)
        ensures
            r == mat4_perspective_rh(fov_y as int, aspect as int, z_near as int, z_far as int),
    {
        let half = div_int(fov_y, 2);
        let (sin_h, cos_h) = sincos(half);
        let h = div_fx(cos_h, sin_h);
        let w = div_fx(h, aspect);
        let rr = div_fx(z_far, sub_fx(z_near, z_far));
        Mat4Fx {
            x_axis: Vec4Fx { x: w, y: 0, z: 0, w: 0 },
            y_axis: Vec4Fx { x: 0, y: h, z: 0, w: 0 },
            z_axis: Vec4Fx { x: 0, y: 0, z: rr, w: neg_fx(SCALE) },
            w_axis: Vec4Fx { x: 0, y: 0, z: mul_fx(rr, z_near), w: 0 },
        }
    }

    pub fn from_rotation_translation(q: QuatFx, t: Vec3Fx) -> (r: Mat4Fx)
        ensures
            r == mat4_from_rotation_translation(q, t),
    {
        let x2 = add_fx(q.x, q.x);
        let y2 = add_fx(q.y, q.y);
        let z2 = add_fx(q.z, q.z);
        let xx = mul_fx(q.x, x2);
        let xy = mul_fx(q.x, y2);
        let xz = mul_fx(q.x, z2);
        let yy = mul_fx(q.y, y2);
        let yz = mul_fx(q.y, z2);
        let zz = mul_fx(q.z, z2);
        let wx = mul_fx(q.w, x2);
        let wy = mul_fx(q.w, y2);
        let wz = mul_fx(q.w, z2);
        Mat4Fx {
            x_axis: Vec4Fx {
                x: sub_fx(SCALE, add_fx(yy, zz)),
                y: add_fx(xy, wz),
                z: sub_fx(xz, wy),
                w: 0,
            },
            y_axis: Vec4Fx {
                x: sub_fx(xy, wz),
                y: sub_fx(SCALE, add_fx(xx, zz)),
                z: add_fx(yz, wx),
                w: 0,
            },
            z_axis: Vec4Fx {
                x: add_fx(xz, wy),
                y: sub_fx(yz, wx),
                z: sub_fx(SCALE, add_fx(xx, yy)),
                w: 0,
            },
            w_axis: Vec4Fx { x: t.x, y: t.y, z: t.z, w: SCALE },
        }
    }
}

impl QuatFx {
    pub fn new(x: i64, y: i64, z: i64, w: i64) -> (r: QuatFx)
        ensures
            r == (QuatFx { x, y, z, w }),
    {
        QuatFx { x, y, z, w }
    }

    /// The identity rotation.
    pub fn identity() -> (r: QuatFx)
        ensures
            r == (QuatFx { x: 0i64, y: 0i64, z: 0i64, w: SCALE }),
    {
        QuatFx { x: 0, y: 0, z: 0, w: SCALE }
    }

    /// Rotation about the x axis by an angle in micro-radians.
    pub fn from_rotation_x(angle: i64) -> (r: QuatFx)
        ensures
            r.x as int == fx_sin(trunc_div(angle as int, 2)),
            r.y == 0 && r.z == 0,
            r.w as int == fx_cos(trunc_div(angle as int, 2)),
    {
        let (s, c) = sincos(div_int(angle, 2));
        QuatFx { x: s, y: 0, z: 0, w: c }
    }

    /// Rotation about the y axis by an angle in micro-radians.
    pub fn from_rotation_y(angle: i64) -> (r: QuatFx)
        ensures
            r.y as int == fx_sin(trunc_div(angle as int, 2)),
            r.x == 0 && r.z == 0,
            r.w as int == fx_cos(trunc_div(angle as int, 2)),
    {
        let (s, c) = sincos(div_int(angle, 2));
        QuatFx { x: 0, y: s, z: 0, w: c }
    }

    /// Rotation about the z axis by an angle in micro-radians.
    pub fn from_rotation_z(angle: i64) -> (r: QuatFx)
        ensures
            r.z as int == fx_sin(trunc_div(angle as int, 2)),
            r.x == 0 && r.y == 0,
            r.w as int == fx_cos(trunc_div(angle as int, 2)),
    {
        let (s, c) = sincos(div_int(angle, 2));
        QuatFx { x: 0, y: 0, z: s, w: c }
    }
}

/// Determinant of a 3x3 block given by rows.
pub open spec fn det3(
    a: int, b: int, c: int,
    d: int, e: int, f: int,
    g: int, h: int, i: int,
) -> int {
    a * (e * i - f * h) - b * (d * i - f * g) + c * (d * h - e * g)
}

/// Exact determinant of the stored entries, as mathematical integers:
/// cofactor expansion along the fourth row (the `w` components).
pub open spec fn mat4_det(m: Mat4Fx) -> int {
    - m.x_axis.w as int * det3(
        m.y_axis.x as int, m.z_axis.x as int, m.w_axis.x as int,
        m.y_axis.y as int, m.z_axis.y as int, m.w_axis.y as int,
        m.y_axis.z as int, m.z_axis.z as int, m.w_axis.z as int,
    ) + m.y_axis.w as int * det3(
        m.x_axis.x as int, m.z_axis.x as int, m.w_axis.x as int,
        m.x_axis.y as int, m.z_axis.y as int, m.w_axis.y as int,
        m.x_axis.z as int, m.z_axis.z as int, m.w_axis.z as int,
    ) - m.z_axis.w as int * det3(
        m.x_axis.x as int, m.y_axis.x as int, m.w_axis.x as int,
        m.x_axis.y as int, m.y_axis.y as int, m.w_axis.y as int,
        m.x_axis.z as int, m.y_axis.z as int, m.w_axis.z as int,
    ) + m.w_axis.w as int * det3(
        m.x_axis.x as int, m.y_axis.x as int, m.z_axis.x as int,
        m.x_axis.y as int, m.y_axis.y as int, m.z_axis.y as int,
        m.x_axis.z as int, m.y_axis.z as int, m.z_axis.z as int,
    )
}

/// A perspective projection whose focal scales and depth offset came
/// out nonzero has a nonzero determinant, so it is invertible.
pub proof fn lemma_perspective_invertible(fov_y: int, aspect: int, z_near: int, z_far: int)
    requires
        ({
            let p = mat4_perspective_rh(fov_y, aspect, z_near, z_far);
            p.x_axis.x != 0 && p.y_axis.y != 0 && p.w_axis.z != 0
        }),
    ensures
        mat4_det(mat4_perspective_rh(fov_y, aspect, z_near, z_far)) != 0,
{
    let p = mat4_perspective_rh(fov_y, aspect, z_near, z_far);
    let a = p.x_axis.x as int;
    let h = p.y_axis.y as int;
    let rr = p.z_axis.z as int;
    let pz = p.w_axis.z as int;
    let zw = p.z_axis.w as int;
    let d = mat4_det(p);
    let d1 = det3(
        p.y_axis.x as int, p.z_axis.x as int, p.w_axis.x as int,
        p.y_axis.y as int, p.z_axis.y as int, p.w_axis.y as int,
        p.y_axis.z as int, p.z_axis.z as int, p.w_axis.z as int,
    );
    let d2 = det3(
        p.x_axis.x as int, p.z_axis.x as int, p.w_axis.x as int,
        p.x_axis.y as int, p.z_axis.y as int, p.w_axis.y as int,
        p.x_axis.z as int, p.z_axis.z as int, p.w_axis.z as int,
    );
    let d3v = det3(
        p.x_axis.x as int, p.y_axis.x as int, p.w_axis.x as int,
        p.x_axis.y as int, p.y_axis.y as int, p.w_axis.y as int,
        p.x_axis.z as int, p.y_axis.z as int, p.w_axis.z as int,
    );
    let d4 = det3(
        p.x_axis.x as int, p.y_axis.x as int, p.z_axis.x as int,
        p.x_axis.y as int, p.y_axis.y as int, p.z_axis.y as int,
        p.x_axis.z as int, p.y_axis.z as int, p.z_axis.z as int,
    );
    assert(clip(fx_neg(SCALE as int)) == -(SCALE as int));
    assert(zw == -(SCALE as int));
    assert(p.x_axis.w == 0 && p.y_axis.w == 0 && p.w_axis.w == 0);
    assert(d == -(p.x_axis.w as int) * d1 + (p.y_axis.w as int) * d2 - zw * d3v + (
        p.w_axis.w as int) * d4);
    assert(d3v == a * (h * pz - p.w_axis.y as int * p.y_axis.z as int) - (p.y_axis.x as int) * (
        (p.x_axis.y as int) * pz - (p.w_axis.y as int) * (p.x_axis.z as int)) + (
        p.w_axis.x as int) * ((p.x_axis.y as int) * (p.y_axis.z as int) - h * (
        p.x_axis.z as int)));
    assert(p.x_axis.y == 0 && p.x_axis.z == 0 && p.y_axis.x == 0 && p.y_axis.z == 0
        && p.w_axis.x == 0 && p.w_axis.y == 0);
    assert(d != 0) by (nonlinear_arith)
        requires
            d == -(p.x_axis.w as int) * d1 + (p.y_axis.w as int) * d2 - zw * d3v + (
                p.w_axis.w as int) * d4,
            d3v == a * (h * pz - p.w_axis.y as int * p.y_axis.z as int) - (p.y_axis.x as int) * (
                (p.x_axis.y as int) * pz - (p.w_axis.y as int) * (p.x_axis.z as int)) + (
                p.w_axis.x as int) * ((p.x_axis.y as int) * (p.y_axis.z as int) - h * (
                p.x_axis.z as int)),
            p.x_axis.w == 0 && p.y_axis.w == 0 && p.w_axis.w == 0,
            p.x_axis.y == 0 && p.x_axis.z == 0 && p.y_axis.x == 0 && p.y_axis.z == 0
                && p.w_axis.x == 0 && p.w_axis.y == 0,
            zw == -(SCALE as int),
            a != 0 && h != 0 && pz != 0,
    ;
}

} // verus!
