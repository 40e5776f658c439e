//! 4x4 homogeneous matrices over fixed-point scalars, row-major.

use vstd::prelude::*;
use crate::fx::{
    fx_wf, fx_add_s, fx_sub_s, fx_mul_s, fx_div_s, fx_add, fx_sub, fx_mul, fx_div,
    fx_sin, fx_cos, fx_sin_s, fx_cos_s, FX_ONE, lemma_fx_mul_unit,
};
use crate::vec3::{Vec3, v_wf, vlen_s, vnorm_s, vcross_s, vdot_s, vsub_s};

verus! {

/// A 4x4 matrix of fixed-point scalars; `mRC` is row R, column C.
#[derive(Clone, Copy, Debug, PartialEq, Eq, Structural)]
pub struct Mat4 {
    pub m00: i64, pub m01: i64, pub m02: i64, pub m03: i64,
    pub m10: i64, pub m11: i64, pub m12: i64, pub m13: i64,
    pub m20: i64, pub m21: i64, pub m22: i64, pub m23: i64,
    pub m30: i64, pub m31: i64, pub m32: i64, pub m33: i64,
}

/// Every entry is a well-formed scalar.
pub open spec fn m_wf(m: Mat4) -> bool {
    fx_wf(m.m00) && fx_wf(m.m01) && fx_wf(m.m02) && fx_wf(m.m03)
    && fx_wf(m.m10) && fx_wf(m.m11) && fx_wf(m.m12) && fx_wf(m.m13)
    && fx_wf(m.m20) && fx_wf(m.m21) && fx_wf(m.m22) && fx_wf(m.m23)
    && fx_wf(m.m30) && fx_wf(m.m31) && fx_wf(m.m32) && fx_wf(m.m33)
}

/// The identity matrix.
pub open spec fn mat_id_s() -> Mat4 {
    Mat4 {
        m00: FX_ONE, m01: 0, m02: 0, m03: 0,
        m10: 0, m11: FX_ONE, m12: 0, m13: 0,
        m20: 0, m21: 0, m22: FX_ONE, m23: 0,
        m30: 0, m31: 0, m32: 0, m33: FX_ONE,
    }
}

/// One entry of a matrix product: the saturating left-to-right sum of the
/// four fixed-point products of a row against a column.
pub open spec fn dot4_s(a0: int, a1: int, a2: int, a3: int, b0: int, b1: int, b2: int, b3: int) -> int {
    fx_add_s(
        fx_add_s(fx_add_s(fx_mul_s(a0, b0), fx_mul_s(a1, b1)), fx_mul_s(a2, b2)),
        fx_mul_s(a3, b3),
    )
}

/// The matrix product a * b.
pub open spec fn mat_mul_s(a: Mat4, b: Mat4) -> Mat4 {
    Mat4 {
        m00: dot4_s(a.m00 as int, a.m01 as int, a.m02 as int, a.m03 as int, b.m00 as int, b.m10 as int, b.m20 as int, b.m30 as int) as i64,
        m01: dot4_s(a.m00 as int, a.m01 as int, a.m02 as int, a.m03 as int, b.m01 as int, b.m11 as int, b.m21 as int, b.m31 as int) as i64,
        m02: dot4_s(a.m00 as int, a.m01 as int, a.m02 as int, a.m03 as int, b.m02 as int, b.m12 as int, b.m22 as int, b.m32 as int) as i64,
        m03: dot4_s(a.m00 as int, a.m01 as int, a.m02 as int, a.m03 as int, b.m03 as int, b.m13 as int, b.m23 as int, b.m33 as int) as i64,
        m10: dot4_s(a.m10 as int, a.m11 as int, a.m12 as int, a.m13 as int, b.m00 as int, b.m10 as int, b.m20 as int, b.m30 as int) as i64,
        m11: dot4_s(a.m10 as int, a.m11 as int, a.m12 as int, a.m13 as int, b.m01 as int, b.m11 as int, b.m21 as int, b.m31 as int) as i64,
        m12: dot4_s(a.m10 as int, a.m11 as int, a.m12 as int, a.m13 as int, b.m02 as int, b.m12 as int, b.m22 as int, b.m32 as int) as i64,
        m13: dot4_s(a.m10 as int, a.m11 as int, a.m12 as int, a.m13 as int, b.m03 as int, b.m13 as int, b.m23 as int, b.m33 as int) as i64,
        m20: dot4_s(a.m20 as int, a.m21 as int, a.m22 as int, a.m23 as int, b.m00 as int, b.m10 as int, b.m20 as int, b.m30 as int) as i64,
        m21: dot4_s(a.m20 as int, a.m21 as int, a.m22 as int, a.m23 as int, b.m01 as int, b.m11 as int, b.m21 as int, b.m31 as int) as i64,
        m22: dot4_s(a.m20 as int, a.m21 as int, a.m22 as int, a.m23 as int, b.m02 as int, b.m12 as int, b.m22 as int, b.m32 as int) as i64,
        m23: dot4_s(a.m20 as int, a.m21 as int, a.m22 as int, a.m23 as int, b.m03 as int, b.m13 as int, b.m23 as int, b.m33 as int) as i64,
        m30: dot4_s(a.m30 as int, a.m31 as int, a.m32 as int, a.m33 as int, b.m00 as int, b.m10 as int, b.m20 as int, b.m30 as int) as i64,
        m31: dot4_s(a.m30 as int, a.m31 as int, a.m32 as int, a.m33 as int, b.m01 as int, b.m11 as int, b.m21 as int, b.m31 as int) as i64,
        m32: dot4_s(a.m30 as int, a.m31 as int, a.m32 as int, a.m33 as int, b.m02 as int, b.m12 as int, b.m22 as int, b.m32 as int) as i64,
        m33: dot4_s(a.m30 as int, a.m31 as int, a.m32 as int, a.m33 as int, b.m03 as int, b.m13 as int, b.m23 as int, b.m33 as int) as i64,
    }
}

/// A row applied to a point with implicit w = 1: three fixed-point products
/// plus the translation entry.
pub open spec fn row_point_s(r0: int, r1: int, r2: int, r3: int, p: Vec3) -> int {
    fx_add_s(
        fx_add_s(fx_add_s(fx_mul_s(r0, p.x as int), fx_mul_s(r1, p.y as int)), fx_mul_s(r2, p.z as int)),
        r3,
    )
}

/// A point transformed by the full matrix, divided by w when w is neither
/// zero nor one (the zero case keeps the undivided coordinates).
pub open spec fn transform_point_s(m: Mat4, p: Vec3) -> Vec3 {
    let x = row_point_s(m.m00 as int, m.m01 as int, m.m02 as int, m.m03 as int, p);
    let y = row_point_s(m.m10 as int, m.m11 as int, m.m12 as int, m.m13 as int, p);
    let z = row_point_s(m.m20 as int, m.m21 as int, m.m22 as int, m.m23 as int, p);
    let w = row_point_s(m.m30 as int, m.m31 as int, m.m32 as int, m.m33 as int, p);
    if w != 0 && w != FX_ONE {
        Vec3 { x: fx_div_s(x, w) as i64, y: fx_div_s(y, w) as i64, z: fx_div_s(z, w) as i64 }
    } else {
        Vec3 { x: x as i64, y: y as i64, z: z as i64 }
    }
}

/// A direction transformed by the upper-left 3x3 block (no translation).
pub open spec fn transform_direction_s(m: Mat4, d: Vec3) -> Vec3 {
    Vec3 {
        x: fx_add_s(fx_add_s(fx_mul_s(m.m00 as int, d.x as int), fx_mul_s(m.m01 as int, d.y as int)), fx_mul_s(m.m02 as int, d.z as int)) as i64,
        y: fx_add_s(fx_add_s(fx_mul_s(m.m10 as int, d.x as int), fx_mul_s(m.m11 as int, d.y as int)), fx_mul_s(m.m12 as int, d.z as int)) as i64,
        z: fx_add_s(fx_add_s(fx_mul_s(m.m20 as int, d.x as int), fx_mul_s(m.m21 as int, d.y as int)), fx_mul_s(m.m22 as int, d.z as int)) as i64,
    }
}

/// Below this length (about 1e-4) eye and target count as coincident.
pub const LOOK_EPS: i64 = 7;

/// Mirror of `Mat4::perspective`.
pub open spec fn perspective_s(fov: int, aspect: int, near: int, far: int) -> Mat4 {
    let half = crate::fx::tdiv(fov, 2);
    let s = fx_sin_s(half);
    let c = fx_cos_s(half);
    if c == 0 || s == 0 {
        mat_id_s()
    } else {
        let tan_half = fx_div_s(s, c);
        let denom = fx_mul_s(aspect, tan_half);
        let fmn = fx_sub_s(far, near);
        if tan_half == 0 || denom == 0 || fmn == 0 {
            mat_id_s()
        } else {
            Mat4 {
                m00: fx_div_s(FX_ONE as int, denom) as i64, m01: 0, m02: 0, m03: 0,
                m10: 0, m11: fx_div_s(FX_ONE as int, tan_half) as i64, m12: 0, m13: 0,
                m20: 0, m21: 0,
                m22: (-fx_div_s(fx_add_s(far, near), fmn)) as i64,
                m23: (-fx_div_s(fx_mul_s(fx_add_s(near, near), far), fmn)) as i64,
                m30: 0, m31: 0, m32: (-FX_ONE) as i64, m33: 0,
            }
        }
    }
}

/// Mirror of `Mat4::look_at`.
pub open spec fn look_at_s(eye: Vec3, target: Vec3, up: Vec3) -> Mat4 {
    let forward = vsub_s(target, eye);
    if vlen_s(forward) < LOOK_EPS {
        mat_id_s()
    } else {
        let f = vnorm_s(forward);
        let right = vnorm_s(vcross_s(f, up));
        let u = vcross_s(right, f);
        Mat4 {
            m00: right.x, m01: right.y, m02: right.z, m03: (-vdot_s(right, eye)) as i64,
            m10: u.x, m11: u.y, m12: u.z, m13: (-vdot_s(u, eye)) as i64,
            m20: (-f.x) as i64, m21: (-f.y) as i64, m22: (-f.z) as i64, m23: vdot_s(f, eye) as i64,
            m30: 0, m31: 0, m32: 0, m33: FX_ONE,
        }
    }
}

impl Mat4 {
    /// The identity matrix.
    pub fn identity() -> (r: Mat4)
        ensures
            r == mat_id_s(),
            m_wf(r),
    {
        Mat4 {
            m00: FX_ONE, m01: 0, m02: 0, m03: 0,
            m10: 0, m11: FX_ONE, m12: 0, m13: 0,
            m20: 0, m21: 0, m22: FX_ONE, m23: 0,
            m30: 0, m31: 0, m32: 0, m33: FX_ONE,
        }
    }

    /// The all-zero matrix.
    pub fn zero() -> (r: Mat4)
        ensures
            r.m00 == 0 && r.m01 == 0 && r.m02 == 0 && r.m03 == 0,
            r.m10 == 0 && r.m11 == 0 && r.m12 == 0 && r.m13 == 0,
            r.m20 == 0 && r.m21 == 0 && r.m22 == 0 && r.m23 == 0,
            r.m30 == 0 && r.m31 == 0 && r.m32 == 0 && r.m33 == 0,
            m_wf(r),
    {
        Mat4 {
            m00: 0, m01: 0, m02: 0, m03: 0,
            m10: 0, m11: 0, m12: 0, m13: 0,
            m20: 0, m21: 0, m22: 0, m23: 0,
            m30: 0, m31: 0, m32: 0, m33: 0,
        }
    }

    /// Translation by (x, y, z).
    pub fn translation(x: i64, y: i64, z: i64) -> (r: Mat4)
        requires
            fx_wf(x),
            fx_wf(y),
            fx_wf(z),
        ensures
            r == (Mat4 { m03: x, m13: y, m23: z, ..mat_id_s() }),
            m_wf(r),
    {
        Mat4 { m03: x, m13: y, m23: z, ..Mat4::identity() }
    }

    /// Non-uniform scale by (sx, sy, sz).
    pub fn scale(sx: i64, sy: i64, sz: i64) -> (r: Mat4)
        requires
            fx_wf(sx),
            fx_wf(sy),
            fx_wf(sz),
        ensures
            r == (Mat4 { m00: sx, m11: sy, m22: sz, ..mat_id_s() }),
            m_wf(r),
    {
        Mat4 { m00: sx, m11: sy, m22: sz, ..Mat4::identity() }
    }

    /// Rotation about the X axis by an angle in fixed-point radians.
    pub fn rotation_x(angle: i64) -> (r: Mat4)
        requires
            fx_wf(angle),
        ensures
            r == (Mat4 {
                m11: fx_cos_s(angle as int) as i64,
                m12: -fx_sin_s(angle as int) as i64,
                m21: fx_sin_s(angle as int) as i64,
                m22: fx_cos_s(angle as int) as i64,
                ..mat_id_s()
            }),
            m_wf(r),
    {
        let c: i64 = fx_cos(angle);
        let s: i64 = fx_sin(angle);
        Mat4 { m11: c, m12: -s, m21: s, m22: c, ..Mat4::identity() }
    }

    /// Rotation about the Y axis by an angle in fixed-point radians.
    pub fn rotation_y(angle: i64) -> (r: Mat4)
        requires
            fx_wf(angle),
        ensures
            r == (Mat4 {
                m00: fx_cos_s(angle as int) as i64,
                m02: fx_sin_s(angle as int) as i64,
                m20: -fx_sin_s(angle as int) as i64,
                m22: fx_cos_s(angle as int) as i64,
                ..mat_id_s()
            }),
            m_wf(r),
    {
        let c: i64 = fx_cos(angle);
        let s: i64 = fx_sin(angle);
        Mat4 { m00: c, m02: s, m20: -s, m22: c, ..Mat4::identity() }
    }

    /// Rotation about the Z axis by an angle in fixed-point radians.
    pub fn rotation_z(angle: i64) -> (r: Mat4)
        requires
            fx_wf(angle),
        ensures
            r == (Mat4 {
                m00: fx_cos_s(angle as int) as i64,
                m01: -fx_sin_s(angle as int) as i64,
                m10: fx_sin_s(angle as int) as i64,
                m11: fx_cos_s(angle as int) as i64,
                ..mat_id_s()
            }),
            m_wf(r),
    {
        let c: i64 = fx_cos(angle);
        let s: i64 = fx_sin(angle);
        Mat4 { m00: c, m01: -s, m10: s, m11: c, ..Mat4::identity() }
    }

    /// Perspective projection. Degenerate parameters (a flat or half-turn
    /// field of view, zero aspect, or equal near and far planes) fall back
    /// to the identity matrix instead of dividing by zero.
    pub fn perspective(fov: i64, aspect: i64, near: i64, far: i64) -> (r: Mat4)
        requires
            fx_wf(fov),
            fx_wf(aspect),
            fx_wf(near),
            fx_wf(far),
        ensures
            r == perspective_s(fov as int, aspect as int, near as int, far as int),
            m_wf(r),
    {
        let half: i64 = fov / 2;
        let s: i64 = fx_sin(half);
        let c: i64 = fx_cos(half);
        if c == 0 || s == 0 {
            return Mat4::identity();
        }
        let tan_half: i64 = fx_div(s, c);
        let denom: i64 = fx_mul(aspect, tan_half);
        let fmn: i64 = fx_sub(far, near);
        if tan_half == 0 || denom == 0 || fmn == 0 {
            return Mat4::identity();
        }
        let m00: i64 = fx_div(FX_ONE, denom);
        let m11: i64 = fx_div(FX_ONE, tan_half);
        let m22: i64 = -fx_div(fx_add(far, near), fmn);
        let m23: i64 = -fx_div(fx_mul(fx_add(near, near), far), fmn);
        Mat4 {
            m00, m01: 0, m02: 0, m03: 0,
            m10: 0, m11, m12: 0, m13: 0,
            m20: 0, m21: 0, m22, m23,
            m30: 0, m31: 0, m32: -FX_ONE, m33: 0,
        }
    }

    /// View matrix looking from `eye` toward `target` with the given up
    /// vector. When eye and target (nearly) coincide there is no defined
    /// view direction, so the identity matrix is returned.
    pub fn look_at(eye: Vec3, target: Vec3, up: Vec3) -> (r: Mat4)
        requires
            v_wf(eye),
            v_wf(target),
            v_wf(up),
        ensures
            r == look_at_s(eye, target, up),
            m_wf(r),
    {
        let forward: Vec3 = target.sub(&eye);
        if forward.length() < LOOK_EPS {
            return Mat4::identity();
        }
        let f: Vec3 = forward.normalize();
        let right: Vec3 = f.cross(&up).normalize();
        let u: Vec3 = right.cross(&f);
        let m03: i64 = -right.dot(&eye);
        let m13: i64 = -u.dot(&eye);
        let m23: i64 = f.dot(&eye);
        Mat4 {
            m00: right.x, m01: right.y, m02: right.z, m03,
            m10: u.x, m11: u.y, m12: u.z, m13,
            m20: -f.x, m21: -f.y, m22: -f.z, m23,
            m30: 0, m31: 0, m32: 0, m33: FX_ONE,
        }
    }

    /// Standard matrix product; not commutative.
    pub fn multiply(&self, other: &Mat4) -> (r: Mat4)
        requires
            m_wf(*self),
            m_wf(*other),
        ensures
            r == mat_mul_s(*self, *other),
            m_wf(r),
    {
        let a = *self;
        let b = *other;
        Mat4 {
            m00: fx_add(fx_add(fx_add(fx_mul(a.m00, b.m00), fx_mul(a.m01, b.m10)), fx_mul(a.m02, b.m20)), fx_mul(a.m03, b.m30)),
            m01: fx_add(fx_add(fx_add(fx_mul(a.m00, b.m01), fx_mul(a.m01, b.m11)), fx_mul(a.m02, b.m21)), fx_mul(a.m03, b.m31)),
            m02: fx_add(fx_add(fx_add(fx_mul(a.m00, b.m02), fx_mul(a.m01, b.m12)), fx_mul(a.m02, b.m22)), fx_mul(a.m03, b.m32)),
            m03: fx_add(fx_add(fx_add(fx_mul(a.m00, b.m03), fx_mul(a.m01, b.m13)), fx_mul(a.m02, b.m23)), fx_mul(a.m03, b.m33)),
            m10: fx_add(fx_add(fx_add(fx_mul(a.m10, b.m00), fx_mul(a.m11, b.m10)), fx_mul(a.m12, b.m20)), fx_mul(a.m13, b.m30)),
            m11: fx_add(fx_add(fx_add(fx_mul(a.m10, b.m01), fx_mul(a.m11, b.m11)), fx_mul(a.m12, b.m21)), fx_mul(a.m13, b.m31)),
            m12: fx_add(fx_add(fx_add(fx_mul(a.m10, b.m02), fx_mul(a.m11, b.m12)), fx_mul(a.m12, b.m22)), fx_mul(a.m13, b.m32)),
            m13: fx_add(fx_add(fx_add(fx_mul(a.m10, b.m03), fx_mul(a.m11, b.m13)), fx_mul(a.m12, b.m23)), fx_mul(a.m13, b.m33)),
            m20: fx_add(fx_add(fx_add(fx_mul(a.m20, b.m00), fx_mul(a.m21, b.m10)), fx_mul(a.m22, b.m20)), fx_mul(a.m23, b.m30)),
            m21: fx_add(fx_add(fx_add(fx_mul(a.m20, b.m01), fx_mul(a.m21, b.m11)), fx_mul(a.m22, b.m21)), fx_mul(a.m23, b.m31)),
            m22: fx_add(fx_add(fx_add(fx_mul(a.m20, b.m02), fx_mul(a.m21, b.m12)), fx_mul(a.m22, b.m22)), fx_mul(a.m23, b.m32)),
            m23: fx_add(fx_add(fx_add(fx_mul(a.m20, b.m03), fx_mul(a.m21, b.m13)), fx_mul(a.m22, b.m23)), fx_mul(a.m23, b.m33)),
            m30: fx_add(fx_add(fx_add(fx_mul(a.m30, b.m00), fx_mul(a.m31, b.m10)), fx_mul(a.m32, b.m20)), fx_mul(a.m33, b.m30)),
            m31: fx_add(fx_add(fx_add(fx_mul(a.m30, b.m01), fx_mul(a.m31, b.m11)), fx_mul(a.m32, b.m21)), fx_mul(a.m33, b.m31)),
            m32: fx_add(fx_add(fx_add(fx_mul(a.m30, b.m02), fx_mul(a.m31, b.m12)), fx_mul(a.m32, b.m22)), fx_mul(a.m33, b.m32)),
            m33: fx_add(fx_add(fx_add(fx_mul(a.m30, b.m03), fx_mul(a.m31, b.m13)), fx_mul(a.m32, b.m23)), fx_mul(a.m33, b.m33)),
        }
    }

    /// Transform a point (w = 1), dividing by w when w is neither 0 nor 1.
    pub fn transform_point(&self, p: &Vec3) -> (r: Vec3)
        requires
            m_wf(*self),
            v_wf(*p),
        ensures
            r == transform_point_s(*self, *p),
            v_wf(r),
    {
        let x: i64 = fx_add(fx_add(fx_add(fx_mul(self.m00, p.x), fx_mul(self.m01, p.y)), fx_mul(self.m02, p.z)), self.m03);
        let y: i64 = fx_add(fx_add(fx_add(fx_mul(self.m10, p.x), fx_mul(self.m11, p.y)), fx_mul(self.m12, p.z)), self.m13);
        let z: i64 = fx_add(fx_add(fx_add(fx_mul(self.m20, p.x), fx_mul(self.m21, p.y)), fx_mul(self.m22, p.z)), self.m23);
        let w: i64 = fx_add(fx_add(fx_add(fx_mul(self.m30, p.x), fx_mul(self.m31, p.y)), fx_mul(self.m32, p.z)), self.m33);
        if w != 0 && w != FX_ONE {
            Vec3 { x: fx_div(x, w), y: fx_div(y, w), z: fx_div(z, w) }
        } else {
            Vec3 { x, y, z }
        }
    }

    /// Transform a direction (w = 0): rotation and scale without translation.
    pub fn transform_direction(&self, d: &Vec3) -> (r: Vec3)
        requires
            m_wf(*self),
            v_wf(*d),
        ensures
            r == transform_direction_s(*self, *d),
            v_wf(r),
    {
        Vec3 {
            x: fx_add(fx_add(fx_mul(self.m00, d.x), fx_mul(self.m01, d.y)), fx_mul(self.m02, d.z)),
            y: fx_add(fx_add(fx_mul(self.m10, d.x), fx_mul(self.m11, d.y)), fx_mul(self.m12, d.z)),
            z: fx_add(fx_add(fx_mul(self.m20, d.x), fx_mul(self.m21, d.y)), fx_mul(self.m22, d.z)),
        }
    }
}

/// Matrix identity law, first half: multiplying any well-formed matrix by
/// the identity, on either side, leaves it unchanged.
pub proof fn lemma_mul_identity(m: Mat4)
    requires
        m_wf(m),
    ensures
        mat_mul_s(m, mat_id_s()) == m,
        mat_mul_s(mat_id_s(), m) == m,
{
    lemma_fx_mul_unit(m.m00 as int);
    lemma_fx_mul_unit(m.m01 as int);
    lemma_fx_mul_unit(m.m02 as int);
    lemma_fx_mul_unit(m.m03 as int);
    lemma_fx_mul_unit(m.m10 as int);
    lemma_fx_mul_unit(m.m11 as int);
    lemma_fx_mul_unit(m.m12 as int);
    lemma_fx_mul_unit(m.m13 as int);
    lemma_fx_mul_unit(m.m20 as int);
    lemma_fx_mul_unit(m.m21 as int);
    lemma_fx_mul_unit(m.m22 as int);
    lemma_fx_mul_unit(m.m23 as int);
    lemma_fx_mul_unit(m.m30 as int);
    lemma_fx_mul_unit(m.m31 as int);
    lemma_fx_mul_unit(m.m32 as int);
    lemma_fx_mul_unit(m.m33 as int);
}

/// Matrix identity law, second half: the identity matrix transforms every
/// well-formed point to itself.
pub proof fn lemma_transform_point_identity(p: Vec3)
    requires
        v_wf(p),
    ensures
        transform_point_s(mat_id_s(), p) == p,
{
    lemma_fx_mul_unit(p.x as int);
    lemma_fx_mul_unit(p.y as int);
    lemma_fx_mul_unit(p.z as int);
}

} // verus!
