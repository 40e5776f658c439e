//! 3D vectors over fixed-point scalars.

use vstd::prelude::*;
use crate::fx::{
    fx_wf, sat, fx_add_s, fx_sub_s, fx_mul_s, fx_div_s, fx_add, fx_sub, fx_mul, fx_div, fx_sat,
    isqrt_s, isqrt, lemma_isqrt_s,
};

verus! {

/// A 3D vector of fixed-point scalars.
#[derive(Clone, Copy, Debug, PartialEq, Eq, Structural)]
pub struct Vec3 {
    pub x: i64,
    pub y: i64,
    pub z: i64,
}

/// All three components are well-formed scalars.
pub open spec fn v_wf(v: Vec3) -> bool {
    fx_wf(v.x) && fx_wf(v.y) && fx_wf(v.z)
}

/// The dot product of two vectors, as the saturating sum of the
/// three componentwise fixed-point products.
pub open spec fn vdot_s(a: Vec3, b: Vec3) -> int {
    fx_add_s(
        fx_add_s(fx_mul_s(a.x as int, b.x as int), fx_mul_s(a.y as int, b.y as int)),
        fx_mul_s(a.z as int, b.z as int),
    )
}

/// Componentwise saturating sum.
pub open spec fn vadd_s(a: Vec3, b: Vec3) -> Vec3 {
    Vec3 {
        x: fx_add_s(a.x as int, b.x as int) as i64,
        y: fx_add_s(a.y as int, b.y as int) as i64,
        z: fx_add_s(a.z as int, b.z as int) as i64,
    }
}

/// Componentwise saturating difference.
pub open spec fn vsub_s(a: Vec3, b: Vec3) -> Vec3 {
    Vec3 {
        x: fx_sub_s(a.x as int, b.x as int) as i64,
        y: fx_sub_s(a.y as int, b.y as int) as i64,
        z: fx_sub_s(a.z as int, b.z as int) as i64,
    }
}

/// Every component scaled by the scalar s.
pub open spec fn vscale_s(a: Vec3, s: int) -> Vec3 {
    Vec3 {
        x: fx_mul_s(a.x as int, s) as i64,
        y: fx_mul_s(a.y as int, s) as i64,
        z: fx_mul_s(a.z as int, s) as i64,
    }
}

/// The cross product.
pub open spec fn vcross_s(a: Vec3, b: Vec3) -> Vec3 {
    Vec3 {
        x: fx_sub_s(fx_mul_s(a.y as int, b.z as int), fx_mul_s(a.z as int, b.y as int)) as i64,
        y: fx_sub_s(fx_mul_s(a.z as int, b.x as int), fx_mul_s(a.x as int, b.z as int)) as i64,
        z: fx_sub_s(fx_mul_s(a.x as int, b.y as int), fx_mul_s(a.y as int, b.x as int)) as i64,
    }
}

/// The length of a vector: the saturated square root of the sum of the
/// squared component magnitudes (exact in fixed-point units).
pub open spec fn vlen_s(v: Vec3) -> int {
    sat(isqrt_s(v.x * v.x + v.y * v.y + v.z * v.z))
}

/// The normalized vector; the zero vector stays itself.
pub open spec fn vnorm_s(v: Vec3) -> Vec3 {
    let l = vlen_s(v);
    if l == 0 {
        v
    } else {
        Vec3 {
            x: fx_div_s(v.x as int, l) as i64,
            y: fx_div_s(v.y as int, l) as i64,
            z: fx_div_s(v.z as int, l) as i64,
        }
    }
}

impl Vec3 {
    /// Build a vector from three scalars.
    pub fn new(x: i64, y: i64, z: i64) -> (r: Vec3)
        ensures
            r.x == x && r.y == y && r.z == z,
    {
        Vec3 { x, y, z }
    }

    /// The zero vector.
    pub fn zero() -> (r: Vec3)
        ensures
            r.x == 0 && r.y == 0 && r.z == 0,
            v_wf(r),
    {
        Vec3 { x: 0, y: 0, z: 0 }
    }

    /// Componentwise saturating addition.
    pub fn add(&self, o: &Vec3) -> (r: Vec3)
        requires
            v_wf(*self),
            v_wf(*o),
        ensures
            r == vadd_s(*self, *o),
            v_wf(r),
    {
        Vec3 { x: fx_add(self.x, o.x), y: fx_add(self.y, o.y), z: fx_add(self.z, o.z) }
    }

    /// Componentwise saturating subtraction.
    pub fn sub(&self, o: &Vec3) -> (r: Vec3)
        requires
            v_wf(*self),
            v_wf(*o),
        ensures
            r == vsub_s(*self, *o),
            v_wf(r),
    {
        Vec3 { x: fx_sub(self.x, o.x), y: fx_sub(self.y, o.y), z: fx_sub(self.z, o.z) }
    }

    /// Negation of every component.
    pub fn neg(&self) -> (r: Vec3)
        requires
            v_wf(*self),
        ensures
            r.x == -self.x && r.y == -self.y && r.z == -self.z,
            v_wf(r),
    {
        Vec3 { x: -self.x, y: -self.y, z: -self.z }
    }

    /// Scale every component by the scalar s.
    pub fn scale(&self, s: i64) -> (r: Vec3)
        requires
            v_wf(*self),
            fx_wf(s),
        ensures
            r == vscale_s(*self, s as int),
            v_wf(r),
    {
        Vec3 { x: fx_mul(self.x, s), y: fx_mul(self.y, s), z: fx_mul(self.z, s) }
    }

    /// Dot product.
    pub fn dot(&self, o: &Vec3) -> (r: i64)
        requires
            v_wf(*self),
            v_wf(*o),
        ensures
            r == vdot_s(*self, *o),
            fx_wf(r),
    {
        fx_add(fx_add(fx_mul(self.x, o.x), fx_mul(self.y, o.y)), fx_mul(self.z, o.z))
    }

    /// Cross product.
    pub fn cross(&self, o: &Vec3) -> (r: Vec3)
        requires
            v_wf(*self),
            v_wf(*o),
        ensures
            r == vcross_s(*self, *o),
            v_wf(r),
    {
        Vec3 {
            x: fx_sub(fx_mul(self.y, o.z), fx_mul(self.z, o.y)),
            y: fx_sub(fx_mul(self.z, o.x), fx_mul(self.x, o.z)),
            z: fx_sub(fx_mul(self.x, o.y), fx_mul(self.y, o.x)),
        }
    }

    /// Euclidean length, exact over the raw component values.
    pub fn length(&self) -> (r: i64)
        requires
            v_wf(*self),
        ensures
            r == vlen_s(*self),
            0 <= r,
            fx_wf(r),
    {
        proof {
            crate::fx::lemma_mul_bound(self.x as int, self.x as int);
            crate::fx::lemma_mul_bound(self.y as int, self.y as int);
            crate::fx::lemma_mul_bound(self.z as int, self.z as int);
            assert(self.x * self.x >= 0 && self.y * self.y >= 0 && self.z * self.z >= 0) by (nonlinear_arith);
        }
        let xx: i128 = (self.x as i128) * (self.x as i128);
        let yy: i128 = (self.y as i128) * (self.y as i128);
        let zz: i128 = (self.z as i128) * (self.z as i128);
        let s: i128 = xx + yy + zz;
        let root: i64 = isqrt(s);
        proof {
            lemma_isqrt_s(s as int);
        }
        fx_sat(root)
    }

    /// Normalize to unit length; the zero vector stays the zero vector
    /// instead of producing an undefined direction.
    pub fn normalize(&self) -> (r: Vec3)
        requires
            v_wf(*self),
        ensures
            r == vnorm_s(*self),
            v_wf(r),
    {
        let len: i64 = self.length();
        if len == 0 {
            *self
        } else {
            Vec3 { x: fx_div(self.x, len), y: fx_div(self.y, len), z: fx_div(self.z, len) }
        }
    }
}

/// Normalizing the zero vector yields the zero vector: the degenerate
/// case divides by nothing and produces no undefined value.
pub proof fn lemma_normalize_zero()
    ensures
        vnorm_s(Vec3 { x: 0, y: 0, z: 0 }) == (Vec3 { x: 0, y: 0, z: 0 }),
{
    assert(isqrt_s(0) == 0);
}

/// Dividing a well-formed scalar by 1.0 is exact.
pub proof fn lemma_fx_div_one(x: int)
    requires
        -crate::fx::FX_LIM <= x <= crate::fx::FX_LIM,
    ensures
        fx_div_s(x, crate::fx::FX_ONE as int) == x,
{
    let ax = crate::fx::fx_abs_s(x);
    vstd::arithmetic::div_mod::lemma_div_multiples_vanish(ax, crate::fx::FX_SCALE as int);
    assert(crate::fx::FX_SCALE * ax == ax * crate::fx::FX_SCALE) by (nonlinear_arith);
}

/// A vector already of unit length normalizes to itself.
pub proof fn lemma_normalize_unit(v: Vec3)
    requires
        v_wf(v),
        vlen_s(v) == crate::fx::FX_ONE,
    ensures
        vnorm_s(v) == v,
{
    lemma_fx_div_one(v.x as int);
    lemma_fx_div_one(v.y as int);
    lemma_fx_div_one(v.z as int);
}

/// Normalize is idempotent wherever its result lands exactly on the unit
/// sphere: normalizing a second time changes nothing. (An input whose
/// normalization misses unit length by a rounding step is excluded; its
/// second normalization may differ in the last fixed-point digit.)
pub proof fn lemma_normalize_idempotent(v: Vec3)
    requires
        v_wf(v),
        vlen_s(vnorm_s(v)) == crate::fx::FX_ONE,
    ensures
        vnorm_s(vnorm_s(v)) == vnorm_s(v),
{
    assert(v_wf(vnorm_s(v)));
    lemma_normalize_unit(vnorm_s(v));
}

} // verus!
