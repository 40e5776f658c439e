//! Sphere collision tests for camera-versus-body checks.

use vstd::prelude::*;
use crate::fx::{fx_wf, fx_add_s, fx_mul_s, fx_add, fx_mul};
use crate::vec3::{Vec3, v_wf, vnorm_s, vsub_s, vdot_s};

verus! {

/// Whether two spheres overlap: the squared center distance is strictly
/// below the squared sum of the radii.
pub fn check_sphere_collision(pos1: Vec3, radius1: i64, pos2: Vec3, radius2: i64) -> (hit: bool)
    requires
        v_wf(pos1),
        v_wf(pos2),
        fx_wf(radius1),
        fx_wf(radius2),
    ensures
        hit == ({
            let diff = vsub_s(pos1, pos2);
            let radii = fx_add_s(radius1 as int, radius2 as int);
            vdot_s(diff, diff) < fx_mul_s(radii, radii)
        }),
{
    let diff: Vec3 = pos1.sub(&pos2);
    let distance_squared: i64 = diff.dot(&diff);
    let radii_sum: i64 = fx_add(radius1, radius2);
    distance_squared < fx_mul(radii_sum, radii_sum)
}

/// A unit vector in the direction of v; the zero vector stays itself.
pub fn normalize(v: Vec3) -> (r: Vec3)
    requires
        v_wf(v),
    ensures
        r == vnorm_s(v),
        v_wf(r),
{
    v.normalize()
}

} // verus!
