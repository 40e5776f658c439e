//! Mesh vertices and their interpolation.

use vstd::prelude::*;
use crate::fx::{fx_wf, fx_add_s, fx_sub_s, fx_mul_s, fx_add, fx_sub, fx_mul};
use crate::vec3::{Vec3, v_wf, vnorm_s};

verus! {

/// An RGB color with fixed-point channels, nominally in [0, 1].
#[derive(Clone, Copy, Debug, PartialEq, Eq, Structural)]
pub struct Color3 {
    pub r: i64,
    pub g: i64,
    pub b: i64,
}

/// All three channels are well-formed scalars.
pub open spec fn color_wf(c: Color3) -> bool {
    fx_wf(c.r) && fx_wf(c.g) && fx_wf(c.b)
}

/// All three channels lie within [0, 1].
pub open spec fn color_in_range(c: Color3) -> bool {
    0 <= c.r <= crate::fx::FX_ONE && 0 <= c.g <= crate::fx::FX_ONE && 0 <= c.b <= crate::fx::FX_ONE
}

/// A mesh vertex: local-space position and normal plus a base RGB color
/// with fixed-point channels in [0, 1].
#[derive(Clone, Copy, Debug, PartialEq, Eq, Structural)]
pub struct Vertex {
    pub position: Vec3,
    pub normal: Vec3,
    pub color: Color3,
}

/// Position, normal and color are all well-formed scalars.
pub open spec fn vert_wf(v: Vertex) -> bool {
    v_wf(v.position) && v_wf(v.normal) && color_wf(v.color)
}

/// Linear interpolation of one scalar pair: a + (b - a) * t.
pub open spec fn lerp_s(a: int, b: int, t: int) -> int {
    fx_add_s(a, fx_mul_s(fx_sub_s(b, a), t))
}

/// Componentwise linear interpolation of two vectors.
pub open spec fn vlerp_s(a: Vec3, b: Vec3, t: int) -> Vec3 {
    Vec3 {
        x: lerp_s(a.x as int, b.x as int, t) as i64,
        y: lerp_s(a.y as int, b.y as int, t) as i64,
        z: lerp_s(a.z as int, b.z as int, t) as i64,
    }
}

/// Linear interpolation of one scalar pair.
pub fn fx_lerp(a: i64, b: i64, t: i64) -> (r: i64)
    requires
        fx_wf(a),
        fx_wf(b),
        fx_wf(t),
    ensures
        r == lerp_s(a as int, b as int, t as int),
        fx_wf(r),
{
    fx_add(a, fx_mul(fx_sub(b, a), t))
}

/// Componentwise linear interpolation of two vectors.
pub fn vec3_lerp(a: &Vec3, b: &Vec3, t: i64) -> (r: Vec3)
    requires
        v_wf(*a),
        v_wf(*b),
        fx_wf(t),
    ensures
        r == vlerp_s(*a, *b, t as int),
        v_wf(r),
{
    Vec3 {
        x: fx_lerp(a.x, b.x, t),
        y: fx_lerp(a.y, b.y, t),
        z: fx_lerp(a.z, b.z, t),
    }
}

/// Mirror of `Vertex::lerp`: everything interpolates linearly and the
/// blended normal is renormalized.
pub open spec fn vertex_lerp_s(a: Vertex, b: Vertex, t: int) -> Vertex {
    Vertex {
        position: vlerp_s(a.position, b.position, t),
        normal: vnorm_s(vlerp_s(a.normal, b.normal, t)),
        color: Color3 {
            r: lerp_s(a.color.r as int, b.color.r as int, t) as i64,
            g: lerp_s(a.color.g as int, b.color.g as int, t) as i64,
            b: lerp_s(a.color.b as int, b.color.b as int, t) as i64,
        },
    }
}

impl Vertex {
    /// Build a vertex.
    pub fn new(position: Vec3, normal: Vec3, color: Color3) -> (r: Vertex)
        ensures
            r.position == position && r.normal == normal && r.color == color,
    {
        Vertex { position, normal, color }
    }

    /// Interpolate between two vertices; the blended normal is renormalized.
    pub fn lerp(a: &Vertex, b: &Vertex, t: i64) -> (r: Vertex)
        requires
            vert_wf(*a),
            vert_wf(*b),
            fx_wf(t),
        ensures
            r == vertex_lerp_s(*a, *b, t as int),
            vert_wf(r),
    {
        let position: Vec3 = vec3_lerp(&a.position, &b.position, t);
        let normal: Vec3 = vec3_lerp(&a.normal, &b.normal, t).normalize();
        let color: Color3 = Color3 {
            r: fx_lerp(a.color.r, b.color.r, t),
            g: fx_lerp(a.color.g, b.color.g, t),
            b: fx_lerp(a.color.b, b.color.b, t),
        };
        Vertex { position, normal, color }
    }
}

/// A vertex after the vertex stage: screen-space position (z carries depth),
/// world-space normal, and the original local position for stable
/// procedural texture coordinates.
#[derive(Clone, Copy, Debug, PartialEq, Eq, Structural)]
pub struct TransformedVertex {
    pub screen: Vec3,
    pub normal: Vec3,
    pub local: Vec3,
}

/// All carried vectors are well formed.
pub open spec fn tvert_wf(v: TransformedVertex) -> bool {
    v_wf(v.screen) && v_wf(v.normal) && v_wf(v.local)
}

} // verus!
