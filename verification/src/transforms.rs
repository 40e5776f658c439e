//! The vertex stage: model-matrix assembly, projection to the screen, and
//! the per-vertex transform with material-specific deformation.

use vstd::prelude::*;
use crate::fx::{
    fx_wf, fx_add_s, fx_mul_s, fx_div_s, fx_sin_s, fx_cos_s,
    fx_add, fx_mul, fx_div, fx_sin, FX_ONE, FX_HALF, FX_PI,
};
use crate::vec3::{Vec3, v_wf, vnorm_s, vlen_s, vadd_s, vscale_s};
use crate::mat4::{Mat4, m_wf, mat_mul_s, transform_point_s, transform_direction_s};
use crate::vertex::{Vertex, vert_wf, TransformedVertex, tvert_wf};
use crate::shaders::ShaderType;
use crate::noise::{fbm_s, fbm_3d};
use crate::raster::{screen_x_s, screen_y_s, to_screen, MAX_DIM};

verus! {

/// Linear interpolation between two scalars.
pub fn lerp(a: i64, b: i64, t: i64) -> (r: i64)
    requires
        fx_wf(a),
        fx_wf(b),
        fx_wf(t),
    ensures
        r == crate::vertex::lerp_s(a as int, b as int, t as int),
        fx_wf(r),
{
    crate::vertex::fx_lerp(a, b, t)
}

/// Componentwise linear interpolation between two vectors.
pub fn lerp_vec3(a: Vec3, b: Vec3, t: i64) -> (r: Vec3)
    requires
        v_wf(a),
        v_wf(b),
        fx_wf(t),
    ensures
        r == crate::vertex::vlerp_s(a, b, t as int),
        v_wf(r),
{
    crate::vertex::vec3_lerp(&a, &b, t)
}

/// Clamp a value between bounds; when the bounds cross, the upper bound
/// wins, as with chained max-then-min.
pub fn clamp(value: i64, mn: i64, mx: i64) -> (r: i64)
    ensures
        r == ({
            let lifted = if value >= mn {
                value as int
            } else {
                mn as int
            };
            if lifted <= mx {
                lifted
            } else {
                mx as int
            }
        }),
{
    let lifted: i64 = if value >= mn { value } else { mn };
    if lifted <= mx { lifted } else { mx }
}

/// Degrees to fixed-point radians.
pub fn deg_to_rad(degrees: i64) -> (r: i64)
    requires
        fx_wf(degrees),
    ensures
        r == fx_div_s(fx_mul_s(degrees as int, FX_PI as int), 180 * FX_ONE),
        fx_wf(r),
{
    fx_div(fx_mul(degrees, FX_PI), 180 * FX_ONE)
}

/// Fixed-point radians to degrees.
pub fn rad_to_deg(radians: i64) -> (r: i64)
    requires
        fx_wf(radians),
    ensures
        r == fx_div_s(fx_mul_s(radians as int, 180 * FX_ONE), FX_PI as int),
        fx_wf(r),
{
    fx_div(fx_mul(radians, 180 * FX_ONE), FX_PI)
}

/// The model matrix of a body: translation, then Z, Y and X rotations,
/// then scale, composed in exactly that order.
pub open spec fn model_matrix_s(position: Vec3, rotation: Vec3, scale: Vec3) -> Mat4 {
    let t = Mat4 { m03: position.x, m13: position.y, m23: position.z, ..crate::mat4::mat_id_s() };
    let rz = Mat4 {
        m00: fx_cos_s(rotation.z as int) as i64,
        m01: (-fx_sin_s(rotation.z as int)) as i64,
        m10: fx_sin_s(rotation.z as int) as i64,
        m11: fx_cos_s(rotation.z as int) as i64,
        ..crate::mat4::mat_id_s()
    };
    let ry = Mat4 {
        m00: fx_cos_s(rotation.y as int) as i64,
        m02: fx_sin_s(rotation.y as int) as i64,
        m20: (-fx_sin_s(rotation.y as int)) as i64,
        m22: fx_cos_s(rotation.y as int) as i64,
        ..crate::mat4::mat_id_s()
    };
    let rx = Mat4 {
        m11: fx_cos_s(rotation.x as int) as i64,
        m12: (-fx_sin_s(rotation.x as int)) as i64,
        m21: fx_sin_s(rotation.x as int) as i64,
        m22: fx_cos_s(rotation.x as int) as i64,
        ..crate::mat4::mat_id_s()
    };
    let s = Mat4 { m00: scale.x, m11: scale.y, m22: scale.z, ..crate::mat4::mat_id_s() };
    mat_mul_s(mat_mul_s(mat_mul_s(mat_mul_s(t, rz), ry), rx), s)
}

/// Build a complete model matrix: scale, then X, Y, Z rotation, then
/// translation, applied to column vectors (T * Rz * Ry * Rx * S).
pub fn create_model_matrix(position: Vec3, rotation: Vec3, scale: Vec3) -> (r: Mat4)
    requires
        v_wf(position),
        v_wf(rotation),
        v_wf(scale),
    ensures
        r == model_matrix_s(position, rotation, scale),
        m_wf(r),
{
    let scale_mat: Mat4 = Mat4::scale(scale.x, scale.y, scale.z);
    let rot_x: Mat4 = Mat4::rotation_x(rotation.x);
    let rot_y: Mat4 = Mat4::rotation_y(rotation.y);
    let rot_z: Mat4 = Mat4::rotation_z(rotation.z);
    let translation: Mat4 = Mat4::translation(position.x, position.y, position.z);
    translation.multiply(&rot_z).multiply(&rot_y).multiply(&rot_x).multiply(&scale_mat)
}

/// Project a point through the model-view-projection matrix onto the
/// screen. Points outside the near/far depth range are rejected.
pub fn project_to_screen(point: Vec3, mvp: &Mat4, screen_width: usize, screen_height: usize)
    -> (r: Option<(i64, i64, i64)>)
    requires
        v_wf(point),
        m_wf(*mvp),
        screen_width <= MAX_DIM,
        screen_height <= MAX_DIM,
    ensures
        ({
            let t = transform_point_s(*mvp, point);
            if t.z < 0 || t.z > FX_ONE {
                r is None
            } else {
                r == Some((
                    screen_x_s(t.x as int, screen_width as int) as i64,
                    screen_y_s(t.y as int, screen_height as int) as i64,
                    t.z as i64,
                ))
            }
        }),
{
    let transformed: Vec3 = mvp.transform_point(&point);
    if transformed.z < 0 || transformed.z > FX_ONE {
        return None;
    }
    let p: (i64, i64) = to_screen(&transformed, screen_width, screen_height);
    Some((p.0, p.1, transformed.z))
}

/// Per-draw-call configuration: the four pipeline matrices, the animation
/// clock, and the material to shade with.
#[derive(Clone, Copy, Debug, PartialEq, Eq, Structural)]
pub struct Uniforms {
    pub model_matrix: Mat4,
    pub view_matrix: Mat4,
    pub projection_matrix: Mat4,
    pub viewport_matrix: Mat4,
    pub time: i64,
    pub shader_type: ShaderType,
}

/// All matrices and the clock are well formed.
pub open spec fn uniforms_wf(u: Uniforms) -> bool {
    m_wf(u.model_matrix) && m_wf(u.view_matrix) && m_wf(u.projection_matrix)
        && m_wf(u.viewport_matrix) && fx_wf(u.time)
}

/// The material-specific vertex deformation: rings flatten a sphere into a
/// thin disc widened with radius; the solar heart breathes, displacing each
/// vertex along its normal by a time-and-noise-modulated amount; every
/// other material leaves the vertex alone.
pub open spec fn deform_s(position: Vec3, normal: Vec3, st: ShaderType, time: int) -> Vec3 {
    if st == ShaderType::Rings {
        let radius = vlen_s(Vec3 { x: position.x, y: 0, z: position.z });
        let widen = fx_add_s(FX_ONE as int, fx_mul_s(radius, 19661));
        Vec3 {
            x: fx_mul_s(position.x as int, widen) as i64,
            y: fx_mul_s(position.y as int, 9830) as i64,
            z: fx_mul_s(position.z as int, widen) as i64,
        }
    } else if st == ShaderType::SolarHeart {
        let pulse = fx_add_s(fx_mul_s(fx_sin_s(time), FX_HALF as int), FX_HALF as int);
        let micro = fx_add_s(fx_mul_s(fx_sin_s(fx_mul_s(time, 196608)), FX_HALF as int), FX_HALF as int);
        let wobble = fbm_s(Vec3 {
            x: fx_add_s(fx_mul_s(position.x as int, 524288), fx_mul_s(time, 9830)) as i64,
            y: fx_add_s(fx_mul_s(position.y as int, 524288), fx_mul_s(time, 7864)) as i64,
            z: fx_add_s(fx_mul_s(position.z as int, 524288), fx_mul_s(time, 11796)) as i64,
        }, 3);
        let amount = fx_add_s(
            fx_add_s(fx_mul_s(3277, pulse), fx_mul_s(1311, micro)), fx_mul_s(1966, wobble),
        );
        vadd_s(position, vscale_s(normal, amount))
    } else {
        position
    }
}

/// The material-specific vertex deformation.
pub fn vertex_deform(position: Vec3, normal: Vec3, st: ShaderType, time: i64) -> (r: Vec3)
    requires
        v_wf(position),
        v_wf(normal),
        fx_wf(time),
    ensures
        r == deform_s(position, normal, st, time as int),
        v_wf(r),
{
    if st == ShaderType::Rings {
        let radius: i64 = Vec3 { x: position.x, y: 0, z: position.z }.length();
        let widen: i64 = fx_add(FX_ONE, fx_mul(radius, 19661));
        Vec3 {
            x: fx_mul(position.x, widen),
            y: fx_mul(position.y, 9830),
            z: fx_mul(position.z, widen),
        }
    } else if st == ShaderType::SolarHeart {
        let pulse: i64 = fx_add(fx_mul(fx_sin(time), FX_HALF), FX_HALF);
        let micro: i64 = fx_add(fx_mul(fx_sin(fx_mul(time, 196608)), FX_HALF), FX_HALF);
        let wobble: i64 = fbm_3d(Vec3 {
            x: fx_add(fx_mul(position.x, 524288), fx_mul(time, 9830)),
            y: fx_add(fx_mul(position.y, 524288), fx_mul(time, 7864)),
            z: fx_add(fx_mul(position.z, 524288), fx_mul(time, 11796)),
        }, 3);
        let amount: i64 = fx_add(
            fx_add(fx_mul(3277, pulse), fx_mul(1311, micro)), fx_mul(1966, wobble),
        );
        position.add(&normal.scale(amount))
    } else {
        position
    }
}

/// What the vertex stage produces: the deformed local position pushed
/// through model, view, projection (with its perspective divide) and
/// viewport, the renormalized world normal, and the original local
/// position kept for stable procedural texture coordinates.
pub open spec fn vertex_shader_s(v: Vertex, u: Uniforms) -> TransformedVertex {
    let deformed = deform_s(v.position, v.normal, u.shader_type, u.time as int);
    let world = transform_point_s(u.model_matrix, deformed);
    let view = transform_point_s(u.view_matrix, world);
    let ndc = transform_point_s(u.projection_matrix, view);
    let screen = transform_point_s(u.viewport_matrix, ndc);
    let world_normal = vnorm_s(transform_direction_s(u.model_matrix, v.normal));
    TransformedVertex { screen, normal: world_normal, local: v.position }
}

/// The vertex stage.
pub fn vertex_shader(v: &Vertex, u: &Uniforms) -> (r: TransformedVertex)
    requires
        vert_wf(*v),
        uniforms_wf(*u),
    ensures
        r == vertex_shader_s(*v, *u),
        tvert_wf(r),
{
    let deformed: Vec3 = vertex_deform(v.position, v.normal, u.shader_type, u.time);
    let world: Vec3 = u.model_matrix.transform_point(&deformed);
    let view: Vec3 = u.view_matrix.transform_point(&world);
    let ndc: Vec3 = u.projection_matrix.transform_point(&view);
    let screen: Vec3 = u.viewport_matrix.transform_point(&ndc);
    let world_normal: Vec3 = u.model_matrix.transform_direction(&v.normal).normalize();
    TransformedVertex { screen, normal: world_normal, local: v.position }
}

/// Transform one mesh vertex with the combined matrix and model matrix,
/// keeping the local position: the slimmer per-frame path used when the
/// perspective divide already happened inside the combined matrix.
pub fn transform_vertex_with_local(v: &Vertex, mvp: &Mat4, model: &Mat4) -> (r: TransformedVertex)
    requires
        vert_wf(*v),
        m_wf(*mvp),
        m_wf(*model),
    ensures
        r.screen == transform_point_s(*mvp, v.position),
        r.normal == vnorm_s(transform_direction_s(*model, v.normal)),
        r.local == v.position,
        tvert_wf(r),
{
    TransformedVertex {
        screen: mvp.transform_point(&v.position),
        normal: model.transform_direction(&v.normal).normalize(),
        local: v.position,
    }
}

} // verus!
