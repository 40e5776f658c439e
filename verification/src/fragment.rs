//! Simple analytic fragment shaders and their output type.

use vstd::prelude::*;
use crate::fx::{fx_wf, fx_add_s, fx_sub_s, fx_mul_s, fx_abs_s, fx_add, fx_sub, fx_mul, fx_abs, fx_min, FX_ONE};
use crate::vec3::{Vec3, v_wf, vnorm_s, vadd_s, vdot_s};
use crate::vertex::{Color3, color_wf};

verus! {

/// What a fragment shader hands back: a color, or a request to discard the
/// fragment entirely.
#[derive(Clone, Copy, Debug, PartialEq, Eq, Structural)]
pub struct FragmentOutput {
    pub color: Color3,
    pub discard: bool,
}

impl FragmentOutput {
    /// A kept fragment of the given color.
    pub fn new(r: i64, g: i64, b: i64) -> (o: FragmentOutput)
        ensures
            o.color == (Color3 { r, g, b }),
            !o.discard,
    {
        FragmentOutput { color: Color3 { r, g, b }, discard: false }
    }

    /// A discarded fragment.
    pub fn discard() -> (o: FragmentOutput)
        ensures
            o.color == (Color3 { r: 0, g: 0, b: 0 }),
            o.discard,
    {
        FragmentOutput { color: Color3 { r: 0, g: 0, b: 0 }, discard: true }
    }
}

/// Solid color, no lighting.
pub fn flat_shader(base_color: Color3) -> (o: FragmentOutput)
    ensures
        o.color == base_color,
        !o.discard,
{
    FragmentOutput { color: base_color, discard: false }
}

/// The Lambert mix factor: ambient plus the remaining weight scaled by the
/// clamped-at-zero diffuse term.
pub open spec fn lambert_s(normal: Vec3, light: Vec3, ambient: int) -> int {
    let d = vdot_s(vnorm_s(normal), vnorm_s(light));
    let diffuse = if d >= 0 {
        d
    } else {
        0
    };
    fx_add_s(ambient, fx_mul_s(fx_sub_s(FX_ONE as int, ambient), diffuse))
}

/// A channel scaled and capped at full brightness.
pub open spec fn lit_channel_s(c: int, intensity: int) -> int {
    let v = fx_mul_s(c, intensity);
    if v <= FX_ONE {
        v
    } else {
        FX_ONE as int
    }
}

/// Lambert diffuse lighting over a base color.
pub fn diffuse_shader(base_color: Color3, normal: Vec3, light_dir: Vec3, ambient: i64)
    -> (o: FragmentOutput)
    requires
        color_wf(base_color),
        v_wf(normal),
        v_wf(light_dir),
        fx_wf(ambient),
    ensures
        o.color.r == lit_channel_s(base_color.r as int, lambert_s(normal, light_dir, ambient as int)),
        o.color.g == lit_channel_s(base_color.g as int, lambert_s(normal, light_dir, ambient as int)),
        o.color.b == lit_channel_s(base_color.b as int, lambert_s(normal, light_dir, ambient as int)),
        !o.discard,
{
    let n: Vec3 = normal.normalize();
    let l: Vec3 = light_dir.normalize();
    let d: i64 = n.dot(&l);
    let diffuse: i64 = if d >= 0 { d } else { 0 };
    let intensity: i64 = fx_add(ambient, fx_mul(fx_sub(FX_ONE, ambient), diffuse));
    FragmentOutput {
        color: Color3 {
            r: fx_min(fx_mul(base_color.r, intensity), FX_ONE),
            g: fx_min(fx_mul(base_color.g, intensity), FX_ONE),
            b: fx_min(fx_mul(base_color.b, intensity), FX_ONE),
        },
        discard: false,
    }
}

/// Self-lit color scaled by an intensity, capped at full brightness.
pub fn emissive_shader(base_color: Color3, intensity: i64) -> (o: FragmentOutput)
    requires
        color_wf(base_color),
        fx_wf(intensity),
    ensures
        o.color.r == lit_channel_s(base_color.r as int, intensity as int),
        o.color.g == lit_channel_s(base_color.g as int, intensity as int),
        o.color.b == lit_channel_s(base_color.b as int, intensity as int),
        !o.discard,
{
    FragmentOutput {
        color: Color3 {
            r: fx_min(fx_mul(base_color.r, intensity), FX_ONE),
            g: fx_min(fx_mul(base_color.g, intensity), FX_ONE),
            b: fx_min(fx_mul(base_color.b, intensity), FX_ONE),
        },
        discard: false,
    }
}

/// The silhouette glow factor: brightens toward the limb.
pub open spec fn glow_s(normal: Vec3, view_dir: Vec3) -> int {
    let edge = fx_sub_s(FX_ONE as int, fx_abs_s(vdot_s(vnorm_s(normal), vnorm_s(view_dir))));
    fx_add_s(FX_ONE as int, fx_mul_s(edge, 32768))
}

/// Fresnel-like edge glow for the star: brighter at the silhouette.
pub fn sun_glow_shader(base_color: Color3, normal: Vec3, view_dir: Vec3) -> (o: FragmentOutput)
    requires
        color_wf(base_color),
        v_wf(normal),
        v_wf(view_dir),
    ensures
        o.color.r == lit_channel_s(base_color.r as int, glow_s(normal, view_dir)),
        o.color.g == lit_channel_s(base_color.g as int, glow_s(normal, view_dir)),
        o.color.b == lit_channel_s(base_color.b as int, glow_s(normal, view_dir)),
        !o.discard,
{
    let n: Vec3 = normal.normalize();
    let v: Vec3 = view_dir.normalize();
    let edge: i64 = fx_sub(FX_ONE, fx_abs(n.dot(&v)));
    let glow: i64 = fx_add(FX_ONE, fx_mul(edge, 32768));
    FragmentOutput {
        color: Color3 {
            r: fx_min(fx_mul(base_color.r, glow), FX_ONE),
            g: fx_min(fx_mul(base_color.g, glow), FX_ONE),
            b: fx_min(fx_mul(base_color.b, glow), FX_ONE),
        },
        discard: false,
    }
}

/// The Blinn-Phong specular term: the clamped normal-to-half-vector
/// alignment raised to the given whole-number shininess power.
pub open spec fn specular_s(normal: Vec3, light: Vec3, view: Vec3, shininess: int) -> int {
    let n = vnorm_s(normal);
    let hv = vnorm_s(vadd_s(vnorm_s(light), vnorm_s(view)));
    let d = vdot_s(n, hv);
    let a = crate::fx::fx_clamp_s(d, 0, FX_ONE as int);
    crate::fx::fx_pow_half_s(a, 2 * shininess)
}

/// Blinn-Phong shading: Lambert diffuse plus a specular highlight with a
/// whole-number shininess exponent, weighted at 0.3.
pub fn specular_shader(
    base_color: Color3, normal: Vec3, light_dir: Vec3, view_dir: Vec3, ambient: i64,
    shininess: u32,
) -> (o: FragmentOutput)
    requires
        color_wf(base_color),
        v_wf(normal),
        v_wf(light_dir),
        v_wf(view_dir),
        fx_wf(ambient),
        shininess <= 1000,
    ensures
        ({
            let intensity = lambert_s(normal, light_dir, ambient as int);
            let shine = fx_mul_s(specular_s(normal, light_dir, view_dir, shininess as int), 19661);
            o.color.r == lit_channel_s(fx_add_s(fx_mul_s(base_color.r as int, intensity), shine), FX_ONE as int)
                && o.color.g == lit_channel_s(fx_add_s(fx_mul_s(base_color.g as int, intensity), shine), FX_ONE as int)
                && o.color.b == lit_channel_s(fx_add_s(fx_mul_s(base_color.b as int, intensity), shine), FX_ONE as int)
        }),
        !o.discard,
{
    proof {
        crate::fx::lemma_fx_mul_unit(fx_add_s(fx_mul_s(base_color.r as int, lambert_s(normal, light_dir, ambient as int)), fx_mul_s(specular_s(normal, light_dir, view_dir, shininess as int), 19661)));
        crate::fx::lemma_fx_mul_unit(fx_add_s(fx_mul_s(base_color.g as int, lambert_s(normal, light_dir, ambient as int)), fx_mul_s(specular_s(normal, light_dir, view_dir, shininess as int), 19661)));
        crate::fx::lemma_fx_mul_unit(fx_add_s(fx_mul_s(base_color.b as int, lambert_s(normal, light_dir, ambient as int)), fx_mul_s(specular_s(normal, light_dir, view_dir, shininess as int), 19661)));
    }
    let n: Vec3 = normal.normalize();
    let l: Vec3 = light_dir.normalize();
    let v: Vec3 = view_dir.normalize();
    let d: i64 = n.dot(&l);
    let diffuse: i64 = if d >= 0 { d } else { 0 };
    let half_vec: Vec3 = l.add(&v).normalize();
    let hd: i64 = n.dot(&half_vec);
    let ha: i64 = crate::fx::fx_clamp(hd, 0, FX_ONE);
    let shine: i64 = fx_mul(crate::fx::fx_pow_half(ha, 2 * shininess), 19661);
    let intensity: i64 = fx_add(ambient, fx_mul(fx_sub(FX_ONE, ambient), diffuse));
    FragmentOutput {
        color: Color3 {
            r: fx_min(fx_add(fx_mul(base_color.r, intensity), shine), FX_ONE),
            g: fx_min(fx_add(fx_mul(base_color.g, intensity), shine), FX_ONE),
            b: fx_min(fx_add(fx_mul(base_color.b, intensity), shine), FX_ONE),
        },
        discard: false,
    }
}

} // verus!
