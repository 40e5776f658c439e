//! Shared procedural-shading primitives: smoothstep, mix, fract, the
//! lattice hash, 3D value noise and fractal Brownian motion.

use vstd::prelude::*;
use crate::fx::{
    fx_wf, fx_add_s, fx_sub_s, fx_mul_s, fx_div_s, fx_clamp_s, fx_fract_s, fx_floor_s,
    fx_add, fx_sub, fx_mul, fx_div, fx_clamp, fx_fract, fx_floor,
    FX_ONE, FX_HALF, FX_SCALE, FX_LIM,
};
use crate::vec3::{Vec3, v_wf};
use crate::vertex::{lerp_s, fx_lerp, vlerp_s, vec3_lerp, Color3};

verus! {

/// Clamped Hermite smoothstep; when the edges are degenerate (edge0 at or
/// above edge1) the input is clamped to [0, 1] instead of dividing by zero.
/// The range and the boundary values are exact; between adjacent inputs the
/// truncated products can make the result dip by a single unit, so the
/// curve is monotone only up to that one-unit wobble.
pub open spec fn smoothstep_s(edge0: int, edge1: int, x: int) -> int {
    if edge0 >= edge1 {
        fx_clamp_s(x, 0, FX_ONE as int)
    } else {
        let t = fx_clamp_s(fx_div_s(fx_sub_s(x, edge0), fx_sub_s(edge1, edge0)), 0, FX_ONE as int);
        fx_mul_s(fx_mul_s(t, t), fx_sub_s(3 * FX_ONE, fx_add_s(t, t)))
    }
}

/// Clamped Hermite smoothstep.
pub fn smoothstep(edge0: i64, edge1: i64, x: i64) -> (r: i64)
    requires
        fx_wf(edge0),
        fx_wf(edge1),
        fx_wf(x),
    ensures
        r == smoothstep_s(edge0 as int, edge1 as int, x as int),
        fx_wf(r),
{
    if edge0 >= edge1 {
        return fx_clamp(x, 0, FX_ONE);
    }
    let d: i64 = fx_sub(edge1, edge0);
    let t: i64 = fx_clamp(fx_div(fx_sub(x, edge0), d), 0, FX_ONE);
    fx_mul(fx_mul(t, t), fx_sub(3 * FX_ONE, fx_add(t, t)))
}

/// Unclamped linear interpolation, GLSL style.
pub fn mix(a: i64, b: i64, t: i64) -> (r: i64)
    requires
        fx_wf(a),
        fx_wf(b),
        fx_wf(t),
    ensures
        r == lerp_s(a as int, b as int, t as int),
        fx_wf(r),
{
    fx_lerp(a, b, t)
}

/// Unclamped linear interpolation of vectors, GLSL style.
pub fn mix_v3(a: Vec3, b: Vec3, t: i64) -> (r: Vec3)
    requires
        v_wf(a),
        v_wf(b),
        fx_wf(t),
    ensures
        r == vlerp_s(a, b, t as int),
        v_wf(r),
{
    vec3_lerp(&a, &b, t)
}

/// Fractional part of a scalar, in [0, 1).
pub fn fract(x: i64) -> (r: i64)
    requires
        fx_wf(x),
    ensures
        r == fx_fract_s(x as int),
        0 <= r < FX_SCALE,
{
    fx_fract(x)
}

/// Componentwise fractional part of a vector.
pub open spec fn fract_v3_s(v: Vec3) -> Vec3 {
    Vec3 {
        x: fx_fract_s(v.x as int) as i64,
        y: fx_fract_s(v.y as int) as i64,
        z: fx_fract_s(v.z as int) as i64,
    }
}

/// Componentwise fractional part of a vector.
pub fn fract_v3(v: Vec3) -> (r: Vec3)
    requires
        v_wf(v),
    ensures
        r == fract_v3_s(v),
        v_wf(r),
        0 <= r.x < FX_SCALE && 0 <= r.y < FX_SCALE && 0 <= r.z < FX_SCALE,
{
    Vec3 { x: fx_fract(v.x), y: fx_fract(v.y), z: fx_fract(v.z) }
}

/// Scrambling constants of the lattice hash: 1/pi and an offset of 0.1.
pub const HASH_FREQ: i64 = 20861;
/// The 0.1 offset added before taking fractional parts.
pub const HASH_OFFSET: i64 = 6554;

/// One scrambled hash input channel: 17 * fract(x / pi + 0.1).
pub open spec fn hash_channel_s(x: int) -> int {
    17 * fx_fract_s(fx_add_s(fx_mul_s(x, HASH_FREQ as int), HASH_OFFSET as int))
}

/// The lattice hash: a deterministic pseudo-random scalar in [0, 1) computed
/// from the three scrambled channels by fractional-part mixing. A pure
/// function of its input: equal inputs always hash alike.
#[verifier::opaque]
pub open spec fn hash_s(p: Vec3) -> int {
    let hx = hash_channel_s(p.x as int);
    let hy = hash_channel_s(p.y as int);
    let hz = hash_channel_s(p.z as int);
    ((hx * hy * hz * (hx + hy + hz)) / (FX_SCALE * FX_SCALE * FX_SCALE)) % (FX_SCALE as int)
}

/// One scrambled hash input channel.
fn hash_channel(x: i64) -> (r: i64)
    requires
        fx_wf(x),
    ensures
        r == hash_channel_s(x as int),
        0 <= r < 17 * FX_SCALE,
{
    let f: i64 = fx_fract(fx_add(fx_mul(x, HASH_FREQ), HASH_OFFSET));
    17 * f
}

/// The lattice hash; the result is always within [0, 1).
pub fn hash_v3(p: Vec3) -> (r: i64)
    requires
        v_wf(p),
    ensures
        r == hash_s(p),
        0 <= r < FX_ONE,
{
    proof {
        reveal(hash_s);
    }
    let hx: i64 = hash_channel(p.x);
    let hy: i64 = hash_channel(p.y);
    let hz: i64 = hash_channel(p.z);
    proof {
        lemma_hash_mix_bounds(hx as int, hy as int, hz as int);
    }
    let prod: i128 = (hx as i128) * (hy as i128) * (hz as i128) * ((hx + hy + hz) as i128);
    let scaled: i128 = prod / ((FX_SCALE as i128) * (FX_SCALE as i128) * (FX_SCALE as i128));
    let r: i128 = scaled % (FX_SCALE as i128);
    r as i64
}

/// The hash mix of three channel values stays nonnegative and bounded.
proof fn lemma_hash_mix_bounds(hx: int, hy: int, hz: int)
    requires
        0 <= hx < 17 * FX_SCALE,
        0 <= hy < 17 * FX_SCALE,
        0 <= hz < 17 * FX_SCALE,
    ensures
        0 <= hx * hy <= 0x2_0000_0000_0000,
        0 <= hx * hy * hz <= 0x40_0000_0000_0000_0000,
        0 <= hx * hy * hz * (hx + hy + hz) < 0x1_0000_0000_0000_0000_0000_0000,
        0 <= (hx * hy * hz * (hx + hy + hz)) / (FX_SCALE * FX_SCALE * FX_SCALE),
        ((hx * hy * hz * (hx + hy + hz)) / (FX_SCALE * FX_SCALE * FX_SCALE)) % (FX_SCALE as int)
            < FX_SCALE,
        0 <= (hx * hy * hz * (hx + hy + hz)) / (FX_SCALE * FX_SCALE * FX_SCALE) % (FX_SCALE as int),
{
    let m: int = 1114112;
    assert(0 <= hx * hy && hx * hy <= 0x2_0000_0000_0000) by (nonlinear_arith)
        requires
            0 <= hx <= m,
            0 <= hy <= m,
            m == 1114112,
    ;
    assert(0 <= hx * hy * hz && hx * hy * hz <= 0x40_0000_0000_0000_0000) by (nonlinear_arith)
        requires
            0 <= hx * hy <= 0x2_0000_0000_0000,
            0 <= hz <= m,
            m == 1114112,
    ;
    assert(0 <= hx * hy * hz * (hx + hy + hz)
        && hx * hy * hz * (hx + hy + hz) < 0x1_0000_0000_0000_0000_0000_0000) by (nonlinear_arith)
        requires
            0 <= hx * hy * hz <= 0x40_0000_0000_0000_0000,
            0 <= hx + hy + hz <= 3 * m,
            m == 1114112,
    ;
    let t = hx * hy * hz * (hx + hy + hz);
    let d = FX_SCALE * FX_SCALE * FX_SCALE;
    vstd::arithmetic::div_mod::lemma_div_pos_is_pos(t, d as int);
    vstd::arithmetic::div_mod::lemma_mod_bound(t / (d as int), FX_SCALE as int);
}

/// Hermite-smoothed interpolation factor used by the value noise.
pub open spec fn hermite_s(f: int) -> int {
    fx_mul_s(fx_mul_s(f, f), fx_sub_s(3 * FX_ONE, fx_add_s(f, f)))
}

/// Value noise: trilinear interpolation of the hash at the eight integer
/// lattice corners around x, with a Hermite-smoothed factor per axis.
#[verifier::opaque]
pub open spec fn noise3d_s(x: Vec3) -> int {
    let ix = fx_floor_s(x.x as int);
    let iy = fx_floor_s(x.y as int);
    let iz = fx_floor_s(x.z as int);
    let fx_ = hermite_s(fx_fract_s(x.x as int));
    let fy_ = hermite_s(fx_fract_s(x.y as int));
    let fz_ = hermite_s(fx_fract_s(x.z as int));
    let one = FX_ONE as int;
    let c000 = hash_s(Vec3 { x: ix as i64, y: iy as i64, z: iz as i64 });
    let c100 = hash_s(Vec3 { x: fx_add_s(ix, one) as i64, y: iy as i64, z: iz as i64 });
    let c010 = hash_s(Vec3 { x: ix as i64, y: fx_add_s(iy, one) as i64, z: iz as i64 });
    let c110 = hash_s(Vec3 { x: fx_add_s(ix, one) as i64, y: fx_add_s(iy, one) as i64, z: iz as i64 });
    let c001 = hash_s(Vec3 { x: ix as i64, y: iy as i64, z: fx_add_s(iz, one) as i64 });
    let c101 = hash_s(Vec3 { x: fx_add_s(ix, one) as i64, y: iy as i64, z: fx_add_s(iz, one) as i64 });
    let c011 = hash_s(Vec3 { x: ix as i64, y: fx_add_s(iy, one) as i64, z: fx_add_s(iz, one) as i64 });
    let c111 = hash_s(Vec3 {
        x: fx_add_s(ix, one) as i64,
        y: fx_add_s(iy, one) as i64,
        z: fx_add_s(iz, one) as i64,
    });
    lerp_s(
        lerp_s(lerp_s(c000, c100, fx_), lerp_s(c010, c110, fx_), fy_),
        lerp_s(lerp_s(c001, c101, fx_), lerp_s(c011, c111, fx_), fy_),
        fz_,
    )
}

/// Value noise over the integer lattice; a pure function of its input.
pub fn noise_3d(x: Vec3) -> (r: i64)
    requires
        v_wf(x),
    ensures
        r == noise3d_s(x),
        fx_wf(r),
{
    proof {
        reveal(noise3d_s);
    }
    let ix: i64 = fx_floor(x.x);
    let iy: i64 = fx_floor(x.y);
    let iz: i64 = fx_floor(x.z);
    let fxh: i64 = smoothstep_hermite(fx_fract(x.x));
    let fyh: i64 = smoothstep_hermite(fx_fract(x.y));
    let fzh: i64 = smoothstep_hermite(fx_fract(x.z));
    let ix1: i64 = fx_add(ix, FX_ONE);
    let iy1: i64 = fx_add(iy, FX_ONE);
    let iz1: i64 = fx_add(iz, FX_ONE);
    let c000: i64 = hash_v3(Vec3 { x: ix, y: iy, z: iz });
    let c100: i64 = hash_v3(Vec3 { x: ix1, y: iy, z: iz });
    let c010: i64 = hash_v3(Vec3 { x: ix, y: iy1, z: iz });
    let c110: i64 = hash_v3(Vec3 { x: ix1, y: iy1, z: iz });
    let c001: i64 = hash_v3(Vec3 { x: ix, y: iy, z: iz1 });
    let c101: i64 = hash_v3(Vec3 { x: ix1, y: iy, z: iz1 });
    let c011: i64 = hash_v3(Vec3 { x: ix, y: iy1, z: iz1 });
    let c111: i64 = hash_v3(Vec3 { x: ix1, y: iy1, z: iz1 });
    let front: i64 = fx_lerp(fx_lerp(c000, c100, fxh), fx_lerp(c010, c110, fxh), fyh);
    let back: i64 = fx_lerp(fx_lerp(c001, c101, fxh), fx_lerp(c011, c111, fxh), fyh);
    fx_lerp(front, back, fzh)
}

/// The Hermite-smoothed interpolation factor of a fractional part.
fn smoothstep_hermite(f: i64) -> (r: i64)
    requires
        0 <= f < FX_SCALE,
    ensures
        r == hermite_s(f as int),
        fx_wf(r),
{
    fx_mul(fx_mul(f, f), fx_sub(3 * FX_ONE, fx_add(f, f)))
}

/// One step of the fractal sum: add the scaled noise octave, then halve the
/// amplitude and double the frequency.
pub open spec fn fbm_rec_s(p: Vec3, n: nat, value: int, amplitude: int, frequency: int) -> int
    decreases n,
{
    if n == 0 {
        value
    } else {
        let sample = Vec3 {
            x: fx_mul_s(p.x as int, frequency) as i64,
            y: fx_mul_s(p.y as int, frequency) as i64,
            z: fx_mul_s(p.z as int, frequency) as i64,
        };
        fbm_rec_s(
            p,
            (n - 1) as nat,
            fx_add_s(value, fx_mul_s(amplitude, noise3d_s(sample))),
            fx_mul_s(amplitude, FX_HALF as int),
            fx_mul_s(frequency, 2 * FX_ONE),
        )
    }
}

/// Fractal Brownian motion: octaves of value noise at doubling frequency
/// and halving amplitude, starting from amplitude 0.5 and frequency 1.
pub open spec fn fbm_s(p: Vec3, octaves: nat) -> int {
    fbm_rec_s(p, octaves, 0, FX_HALF as int, FX_ONE as int)
}

/// Fractal Brownian motion over value noise.
pub fn fbm_3d(p: Vec3, octaves: u32) -> (r: i64)
    requires
        v_wf(p),
    ensures
        r == fbm_s(p, octaves as nat),
        fx_wf(r),
{
    let mut value: i64 = 0;
    let mut amplitude: i64 = FX_HALF;
    let mut frequency: i64 = FX_ONE;
    let mut i: u32 = 0;
    while i < octaves
        invariant
            0 <= i <= octaves,
            fx_wf(value),
            fx_wf(amplitude),
            fx_wf(frequency),
            v_wf(p),
            fbm_s(p, octaves as nat) == fbm_rec_s(
                p, (octaves - i) as nat, value as int, amplitude as int, frequency as int,
            ),
        decreases octaves - i,
    {
        let sample: Vec3 = Vec3 {
            x: fx_mul(p.x, frequency),
            y: fx_mul(p.y, frequency),
            z: fx_mul(p.z, frequency),
        };
        let n: i64 = noise_3d(sample);
        value = fx_add(value, fx_mul(amplitude, n));
        amplitude = fx_mul(amplitude, FX_HALF);
        frequency = fx_mul(frequency, 2 * FX_ONE);
        i = i + 1;
    }
    value
}

/// Two-coordinate fractal sum used by the lava and ice materials.
pub fn fbm(x: i64, y: i64, octaves: u32) -> (r: i64)
    requires
        fx_wf(x),
        fx_wf(y),
    ensures
        r == fbm_s(Vec3 { x, y, z: 0 }, octaves as nat),
        fx_wf(r),
{
    fbm_3d(Vec3 { x, y, z: 0 }, octaves)
}

/// Channels clamped into [0, 1] and gathered into a color.
pub open spec fn clamp_color_s(r: int, g: int, b: int) -> Color3 {
    Color3 {
        r: fx_clamp_s(r, 0, FX_ONE as int) as i64,
        g: fx_clamp_s(g, 0, FX_ONE as int) as i64,
        b: fx_clamp_s(b, 0, FX_ONE as int) as i64,
    }
}

/// Clamp three channels into [0, 1] and gather them into a color.
pub fn clamp_color(r: i64, g: i64, b: i64) -> (c: Color3)
    ensures
        c == clamp_color_s(r as int, g as int, b as int),
        crate::vertex::color_in_range(c),
        crate::vertex::color_wf(c),
{
    Color3 { r: fx_clamp(r, 0, FX_ONE), g: fx_clamp(g, 0, FX_ONE), b: fx_clamp(b, 0, FX_ONE) }
}

/// A vector reinterpreted as a color, channels clamped into [0, 1].
pub fn v3_to_color(v: Vec3) -> (c: Color3)
    ensures
        c == clamp_color_s(v.x as int, v.y as int, v.z as int),
        crate::vertex::color_in_range(c),
        crate::vertex::color_wf(c),
{
    clamp_color(v.x, v.y, v.z)
}

/// The hash is a pure function: equal inputs give equal outputs. Time is
/// baked into the sampled coordinate, never into the hash itself, so a
/// still frame always hashes alike.
pub proof fn lemma_hash_deterministic(p: Vec3, q: Vec3)
    requires
        p == q,
    ensures
        hash_s(p) == hash_s(q),
{
}

/// Value noise is a pure function: equal inputs give equal outputs.
pub proof fn lemma_noise_deterministic(p: Vec3, q: Vec3)
    requires
        p == q,
    ensures
        noise3d_s(p) == noise3d_s(q),
{
}

/// A single-octave fractal sum reduces exactly to half the base noise.
pub proof fn lemma_fbm_single_octave(p: Vec3)
    requires
        v_wf(p),
    ensures
        fbm_s(p, 1) == fx_mul_s(FX_HALF as int, noise3d_s(p)),
{
    crate::fx::lemma_fx_mul_unit(p.x as int);
    crate::fx::lemma_fx_mul_unit(p.y as int);
    crate::fx::lemma_fx_mul_unit(p.z as int);
    let sample = Vec3 {
        x: fx_mul_s(p.x as int, FX_ONE as int) as i64,
        y: fx_mul_s(p.y as int, FX_ONE as int) as i64,
        z: fx_mul_s(p.z as int, FX_ONE as int) as i64,
    };
    assert(sample == p);
    reveal_with_fuel(fbm_rec_s, 3);
    assert(fbm_s(p, 1) == fx_add_s(0, fx_mul_s(FX_HALF as int, noise3d_s(p))));
    let v = fx_mul_s(FX_HALF as int, noise3d_s(p));
    assert(-FX_LIM <= v <= FX_LIM);
    crate::fx::lemma_fx_add_zero(v);
}

} // verus!
