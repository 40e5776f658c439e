//! The raycast skybox pass: a vertical sky gradient with procedural,
//! twinkling stars, written before geometry and without touching depth.

use vstd::prelude::*;
use crate::fx::{
    fx_wf, fx_add_s, fx_sub_s, fx_mul_s, fx_div_s, fx_clamp_s, fx_sin_s, fx_floor_s,
    fx_pow_half_s, fx_add, fx_sub, fx_mul, fx_div, fx_clamp, fx_sin, fx_floor, fx_pow_half,
    fx_min, FX_ONE, FX_HALF, FX_SCALE,
};
use crate::vec3::{Vec3, v_wf, vnorm_s};
use crate::vertex::lerp_s;
use crate::noise::{hash_s, hash_v3};
use crate::framebuffer::{Framebuffer, fb_wf, pack_fx_s, rgb_fx_to_u32};
use crate::raster::MAX_DIM;

verus! {

/// Hash threshold above which a direction holds a star (~98.5th
/// percentile, for sparseness).
pub const STAR_THRESHOLD: i64 = 64553;

/// The star lattice hash: the shared lattice hash sampled at the integer
/// cell of the scaled direction.
pub open spec fn star_hash_s(x: int, y: int, z: int) -> int {
    hash_s(Vec3 { x: fx_floor_s(x) as i64, y: fx_floor_s(y) as i64, z: fx_floor_s(z) as i64 })
}

/// The star lattice hash of a scaled direction.
pub fn star_hash(x: i64, y: i64, z: i64) -> (r: i64)
    requires
        fx_wf(x),
        fx_wf(y),
        fx_wf(z),
    ensures
        r == star_hash_s(x as int, y as int, z as int),
        0 <= r < FX_ONE,
{
    hash_v3(Vec3 { x: fx_floor(x), y: fx_floor(y), z: fx_floor(z) })
}

/// The sky gradient: very dark blue overhead blending toward a slightly
/// lighter horizon blue below.
pub open spec fn sky_color_s(dir: Vec3) -> (int, int, int) {
    let t = fx_mul_s(fx_add_s(dir.y as int, FX_ONE as int), FX_HALF as int);
    (lerp_s(655, 1311, t), lerp_s(1311, 2621, t), lerp_s(3277, 7864, t))
}

/// The sky gradient at a view direction.
pub fn get_sky_color(dir: &Vec3) -> (c: (i64, i64, i64))
    requires
        v_wf(*dir),
    ensures
        c.0 == sky_color_s(*dir).0 && c.1 == sky_color_s(*dir).1 && c.2 == sky_color_s(*dir).2,
        fx_wf(c.0) && fx_wf(c.1) && fx_wf(c.2),
{
    let t: i64 = fx_mul(fx_add(dir.y, FX_ONE), FX_HALF);
    (
        crate::vertex::fx_lerp(655, 1311, t),
        crate::vertex::fx_lerp(1311, 2621, t),
        crate::vertex::fx_lerp(3277, 7864, t),
    )
}

/// The star contribution of a view direction: a sparse lattice hash above
/// a high threshold, shaped by how far above threshold it lies, twinkling
/// with time, in one of three color tiers (pure white, blue-white, warm
/// white) by brightness.
pub open spec fn star_color_s(dir: Vec3, time: int) -> (int, int, int) {
    let sx = fx_mul_s(dir.x as int, 150 * FX_ONE);
    let sy = fx_mul_s(dir.y as int, 150 * FX_ONE);
    let sz = fx_mul_s(dir.z as int, 150 * FX_ONE);
    let sv = star_hash_s(sx, sy, sz);
    if sv > STAR_THRESHOLD {
        let intensity = fx_pow_half_s(
            fx_clamp_s(fx_div_s(fx_sub_s(sv, STAR_THRESHOLD as int), 983), 0, FX_ONE as int), 1,
        );
        let twinkle = fx_add_s(fx_mul_s(fx_add_s(fx_mul_s(
            fx_sin_s(fx_add_s(fx_mul_s(time, 3 * FX_ONE), fx_mul_s(sv, 100 * FX_ONE))),
            FX_HALF as int), FX_HALF as int), 19661), 45875);
        let glow = fx_mul_s(intensity, twinkle);
        if sv > 65208 {
            (glow, glow, glow)
        } else if sv > 65012 {
            (fx_mul_s(52429, glow), fx_mul_s(58982, glow), glow)
        } else {
            (glow, fx_mul_s(62259, glow), fx_mul_s(58982, glow))
        }
    } else {
        (0, 0, 0)
    }
}

/// The star contribution of a view direction.
pub fn get_star(dir: &Vec3, time: i64) -> (c: (i64, i64, i64))
    requires
        v_wf(*dir),
        fx_wf(time),
    ensures
        c.0 == star_color_s(*dir, time as int).0,
        c.1 == star_color_s(*dir, time as int).1,
        c.2 == star_color_s(*dir, time as int).2,
        fx_wf(c.0) && fx_wf(c.1) && fx_wf(c.2),
{
    let sx: i64 = fx_mul(dir.x, 150 * FX_ONE);
    let sy: i64 = fx_mul(dir.y, 150 * FX_ONE);
    let sz: i64 = fx_mul(dir.z, 150 * FX_ONE);
    let sv: i64 = star_hash(sx, sy, sz);
    if sv > STAR_THRESHOLD {
        let intensity: i64 = fx_pow_half(
            fx_clamp(fx_div(fx_sub(sv, STAR_THRESHOLD), 983), 0, FX_ONE), 1,
        );
        let twinkle: i64 = fx_add(fx_mul(fx_add(fx_mul(
            fx_sin(fx_add(fx_mul(time, 3 * FX_ONE), fx_mul(sv, 100 * FX_ONE))),
            FX_HALF), FX_HALF), 19661), 45875);
        let glow: i64 = fx_mul(intensity, twinkle);
        if sv > 65208 {
            (glow, glow, glow)
        } else if sv > 65012 {
            (fx_mul(52429, glow), fx_mul(58982, glow), glow)
        } else {
            (glow, fx_mul(62259, glow), fx_mul(58982, glow))
        }
    } else {
        (0, 0, 0)
    }
}

/// The view direction a pixel reconstructs from its screen coordinates.
pub open spec fn sky_dir_s(w: int, h: int, qx: int, qy: int) -> Vec3 {
    let u = fx_sub_s(fx_mul_s(fx_div_s(qx * FX_SCALE, w * FX_SCALE), 131072), FX_ONE as int);
    let v = fx_sub_s(fx_mul_s(fx_div_s(qy * FX_SCALE, h * FX_SCALE), 131072), FX_ONE as int);
    vnorm_s(Vec3 {
        x: fx_mul_s(u, 131072) as i64,
        y: fx_mul_s(v, 98304) as i64,
        z: FX_ONE,
    })
}

/// The final skybox color of a pixel: sky gradient plus stars, each channel
/// capped at full brightness, packed.
pub open spec fn skybox_pixel_s(w: int, h: int, i: int, time: int) -> u32 {
    let dir = sky_dir_s(w, h, i % w, i / w);
    let sky = sky_color_s(dir);
    let star = star_color_s(dir, time);
    pack_fx_s(
        (if fx_add_s(sky.0, star.0) <= FX_ONE { fx_add_s(sky.0, star.0) } else { FX_ONE as int }),
        (if fx_add_s(sky.1, star.1) <= FX_ONE { fx_add_s(sky.1, star.1) } else { FX_ONE as int }),
        (if fx_add_s(sky.2, star.2) <= FX_ONE { fx_add_s(sky.2, star.2) } else { FX_ONE as int }),
    )
}

/// Render the skybox: every color entry becomes its raycast sky color;
/// the depth buffer is untouched, so geometry drawn afterwards always
/// lands atop the sky.
#[verifier::loop_isolation(false)]
#[verifier::rlimit(100)]
pub fn render_skybox(fb: &mut Framebuffer, time: i64)
    requires
        fb_wf(*old(fb)),
        old(fb).width <= MAX_DIM,
        old(fb).height <= MAX_DIM,
        fx_wf(time),
    ensures
        fb_wf(*final(fb)),
        final(fb).width == old(fb).width,
        final(fb).height == old(fb).height,
        final(fb).background_color == old(fb).background_color,
        final(fb).zbuffer@ == old(fb).zbuffer@,
        forall|i: int| 0 <= i < final(fb).buffer@.len()
            ==> #[trigger] final(fb).buffer@[i] == skybox_pixel_s(
                old(fb).width as int, old(fb).height as int, i, time as int,
            ),
{
    let w: usize = fb.width;
    let h: usize = fb.height;
    let n: usize = fb.buffer.len();
    let mut i: usize = 0;
    while i < n
        invariant
            0 <= i <= n,
            n == fb.buffer@.len(),
            fb_wf(*fb),
            fb.width == w,
            fb.height == h,
            fb.background_color == old(fb).background_color,
            fb.zbuffer@ == old(fb).zbuffer@,
            forall|j: int| 0 <= j < i
                ==> #[trigger] fb.buffer@[j] == skybox_pixel_s(w as int, h as int, j, time as int),
            forall|j: int| i <= j < n ==> #[trigger] fb.buffer@[j] == old(fb).buffer@[j],
        decreases n - i,
    {
        proof {
            assert(w * h > i as int);
            assert(w > 0) by (nonlinear_arith)
                requires
                    w * h > 0,
            ;
        }
        let x: usize = i % w;
        let y: usize = i / w;
        proof {
            vstd::arithmetic::div_mod::lemma_mod_bound(i as int, w as int);
            vstd::arithmetic::div_mod::lemma_div_pos_is_pos(i as int, w as int);
            if (i as int) / (w as int) >= h as int {
                assert((w as int) * ((i as int) / (w as int)) >= (w as int) * (h as int))
                    by (nonlinear_arith)
                    requires
                        (i as int) / (w as int) >= h as int,
                        w as int > 0,
                ;
                vstd::arithmetic::div_mod::lemma_fundamental_div_mod(i as int, w as int);
            }
        }
        let u: i64 = fx_sub(fx_mul(fx_div((x as i64) * FX_SCALE, (w as i64) * FX_SCALE), 131072), FX_ONE);
        let v: i64 = fx_sub(fx_mul(fx_div((y as i64) * FX_SCALE, (h as i64) * FX_SCALE), 131072), FX_ONE);
        proof {
            assert(h > 0) by (nonlinear_arith)
                requires
                    w * h > 0,
            ;
        }
        let dir: Vec3 = Vec3 { x: fx_mul(u, 131072), y: fx_mul(v, 98304), z: FX_ONE }.normalize();
        let sky: (i64, i64, i64) = get_sky_color(&dir);
        let star: (i64, i64, i64) = get_star(&dir, time);
        let color: u32 = rgb_fx_to_u32(
            fx_min(fx_add(sky.0, star.0), FX_ONE),
            fx_min(fx_add(sky.1, star.1), FX_ONE),
            fx_min(fx_add(sky.2, star.2), FX_ONE),
        );
        fb.buffer.set(i, color);
        i = i + 1;
    }
}

} // verus!
