//! Procedural material shaders: one pure function per planetary material,
//! dispatched over a closed tag set. Every shader returns RGB channels
//! clamped into [0, 1].

use vstd::prelude::*;
use crate::fx::{
    fx_wf, fx_add_s, fx_sub_s, fx_mul_s, fx_div_s, fx_clamp_s, fx_fract_s, fx_abs_s,
    fx_sin_s, fx_cos_s, fx_sqrt_s, fx_pow_half_s,
    fx_add, fx_sub, fx_mul, fx_div, fx_clamp, fx_abs, fx_sin, fx_cos, fx_sqrt, fx_pow_half,
    fx_emod, FX_ONE, FX_HALF,
};
use crate::vec3::{Vec3, v_wf, vnorm_s, vscale_s, vdot_s, vlen_s};
use crate::vertex::{Color3, color_in_range, vlerp_s, lerp_s};
use crate::noise::{
    smoothstep_s, smoothstep, hash_s, hash_v3, noise3d_s, noise_3d, fbm_s, fbm_3d, fbm,
    fract, mix, mix_v3, clamp_color_s, clamp_color,
};

verus! {

/// The closed set of materials the fragment stage can synthesize.
#[derive(Clone, Copy, Debug, PartialEq, Eq, Structural)]
pub enum ShaderType {
    Rocky,
    GasGiant,
    Lava,
    Ice,
    Alien,
    SolarHeart,
    Rings,
    Moon,
}

/// Interpolated per-fragment inputs handed to a material shader.
#[derive(Clone, Copy, Debug, PartialEq, Eq, Structural)]
pub struct FragmentData {
    pub position: Vec3,
    pub normal: Vec3,
    pub world_pos: Vec3,
}

/// All carried vectors are well-formed.
pub open spec fn frag_wf(f: FragmentData) -> bool {
    v_wf(f.position) && v_wf(f.normal) && v_wf(f.world_pos)
}

/// The fixed light direction shared by the lit materials: (1, 1, 2),
/// normalized.
pub open spec fn shader_light_s() -> Vec3 {
    vnorm_s(Vec3 { x: FX_ONE, y: FX_ONE, z: 131072 })
}

/// The fixed light direction shared by the lit materials.
fn shader_light() -> (r: Vec3)
    ensures
        r == shader_light_s(),
        v_wf(r),
{
    Vec3 { x: FX_ONE, y: FX_ONE, z: 2 * FX_ONE }.normalize()
}

/// Rocky planet: two fractal fields blend three blue tones, fine noise adds
/// grain, then ambient-plus-diffuse lighting.
#[verifier::opaque]
pub open spec fn shader_rocky_s(f: FragmentData, time: int) -> Color3 {
    let pos = f.position;
    let normal = vnorm_s(f.normal);
    let light = shader_light_s();
    let terrain = fbm_s(vscale_s(pos, 3 * FX_ONE), 5);
    let craters = fbm_s(vscale_s(pos, 8 * FX_ONE), 5);
    let base1 = vlerp_s(
        Vec3 { x: 26214, y: 39322, z: 52429 },
        Vec3 { x: 39322, y: 49152, z: 58982 },
        terrain,
    );
    let base2 = vlerp_s(base1, Vec3 { x: 32768, y: 42598, z: 55706 }, fx_mul_s(craters, FX_HALF as int));
    let rock = noise3d_s(vscale_s(pos, 20 * FX_ONE));
    let grain = fx_mul_s(rock, 6554);
    clamp_color_s(
        fx_mul_s(fx_add_s(base2.x as int, grain), lit_floor_s(normal, light)),
        fx_mul_s(fx_add_s(base2.y as int, grain), lit_floor_s(normal, light)),
        fx_mul_s(fx_add_s(base2.z as int, grain), lit_floor_s(normal, light)),
    )
}

/// Ambient 0.5 plus the full clamped-at-zero diffuse term.
pub open spec fn lit_floor_s(normal: Vec3, light: Vec3) -> int {
    let d = vdot_s(normal, light);
    let diffuse = if d >= 0 {
        d
    } else {
        0
    };
    fx_add_s(32768, diffuse)
}

/// Rocky planet shader.
pub fn shader_rocky(f: &FragmentData, _time: i64) -> (c: Color3)
    requires
        frag_wf(*f),
    ensures
        c == shader_rocky_s(*f, _time as int),
        color_in_range(c),
{
    proof {
        reveal(shader_rocky_s);
    }
    let pos: Vec3 = f.position;
    let normal: Vec3 = f.normal.normalize();
    let light: Vec3 = shader_light();
    let terrain: i64 = fbm_3d(pos.scale(3 * FX_ONE), 5);
    let craters: i64 = fbm_3d(pos.scale(8 * FX_ONE), 5);
    let base1: Vec3 = mix_v3(
        Vec3 { x: 26214, y: 39322, z: 52429 },
        Vec3 { x: 39322, y: 49152, z: 58982 },
        terrain,
    );
    let base2: Vec3 = mix_v3(base1, Vec3 { x: 32768, y: 42598, z: 55706 }, fx_mul(craters, FX_HALF));
    let rock: i64 = noise_3d(pos.scale(20 * FX_ONE));
    let grain: i64 = fx_mul(rock, 6554);
    let d: i64 = normal.dot(&light);
    let diffuse: i64 = if d >= 0 { d } else { 0 };
    let lit: i64 = fx_add(32768, diffuse);
    clamp_color(
        fx_mul(fx_add(base2.x, grain), lit),
        fx_mul(fx_add(base2.y, grain), lit),
        fx_mul(fx_add(base2.z, grain), lit),
    )
}

/// Moon: a gray fractal base darkened by crater and maria masks, then
/// ambient-plus-diffuse lighting.
#[verifier::opaque]
pub open spec fn shader_moon_s(f: FragmentData, time: int) -> Color3 {
    let pos = f.world_pos;
    let normal = vnorm_s(f.normal);
    let light = shader_light_s();
    let surface = fbm_s(vscale_s(pos, 2 * FX_ONE), 3);
    let gray = fx_add_s(29491, fx_mul_s(surface, 7864));
    let craters = fbm_s(vscale_s(pos, 4 * FX_ONE), 3);
    let crater_dark = fx_mul_s(smoothstep_s(39322, 49152, craters), 16384);
    let maria = fbm_s(vscale_s(pos, 98304), 2);
    let maria_dark = fx_mul_s(smoothstep_s(19661, 32768, maria), 13107);
    let v = fx_sub_s(fx_sub_s(gray, crater_dark), maria_dark);
    let base = if v >= 9830 {
        v
    } else {
        9830
    };
    let d = vdot_s(normal, light);
    let diffuse = if d >= 0 {
        d
    } else {
        0
    };
    let lit = fx_add_s(19661, fx_mul_s(diffuse, 45875));
    clamp_color_s(fx_mul_s(base, lit), fx_mul_s(base, lit), fx_mul_s(base, lit))
}

/// Moon shader.
pub fn shader_moon(f: &FragmentData, _time: i64) -> (c: Color3)
    requires
        frag_wf(*f),
    ensures
        c == shader_moon_s(*f, _time as int),
        color_in_range(c),
{
    proof {
        reveal(shader_moon_s);
    }
    let pos: Vec3 = f.world_pos;
    let normal: Vec3 = f.normal.normalize();
    let light: Vec3 = shader_light();
    let surface: i64 = fbm_3d(pos.scale(2 * FX_ONE), 3);
    let gray: i64 = fx_add(29491, fx_mul(surface, 7864));
    let craters: i64 = fbm_3d(pos.scale(4 * FX_ONE), 3);
    let crater_dark: i64 = fx_mul(smoothstep(39322, 49152, craters), 16384);
    let maria: i64 = fbm_3d(pos.scale(98304), 2);
    let maria_dark: i64 = fx_mul(smoothstep(19661, 32768, maria), 13107);
    let v: i64 = fx_sub(fx_sub(gray, crater_dark), maria_dark);
    let base: i64 = if v >= 9830 { v } else { 9830 };
    let d: i64 = normal.dot(&light);
    let diffuse: i64 = if d >= 0 { d } else { 0 };
    let lit: i64 = fx_add(19661, fx_mul(diffuse, 45875));
    clamp_color(fx_mul(base, lit), fx_mul(base, lit), fx_mul(base, lit))
}

/// Radial distance from the ring plane's center at this sample.
pub open spec fn ring_radius_s(pos: Vec3) -> int {
    vlen_s(Vec3 { x: pos.x, y: 0, z: pos.z })
}

/// Where the dark ring gap (the Cassini-division analogue) sits, in
/// fixed-point units of radial distance (0.65).
pub const RING_GAP_RADIUS: i64 = 42598;
/// Half-width of the gap's brightness falloff (0.05).
pub const RING_GAP_WIDTH: i64 = 3277;

/// Rings: concentric light and dark bands from the sine of the radial
/// distance, a finer detail band, a brightness window that never reaches
/// pure white or black, and a darker annular gap at the configured radius.
#[verifier::opaque]
pub open spec fn shader_rings_s(f: FragmentData, time: int) -> Color3 {
    let radius = ring_radius_s(f.world_pos);
    let bands = fx_sqrt_s(fx_clamp_s(
        fx_add_s(fx_mul_s(fx_sin_s(fx_mul_s(radius, 20 * FX_ONE)), FX_HALF as int), FX_HALF as int),
        0, FX_ONE as int,
    ));
    let detail = fx_add_s(fx_mul_s(fx_sin_s(fx_mul_s(radius, 60 * FX_ONE)), FX_HALF as int), FX_HALF as int);
    let base = lerp_s(29491, 47186, bands);
    let brightness = fx_add_s(36045, fx_mul_s(detail, 9830));
    let shaded = lerp_s(fx_clamp_s(fx_mul_s(base, brightness), 0, FX_ONE as int), 32768, 3932);
    let dist_to_gap = fx_abs_s(fx_sub_s(radius, RING_GAP_RADIUS as int));
    let gap_t = smoothstep_s(0, RING_GAP_WIDTH as int, dist_to_gap);
    let gap_brightness = lerp_s(29491, 55706, gap_t);
    let channel = fx_clamp_s(fx_mul_s(shaded, gap_brightness), 0, FX_ONE as int);
    clamp_color_s(channel, channel, channel)
}

/// Rings shader.
pub fn shader_rings(f: &FragmentData, _time: i64) -> (c: Color3)
    requires
        frag_wf(*f),
    ensures
        c == shader_rings_s(*f, _time as int),
        color_in_range(c),
{
    proof {
        reveal(shader_rings_s);
    }
    let radius: i64 = Vec3 { x: f.world_pos.x, y: 0, z: f.world_pos.z }.length();
    let bands: i64 = fx_sqrt(fx_clamp(
        fx_add(fx_mul(fx_sin(fx_mul(radius, 20 * FX_ONE)), FX_HALF), FX_HALF),
        0, FX_ONE,
    ));
    let detail: i64 = fx_add(fx_mul(fx_sin(fx_mul(radius, 60 * FX_ONE)), FX_HALF), FX_HALF);
    let base: i64 = mix(29491, 47186, bands);
    let brightness: i64 = fx_add(36045, fx_mul(detail, 9830));
    let shaded: i64 = mix(fx_clamp(fx_mul(base, brightness), 0, FX_ONE), 32768, 3932);
    let dist_to_gap: i64 = fx_abs(fx_sub(radius, RING_GAP_RADIUS));
    let gap_t: i64 = smoothstep(0, RING_GAP_WIDTH, dist_to_gap);
    let gap_brightness: i64 = mix(29491, 55706, gap_t);
    let channel: i64 = fx_clamp(fx_mul(shaded, gap_brightness), 0, FX_ONE);
    clamp_color(channel, channel, channel)
}

/// Gas giant: horizontal bands perturbed by two noise fields, quantized
/// into four color zones with local blending, an additive atmospheric rim,
/// then ambient-plus-diffuse lighting.
#[verifier::opaque]
pub open spec fn shader_gas_giant_s(f: FragmentData, time: int) -> Color3 {
    let pos = f.position;
    let normal = vnorm_s(f.normal);
    let light = shader_light_s();
    let swirl = noise3d_s(Vec3 {
        x: fx_mul_s(pos.x as int, 131072) as i64,
        y: fx_add_s(fx_mul_s(pos.y as int, 524288), fx_mul_s(time, 6554)) as i64,
        z: fx_mul_s(pos.z as int, 131072) as i64,
    });
    let turbulence = noise3d_s(Vec3 {
        x: fx_add_s(fx_mul_s(pos.x as int, 393216), fx_mul_s(time, 9830)) as i64,
        y: fx_mul_s(pos.y as int, 983040) as i64,
        z: fx_mul_s(pos.z as int, 393216) as i64,
    });
    let bands = fx_add_s(
        fx_add_s(
            fx_add_s(fx_mul_s(pos.y as int, 327680), fx_mul_s(time, 13107)),
            fx_mul_s(swirl, 131072),
        ),
        fx_mul_s(turbulence, 52429),
    );
    let bp = fx_fract_s(bands);
    let c1 = Vec3 { x: 58982, y: 45875, z: 32768 };
    let c2 = Vec3 { x: 45875, y: 32768, z: 19661 };
    let c3 = Vec3 { x: 62259, y: 55706, z: 45875 };
    let c4 = Vec3 { x: 39322, y: 26214, z: 16384 };
    let base = if bp < 16384 {
        vlerp_s(c1, c2, fx_mul_s(bp, 262144))
    } else if bp < 32768 {
        vlerp_s(c2, c3, fx_mul_s(fx_sub_s(bp, 16384), 262144))
    } else if bp < 49152 {
        vlerp_s(c3, c4, fx_mul_s(fx_sub_s(bp, 32768), 262144))
    } else {
        vlerp_s(c4, c1, fx_mul_s(fx_sub_s(bp, 49152), 262144))
    };
    let facing = fx_abs_s(vdot_s(normal, Vec3 { x: 0, y: 0, z: FX_ONE }));
    let away = fx_sub_s(FX_ONE as int, facing);
    let atmosphere = fx_mul_s(away, away);
    let d = vdot_s(normal, light);
    let diffuse = if d >= 0 {
        d
    } else {
        0
    };
    let lit = fx_add_s(26214, fx_mul_s(diffuse, 39322));
    clamp_color_s(
        fx_mul_s(fx_add_s(base.x as int, fx_mul_s(6554, atmosphere)), lit),
        fx_mul_s(fx_add_s(base.y as int, fx_mul_s(3277, atmosphere)), lit),
        fx_mul_s(base.z as int, lit),
    )
}

/// Gas giant shader.
pub fn shader_gas_giant(f: &FragmentData, time: i64) -> (c: Color3)
    requires
        frag_wf(*f),
        fx_wf(time),
    ensures
        c == shader_gas_giant_s(*f, time as int),
        color_in_range(c),
{
    proof {
        reveal(shader_gas_giant_s);
    }
    let pos: Vec3 = f.position;
    let normal: Vec3 = f.normal.normalize();
    let light: Vec3 = shader_light();
    let swirl: i64 = noise_3d(Vec3 {
        x: fx_mul(pos.x, 131072),
        y: fx_add(fx_mul(pos.y, 524288), fx_mul(time, 6554)),
        z: fx_mul(pos.z, 131072),
    });
    let turbulence: i64 = noise_3d(Vec3 {
        x: fx_add(fx_mul(pos.x, 393216), fx_mul(time, 9830)),
        y: fx_mul(pos.y, 983040),
        z: fx_mul(pos.z, 393216),
    });
    let bands: i64 = fx_add(
        fx_add(fx_add(fx_mul(pos.y, 327680), fx_mul(time, 13107)), fx_mul(swirl, 131072)),
        fx_mul(turbulence, 52429),
    );
    let bp: i64 = fract(bands);
    let c1: Vec3 = Vec3 { x: 58982, y: 45875, z: 32768 };
    let c2: Vec3 = Vec3 { x: 45875, y: 32768, z: 19661 };
    let c3: Vec3 = Vec3 { x: 62259, y: 55706, z: 45875 };
    let c4: Vec3 = Vec3 { x: 39322, y: 26214, z: 16384 };
    let base: Vec3 = if bp < 16384 {
        mix_v3(c1, c2, fx_mul(bp, 262144))
    } else if bp < 32768 {
        mix_v3(c2, c3, fx_mul(fx_sub(bp, 16384), 262144))
    } else if bp < 49152 {
        mix_v3(c3, c4, fx_mul(fx_sub(bp, 32768), 262144))
    } else {
        mix_v3(c4, c1, fx_mul(fx_sub(bp, 49152), 262144))
    };
    let facing: i64 = fx_abs(normal.dot(&Vec3 { x: 0, y: 0, z: FX_ONE }));
    let away: i64 = fx_sub(FX_ONE, facing);
    let atmosphere: i64 = fx_mul(away, away);
    let d: i64 = normal.dot(&light);
    let diffuse: i64 = if d >= 0 { d } else { 0 };
    let lit: i64 = fx_add(26214, fx_mul(diffuse, 39322));
    clamp_color(
        fx_mul(fx_add(base.x, fx_mul(6554, atmosphere)), lit),
        fx_mul(fx_add(base.y, fx_mul(3277, atmosphere)), lit),
        fx_mul(base.z, lit),
    )
}

/// Lava planet: two animated flow fields thresholded into a lava-vs-crust
/// mask, a four-stop heat gradient on the lava, glowing cracks, a breathing
/// heat pulse, and Lambert shadows on the crust only.
#[verifier::opaque]
pub open spec fn shader_lava_s(f: FragmentData, time: int) -> Color3 {
    let pos = f.position;
    let normal = vnorm_s(f.normal);
    let light = shader_light_s();
    let flow1 = fbm_s(Vec3 {
        x: fx_add_s(fx_mul_s(pos.x as int, 131072), fx_mul_s(time, 19661)) as i64,
        y: fx_add_s(fx_mul_s(pos.z as int, 131072), fx_mul_s(time, 16384)) as i64,
        z: 0,
    }, 3);
    let flow2 = fbm_s(Vec3 {
        x: fx_sub_s(fx_mul_s(pos.x as int, 229376), fx_mul_s(time, 9830)) as i64,
        y: fx_mul_s(pos.y as int, 229376) as i64,
        z: 0,
    }, 2);
    let lava_flow = fx_clamp_s(
        fx_add_s(fx_mul_s(flow1, 45875), fx_mul_s(flow2, 19661)), 0, FX_ONE as int,
    );
    let dark_red = Vec3 { x: 52429, y: 6554, z: 0 };
    let bright_red = Vec3 { x: 65536, y: 13107, z: 0 };
    let hot_orange = Vec3 { x: 65536, y: 39322, z: 0 };
    let yellow_hot = Vec3 { x: 65536, y: 58982, z: 13107 };
    let is_lava = smoothstep_s(22938, 32768, lava_flow);
    let crust = vlerp_s(
        Vec3 { x: 0, y: 0, z: 0 }, Vec3 { x: 6554, y: 3277, z: 0 },
        fx_mul_s(lava_flow, 131072),
    );
    let lava_color = if lava_flow < 32768 {
        dark_red
    } else if lava_flow < 42598 {
        vlerp_s(dark_red, bright_red, fx_div_s(fx_sub_s(lava_flow, 32768), 9830))
    } else if lava_flow < 52429 {
        vlerp_s(bright_red, hot_orange, fx_div_s(fx_sub_s(lava_flow, 42598), 9830))
    } else {
        vlerp_s(hot_orange, yellow_hot, fx_div_s(fx_sub_s(lava_flow, 52429), 13107))
    };
    let base = vlerp_s(crust, lava_color, is_lava);
    let cracks = fbm_s(Vec3 {
        x: fx_mul_s(pos.x as int, 393216) as i64,
        y: fx_mul_s(pos.z as int, 393216) as i64,
        z: 0,
    }, 2);
    let crack_i = smoothstep_s(36045, 45875, cracks);
    let with_cracks = vlerp_s(
        base, Vec3 { x: 65536, y: 32768, z: 0 },
        fx_mul_s(fx_mul_s(crack_i, is_lava), FX_HALF as int),
    );
    let pulse = fx_add_s(fx_mul_s(fx_sin_s(fx_mul_s(time, 98304)), FX_HALF as int), FX_HALF as int);
    let heat = fx_mul_s(fx_mul_s(pulse, is_lava), 9830);
    let d = vdot_s(normal, light);
    let diffuse = if d >= 0 {
        d
    } else {
        0
    };
    let shadow = fx_add_s(6554, fx_mul_s(diffuse, 19661));
    let factor = fx_add_s(is_lava, fx_mul_s(fx_sub_s(FX_ONE as int, is_lava), shadow));
    clamp_color_s(
        fx_add_s(fx_mul_s(with_cracks.x as int, factor), heat),
        fx_add_s(fx_mul_s(with_cracks.y as int, factor), fx_mul_s(heat, FX_HALF as int)),
        fx_mul_s(fx_mul_s(with_cracks.z as int, factor), 19661),
    )
}

/// Lava planet shader.
pub fn shader_lava(f: &FragmentData, time: i64) -> (c: Color3)
    requires
        frag_wf(*f),
        fx_wf(time),
    ensures
        c == shader_lava_s(*f, time as int),
        color_in_range(c),
{
    proof {
        reveal(shader_lava_s);
    }
    let pos: Vec3 = f.position;
    let normal: Vec3 = f.normal.normalize();
    let light: Vec3 = shader_light();
    let flow1: i64 = fbm(
        fx_add(fx_mul(pos.x, 131072), fx_mul(time, 19661)),
        fx_add(fx_mul(pos.z, 131072), fx_mul(time, 16384)),
        3,
    );
    let flow2: i64 = fbm(
        fx_sub(fx_mul(pos.x, 229376), fx_mul(time, 9830)),
        fx_mul(pos.y, 229376),
        2,
    );
    let lava_flow: i64 = fx_clamp(fx_add(fx_mul(flow1, 45875), fx_mul(flow2, 19661)), 0, FX_ONE);
    let dark_red: Vec3 = Vec3 { x: 52429, y: 6554, z: 0 };
    let bright_red: Vec3 = Vec3 { x: 65536, y: 13107, z: 0 };
    let hot_orange: Vec3 = Vec3 { x: 65536, y: 39322, z: 0 };
    let yellow_hot: Vec3 = Vec3 { x: 65536, y: 58982, z: 13107 };
    let is_lava: i64 = smoothstep(22938, 32768, lava_flow);
    let crust: Vec3 = mix_v3(
        Vec3 { x: 0, y: 0, z: 0 }, Vec3 { x: 6554, y: 3277, z: 0 },
        fx_mul(lava_flow, 131072),
    );
    let lava_color: Vec3 = if lava_flow < 32768 {
        dark_red
    } else if lava_flow < 42598 {
        mix_v3(dark_red, bright_red, fx_div(fx_sub(lava_flow, 32768), 9830))
    } else if lava_flow < 52429 {
        mix_v3(bright_red, hot_orange, fx_div(fx_sub(lava_flow, 42598), 9830))
    } else {
        mix_v3(hot_orange, yellow_hot, fx_div(fx_sub(lava_flow, 52429), 13107))
    };
    let base: Vec3 = mix_v3(crust, lava_color, is_lava);
    let cracks: i64 = fbm(fx_mul(pos.x, 393216), fx_mul(pos.z, 393216), 2);
    let crack_i: i64 = smoothstep(36045, 45875, cracks);
    let with_cracks: Vec3 = mix_v3(
        base, Vec3 { x: 65536, y: 32768, z: 0 },
        fx_mul(fx_mul(crack_i, is_lava), FX_HALF),
    );
    let pulse: i64 = fx_add(fx_mul(fx_sin(fx_mul(time, 98304)), FX_HALF), FX_HALF);
    let heat: i64 = fx_mul(fx_mul(pulse, is_lava), 9830);
    let d: i64 = normal.dot(&light);
    let diffuse: i64 = if d >= 0 { d } else { 0 };
    let shadow: i64 = fx_add(6554, fx_mul(diffuse, 19661));
    let factor: i64 = fx_add(is_lava, fx_mul(fx_sub(FX_ONE, is_lava), shadow));
    clamp_color(
        fx_add(fx_mul(with_cracks.x, factor), heat),
        fx_add(fx_mul(with_cracks.y, factor), fx_mul(heat, FX_HALF)),
        fx_mul(fx_mul(with_cracks.z, factor), 19661),
    )
}

/// Ice planet: a blue-white fractal base with crack, snow, sparkle, aurora
/// and rim layers, lit with a strong specular-like term.
#[verifier::opaque]
pub open spec fn shader_ice_s(f: FragmentData, time: int) -> Color3 {
    let pos = f.position;
    let normal = vnorm_s(f.normal);
    let light = shader_light_s();
    let ice_variation = fbm_s(Vec3 {
        x: fx_mul_s(pos.x as int, 196608) as i64,
        y: fx_mul_s(pos.z as int, 196608) as i64,
        z: 0,
    }, 3);
    let ice_base = vlerp_s(
        Vec3 { x: 55706, y: 60293, z: 65536 },
        Vec3 { x: 45875, y: 53740, z: 62259 },
        ice_variation,
    );
    let crack_large = fbm_s(Vec3 {
        x: fx_mul_s(pos.x as int, 524288) as i64,
        y: fx_mul_s(pos.z as int, 524288) as i64,
        z: 0,
    }, 4);
    let crack_small = fbm_s(Vec3 {
        x: fx_mul_s(pos.x as int, 1179648) as i64,
        y: fx_mul_s(pos.z as int, 1179648) as i64,
        z: 0,
    }, 2);
    let crack_pattern = fx_add_s(
        fx_mul_s(smoothstep_s(22938, 29491, crack_large), 45875),
        fx_mul_s(smoothstep_s(24904, 27525, crack_small), 19661),
    );
    let with_cracks = vlerp_s(ice_base, Vec3 { x: 16384, y: 29491, z: 42598 }, crack_pattern);
    let snow_pattern = fbm_s(Vec3 {
        x: fx_mul_s(pos.x as int, 327680) as i64,
        y: fx_mul_s(pos.y as int, 327680) as i64,
        z: 0,
    }, 3);
    let snow_coverage = smoothstep_s(29491, 42598, snow_pattern);
    let with_snow = vlerp_s(with_cracks, Vec3 { x: 64225, y: 64881, z: 65536 }, snow_coverage);
    let crystals = fbm_s(Vec3 {
        x: fx_add_s(fx_mul_s(pos.x as int, 655360), fx_mul_s(time, 5243)) as i64,
        y: fx_mul_s(pos.z as int, 655360) as i64,
        z: 0,
    }, 2);
    let flicker = fx_add_s(fx_mul_s(fx_sin_s(fx_mul_s(time, 163840)), FX_HALF as int), FX_HALF as int);
    let sparkle = fx_mul_s(fx_mul_s(smoothstep_s(49152, 57672, crystals), flicker), FX_HALF as int);
    let aurora_flow1 = fx_abs_s(fx_mul_s(
        fx_sin_s(fx_add_s(fx_mul_s(pos.x as int, 196608), fx_mul_s(time, FX_HALF as int))),
        fx_cos_s(fx_add_s(fx_mul_s(pos.z as int, 131072), fx_mul_s(time, 19661))),
    ));
    let aurora_flow2 = fx_abs_s(fx_mul_s(
        fx_cos_s(fx_sub_s(fx_mul_s(pos.x as int, 262144), fx_mul_s(time, 26214))),
        fx_sin_s(fx_mul_s(pos.z as int, 196608)),
    ));
    let lat = fx_sub_s(fx_abs_s(pos.y as int), 19661);
    let lat_pos = if lat >= 0 {
        lat
    } else {
        0
    };
    let polar = fx_pow_half_s(fx_clamp_s(fx_div_s(lat_pos, 45875), 0, FX_ONE as int), 3);
    let aurora_i = fx_mul_s(
        fx_add_s(fx_mul_s(aurora_flow1, 39322), fx_mul_s(aurora_flow2, 26214)), polar,
    );
    let aurora_mix = fx_add_s(
        fx_mul_s(fx_sin_s(fx_mul_s(time, 13107)), FX_HALF as int), FX_HALF as int,
    );
    let aurora_color = if aurora_mix < 21627 {
        Vec3 { x: 6554, y: 58982, z: 32768 }
    } else if aurora_mix < 43254 {
        Vec3 { x: 13107, y: 45875, z: 58982 }
    } else {
        Vec3 { x: 39322, y: 19661, z: 58982 }
    };
    let view = vnorm_s(Vec3 { x: (-pos.x) as i64, y: (-pos.y) as i64, z: (-pos.z) as i64 });
    let facing = vdot_s(normal, view);
    let facing_pos = if facing >= 0 {
        facing
    } else {
        0
    };
    let away = fx_sub_s(FX_ONE as int, facing_pos);
    let rim = fx_mul_s(fx_mul_s(away, away), 19661);
    let d = vdot_s(normal, light);
    let diffuse = if d >= 0 {
        d
    } else {
        0
    };
    let specular = fx_mul_s(fx_mul_s(fx_mul_s(diffuse, diffuse), fx_mul_s(diffuse, diffuse)), FX_HALF as int);
    let lit = fx_add_s(32768, fx_mul_s(diffuse, 52429));
    clamp_color_s(
        fx_add_s(fx_add_s(fx_add_s(fx_add_s(
            fx_mul_s(with_snow.x as int, lit), specular), fx_mul_s(sparkle, 26214)),
            fx_mul_s(fx_mul_s(aurora_color.x as int, aurora_i), 26214)),
            fx_mul_s(45875, rim)),
        fx_add_s(fx_add_s(fx_add_s(fx_add_s(
            fx_mul_s(with_snow.y as int, lit), specular), fx_mul_s(sparkle, 26214)),
            fx_mul_s(fx_mul_s(aurora_color.y as int, aurora_i), 26214)),
            fx_mul_s(55706, rim)),
        fx_add_s(fx_add_s(fx_add_s(fx_add_s(
            fx_mul_s(with_snow.z as int, lit), specular), fx_mul_s(sparkle, 26214)),
            fx_mul_s(fx_mul_s(aurora_color.z as int, aurora_i), 26214)),
            fx_mul_s(65536, rim)),
    )
}

/// Ice planet shader.
pub fn shader_ice(f: &FragmentData, time: i64) -> (c: Color3)
    requires
        frag_wf(*f),
        fx_wf(time),
    ensures
        c == shader_ice_s(*f, time as int),
        color_in_range(c),
{
    proof {
        reveal(shader_ice_s);
    }
    let pos: Vec3 = f.position;
    let normal: Vec3 = f.normal.normalize();
    let light: Vec3 = shader_light();
    let ice_variation: i64 = fbm(fx_mul(pos.x, 196608), fx_mul(pos.z, 196608), 3);
    let ice_base: Vec3 = mix_v3(
        Vec3 { x: 55706, y: 60293, z: 65536 },
        Vec3 { x: 45875, y: 53740, z: 62259 },
        ice_variation,
    );
    let crack_large: i64 = fbm(fx_mul(pos.x, 524288), fx_mul(pos.z, 524288), 4);
    let crack_small: i64 = fbm(fx_mul(pos.x, 1179648), fx_mul(pos.z, 1179648), 2);
    let crack_pattern: i64 = fx_add(
        fx_mul(smoothstep(22938, 29491, crack_large), 45875),
        fx_mul(smoothstep(24904, 27525, crack_small), 19661),
    );
    let with_cracks: Vec3 = mix_v3(ice_base, Vec3 { x: 16384, y: 29491, z: 42598 }, crack_pattern);
    let snow_pattern: i64 = fbm(fx_mul(pos.x, 327680), fx_mul(pos.y, 327680), 3);
    let snow_coverage: i64 = smoothstep(29491, 42598, snow_pattern);
    let with_snow: Vec3 = mix_v3(with_cracks, Vec3 { x: 64225, y: 64881, z: 65536 }, snow_coverage);
    let crystals: i64 = fbm(
        fx_add(fx_mul(pos.x, 655360), fx_mul(time, 5243)), fx_mul(pos.z, 655360), 2,
    );
    let flicker: i64 = fx_add(fx_mul(fx_sin(fx_mul(time, 163840)), FX_HALF), FX_HALF);
    let sparkle: i64 = fx_mul(fx_mul(smoothstep(49152, 57672, crystals), flicker), FX_HALF);
    let aurora_flow1: i64 = fx_abs(fx_mul(
        fx_sin(fx_add(fx_mul(pos.x, 196608), fx_mul(time, FX_HALF))),
        fx_cos(fx_add(fx_mul(pos.z, 131072), fx_mul(time, 19661))),
    ));
    let aurora_flow2: i64 = fx_abs(fx_mul(
        fx_cos(fx_sub(fx_mul(pos.x, 262144), fx_mul(time, 26214))),
        fx_sin(fx_mul(pos.z, 196608)),
    ));
    let lat: i64 = fx_sub(fx_abs(pos.y), 19661);
    let lat_pos: i64 = if lat >= 0 { lat } else { 0 };
    let polar: i64 = fx_pow_half(fx_clamp(fx_div(lat_pos, 45875), 0, FX_ONE), 3);
    let aurora_i: i64 = fx_mul(
        fx_add(fx_mul(aurora_flow1, 39322), fx_mul(aurora_flow2, 26214)), polar,
    );
    let aurora_mix: i64 = fx_add(fx_mul(fx_sin(fx_mul(time, 13107)), FX_HALF), FX_HALF);
    let aurora_color: Vec3 = if aurora_mix < 21627 {
        Vec3 { x: 6554, y: 58982, z: 32768 }
    } else if aurora_mix < 43254 {
        Vec3 { x: 13107, y: 45875, z: 58982 }
    } else {
        Vec3 { x: 39322, y: 19661, z: 58982 }
    };
    let view: Vec3 = pos.neg().normalize();
    let facing: i64 = normal.dot(&view);
    let facing_pos: i64 = if facing >= 0 { facing } else { 0 };
    let away: i64 = fx_sub(FX_ONE, facing_pos);
    let rim: i64 = fx_mul(fx_mul(away, away), 19661);
    let d: i64 = normal.dot(&light);
    let diffuse: i64 = if d >= 0 { d } else { 0 };
    let specular: i64 = fx_mul(fx_mul(fx_mul(diffuse, diffuse), fx_mul(diffuse, diffuse)), FX_HALF);
    let lit: i64 = fx_add(32768, fx_mul(diffuse, 52429));
    clamp_color(
        fx_add(fx_add(fx_add(fx_add(
            fx_mul(with_snow.x, lit), specular), fx_mul(sparkle, 26214)),
            fx_mul(fx_mul(aurora_color.x, aurora_i), 26214)),
            fx_mul(45875, rim)),
        fx_add(fx_add(fx_add(fx_add(
            fx_mul(with_snow.y, lit), specular), fx_mul(sparkle, 26214)),
            fx_mul(fx_mul(aurora_color.y, aurora_i), 26214)),
            fx_mul(55706, rim)),
        fx_add(fx_add(fx_add(fx_add(
            fx_mul(with_snow.z, lit), specular), fx_mul(sparkle, 26214)),
            fx_mul(fx_mul(aurora_color.z, aurora_i), 26214)),
            fx_mul(65536, rim)),
    )
}

/// Alien hologram: a dark purple base with interference stripes, flowing
/// energy veins, iridescent spots, a position-and-time color cycle, and a
/// hue-cycling rim glow; mostly self-illuminated.
#[verifier::opaque]
pub open spec fn shader_alien_s(f: FragmentData, time: int) -> Color3 {
    let pos = f.position;
    let normal = vnorm_s(f.normal);
    let pulse_fast = fx_add_s(fx_mul_s(fx_sin_s(fx_mul_s(time, 196608)), FX_HALF as int), FX_HALF as int);
    let pulse_slow = fx_add_s(fx_mul_s(fx_sin_s(fx_mul_s(time, 98304)), FX_HALF as int), FX_HALF as int);
    let pulse_shimmer = fx_add_s(fx_mul_s(fx_sin_s(fx_add_s(
        fx_mul_s(time, 327680), fx_mul_s(pos.x as int, 655360),
    )), FX_HALF as int), FX_HALF as int);
    let stripe_pattern = fx_abs_s(fx_mul_s(
        fx_sin_s(fx_add_s(fx_mul_s(pos.y as int, 983040), fx_mul_s(time, 131072))),
        fx_cos_s(fx_mul_s(pos.x as int, 655360)),
    ));
    let stripes = smoothstep_s(19661, 45875, stripe_pattern);
    let veins = fbm_s(Vec3 {
        x: fx_add_s(fx_mul_s(pos.x as int, 393216), fx_mul_s(time, 26214)) as i64,
        y: fx_mul_s(pos.y as int, 393216) as i64,
        z: fx_mul_s(pos.z as int, 393216) as i64,
    }, 3);
    let vein_i = smoothstep_s(36045, 49152, veins);
    let spots = noise3d_s(Vec3 {
        x: fx_add_s(fx_mul_s(pos.x as int, 786432), fx_mul_s(time, 19661)) as i64,
        y: fx_mul_s(pos.y as int, 786432) as i64,
        z: fx_mul_s(pos.z as int, 786432) as i64,
    });
    let spot_i = smoothstep_s(42598, 52429, spots);
    let vivid_purple = Vec3 { x: 45875, y: 6554, z: 58982 };
    let hot_pink = Vec3 { x: 65536, y: 13107, z: 45875 };
    let electric_aqua = Vec3 { x: 6554, y: 58982, z: 58982 };
    let neon_magenta = Vec3 { x: 58982, y: 0, z: 52429 };
    let color_cycle = fx_add_s(fx_mul_s(fx_sin_s(fx_add_s(fx_add_s(
        fx_mul_s(pos.x as int, 327680), fx_mul_s(pos.y as int, 196608)), time,
    )), FX_HALF as int), FX_HALF as int);
    let holographic = if color_cycle < 21627 {
        vlerp_s(vivid_purple, hot_pink, fx_mul_s(color_cycle, 196608))
    } else if color_cycle < 43254 {
        vlerp_s(hot_pink, electric_aqua, fx_mul_s(fx_sub_s(color_cycle, 21627), 196608))
    } else {
        vlerp_s(electric_aqua, vivid_purple, fx_mul_s(fx_sub_s(color_cycle, 43254), 196608))
    };
    let base1 = vlerp_s(Vec3 { x: 5243, y: 1311, z: 9830 }, holographic,
        fx_mul_s(fx_mul_s(stripes, pulse_shimmer), 39322));
    let base2 = vlerp_s(base1, neon_magenta, fx_mul_s(fx_mul_s(vein_i, pulse_fast), FX_HALF as int));
    let base3 = vlerp_s(base2, electric_aqua, fx_mul_s(fx_mul_s(spot_i, pulse_slow), 26214));
    let view = vnorm_s(Vec3 { x: (-pos.x) as i64, y: (-pos.y) as i64, z: (-pos.z) as i64 });
    let facing = vdot_s(normal, view);
    let facing_pos = if facing >= 0 {
        facing
    } else {
        0
    };
    let fresnel = fx_pow_half_s(fx_clamp_s(fx_sub_s(FX_ONE as int, facing_pos), 0, FX_ONE as int), 5);
    let rim_color = vlerp_s(vlerp_s(vivid_purple, hot_pink, pulse_fast), electric_aqua, pulse_slow);
    let shimmer_boost = fx_mul_s(pulse_shimmer, 19661);
    clamp_color_s(
        fx_mul_s(fx_add_s(fx_add_s(base3.x as int,
            fx_mul_s(fx_mul_s(rim_color.x as int, fresnel), 39322)), shimmer_boost), 49152),
        fx_mul_s(fx_add_s(fx_add_s(base3.y as int,
            fx_mul_s(fx_mul_s(rim_color.y as int, fresnel), 39322)),
            fx_mul_s(shimmer_boost, 52429)), 49152),
        fx_mul_s(fx_add_s(fx_add_s(base3.z as int,
            fx_mul_s(fx_mul_s(rim_color.z as int, fresnel), 39322)), shimmer_boost), 49152),
    )
}

/// Alien hologram shader.
pub fn shader_alien(f: &FragmentData, time: i64) -> (c: Color3)
    requires
        frag_wf(*f),
        fx_wf(time),
    ensures
        c == shader_alien_s(*f, time as int),
        color_in_range(c),
{
    proof {
        reveal(shader_alien_s);
    }
    let pos: Vec3 = f.position;
    let normal: Vec3 = f.normal.normalize();
    let pulse_fast: i64 = fx_add(fx_mul(fx_sin(fx_mul(time, 196608)), FX_HALF), FX_HALF);
    let pulse_slow: i64 = fx_add(fx_mul(fx_sin(fx_mul(time, 98304)), FX_HALF), FX_HALF);
    let pulse_shimmer: i64 = fx_add(fx_mul(fx_sin(fx_add(
        fx_mul(time, 327680), fx_mul(pos.x, 655360),
    )), FX_HALF), FX_HALF);
    let stripe_pattern: i64 = fx_abs(fx_mul(
        fx_sin(fx_add(fx_mul(pos.y, 983040), fx_mul(time, 131072))),
        fx_cos(fx_mul(pos.x, 655360)),
    ));
    let stripes: i64 = smoothstep(19661, 45875, stripe_pattern);
    let veins: i64 = fbm_3d(Vec3 {
        x: fx_add(fx_mul(pos.x, 393216), fx_mul(time, 26214)),
        y: fx_mul(pos.y, 393216),
        z: fx_mul(pos.z, 393216),
    }, 3);
    let vein_i: i64 = smoothstep(36045, 49152, veins);
    let spots: i64 = noise_3d(Vec3 {
        x: fx_add(fx_mul(pos.x, 786432), fx_mul(time, 19661)),
        y: fx_mul(pos.y, 786432),
        z: fx_mul(pos.z, 786432),
    });
    let spot_i: i64 = smoothstep(42598, 52429, spots);
    let vivid_purple: Vec3 = Vec3 { x: 45875, y: 6554, z: 58982 };
    let hot_pink: Vec3 = Vec3 { x: 65536, y: 13107, z: 45875 };
    let electric_aqua: Vec3 = Vec3 { x: 6554, y: 58982, z: 58982 };
    let neon_magenta: Vec3 = Vec3 { x: 58982, y: 0, z: 52429 };
    let color_cycle: i64 = fx_add(fx_mul(fx_sin(fx_add(fx_add(
        fx_mul(pos.x, 327680), fx_mul(pos.y, 196608)), time,
    )), FX_HALF), FX_HALF);
    let holographic: Vec3 = if color_cycle < 21627 {
        mix_v3(vivid_purple, hot_pink, fx_mul(color_cycle, 196608))
    } else if color_cycle < 43254 {
        mix_v3(hot_pink, electric_aqua, fx_mul(fx_sub(color_cycle, 21627), 196608))
    } else {
        mix_v3(electric_aqua, vivid_purple, fx_mul(fx_sub(color_cycle, 43254), 196608))
    };
    let base1: Vec3 = mix_v3(Vec3 { x: 5243, y: 1311, z: 9830 }, holographic,
        fx_mul(fx_mul(stripes, pulse_shimmer), 39322));
    let base2: Vec3 = mix_v3(base1, neon_magenta, fx_mul(fx_mul(vein_i, pulse_fast), FX_HALF));
    let base3: Vec3 = mix_v3(base2, electric_aqua, fx_mul(fx_mul(spot_i, pulse_slow), 26214));
    let view: Vec3 = pos.neg().normalize();
    let facing: i64 = normal.dot(&view);
    let facing_pos: i64 = if facing >= 0 { facing } else { 0 };
    let fresnel: i64 = fx_pow_half(fx_clamp(fx_sub(FX_ONE, facing_pos), 0, FX_ONE), 5);
    let rim_color: Vec3 = mix_v3(mix_v3(vivid_purple, hot_pink, pulse_fast), electric_aqua, pulse_slow);
    let shimmer_boost: i64 = fx_mul(pulse_shimmer, 19661);
    clamp_color(
        fx_mul(fx_add(fx_add(base3.x,
            fx_mul(fx_mul(rim_color.x, fresnel), 39322)), shimmer_boost), 49152),
        fx_mul(fx_add(fx_add(base3.y,
            fx_mul(fx_mul(rim_color.y, fresnel), 39322)),
            fx_mul(shimmer_boost, 52429)), 49152),
        fx_mul(fx_add(fx_add(base3.z,
            fx_mul(fx_mul(rim_color.z, fresnel), 39322)), shimmer_boost), 49152),
    )
}

/// The implicit heart curve: ((x^2 + y^2 - 1)^3 - x^2 y^3), zero on the
/// heart's boundary, negative inside.
pub open spec fn heart_sdf_s(x: int, y: int) -> int {
    let x2 = fx_mul_s(x, x);
    let y2 = fx_mul_s(y, y);
    let a = fx_sub_s(fx_add_s(x2, y2), FX_ONE as int);
    fx_sub_s(fx_mul_s(fx_mul_s(a, a), a), fx_mul_s(x2, fx_mul_s(y2, y)))
}

/// The implicit heart curve's signed distance value.
pub fn heart_sdf(x: i64, y: i64) -> (d: i64)
    requires
        fx_wf(x),
        fx_wf(y),
    ensures
        d == heart_sdf_s(x as int, y as int),
        fx_wf(d),
{
    let x2: i64 = fx_mul(x, x);
    let y2: i64 = fx_mul(y, y);
    let a: i64 = fx_sub(fx_add(x2, y2), FX_ONE);
    fx_sub(fx_mul(fx_mul(a, a), a), fx_mul(x2, fx_mul(y2, y)))
}

/// Glow intensity around the heart boundary: 1 exactly on the curve,
/// fading to 0 at the given thickness, smoothed. The thickness is kept at
/// most 1.0 so the full-intensity reading stays sharp: a wider band would
/// let the truncated ratio collapse near-curve values onto it.
pub open spec fn heart_pattern_s(x: int, y: int, thickness: int) -> int {
    let d = heart_sdf_s(x, y);
    let intensity = fx_sub_s(
        FX_ONE as int,
        fx_clamp_s(fx_div_s(fx_abs_s(d), thickness), 0, FX_ONE as int),
    );
    smoothstep_s(0, FX_ONE as int, intensity)
}

/// Glow intensity around the heart boundary.
pub fn heart_pattern(x: i64, y: i64, thickness: i64) -> (r: i64)
    requires
        fx_wf(x),
        fx_wf(y),
        0 < thickness <= FX_ONE,
    ensures
        r == heart_pattern_s(x as int, y as int, thickness as int),
        fx_wf(r),
{
    let d: i64 = heart_sdf(x, y);
    let intensity: i64 = fx_sub(FX_ONE, fx_clamp(fx_div(fx_abs(d), thickness), 0, FX_ONE));
    smoothstep(0, FX_ONE, intensity)
}

/// One expanding, fading heart instance: the pattern at a phase-dependent
/// scale, faded by how far the phase has run.
pub open spec fn heart_wave_s(hx: int, hy: int, phase: int) -> int {
    let scale = fx_add_s(FX_HALF as int, fx_mul_s(phase, 98304));
    fx_mul_s(
        heart_pattern_s(fx_div_s(hx, scale), fx_div_s(hy, scale), 52429),
        fx_sub_s(FX_ONE as int, fx_div_s(phase, 131072)),
    )
}

/// One expanding, fading heart instance.
fn heart_wave(hx: i64, hy: i64, phase: i64) -> (r: i64)
    requires
        fx_wf(hx),
        fx_wf(hy),
        0 <= phase < 131072,
    ensures
        r == heart_wave_s(hx as int, hy as int, phase as int),
        fx_wf(r),
{
    let scale: i64 = fx_add(FX_HALF, fx_mul(phase, 98304));
    fx_mul(
        heart_pattern(fx_div(hx, scale), fx_div(hy, scale), 52429),
        fx_sub(FX_ONE, fx_div(phase, 131072)),
    )
}

/// Solar heart, the emissive star: breathing pulsation, plasma turbulence,
/// hot zones, sparse sparks, three expanding heart-shaped waves, limb
/// flares, a five-zone radial gradient and a pink edge glow, all additive
/// and finally modulated by the breathing pulse. Self-luminous: no external
/// diffuse term.
#[verifier::opaque]
pub open spec fn shader_solar_heart_s(f: FragmentData, time: int) -> Color3 {
    let pos = f.position;
    let normal = vnorm_s(f.normal);
    let pulse_slow = fx_add_s(fx_mul_s(fx_sin_s(time), FX_HALF as int), FX_HALF as int);
    let pulse_fast = fx_add_s(fx_mul_s(fx_sin_s(fx_mul_s(time, 196608)), FX_HALF as int), FX_HALF as int);
    let pulse_heart = fx_add_s(fx_mul_s(fx_sin_s(fx_mul_s(time, 45875)), FX_HALF as int), FX_HALF as int);
    let pulse_combined = fx_add_s(fx_mul_s(pulse_slow, 39322), fx_mul_s(pulse_fast, 26214));
    let turbulence = fbm_s(Vec3 {
        x: fx_add_s(fx_mul_s(pos.x as int, 655360), fx_mul_s(time, 13107)) as i64,
        y: fx_sub_s(fx_mul_s(pos.y as int, 655360), fx_mul_s(time, 9830)) as i64,
        z: fx_add_s(fx_mul_s(pos.z as int, 655360), fx_mul_s(time, 11796)) as i64,
    }, 4);
    let energy_zones = fbm_s(Vec3 {
        x: fx_add_s(fx_mul_s(pos.x as int, 983040), fx_mul_s(time, 22938)) as i64,
        y: fx_mul_s(pos.y as int, 983040) as i64,
        z: fx_sub_s(fx_mul_s(pos.z as int, 983040), fx_mul_s(time, 19661)) as i64,
    }, 5);
    let energy_i = smoothstep_s(36045, 49152, energy_zones);
    let spark_value = hash_s(Vec3 {
        x: fx_add_s(fx_mul_s(pos.x as int, 1310720), fx_mul_s(time, 32768)) as i64,
        y: fx_add_s(fx_mul_s(pos.y as int, 1310720), fx_mul_s(time, 26214)) as i64,
        z: fx_add_s(fx_mul_s(pos.z as int, 1310720), fx_mul_s(time, 29491)) as i64,
    });
    let spark_raw = if spark_value > 64225 {
        fx_div_s(fx_sub_s(spark_value, 64225), 1311)
    } else {
        0
    };
    let spark_i = fx_mul_s(fx_mul_s(smoothstep_s(0, FX_ONE as int, spark_raw), pulse_fast), 39322);
    let radius = vlen_s(pos);
    let hx = fx_mul_s(pos.x as int, 163840);
    let hy = fx_mul_s(pos.y as int, 163840);
    let w1 = fx_mul_s(time, FX_HALF as int) % 131072;
    let w2 = fx_add_s(fx_mul_s(time, FX_HALF as int), 43254) % 131072;
    let w3 = fx_add_s(fx_mul_s(time, FX_HALF as int), 87163) % 131072;
    let heart_i = fx_mul_s(fx_clamp_s(fx_add_s(fx_add_s(
        heart_wave_s(hx, hy, w1), heart_wave_s(hx, hy, w2)), heart_wave_s(hx, hy, w3),
    ), 0, FX_ONE as int), pulse_heart);
    let flare_noise = fbm_s(Vec3 {
        x: fx_add_s(fx_mul_s(pos.x as int, 524288), fx_mul_s(time, 26214)) as i64,
        y: fx_sub_s(fx_mul_s(pos.y as int, 524288), fx_mul_s(time, 19661)) as i64,
        z: fx_add_s(fx_mul_s(pos.z as int, 524288), fx_mul_s(time, 22938)) as i64,
    }, 4);
    let flare_detail = noise3d_s(Vec3 {
        x: fx_add_s(fx_mul_s(pos.x as int, 983040), fx_mul_s(time, 39322)) as i64,
        y: fx_mul_s(pos.y as int, 983040) as i64,
        z: fx_sub_s(fx_mul_s(pos.z as int, 983040), fx_mul_s(time, 32768)) as i64,
    });
    let toward = vdot_s(normal, Vec3 { x: (-pos.x) as i64, y: (-pos.y) as i64, z: (-pos.z) as i64 });
    let nv_dot = fx_div_s(toward, fx_add_s(radius, 66));
    let is_at_edge = fx_sub_s(FX_ONE as int, fx_abs_s(nv_dot));
    let flare_mask = smoothstep_s(36045, 45875, flare_noise);
    let flare_i = fx_clamp_s(fx_mul_s(fx_mul_s(fx_mul_s(
        fx_pow_half_s(fx_clamp_s(is_at_edge, 0, FX_ONE as int), 5), flare_mask),
        fx_add_s(45875, fx_mul_s(flare_detail, 19661))), pulse_fast), 0, FX_ONE as int);
    let flare_color = vlerp_s(
        Vec3 { x: 65536, y: 45875, z: 13107 }, Vec3 { x: 65536, y: 62259, z: 19661 }, flare_detail,
    );
    let core_white = Vec3 { x: 65536, y: 62259, z: 64225 };
    let core_yellow = Vec3 { x: 65536, y: 55706, z: 32768 };
    let middle_orange = Vec3 { x: 65536, y: 29491, z: 22938 };
    let middle_red = Vec3 { x: 62259, y: 16384, z: 22938 };
    let outer_pink = Vec3 { x: 65536, y: 13107, z: 39322 };
    let deep_pink = Vec3 { x: 62259, y: 9830, z: 32768 };
    let base_color = if radius < 19661 {
        vlerp_s(core_yellow, core_white, fx_mul_s(fx_div_s(radius, 19661), pulse_combined))
    } else if radius < 32768 {
        vlerp_s(core_yellow, middle_orange, fx_div_s(fx_sub_s(radius, 19661), 13107))
    } else if radius < 52429 {
        vlerp_s(middle_orange, middle_red, fx_div_s(fx_sub_s(radius, 32768), 19661))
    } else if radius < 65536 {
        vlerp_s(middle_red, outer_pink, fx_div_s(fx_sub_s(radius, 52429), 13107))
    } else {
        vlerp_s(outer_pink, deep_pink, fx_mul_s(
            fx_clamp_s(fx_div_s(fx_sub_s(radius, 65536), 13107), 0, FX_ONE as int), turbulence,
        ))
    };
    let glow = fx_add_s(52429, fx_mul_s(turbulence, 13107));
    let view = vnorm_s(Vec3 { x: (-pos.x) as i64, y: (-pos.y) as i64, z: (-pos.z) as i64 });
    let facing = vdot_s(normal, view);
    let facing_pos = if facing >= 0 {
        facing
    } else {
        0
    };
    let edge_factor = fx_sub_s(FX_ONE as int, facing_pos);
    let edge_glow = fx_mul_s(fx_pow_half_s(fx_clamp_s(edge_factor, 0, FX_ONE as int), 4), 55706);
    let edge_color = vlerp_s(outer_pink, deep_pink, fx_mul_s(edge_factor, FX_HALF as int));
    let heart_boost = fx_mul_s(heart_i, 52429);
    let spark_term = if spark_i > 0 {
        fx_mul_s(spark_i, FX_HALF as int)
    } else {
        0
    };
    let flare_term = if flare_i > 6554 {
        fx_mul_s(flare_i, 78643)
    } else {
        0
    };
    let global = fx_add_s(45875, fx_mul_s(pulse_combined, 19661));
    clamp_color_s(
        fx_mul_s(fx_add_s(fx_add_s(fx_add_s(fx_add_s(fx_add_s(
            fx_mul_s(base_color.x as int, glow),
            fx_mul_s(heart_boost, outer_pink.x as int)),
            fx_mul_s(fx_mul_s(energy_i, 19661), core_yellow.x as int)),
            fx_mul_s(spark_term, 65536)),
            fx_mul_s(edge_glow, edge_color.x as int)),
            fx_mul_s(flare_term, flare_color.x as int)), global),
        fx_mul_s(fx_add_s(fx_add_s(fx_add_s(fx_add_s(fx_add_s(
            fx_mul_s(base_color.y as int, glow),
            fx_mul_s(heart_boost, outer_pink.y as int)),
            fx_mul_s(fx_mul_s(energy_i, 19661), core_yellow.y as int)),
            fx_mul_s(spark_term, 55706)),
            fx_mul_s(edge_glow, edge_color.y as int)),
            fx_mul_s(flare_term, flare_color.y as int)), global),
        fx_mul_s(fx_add_s(fx_add_s(fx_add_s(fx_add_s(fx_add_s(
            fx_mul_s(base_color.z as int, glow),
            fx_mul_s(heart_boost, outer_pink.z as int)),
            fx_mul_s(energy_i, 13107)),
            fx_mul_s(spark_term, 62259)),
            fx_mul_s(edge_glow, edge_color.z as int)),
            fx_mul_s(flare_term, flare_color.z as int)), global),
    )
}

/// Solar heart shader.
#[verifier::rlimit(100)]
pub fn shader_solar_heart(f: &FragmentData, time: i64) -> (c: Color3)
    requires
        frag_wf(*f),
        fx_wf(time),
    ensures
        c == shader_solar_heart_s(*f, time as int),
        color_in_range(c),
{
    proof {
        reveal(shader_solar_heart_s);
    }
    let pos: Vec3 = f.position;
    let normal: Vec3 = f.normal.normalize();
    let pulse_slow: i64 = fx_add(fx_mul(fx_sin(time), FX_HALF), FX_HALF);
    let pulse_fast: i64 = fx_add(fx_mul(fx_sin(fx_mul(time, 196608)), FX_HALF), FX_HALF);
    let pulse_heart: i64 = fx_add(fx_mul(fx_sin(fx_mul(time, 45875)), FX_HALF), FX_HALF);
    let pulse_combined: i64 = fx_add(fx_mul(pulse_slow, 39322), fx_mul(pulse_fast, 26214));
    let turbulence: i64 = fbm_3d(Vec3 {
        x: fx_add(fx_mul(pos.x, 655360), fx_mul(time, 13107)),
        y: fx_sub(fx_mul(pos.y, 655360), fx_mul(time, 9830)),
        z: fx_add(fx_mul(pos.z, 655360), fx_mul(time, 11796)),
    }, 4);
    let energy_zones: i64 = fbm_3d(Vec3 {
        x: fx_add(fx_mul(pos.x, 983040), fx_mul(time, 22938)),
        y: fx_mul(pos.y, 983040),
        z: fx_sub(fx_mul(pos.z, 983040), fx_mul(time, 19661)),
    }, 5);
    let energy_i: i64 = smoothstep(36045, 49152, energy_zones);
    let spark_value: i64 = hash_v3(Vec3 {
        x: fx_add(fx_mul(pos.x, 1310720), fx_mul(time, 32768)),
        y: fx_add(fx_mul(pos.y, 1310720), fx_mul(time, 26214)),
        z: fx_add(fx_mul(pos.z, 1310720), fx_mul(time, 29491)),
    });
    let spark_raw: i64 = if spark_value > 64225 {
        fx_div(fx_sub(spark_value, 64225), 1311)
    } else {
        0
    };
    let spark_i: i64 = fx_mul(fx_mul(smoothstep(0, FX_ONE, spark_raw), pulse_fast), 39322);
    let radius: i64 = pos.length();
    let hx: i64 = fx_mul(pos.x, 163840);
    let hy: i64 = fx_mul(pos.y, 163840);
    let w1: i64 = fx_emod(fx_mul(time, FX_HALF), 131072);
    let w2: i64 = fx_emod(fx_add(fx_mul(time, FX_HALF), 43254), 131072);
    let w3: i64 = fx_emod(fx_add(fx_mul(time, FX_HALF), 87163), 131072);
    let heart_i: i64 = fx_mul(fx_clamp(fx_add(fx_add(
        heart_wave(hx, hy, w1), heart_wave(hx, hy, w2)), heart_wave(hx, hy, w3),
    ), 0, FX_ONE), pulse_heart);
    let flare_noise: i64 = fbm_3d(Vec3 {
        x: fx_add(fx_mul(pos.x, 524288), fx_mul(time, 26214)),
        y: fx_sub(fx_mul(pos.y, 524288), fx_mul(time, 19661)),
        z: fx_add(fx_mul(pos.z, 524288), fx_mul(time, 22938)),
    }, 4);
    let flare_detail: i64 = noise_3d(Vec3 {
        x: fx_add(fx_mul(pos.x, 983040), fx_mul(time, 39322)),
        y: fx_mul(pos.y, 983040),
        z: fx_sub(fx_mul(pos.z, 983040), fx_mul(time, 32768)),
    });
    let toward: i64 = normal.dot(&pos.neg());
    let nv_dot: i64 = fx_div(toward, fx_add(radius, 66));
    let is_at_edge: i64 = fx_sub(FX_ONE, fx_abs(nv_dot));
    let flare_mask: i64 = smoothstep(36045, 45875, flare_noise);
    let flare_i: i64 = fx_clamp(fx_mul(fx_mul(fx_mul(
        fx_pow_half(fx_clamp(is_at_edge, 0, FX_ONE), 5), flare_mask),
        fx_add(45875, fx_mul(flare_detail, 19661))), pulse_fast), 0, FX_ONE);
    let flare_color: Vec3 = mix_v3(
        Vec3 { x: 65536, y: 45875, z: 13107 }, Vec3 { x: 65536, y: 62259, z: 19661 }, flare_detail,
    );
    let core_white: Vec3 = Vec3 { x: 65536, y: 62259, z: 64225 };
    let core_yellow: Vec3 = Vec3 { x: 65536, y: 55706, z: 32768 };
    let middle_orange: Vec3 = Vec3 { x: 65536, y: 29491, z: 22938 };
    let middle_red: Vec3 = Vec3 { x: 62259, y: 16384, z: 22938 };
    let outer_pink: Vec3 = Vec3 { x: 65536, y: 13107, z: 39322 };
    let deep_pink: Vec3 = Vec3 { x: 62259, y: 9830, z: 32768 };
    let base_color: Vec3 = if radius < 19661 {
        mix_v3(core_yellow, core_white, fx_mul(fx_div(radius, 19661), pulse_combined))
    } else if radius < 32768 {
        mix_v3(core_yellow, middle_orange, fx_div(fx_sub(radius, 19661), 13107))
    } else if radius < 52429 {
        mix_v3(middle_orange, middle_red, fx_div(fx_sub(radius, 32768), 19661))
    } else if radius < 65536 {
        mix_v3(middle_red, outer_pink, fx_div(fx_sub(radius, 52429), 13107))
    } else {
        mix_v3(outer_pink, deep_pink, fx_mul(
            fx_clamp(fx_div(fx_sub(radius, 65536), 13107), 0, FX_ONE), turbulence,
        ))
    };
    let glow: i64 = fx_add(52429, fx_mul(turbulence, 13107));
    let view: Vec3 = pos.neg().normalize();
    let facing: i64 = normal.dot(&view);
    let facing_pos: i64 = if facing >= 0 { facing } else { 0 };
    let edge_factor: i64 = fx_sub(FX_ONE, facing_pos);
    let edge_glow: i64 = fx_mul(fx_pow_half(fx_clamp(edge_factor, 0, FX_ONE), 4), 55706);
    let edge_color: Vec3 = mix_v3(outer_pink, deep_pink, fx_mul(edge_factor, FX_HALF));
    let heart_boost: i64 = fx_mul(heart_i, 52429);
    let spark_term: i64 = if spark_i > 0 { fx_mul(spark_i, FX_HALF) } else { 0 };
    let flare_term: i64 = if flare_i > 6554 { fx_mul(flare_i, 78643) } else { 0 };
    let global: i64 = fx_add(45875, fx_mul(pulse_combined, 19661));
    clamp_color(
        fx_mul(fx_add(fx_add(fx_add(fx_add(fx_add(
            fx_mul(base_color.x, glow),
            fx_mul(heart_boost, outer_pink.x)),
            fx_mul(fx_mul(energy_i, 19661), core_yellow.x)),
            fx_mul(spark_term, 65536)),
            fx_mul(edge_glow, edge_color.x)),
            fx_mul(flare_term, flare_color.x)), global),
        fx_mul(fx_add(fx_add(fx_add(fx_add(fx_add(
            fx_mul(base_color.y, glow),
            fx_mul(heart_boost, outer_pink.y)),
            fx_mul(fx_mul(energy_i, 19661), core_yellow.y)),
            fx_mul(spark_term, 55706)),
            fx_mul(edge_glow, edge_color.y)),
            fx_mul(flare_term, flare_color.y)), global),
        fx_mul(fx_add(fx_add(fx_add(fx_add(fx_add(
            fx_mul(base_color.z, glow),
            fx_mul(heart_boost, outer_pink.z)),
            fx_mul(energy_i, 13107)),
            fx_mul(spark_term, 62259)),
            fx_mul(edge_glow, edge_color.z)),
            fx_mul(flare_term, flare_color.z)), global),
    )
}

/// What the fragment stage returns for each material, fragment and time.
pub open spec fn apply_shader_s(st: ShaderType, f: FragmentData, time: int) -> Color3 {
    match st {
        ShaderType::Rocky => shader_rocky_s(f, time),
        ShaderType::GasGiant => shader_gas_giant_s(f, time),
        ShaderType::Lava => shader_lava_s(f, time),
        ShaderType::Ice => shader_ice_s(f, time),
        ShaderType::Alien => shader_alien_s(f, time),
        ShaderType::SolarHeart => shader_solar_heart_s(f, time),
        ShaderType::Rings => shader_rings_s(f, time),
        ShaderType::Moon => shader_moon_s(f, time),
    }
}

/// Dispatch a fragment to its material's shader. Every material returns
/// channels within [0, 1]. The light direction is part of the stage's
/// interface, but the materials use the shared fixed light instead.
pub fn apply_shader(st: ShaderType, f: &FragmentData, time: i64, _light_dir: &Vec3) -> (c: Color3)
    requires
        frag_wf(*f),
        fx_wf(time),
    ensures
        c == apply_shader_s(st, *f, time as int),
        color_in_range(c),
{
    match st {
        ShaderType::Rocky => shader_rocky(f, time),
        ShaderType::GasGiant => shader_gas_giant(f, time),
        ShaderType::Lava => shader_lava(f, time),
        ShaderType::Ice => shader_ice(f, time),
        ShaderType::Alien => shader_alien(f, time),
        ShaderType::SolarHeart => shader_solar_heart(f, time),
        ShaderType::Rings => shader_rings(f, time),
        ShaderType::Moon => shader_moon(f, time),
    }
}

} // verus!
