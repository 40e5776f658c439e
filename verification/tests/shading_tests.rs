use solar_raster::fx::{fx_mul, FX_ONE, FX_HALF};
use solar_raster::vec3::Vec3;
use solar_raster::vertex::Color3;
use solar_raster::noise::{hash_v3, noise_3d, fbm_3d, fbm, smoothstep, mix, fract, fract_v3, clamp_color, v3_to_color};
use solar_raster::shaders::{
    apply_shader, shader_rings, heart_sdf, FragmentData, ShaderType, RING_GAP_RADIUS,
};
use solar_raster::fragment::{flat_shader, diffuse_shader, emissive_shader, sun_glow_shader, specular_shader, FragmentOutput};

fn frag(p: Vec3) -> FragmentData {
    FragmentData { position: p.normalize(), normal: p.normalize(), world_pos: p }
}

#[test]
fn hash_is_pure_and_in_range() {
    let p = Vec3::new(12345, -67890, 424242);
    let a = hash_v3(p);
    let b = hash_v3(p);
    assert_eq!(a, b);
    assert!(0 <= a && a < FX_ONE);
    // Different cells hash differently (a sanity spot check, not a law).
    let q = Vec3::new(9 * FX_ONE, 3 * FX_ONE, -2 * FX_ONE);
    assert!(0 <= hash_v3(q) && hash_v3(q) < FX_ONE);
}

#[test]
fn noise_is_pure() {
    let p = Vec3::new(3 * FX_ONE + 777, -2 * FX_ONE + 99, FX_HALF);
    assert_eq!(noise_3d(p), noise_3d(p));
    let q = Vec3::new(-12345, 54321, 8 * FX_ONE);
    assert_eq!(noise_3d(q), noise_3d(q));
}

#[test]
fn single_octave_fbm_is_half_the_noise() {
    let samples = [
        Vec3::new(FX_ONE, 2 * FX_ONE, 3 * FX_ONE),
        Vec3::new(-FX_HALF, FX_HALF, 12345),
        Vec3::new(0, 0, 0),
    ];
    for p in samples.iter() {
        assert_eq!(fbm_3d(*p, 1), fx_mul(FX_HALF, noise_3d(*p)));
    }
    // The two-coordinate form agrees with the 3D form on the z = 0 plane.
    assert_eq!(fbm(123, 456, 3), fbm_3d(Vec3::new(123, 456, 0), 3));
}

#[test]
fn smoothstep_behavior() {
    assert_eq!(smoothstep(0, FX_ONE, -5), 0);
    assert_eq!(smoothstep(0, FX_ONE, 2 * FX_ONE), FX_ONE);
    assert_eq!(smoothstep(0, FX_ONE, FX_HALF), FX_HALF);
    // Degenerate edges clamp instead of dividing by zero.
    assert_eq!(smoothstep(FX_ONE, 0, FX_HALF), FX_HALF);
    assert_eq!(smoothstep(FX_ONE, FX_ONE, 3 * FX_ONE), FX_ONE);
    assert_eq!(mix(0, 2 * FX_ONE, FX_HALF), FX_ONE);
    assert_eq!(fract(3 * FX_ONE + 7), 7);
    let f = fract_v3(Vec3::new(-1, FX_ONE + 5, 0));
    assert_eq!((f.x, f.y, f.z), (FX_ONE - 1, 5, 0));
}

#[test]
fn every_shader_stays_in_unit_range_over_a_sample_grid() {
    let kinds = [
        ShaderType::Rocky,
        ShaderType::GasGiant,
        ShaderType::Lava,
        ShaderType::Ice,
        ShaderType::Alien,
        ShaderType::SolarHeart,
        ShaderType::Rings,
        ShaderType::Moon,
    ];
    let light = Vec3::new(FX_ONE, FX_ONE, 2 * FX_ONE).normalize();
    let coords: [i64; 3] = [-FX_ONE, 13107, FX_ONE];
    let times: [i64; 3] = [0, FX_ONE, 10 * FX_ONE];
    for st in kinds.iter() {
        for &x in coords.iter() {
            for &y in coords.iter() {
                for &t in times.iter() {
                    let p = Vec3::new(x, y, FX_HALF);
                    let f = FragmentData {
                        position: p,
                        normal: p.normalize(),
                        world_pos: p,
                    };
                    let c = apply_shader(*st, &f, t, &light);
                    assert!(0 <= c.r && c.r <= FX_ONE);
                    assert!(0 <= c.g && c.g <= FX_ONE);
                    assert!(0 <= c.b && c.b <= FX_ONE);
                }
            }
        }
    }
}

#[test]
fn shaders_are_deterministic() {
    let p = Vec3::new(13107, -19661, FX_HALF);
    let f = frag(p);
    let light = Vec3::new(FX_ONE, FX_ONE, 2 * FX_ONE);
    for st in [ShaderType::SolarHeart, ShaderType::Lava, ShaderType::Ice] {
        let a = apply_shader(st, &f, 3 * FX_ONE, &light);
        let b = apply_shader(st, &f, 3 * FX_ONE, &light);
        assert_eq!(a, b);
    }
}

#[test]
fn ring_gap_is_darker_than_its_surroundings() {
    // Sample the rings at the configured gap radius and 0.2 units away.
    let gap = frag(Vec3::new(RING_GAP_RADIUS, 0, 0));
    let away_in = frag(Vec3::new(RING_GAP_RADIUS - 13107, 0, 0));
    let away_out = frag(Vec3::new(RING_GAP_RADIUS + 13107, 0, 0));
    let at_gap = shader_rings(&gap, 0);
    let inner = shader_rings(&away_in, 0);
    let outer = shader_rings(&away_out, 0);
    assert!(at_gap.r + at_gap.g + at_gap.b < inner.r + inner.g + inner.b);
    assert!(at_gap.r + at_gap.g + at_gap.b < outer.r + outer.g + outer.b);
    // Brightness never reaches pure white or pure black.
    assert!(at_gap.r > 0 && inner.r < FX_ONE && outer.r < FX_ONE);
}

#[test]
fn heart_curve_sign() {
    // The origin lies inside the heart: negative signed value.
    assert!(heart_sdf(0, 0) < 0);
    // Outside the heart the value is positive.
    assert!(heart_sdf(2 * FX_ONE, 0) > 0);
}

#[test]
fn simple_fragment_shaders() {
    let white = Color3 { r: FX_ONE, g: FX_ONE, b: FX_ONE };
    let o = flat_shader(white);
    assert_eq!(o.color, white);
    assert!(!o.discard);
    let d = FragmentOutput::discard();
    assert!(d.discard);

    let n = Vec3::new(0, 0, FX_ONE);
    // Light along the normal: full diffuse, so intensity is 1.
    let lit = diffuse_shader(white, n, n, 6554);
    assert!(lit.color.r >= 65530);
    // Light opposite the normal: ambient only.
    let dim = diffuse_shader(white, n, Vec3::new(0, 0, -FX_ONE), 6554);
    assert!(dim.color.r <= 6554 + 8);

    let em = emissive_shader(Color3 { r: FX_HALF, g: FX_HALF, b: FX_HALF }, 2 * FX_ONE);
    assert_eq!(em.color.r, FX_ONE);

    let glow = sun_glow_shader(white, n, Vec3::new(FX_ONE, 0, 0));
    assert_eq!(glow.color.r, FX_ONE);

    let spec = specular_shader(white, n, n, n, 6554, 2);
    assert!(spec.color.r == FX_ONE);

    let c = clamp_color(-5, 70000, 300);
    assert_eq!((c.r, c.g, c.b), (0, FX_ONE, 300));
    let vc = v3_to_color(Vec3::new(2 * FX_ONE, -1, 9));
    assert_eq!((vc.r, vc.g, vc.b), (FX_ONE, 0, 9));
}
