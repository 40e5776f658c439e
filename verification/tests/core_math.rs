use solar_raster::fx::{
    fx_add, fx_sub, fx_mul, fx_div, fx_sqrt, fx_sin, fx_cos, fx_clamp, fx_emod, fx_fract,
    fx_floor, FX_ONE, FX_HALF, FX_PI, FX_TAU,
};
use solar_raster::vec3::Vec3;
use solar_raster::mat4::Mat4;
use solar_raster::transforms::{create_model_matrix, lerp, clamp, deg_to_rad};

#[test]
fn fixed_point_basics() {
    assert_eq!(fx_add(FX_ONE, FX_ONE), 2 * FX_ONE);
    assert_eq!(fx_sub(FX_ONE, FX_HALF), FX_HALF);
    assert_eq!(fx_mul(2 * FX_ONE, 3 * FX_ONE), 6 * FX_ONE);
    assert_eq!(fx_mul(FX_HALF, FX_HALF), FX_ONE / 4);
    assert_eq!(fx_div(6 * FX_ONE, 2 * FX_ONE), 3 * FX_ONE);
    assert_eq!(fx_mul(-2 * FX_ONE, 3 * FX_ONE), -6 * FX_ONE);
    assert_eq!(fx_sqrt(4 * FX_ONE), 2 * FX_ONE);
    assert_eq!(fx_sqrt(0), 0);
}

#[test]
fn fixed_point_saturates_instead_of_overflowing() {
    let big: i64 = 0x8000_0000;
    assert_eq!(fx_add(big, big), big);
    assert_eq!(fx_sub(-big, big), -big);
    assert_eq!(fx_mul(big, big), big);
}

#[test]
fn fract_and_floor() {
    assert_eq!(fx_fract(3 * FX_ONE + 123), 123);
    assert_eq!(fx_fract(-123), FX_ONE - 123);
    assert_eq!(fx_floor(3 * FX_ONE + 123), 3 * FX_ONE);
    assert_eq!(fx_floor(-123), -FX_ONE);
    assert_eq!(fx_emod(-1, FX_TAU), FX_TAU - 1);
}

#[test]
fn sine_and_cosine_land_in_range_and_hit_landmarks() {
    // The rational approximation peaks one truncation step under 1
    // (the half-turn constant is odd, so its midpoint rounds down).
    assert!(fx_sin(FX_PI / 2) >= FX_ONE - 1);
    assert_eq!(fx_sin(0), 0);
    assert_eq!(fx_sin(FX_PI), 0);
    assert!(fx_sin(FX_PI + FX_PI / 2) <= -(FX_ONE - 1));
    let mut a: i64 = -10 * FX_ONE;
    while a < 10 * FX_ONE {
        assert!(-FX_ONE <= fx_sin(a) && fx_sin(a) <= FX_ONE);
        assert!(-FX_ONE <= fx_cos(a) && fx_cos(a) <= FX_ONE);
        a += 37 * 512;
    }
}

#[test]
fn vector_algebra() {
    let a = Vec3::new(FX_ONE, 2 * FX_ONE, 3 * FX_ONE);
    let b = Vec3::new(4 * FX_ONE, 5 * FX_ONE, 6 * FX_ONE);
    let s = a.add(&b);
    assert_eq!((s.x, s.y, s.z), (5 * FX_ONE, 7 * FX_ONE, 9 * FX_ONE));
    assert_eq!(a.dot(&b), 32 * FX_ONE);
    let c = a.cross(&b);
    assert_eq!((c.x, c.y, c.z), (-3 * FX_ONE, 6 * FX_ONE, -3 * FX_ONE));
    let l = Vec3::new(3 * FX_ONE, 4 * FX_ONE, 0).length();
    assert_eq!(l, 5 * FX_ONE);
}

#[test]
fn normalize_zero_vector_stays_zero() {
    let z = Vec3::zero().normalize();
    assert_eq!((z.x, z.y, z.z), (0, 0, 0));
}

#[test]
fn normalize_idempotence_on_samples() {
    let samples = [
        Vec3::new(3 * FX_ONE, 4 * FX_ONE, 0),
        Vec3::new(FX_ONE, 0, 0),
        Vec3::new(0, -7 * FX_ONE, 0),
        Vec3::new(-5 * FX_ONE, 2 * FX_ONE, 7 * FX_ONE),
    ];
    for v in samples.iter() {
        let once = v.normalize();
        let twice = once.normalize();
        assert_eq!((once.x, once.y, once.z), (twice.x, twice.y, twice.z));
    }
}

#[test]
fn matrix_identity_laws() {
    let id = Mat4::identity();
    let m = create_model_matrix(
        Vec3::new(3 * FX_ONE, -2 * FX_ONE, FX_ONE),
        Vec3::new(FX_HALF, FX_PI / 3, -FX_HALF),
        Vec3::new(FX_ONE, 2 * FX_ONE, FX_HALF),
    );
    let right = m.multiply(&id);
    let left = id.multiply(&m);
    assert_eq!(m, right);
    assert_eq!(m, left);
    let p = Vec3::new(12345, -67890, 424242);
    let tp = id.transform_point(&p);
    assert_eq!((tp.x, tp.y, tp.z), (p.x, p.y, p.z));
    let td = id.transform_direction(&p);
    assert_eq!((td.x, td.y, td.z), (p.x, p.y, p.z));
}

#[test]
fn look_at_degenerate_falls_back_to_identity() {
    let eye = Vec3::new(FX_ONE, FX_ONE, FX_ONE);
    let m = Mat4::look_at(eye, eye, Vec3::new(0, FX_ONE, 0));
    assert_eq!(m, Mat4::identity());
}

#[test]
fn perspective_rejects_degenerate_parameters() {
    // A zero field of view has no tangent to divide by: identity fallback.
    let m = Mat4::perspective(0, FX_ONE, 6554, 100 * FX_ONE);
    assert_eq!(m, Mat4::identity());
    // Equal near and far planes would divide by zero: identity fallback.
    let m2 = Mat4::perspective(FX_PI / 4, FX_ONE, FX_ONE, FX_ONE);
    assert_eq!(m2, Mat4::identity());
}

#[test]
fn translation_moves_points() {
    let t = Mat4::translation(FX_ONE, 2 * FX_ONE, 3 * FX_ONE);
    let p = t.transform_point(&Vec3::zero());
    assert_eq!((p.x, p.y, p.z), (FX_ONE, 2 * FX_ONE, 3 * FX_ONE));
}

#[test]
fn transform_helpers() {
    assert_eq!(lerp(0, FX_ONE, FX_HALF), FX_HALF);
    assert_eq!(clamp(3 * FX_ONE, 0, FX_ONE), FX_ONE);
    assert_eq!(clamp(-FX_ONE, 0, FX_ONE), 0);
    assert_eq!(fx_clamp(FX_HALF, 0, FX_ONE), FX_HALF);
    // 180 degrees is pi radians.
    assert_eq!(deg_to_rad(180 * FX_ONE), FX_PI);
}
