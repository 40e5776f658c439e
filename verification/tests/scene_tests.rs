use solar_raster::fx::{FX_ONE, FX_HALF, FX_TAU, FX_PI};
use solar_raster::vec3::Vec3;
use solar_raster::vertex::Color3;
use solar_raster::shapes::{generate_sphere, generate_orbit_points};
use solar_raster::scene::{Orbit, OrbitType, CelestialBody, BodyType, SolarSystem, planet_step};
use solar_raster::shaders::ShaderType;
use solar_raster::camera::Camera;
use solar_raster::collision::{check_sphere_collision, normalize};
use solar_raster::framebuffer::Framebuffer;
use solar_raster::skybox::render_skybox;
use solar_raster::transforms::{Uniforms, vertex_shader};
use solar_raster::vertex::Vertex;
use solar_raster::mat4::Mat4;

#[test]
fn sphere_triangle_count_and_radial_normals() {
    let segments: usize = 8;
    let rings: usize = 8;
    let mesh = generate_sphere(FX_ONE, segments, rings, Color3 { r: FX_ONE, g: FX_ONE, b: FX_ONE });
    // Two triangles per quad, but each pole ring drops one per segment:
    // 2 * segments * (rings - 2) + 2 * segments.
    assert_eq!(mesh.len(), 2 * segments * (rings - 2) + 2 * segments);
    for t in mesh.iter() {
        for v in [&t.a, &t.b, &t.c] {
            let n = v.position.normalize();
            assert_eq!((v.normal.x, v.normal.y, v.normal.z), (n.x, n.y, n.z));
        }
    }
}

#[test]
fn orbit_points_sit_on_the_ecliptic() {
    let points = generate_orbit_points(5 * FX_ONE, 64);
    assert_eq!(points.len(), 64);
    for p in points.iter() {
        assert_eq!(p.y, 0);
    }
    // The first point sits at angle zero: straight out the x axis.
    assert!(points[0].x > 4 * FX_ONE && points[0].z.abs() < 16);
}

#[test]
fn orbit_update_and_position() {
    let mut o = Orbit::circular(5 * FX_ONE, FX_HALF);
    assert_eq!(o.current_angle, 0);
    o.update(2 * FX_ONE);
    assert_eq!(o.current_angle, FX_ONE);
    let p = o.get_position();
    assert_eq!(p.y, 0);
    let tilted = Orbit::circular(5 * FX_ONE, FX_HALF).with_inclination(FX_PI / 4).with_initial_angle(FX_PI / 2);
    let q = tilted.get_position();
    assert!(q.y != 0);
    let path = tilted.generate_orbit_path(16);
    assert_eq!(path.len(), 16);
    let e = Orbit::elliptical(5 * FX_ONE, FX_HALF, FX_HALF);
    assert!(matches!(e.orbit_type, OrbitType::Elliptical { .. }));
    assert!(e.get_orbital_velocity() != 0);
    let c = Orbit::circular(4 * FX_ONE, FX_HALF);
    assert_eq!(c.get_orbital_velocity(), 2 * FX_ONE);
    let d = Orbit::default();
    assert_eq!(d.radius, 0);
}

#[test]
fn orbit_angle_wraps_past_a_full_turn() {
    let mut o = Orbit::circular(FX_ONE, FX_TAU);
    o.update(FX_ONE + 100);
    assert!(o.current_angle <= FX_TAU);
    assert!(o.current_angle >= 0);
}

#[test]
fn celestial_body_update_advances_and_wraps() {
    let mut b = CelestialBody::new_planet(
        "Dust".to_string(), FX_HALF, 3 * FX_ONE, FX_HALF, FX_ONE, ShaderType::Rocky,
    );
    assert!(matches!(b.body_type, BodyType::Planet));
    b.update(FX_ONE);
    assert_eq!(b.orbit_angle, FX_HALF);
    assert_eq!(b.rotation_angle, FX_ONE);
    let p = b.get_position();
    assert_eq!(p.y, 0);
    assert_eq!(p, b.get_world_position());
    let m = b.get_model_matrix();
    // The translation column carries the orbital position.
    assert_eq!(m.m03, p.x);
    assert_eq!(m.m13, p.y);
    assert_eq!(m.m23, p.z);
}

#[test]
fn moons_recenter_on_their_primary() {
    let mut planet = CelestialBody::new_planet(
        "Prime".to_string(), FX_ONE, 4 * FX_ONE, FX_HALF, FX_HALF, ShaderType::Rocky,
    );
    let moon = CelestialBody::new_planet(
        "Pebble".to_string(), FX_HALF / 2, FX_ONE, FX_ONE, FX_HALF, ShaderType::Moon,
    );
    planet.add_moon(moon);
    planet.update(FX_ONE);
    let pos = planet.get_position();
    assert_eq!(planet.satellites.len(), 1);
    let m = &planet.satellites[0];
    assert_eq!((m.orbit_center.x, m.orbit_center.y, m.orbit_center.z), (pos.x, pos.y, pos.z));
    assert_eq!(m.orbit_angle, FX_ONE);
}

#[test]
fn star_builder_marks_emissive() {
    let s = CelestialBody::new_star("Ember".to_string(), 2 * FX_ONE, ShaderType::SolarHeart);
    assert!(s.is_emissive);
    assert!(matches!(s.body_type, BodyType::Star));
    assert_eq!(s.orbit_radius, 0);
}

#[test]
fn solar_system_holds_six_bodies() {
    let mut sys = SolarSystem::new();
    assert_eq!(sys.body_count(), 6);
    assert!(sys.get_body(0).unwrap().is_emissive);
    assert!(sys.get_body(6).is_none());
    assert_eq!(sys.orbit_points.len(), 6);
    assert_eq!(sys.orbit_points[0].len(), 0);
    assert_eq!(sys.orbit_points[1].len(), 64);
    // The sun stays centered while the planets wander.
    let sun_before = sys.get_body_position(0);
    sys.update(FX_HALF);
    let sun_after = sys.get_body_position(0);
    assert_eq!(sun_before, sun_after);
    assert_eq!(sys.body_count(), 6);
    // Out-of-range positions default to the origin.
    let far = sys.get_body_position(99);
    assert_eq!((far.x, far.y, far.z), (0, 0, 0));
    // Lookup by name finds the star and rejects unknown names.
    let sol = sys.get_body_by_name(&"Sol".to_string()).unwrap();
    assert!(sol.is_emissive);
    assert!(sys.get_body_by_name(&"Vulcan".to_string()).is_none());
}

#[test]
fn planet_step_is_deterministic_and_wraps() {
    let a = planet_step(3, 4 * FX_ONE, FX_HALF, FX_ONE, 0, 0, FX_ONE);
    let b = planet_step(3, 4 * FX_ONE, FX_HALF, FX_ONE, 0, 0, FX_ONE);
    assert_eq!(a, b);
    assert_eq!(a.index, 3);
    assert_eq!(a.orbit_angle, FX_HALF);
    assert_eq!(a.rotation_angle, FX_ONE);
    assert_eq!(a.position.y, 0);
    let wrapped = planet_step(0, FX_ONE, FX_TAU, 0, FX_ONE, 0, FX_ONE);
    assert!(wrapped.orbit_angle <= FX_TAU + FX_ONE);
}

#[test]
fn camera_motions() {
    let mut cam = Camera::new(FX_ONE);
    assert_eq!(cam.distance_from_target, 20 * FX_ONE);
    cam.set_distance(FX_ONE);
    assert_eq!(cam.distance_from_target, 5 * FX_ONE);
    cam.set_distance(500 * FX_ONE);
    assert_eq!(cam.distance_from_target, 100 * FX_ONE);
    cam.look_at_target(Vec3::new(FX_ONE, 0, 0));
    assert_eq!(cam.target.x, FX_ONE);
    // Orbiting keeps the target fixed.
    let t = cam.target;
    cam.rotate(FX_HALF);
    assert_eq!(cam.target, t);
    let view = cam.view_matrix();
    let proj = cam.projection_matrix();
    let vp = cam.view_projection_matrix();
    assert_eq!(vp, proj.multiply(&view));
    cam.move_forward(FX_ONE);
    cam.move_right(FX_ONE);
}

#[test]
fn sphere_collision() {
    let a = Vec3::new(0, 0, 0);
    let b = Vec3::new(3 * FX_ONE, 0, 0);
    assert!(check_sphere_collision(a, 2 * FX_ONE, b, 2 * FX_ONE));
    assert!(!check_sphere_collision(a, FX_ONE, b, FX_ONE));
    let n = normalize(Vec3::new(10 * FX_ONE, 0, 0));
    assert_eq!((n.x, n.y, n.z), (FX_ONE, 0, 0));
}

#[test]
fn skybox_writes_color_but_never_depth() {
    let mut fb = Framebuffer::new(32, 32);
    fb.clear();
    let depths_before: Vec<i64> = fb.zbuffer.clone();
    render_skybox(&mut fb, 3 * FX_ONE);
    for i in 0..fb.zbuffer.len() {
        assert_eq!(fb.zbuffer[i], depths_before[i]);
    }
    // The sky is never pure black: the gradient starts above zero.
    let c = fb.buffer[0];
    assert!(c & 0xFF_FFFF != 0);
    // Deterministic: a second pass writes identical pixels.
    let first: Vec<u32> = fb.buffer.clone();
    render_skybox(&mut fb, 3 * FX_ONE);
    for i in 0..fb.buffer.len() {
        assert_eq!(fb.buffer[i], first[i]);
    }
}

#[test]
fn vertex_stage_flattens_rings_and_keeps_local_position() {
    let u = Uniforms {
        model_matrix: Mat4::identity(),
        view_matrix: Mat4::identity(),
        projection_matrix: Mat4::identity(),
        viewport_matrix: Mat4::identity(),
        time: 0,
        shader_type: ShaderType::Rings,
    };
    let v = Vertex::new(
        Vec3::new(FX_ONE, FX_ONE, 0),
        Vec3::new(0, FX_ONE, 0),
        Color3 { r: FX_ONE, g: FX_ONE, b: FX_ONE },
    );
    let t = vertex_shader(&v, &u);
    // The local position is carried through untouched.
    assert_eq!(t.local, v.position);
    // The ring deformation squashes y far below the widened x.
    assert!(t.screen.y < t.screen.x / 4);
    let plain = Uniforms { shader_type: ShaderType::Rocky, ..u };
    let t2 = vertex_shader(&v, &plain);
    assert_eq!((t2.screen.x, t2.screen.y, t2.screen.z), (v.position.x, v.position.y, v.position.z));
}
