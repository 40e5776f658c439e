//! Scene composition: orbits, celestial bodies and the solar system.

use vstd::prelude::*;
use crate::fx::{
    fx_wf, fx_add_s, fx_sub_s, fx_mul_s, fx_div_s, fx_sin_s, fx_cos_s,
    fx_add, fx_sub, fx_mul, fx_div, fx_sin, fx_cos, fx_emod, FX_ONE, FX_TAU, FX_SCALE,
};
use crate::vec3::{Vec3, v_wf, vadd_s};
use crate::vertex::{Color3, color_wf};
use crate::mat4::{Mat4, m_wf, mat_mul_s, mat_id_s};
use crate::shaders::ShaderType;
use crate::shapes::{MeshTriangle, mesh_tri_wf, tri_normals_radial, generate_sphere, generate_orbit_points};

verus! {

broadcast use vstd::string::to_string_from_display_ensures_for_str;

/// The supported orbit shapes.
#[derive(Clone, Copy, Debug, PartialEq, Eq, Structural)]
pub enum OrbitType {
    Circular,
    Elliptical { eccentricity: i64 },
}

/// A planetary orbit: shape, size, angular speed, inclination from the
/// ecliptic, and the current angle along the path.
#[derive(Clone, Copy, Debug, PartialEq, Eq, Structural)]
pub struct Orbit {
    pub orbit_type: OrbitType,
    pub radius: i64,
    pub speed: i64,
    pub inclination: i64,
    pub current_angle: i64,
}

/// All scalars of the orbit are well formed.
pub open spec fn orbit_wf(o: Orbit) -> bool {
    fx_wf(o.radius) && fx_wf(o.speed) && fx_wf(o.inclination) && fx_wf(o.current_angle)
        && (o.orbit_type matches OrbitType::Elliptical { eccentricity } ==> fx_wf(eccentricity))
}

/// The in-plane orbital distance at an angle: the radius for circles, the
/// conic-section formula a(1 - e^2) / (1 + e cos angle) for ellipses, with
/// the radius as the fallback where the denominator degenerates to zero.
pub open spec fn orbit_r_s(o: Orbit, angle: int) -> int {
    match o.orbit_type {
        OrbitType::Circular => o.radius as int,
        OrbitType::Elliptical { eccentricity } => {
            let denom = fx_add_s(FX_ONE as int, fx_mul_s(eccentricity as int, fx_cos_s(angle)));
            if denom == 0 {
                o.radius as int
            } else {
                fx_div_s(
                    fx_mul_s(o.radius as int, fx_sub_s(FX_ONE as int, fx_mul_s(eccentricity as int, eccentricity as int))),
                    denom,
                )
            }
        },
    }
}

/// Where an orbit places its body at an angle, with inclination applied.
pub open spec fn orbit_pos_s(o: Orbit, angle: int) -> Vec3 {
    let r = orbit_r_s(o, angle);
    let x = fx_mul_s(r, fx_cos_s(angle));
    let z = fx_mul_s(r, fx_sin_s(angle));
    Vec3 {
        x: x as i64,
        y: fx_mul_s(z, fx_sin_s(o.inclination as int)) as i64,
        z: fx_mul_s(z, fx_cos_s(o.inclination as int)) as i64,
    }
}

impl Orbit {
    /// A circular orbit in the ecliptic plane.
    pub fn circular(radius: i64, speed: i64) -> (o: Orbit)
        ensures
            o == (Orbit { orbit_type: OrbitType::Circular, radius, speed, inclination: 0, current_angle: 0 }),
    {
        Orbit { orbit_type: OrbitType::Circular, radius, speed, inclination: 0, current_angle: 0 }
    }

    /// An elliptical orbit with the given eccentricity.
    pub fn elliptical(radius: i64, eccentricity: i64, speed: i64) -> (o: Orbit)
        ensures
            o == (Orbit {
                orbit_type: OrbitType::Elliptical { eccentricity },
                radius, speed, inclination: 0, current_angle: 0,
            }),
    {
        Orbit {
            orbit_type: OrbitType::Elliptical { eccentricity },
            radius, speed, inclination: 0, current_angle: 0,
        }
    }

    /// The same orbit tilted from the ecliptic plane.
    pub fn with_inclination(self, inclination: i64) -> (o: Orbit)
        ensures
            o == (Orbit { inclination, ..self }),
    {
        Orbit { inclination, ..self }
    }

    /// The same orbit started from the given angle.
    pub fn with_initial_angle(self, angle: i64) -> (o: Orbit)
        ensures
            o == (Orbit { current_angle: angle, ..self }),
    {
        Orbit { current_angle: angle, ..self }
    }

    /// Advance the orbit by its angular speed over the elapsed time; the
    /// angle wraps once past a full turn.
    pub fn update(&mut self, delta_time: i64)
        requires
            orbit_wf(*old(self)),
            fx_wf(delta_time),
        ensures
            ({
                let advanced = fx_add_s(old(self).current_angle as int, fx_mul_s(old(self).speed as int, delta_time as int));
                final(self).current_angle == (if advanced > FX_TAU {
                    fx_sub_s(advanced, FX_TAU as int)
                } else {
                    advanced
                })
            }),
            final(self).orbit_type == old(self).orbit_type,
            final(self).radius == old(self).radius,
            final(self).speed == old(self).speed,
            final(self).inclination == old(self).inclination,
            orbit_wf(*final(self)),
    {
        let advanced: i64 = fx_add(self.current_angle, fx_mul(self.speed, delta_time));
        self.current_angle = if advanced > FX_TAU { fx_sub(advanced, FX_TAU) } else { advanced };
    }

    /// The body's current position on the orbit.
    pub fn get_position(&self) -> (p: Vec3)
        requires
            orbit_wf(*self),
        ensures
            p == orbit_pos_s(*self, self.current_angle as int),
            v_wf(p),
    {
        self.position_at(self.current_angle)
    }

    /// The position the orbit would place its body at a given angle.
    pub fn position_at(&self, angle: i64) -> (p: Vec3)
        requires
            orbit_wf(*self),
            fx_wf(angle),
        ensures
            p == orbit_pos_s(*self, angle as int),
            v_wf(p),
    {
        let r: i64 = match self.orbit_type {
            OrbitType::Circular => self.radius,
            OrbitType::Elliptical { eccentricity } => {
                let denom: i64 = fx_add(FX_ONE, fx_mul(eccentricity, fx_cos(angle)));
                if denom == 0 {
                    self.radius
                } else {
                    fx_div(fx_mul(self.radius, fx_sub(FX_ONE, fx_mul(eccentricity, eccentricity))), denom)
                }
            },
        };
        let x: i64 = fx_mul(r, fx_cos(angle));
        let z: i64 = fx_mul(r, fx_sin(angle));
        Vec3 {
            x,
            y: fx_mul(z, fx_sin(self.inclination)),
            z: fx_mul(z, fx_cos(self.inclination)),
        }
    }

    /// Evenly spaced points along the whole orbital path.
    pub fn generate_orbit_path(&self, segments: usize) -> (points: Vec<Vec3>)
        requires
            orbit_wf(*self),
            1 <= segments <= 4096,
        ensures
            points@.len() == segments,
            forall|i: int| 0 <= i < segments ==> #[trigger] points@[i] == orbit_pos_s(
                *self,
                fx_div_s(fx_mul_s(FX_TAU as int, i * FX_SCALE), segments * FX_SCALE),
            ),
            forall|i: int| 0 <= i < segments ==> v_wf(#[trigger] points@[i]),
    {
        let mut points: Vec<Vec3> = Vec::new();
        let mut i: usize = 0;
        while i < segments
            invariant
                0 <= i <= segments,
                segments <= 4096,
                orbit_wf(*self),
                points@.len() == i,
                forall|j: int| 0 <= j < i ==> #[trigger] points@[j] == orbit_pos_s(
                    *self,
                    fx_div_s(fx_mul_s(FX_TAU as int, j * FX_SCALE), segments * FX_SCALE),
                ),
                forall|j: int| 0 <= j < i ==> v_wf(#[trigger] points@[j]),
            decreases segments - i,
        {
            let angle: i64 = fx_div(fx_mul(FX_TAU, (i as i64) * FX_SCALE), (segments as i64) * FX_SCALE);
            points.push(self.position_at(angle));
            i = i + 1;
        }
        points
    }

    /// The instantaneous orbital speed: constant on circles, and faster
    /// near the focus on ellipses (speed * a^2 / r).
    pub fn get_orbital_velocity(&self) -> (v: i64)
        requires
            orbit_wf(*self),
        ensures
            v == (match self.orbit_type {
                OrbitType::Circular => fx_mul_s(self.speed as int, self.radius as int),
                OrbitType::Elliptical { eccentricity } => {
                    let r = orbit_r_s(*self, self.current_angle as int);
                    if r == 0 {
                        fx_mul_s(self.speed as int, self.radius as int)
                    } else {
                        fx_div_s(fx_mul_s(fx_mul_s(self.speed as int, self.radius as int), self.radius as int), r)
                    }
                },
            }),
            fx_wf(v),
    {
        match self.orbit_type {
            OrbitType::Circular => fx_mul(self.speed, self.radius),
            OrbitType::Elliptical { eccentricity } => {
                let denom: i64 = fx_add(FX_ONE, fx_mul(eccentricity, fx_cos(self.current_angle)));
                let r: i64 = if denom == 0 {
                    self.radius
                } else {
                    fx_div(fx_mul(self.radius, fx_sub(FX_ONE, fx_mul(eccentricity, eccentricity))), denom)
                };
                if r == 0 {
                    fx_mul(self.speed, self.radius)
                } else {
                    fx_div(fx_mul(fx_mul(self.speed, self.radius), self.radius), r)
                }
            },
        }
    }
}

impl Default for Orbit {
    /// The null orbit of a body that stays at the center.
    fn default() -> (o: Orbit)
        ensures
            o == (Orbit { orbit_type: OrbitType::Circular, radius: 0, speed: 0, inclination: 0, current_angle: 0 }),
    {
        Orbit { orbit_type: OrbitType::Circular, radius: 0, speed: 0, inclination: 0, current_angle: 0 }
    }
}

/// The kinds of celestial bodies.
#[derive(Clone, Copy, Debug, PartialEq, Eq, Structural)]
pub enum BodyType {
    Star,
    Planet,
    Moon,
}

/// A celestial body: its physical and orbital state, its material, its
/// generated sphere mesh, and the moons orbiting it.
pub struct CelestialBody {
    pub name: String,
    pub body_type: BodyType,
    pub radius: i64,
    pub color: Color3,
    pub orbit_radius: i64,
    pub orbit_speed: i64,
    pub rotation_speed: i64,
    pub orbit_angle: i64,
    pub rotation_angle: i64,
    pub orbit_center: Vec3,
    pub is_emissive: bool,
    pub shader_type: ShaderType,
    pub mesh: Vec<MeshTriangle>,
    pub satellites: Vec<CelestialBody>,
    pub has_rings: bool,
    pub ring_inner_radius: i64,
    pub ring_outer_radius: i64,
}

/// The body's own scalars and mesh are well formed (satellites are checked
/// where they are used).
pub open spec fn body_wf(b: CelestialBody) -> bool {
    fx_wf(b.radius) && color_wf(b.color) && fx_wf(b.orbit_radius) && fx_wf(b.orbit_speed)
        && fx_wf(b.rotation_speed) && fx_wf(b.orbit_angle) && fx_wf(b.rotation_angle)
        && v_wf(b.orbit_center) && fx_wf(b.ring_inner_radius) && fx_wf(b.ring_outer_radius)
        && (forall|j: int| 0 <= j < b.mesh@.len() ==> mesh_tri_wf(#[trigger] b.mesh@[j]))
}

/// Where the body currently stands: its orbit center plus its circular
/// offset in the ecliptic plane.
pub open spec fn body_position_s(b: CelestialBody) -> Vec3 {
    vadd_s(b.orbit_center, Vec3 {
        x: fx_mul_s(b.orbit_radius as int, fx_cos_s(b.orbit_angle as int)) as i64,
        y: 0,
        z: fx_mul_s(b.orbit_radius as int, fx_sin_s(b.orbit_angle as int)) as i64,
    })
}

/// An angle advanced by speed * delta and wrapped into [0, a full turn).
pub open spec fn advance_angle_s(angle: int, speed: int, delta: int) -> int {
    fx_add_s(angle, fx_mul_s(speed, delta)) % (FX_TAU as int)
}

/// A satellite after one update step: recentered on its primary and with
/// both of its angles advanced and wrapped.
pub open spec fn sat_stepped_s(s: CelestialBody, delta: int, center: Vec3) -> CelestialBody {
    CelestialBody {
        orbit_center: center,
        orbit_angle: advance_angle_s(s.orbit_angle as int, s.orbit_speed as int, delta) as i64,
        rotation_angle: advance_angle_s(s.rotation_angle as int, s.rotation_speed as int, delta) as i64,
        ..s
    }
}

/// How a body changes in one update step: both of its angles advance and
/// wrap, each satellite is recentered on the body's new position with its
/// own angles advanced, and everything else stays.
pub open spec fn is_updated_body(o: CelestialBody, n: CelestialBody, delta: int) -> bool {
    let oa = advance_angle_s(o.orbit_angle as int, o.orbit_speed as int, delta);
    let ra = advance_angle_s(o.rotation_angle as int, o.rotation_speed as int, delta);
    let pos = body_position_s(CelestialBody { orbit_angle: oa as i64, ..o });
    n.name == o.name && n.body_type == o.body_type && n.radius == o.radius && n.color == o.color
        && n.orbit_radius == o.orbit_radius && n.orbit_speed == o.orbit_speed
        && n.rotation_speed == o.rotation_speed && n.orbit_center == o.orbit_center
        && n.is_emissive == o.is_emissive && n.shader_type == o.shader_type && n.mesh == o.mesh
        && n.has_rings == o.has_rings && n.ring_inner_radius == o.ring_inner_radius
        && n.ring_outer_radius == o.ring_outer_radius
        && n.orbit_angle == oa && n.rotation_angle == ra
        && n.satellites@.len() == o.satellites@.len()
        && (forall|j: int| 0 <= j < o.satellites@.len()
            ==> n.satellites@[j] == sat_stepped_s(#[trigger] o.satellites@[j], delta, pos))
}

/// Sphere tessellation detail for a body of the given radius: finer for
/// large bodies.
pub open spec fn detail_s(radius: int) -> int {
    if radius > 98304 {
        24
    } else {
        16
    }
}

impl CelestialBody {
    /// A fully specified body with a generated sphere mesh.
    pub fn new(
        name: String, radius: i64, color: Color3, orbit_radius: i64, orbit_speed: i64,
        rotation_speed: i64, is_emissive: bool, shader_type: ShaderType,
    ) -> (b: CelestialBody)
        requires
            fx_wf(radius),
            color_wf(color),
            fx_wf(orbit_radius),
            fx_wf(orbit_speed),
            fx_wf(rotation_speed),
        ensures
            b.name == name && b.radius == radius && b.color == color,
            b.orbit_radius == orbit_radius && b.orbit_speed == orbit_speed,
            b.rotation_speed == rotation_speed,
            b.orbit_angle == 0 && b.rotation_angle == 0,
            b.orbit_center == (Vec3 { x: 0, y: 0, z: 0 }),
            b.is_emissive == is_emissive && b.shader_type == shader_type,
            b.body_type == (if is_emissive { BodyType::Star } else { BodyType::Planet }),
            b.mesh@.len() == 2 * detail_s(radius as int) * (detail_s(radius as int) - 1),
            forall|j: int| 0 <= j < b.mesh@.len() ==> tri_normals_radial(#[trigger] b.mesh@[j]),
            b.satellites@.len() == 0,
            !b.has_rings && b.ring_inner_radius == 0 && b.ring_outer_radius == 0,
            body_wf(b),
    {
        let detail: usize = if radius > 98304 { 24 } else { 16 };
        let mesh: Vec<MeshTriangle> = generate_sphere(radius, detail, detail, color);
        CelestialBody {
            name,
            body_type: if is_emissive { BodyType::Star } else { BodyType::Planet },
            radius,
            color,
            orbit_radius,
            orbit_speed,
            rotation_speed,
            orbit_angle: 0,
            rotation_angle: 0,
            orbit_center: Vec3 { x: 0, y: 0, z: 0 },
            is_emissive,
            shader_type,
            mesh,
            satellites: Vec::new(),
            has_rings: false,
            ring_inner_radius: 0,
            ring_outer_radius: 0,
        }
    }

    /// A star: emissive, centered, slowly rotating.
    pub fn new_star(name: String, radius: i64, shader: ShaderType) -> (b: CelestialBody)
        requires
            fx_wf(radius),
        ensures
            b.body_type == BodyType::Star && b.is_emissive,
            b.name == name && b.radius == radius && b.shader_type == shader,
            b.orbit_radius == 0 && b.orbit_speed == 0 && b.rotation_speed == 6554,
            b.orbit_angle == 0 && b.rotation_angle == 0,
            b.satellites@.len() == 0,
            body_wf(b),
    {
        CelestialBody::new(
            name, radius, Color3 { r: FX_ONE, g: 58982, b: 19661 }, 0, 0, 6554, true, shader,
        )
    }

    /// A planet on a circular orbit.
    pub fn new_planet(
        name: String, radius: i64, orbit_radius: i64, orbit_speed: i64, rotation_speed: i64,
        shader: ShaderType,
    ) -> (b: CelestialBody)
        requires
            fx_wf(radius),
            fx_wf(orbit_radius),
            fx_wf(orbit_speed),
            fx_wf(rotation_speed),
        ensures
            b.body_type == BodyType::Planet && !b.is_emissive,
            b.name == name && b.radius == radius && b.shader_type == shader,
            b.orbit_radius == orbit_radius && b.orbit_speed == orbit_speed,
            b.rotation_speed == rotation_speed,
            b.orbit_angle == 0 && b.rotation_angle == 0,
            b.satellites@.len() == 0,
            body_wf(b),
    {
        CelestialBody::new(
            name, radius, Color3 { r: 45875, g: 45875, b: 45875 }, orbit_radius, orbit_speed,
            rotation_speed, false, shader,
        )
    }

    /// Attach a moon to this body.
    pub fn add_moon(&mut self, moon: CelestialBody)
        ensures
            final(self).satellites@ == old(self).satellites@.push(moon),
            final(self).name == old(self).name,
            final(self).orbit_angle == old(self).orbit_angle,
            final(self).rotation_angle == old(self).rotation_angle,
            final(self).mesh == old(self).mesh,
    {
        self.satellites.push(moon);
    }

    /// One update step: advance and wrap both angles, then recenter every
    /// satellite on this body's new position and advance its angles.
    #[verifier::loop_isolation(false)]
    pub fn update(&mut self, delta_time: i64)
        requires
            body_wf(*old(self)),
            fx_wf(delta_time),
            forall|j: int| 0 <= j < old(self).satellites@.len()
                ==> body_wf(#[trigger] old(self).satellites@[j]),
        ensures
            is_updated_body(*old(self), *final(self), delta_time as int),
            body_wf(*final(self)),
    {
        self.orbit_angle = fx_emod(fx_add(self.orbit_angle, fx_mul(self.orbit_speed, delta_time)), FX_TAU);
        self.rotation_angle = fx_emod(fx_add(self.rotation_angle, fx_mul(self.rotation_speed, delta_time)), FX_TAU);
        let pos: Vec3 = self.get_position();
        let ghost orig = self.satellites@;
        let ghost pre = *self;
        let mut updated: Vec<CelestialBody> = Vec::new();
        while self.satellites.len() > 0
            invariant
                self.name == pre.name,
                self.body_type == pre.body_type,
                self.radius == pre.radius,
                self.color == pre.color,
                self.orbit_radius == pre.orbit_radius,
                self.orbit_speed == pre.orbit_speed,
                self.rotation_speed == pre.rotation_speed,
                self.orbit_angle == pre.orbit_angle,
                self.rotation_angle == pre.rotation_angle,
                self.orbit_center == pre.orbit_center,
                self.is_emissive == pre.is_emissive,
                self.shader_type == pre.shader_type,
                self.mesh == pre.mesh,
                self.has_rings == pre.has_rings,
                self.ring_inner_radius == pre.ring_inner_radius,
                self.ring_outer_radius == pre.ring_outer_radius,
                updated@.len() + self.satellites@.len() == orig.len(),
                forall|j: int| 0 <= j < self.satellites@.len()
                    ==> self.satellites@[j] == orig[updated@.len() + j],
                forall|j: int| 0 <= j < updated@.len()
                    ==> updated@[j] == sat_stepped_s(#[trigger] orig[j], delta_time as int, pos),
                forall|j: int| 0 <= j < orig.len() ==> body_wf(#[trigger] orig[j]),
                fx_wf(delta_time),
                v_wf(pos),
            decreases self.satellites@.len(),
        {
            let mut s: CelestialBody = self.satellites.remove(0);
            s.orbit_center = pos;
            s.orbit_angle = fx_emod(fx_add(s.orbit_angle, fx_mul(s.orbit_speed, delta_time)), FX_TAU);
            s.rotation_angle = fx_emod(fx_add(s.rotation_angle, fx_mul(s.rotation_speed, delta_time)), FX_TAU);
            updated.push(s);
        }
        self.satellites = updated;
    }

    /// The body's current world position.
    pub fn get_position(&self) -> (p: Vec3)
        requires
            body_wf(*self),
        ensures
            p == body_position_s(*self),
            v_wf(p),
    {
        let offset: Vec3 = Vec3 {
            x: fx_mul(self.orbit_radius, fx_cos(self.orbit_angle)),
            y: 0,
            z: fx_mul(self.orbit_radius, fx_sin(self.orbit_angle)),
        };
        self.orbit_center.add(&offset)
    }

    /// The body's current world position (alias kept for callers that
    /// distinguish local from world space).
    pub fn get_world_position(&self) -> (p: Vec3)
        requires
            body_wf(*self),
        ensures
            p == body_position_s(*self),
            v_wf(p),
    {
        self.get_position()
    }

    /// The model matrix: translate to the orbital position and spin about
    /// the Y axis by the rotation angle.
    pub fn get_model_matrix(&self) -> (m: Mat4)
        requires
            body_wf(*self),
        ensures
            m == mat_mul_s(
                Mat4 {
                    m03: body_position_s(*self).x,
                    m13: body_position_s(*self).y,
                    m23: body_position_s(*self).z,
                    ..mat_id_s()
                },
                Mat4 {
                    m00: fx_cos_s(self.rotation_angle as int) as i64,
                    m02: fx_sin_s(self.rotation_angle as int) as i64,
                    m20: (-fx_sin_s(self.rotation_angle as int)) as i64,
                    m22: fx_cos_s(self.rotation_angle as int) as i64,
                    ..mat_id_s()
                },
            ),
            m_wf(m),
    {
        let position: Vec3 = self.get_position();
        let translation: Mat4 = Mat4::translation(position.x, position.y, position.z);
        let rotation: Mat4 = Mat4::rotation_y(self.rotation_angle);
        translation.multiply(&rotation)
    }
}

/// Relies on rand::random: a uniformly drawn 64-bit value from the thread's
/// generator. Nothing is promised of the value; callers must hold for every
/// outcome.
#[verifier::external_body]
fn random_u64() -> u64 {
    rand::random()
}

/// A random initial orbital phase in [0, a full turn). Confined to scene
/// setup: the rendering pipeline itself never draws randomness.
fn random_angle() -> (a: i64)
    ensures
        0 <= a < FX_TAU,
{
    let v: u64 = random_u64();
    let bounded: i64 = (v % 0x1000_0000) as i64;
    fx_emod(bounded, FX_TAU)
}

/// Every body of the system, and every body's satellites, are well formed.
pub open spec fn system_wf(bodies: Seq<CelestialBody>) -> bool {
    forall|i: int| 0 <= i < bodies.len() ==> body_wf(#[trigger] bodies[i])
        && (forall|j: int| 0 <= j < bodies[i].satellites@.len()
            ==> body_wf(#[trigger] bodies[i].satellites@[j]))
}

/// The sun and five planets, with their orbit paths for drawing.
pub struct SolarSystem {
    pub bodies: Vec<CelestialBody>,
    pub orbit_points: Vec<Vec<Vec3>>,
    pub orbit_lines_enabled: bool,
}

impl SolarSystem {
    /// The canonical scene: a central emissive star and five planets on
    /// circular orbits, each planet starting at a random phase. Randomness
    /// is confined to this setup; every later update is deterministic.
    pub fn new() -> (s: SolarSystem)
        ensures
            s.bodies@.len() == 6,
            s.orbit_points@.len() == 6,
            system_wf(s.bodies@),
            s.bodies@[0].is_emissive && s.bodies@[0].shader_type == ShaderType::SolarHeart
                && s.bodies@[0].orbit_radius == 0 && s.bodies@[0].orbit_angle == 0
                && s.bodies@[0].radius == 163840,
            s.bodies@[1].shader_type == ShaderType::Lava && s.bodies@[1].radius == 26214
                && s.bodies@[1].orbit_radius == 327680,
            s.bodies@[2].shader_type == ShaderType::Rocky && s.bodies@[2].radius == 52429
                && s.bodies@[2].orbit_radius == 524288,
            s.bodies@[3].shader_type == ShaderType::Alien && s.bodies@[3].radius == 39322
                && s.bodies@[3].orbit_radius == 786432,
            s.bodies@[4].shader_type == ShaderType::GasGiant && s.bodies@[4].radius == 98304
                && s.bodies@[4].orbit_radius == 1179648,
            s.bodies@[5].shader_type == ShaderType::Ice && s.bodies@[5].radius == 65536
                && s.bodies@[5].orbit_radius == 1638400,
            forall|i: int| 1 <= i < 6 ==> !(#[trigger] s.bodies@[i]).is_emissive
                && 0 <= s.bodies@[i].orbit_angle < FX_TAU,
            s.orbit_points@[0]@.len() == 0,
            forall|i: int| 1 <= i < 6 ==> (#[trigger] s.orbit_points@[i])@.len() == 64,
            s.orbit_lines_enabled,
    {
        let mut bodies: Vec<CelestialBody> = Vec::new();
        let sun: CelestialBody = CelestialBody::new(
            "Sol".to_string(), 163840, Color3 { r: FX_ONE, g: 58982, b: 19661 },
            0, 0, 6554, true, ShaderType::SolarHeart,
        );
        bodies.push(sun);
        let mut ignis: CelestialBody = CelestialBody::new(
            "Ignis".to_string(), 26214, Color3 { r: 45875, g: 26214, b: 19661 },
            327680, 52429, 98304, false, ShaderType::Lava,
        );
        ignis.orbit_angle = random_angle();
        bodies.push(ignis);
        let mut terra: CelestialBody = CelestialBody::new(
            "Terra".to_string(), 52429, Color3 { r: 13107, g: 32768, b: 52429 },
            524288, 32768, 65536, false, ShaderType::Rocky,
        );
        terra.orbit_angle = random_angle();
        bodies.push(terra);
        let mut xenon: CelestialBody = CelestialBody::new(
            "Xenon".to_string(), 39322, Color3 { r: 32768, g: 6554, b: 39322 },
            786432, 22938, 58982, false, ShaderType::Alien,
        );
        xenon.orbit_angle = random_angle();
        bodies.push(xenon);
        let mut magnus: CelestialBody = CelestialBody::new(
            "Magnus".to_string(), 98304, Color3 { r: 52429, g: 45875, b: 32768 },
            1179648, 13107, 131072, false, ShaderType::GasGiant,
        );
        magnus.orbit_angle = random_angle();
        bodies.push(magnus);
        let mut glacius: CelestialBody = CelestialBody::new(
            "Glacius".to_string(), 65536, Color3 { r: 13107, g: 19661, b: 45875 },
            1638400, 7864, 52429, false, ShaderType::Ice,
        );
        glacius.orbit_angle = random_angle();
        bodies.push(glacius);
        let mut orbit_points: Vec<Vec<Vec3>> = Vec::new();
        orbit_points.push(Vec::new());
        orbit_points.push(generate_orbit_points(327680, 64));
        orbit_points.push(generate_orbit_points(524288, 64));
        orbit_points.push(generate_orbit_points(786432, 64));
        orbit_points.push(generate_orbit_points(1179648, 64));
        orbit_points.push(generate_orbit_points(1638400, 64));
        SolarSystem { bodies, orbit_points, orbit_lines_enabled: true }
    }

    /// Advance every body (and its satellites) by the elapsed time.
    #[verifier::loop_isolation(false)]
    pub fn update(&mut self, delta_time: i64)
        requires
            system_wf(old(self).bodies@),
            fx_wf(delta_time),
        ensures
            final(self).bodies@.len() == old(self).bodies@.len(),
            forall|i: int| 0 <= i < old(self).bodies@.len()
                ==> is_updated_body(old(self).bodies@[i], #[trigger] final(self).bodies@[i], delta_time as int),
            final(self).orbit_points == old(self).orbit_points,
            final(self).orbit_lines_enabled == old(self).orbit_lines_enabled,
            system_wf(final(self).bodies@),
    {
        let ghost orig = self.bodies@;
        let mut updated: Vec<CelestialBody> = Vec::new();
        while self.bodies.len() > 0
            invariant
                updated@.len() + self.bodies@.len() == orig.len(),
                forall|j: int| 0 <= j < self.bodies@.len()
                    ==> self.bodies@[j] == orig[updated@.len() + j],
                forall|j: int| 0 <= j < updated@.len()
                    ==> is_updated_body(orig[j], #[trigger] updated@[j], delta_time as int),
                forall|j: int| 0 <= j < updated@.len() ==> body_wf(#[trigger] updated@[j])
                    && (forall|l: int| 0 <= l < updated@[j].satellites@.len()
                        ==> body_wf(#[trigger] updated@[j].satellites@[l])),
                self.orbit_points == old(self).orbit_points,
                self.orbit_lines_enabled == old(self).orbit_lines_enabled,
            decreases self.bodies@.len(),
        {
            let mut b: CelestialBody = self.bodies.remove(0);
            b.update(delta_time);
            proof {
                assert forall|l: int| 0 <= l < b.satellites@.len() implies
                    body_wf(#[trigger] b.satellites@[l])
                by {
                    let ghost ob = orig[updated@.len() as int];
                    assert(b.satellites@[l] == sat_stepped_s(ob.satellites@[l], delta_time as int,
                        body_position_s(CelestialBody {
                            orbit_angle: advance_angle_s(ob.orbit_angle as int, ob.orbit_speed as int, delta_time as int) as i64,
                            ..ob
                        })));
                }
            }
            updated.push(b);
        }
        self.bodies = updated;
    }

    /// The body at an index, when there is one.
    pub fn get_body(&self, index: usize) -> (r: Option<&CelestialBody>)
        ensures
            index < self.bodies@.len() ==> r == Some(&self.bodies@[index as int]),
            index >= self.bodies@.len() ==> r is None,
    {
        if index < self.bodies.len() {
            Some(&self.bodies[index])
        } else {
            None
        }
    }

    /// A body's current position; out-of-range indices give the origin.
    pub fn get_body_position(&self, index: usize) -> (p: Vec3)
        requires
            system_wf(self.bodies@),
        ensures
            index < self.bodies@.len() ==> p == body_position_s(self.bodies@[index as int]),
            index >= self.bodies@.len() ==> p == (Vec3 { x: 0, y: 0, z: 0 }),
            v_wf(p),
    {
        if index < self.bodies.len() {
            self.bodies[index].get_position()
        } else {
            Vec3 { x: 0, y: 0, z: 0 }
        }
    }

    /// How many bodies the system holds.
    pub fn body_count(&self) -> (n: usize)
        ensures
            n == self.bodies@.len(),
    {
        self.bodies.len()
    }

    /// The first body carrying the given name, if any.
    pub fn get_body_by_name(&self, name: &String) -> (r: Option<&CelestialBody>)
        ensures
            r is None ==> forall|i: int| 0 <= i < self.bodies@.len()
                ==> (#[trigger] self.bodies@[i]).name@ != name@,
            r matches Some(b) ==> b.name@ == name@
                && exists|i: int| 0 <= i < self.bodies@.len() && *b == #[trigger] self.bodies@[i],
    {
        let n: usize = self.bodies.len();
        let mut i: usize = 0;
        while i < n
            invariant
                0 <= i <= n,
                n == self.bodies@.len(),
                forall|j: int| 0 <= j < i ==> (#[trigger] self.bodies@[j]).name@ != name@,
            decreases n - i,
        {
            if self.bodies[i].name == *name {
                return Some(&self.bodies[i]);
            }
            i = i + 1;
        }
        None
    }
}

/// The state a planet worker reports back after advancing its angles.
#[derive(Clone, Copy, Debug, PartialEq, Eq, Structural)]
pub struct PlanetState {
    pub index: usize,
    pub position: Vec3,
    pub rotation_angle: i64,
    pub orbit_angle: i64,
}

/// A command for a planet worker: advance by a time step, or stop.
#[derive(Clone, Copy, Debug, PartialEq, Eq, Structural)]
pub enum PlanetCommand {
    Update(i64),
    Stop,
}

/// One deterministic step of a planet worker: advance both angles by their
/// speeds (wrapping once past a full turn) and report the new in-plane
/// position. The worker loop around this — threads, channels, draining —
/// lives outside the verified core; every decision it relays comes from
/// here.
pub fn planet_step(
    index: usize, orbit_radius: i64, orbit_speed: i64, rotation_speed: i64,
    orbit_angle: i64, rotation_angle: i64, delta_time: i64,
) -> (s: PlanetState)
    requires
        fx_wf(orbit_radius),
        fx_wf(orbit_speed),
        fx_wf(rotation_speed),
        fx_wf(orbit_angle),
        fx_wf(rotation_angle),
        fx_wf(delta_time),
    ensures
        s.index == index,
        s.orbit_angle == ({
            let a = fx_add_s(orbit_angle as int, fx_mul_s(orbit_speed as int, delta_time as int));
            if a > FX_TAU {
                fx_sub_s(a, FX_TAU as int)
            } else {
                a
            }
        }),
        s.rotation_angle == ({
            let a = fx_add_s(rotation_angle as int, fx_mul_s(rotation_speed as int, delta_time as int));
            if a > FX_TAU {
                fx_sub_s(a, FX_TAU as int)
            } else {
                a
            }
        }),
        s.position == (Vec3 {
            x: fx_mul_s(orbit_radius as int, fx_cos_s(s.orbit_angle as int)) as i64,
            y: 0,
            z: fx_mul_s(orbit_radius as int, fx_sin_s(s.orbit_angle as int)) as i64,
        }),
        v_wf(s.position),
        fx_wf(s.orbit_angle),
        fx_wf(s.rotation_angle),
{
    let oa_raw: i64 = fx_add(orbit_angle, fx_mul(orbit_speed, delta_time));
    let oa: i64 = if oa_raw > FX_TAU { fx_sub(oa_raw, FX_TAU) } else { oa_raw };
    let ra_raw: i64 = fx_add(rotation_angle, fx_mul(rotation_speed, delta_time));
    let ra: i64 = if ra_raw > FX_TAU { fx_sub(ra_raw, FX_TAU) } else { ra_raw };
    let position: Vec3 = Vec3 {
        x: fx_mul(orbit_radius, fx_cos(oa)),
        y: 0,
        z: fx_mul(orbit_radius, fx_sin(oa)),
    };
    PlanetState { index, position, rotation_angle: ra, orbit_angle: oa }
}

} // verus!
