//! The orbiting camera: view and projection construction plus the orbit,
//! pan and zoom motions.

use vstd::prelude::*;
use crate::fx::{
    fx_wf, fx_sub_s, fx_mul_s, fx_sin_s, fx_cos_s, fx_clamp_s,
    fx_sub, fx_mul, fx_sin, fx_cos, fx_clamp, FX_ONE, FX_PI, FX_LIM,
};
use crate::vec3::{Vec3, v_wf, vnorm_s, vsub_s, vadd_s, vcross_s, vscale_s};
use crate::mat4::{Mat4, m_wf, mat_mul_s, look_at_s, perspective_s};

verus! {

/// Default camera height above the ecliptic plane (5.0).
pub const CAMERA_HEIGHT: i64 = 327680;
/// Closest allowed orbit distance (5.0).
pub const MIN_DISTANCE: i64 = 327680;
/// Farthest allowed orbit distance (100.0).
pub const MAX_DISTANCE: i64 = 6553600;

/// An orbiting camera around a target point.
#[derive(Clone, Copy, Debug, PartialEq, Eq, Structural)]
pub struct Camera {
    pub position: Vec3,
    pub target: Vec3,
    pub up: Vec3,
    pub fov: i64,
    pub aspect: i64,
    pub near: i64,
    pub far: i64,
    pub yaw: i64,
    pub distance_from_target: i64,
}

/// All vectors and scalars of the camera are well formed.
pub open spec fn cam_wf(c: Camera) -> bool {
    v_wf(c.position) && v_wf(c.target) && v_wf(c.up) && fx_wf(c.fov) && fx_wf(c.aspect)
        && fx_wf(c.near) && fx_wf(c.far) && fx_wf(c.yaw) && fx_wf(c.distance_from_target)
}

/// Where the camera sits when orbiting a target at a distance and yaw:
/// offset sideways by the yaw angle and raised to the standard height.
pub open spec fn orbit_position_s(target: Vec3, distance: int, yaw: int) -> Vec3 {
    vadd_s(target, Vec3 {
        x: fx_mul_s(distance, fx_sin_s(yaw)) as i64,
        y: CAMERA_HEIGHT,
        z: fx_mul_s(distance, fx_cos_s(yaw)) as i64,
    })
}

impl Camera {
    /// A camera 20 units back and 5 up, looking at the origin, with a
    /// quarter-turn field of view.
    pub fn new(aspect: i64) -> (c: Camera)
        requires
            fx_wf(aspect),
        ensures
            c.position == (Vec3 { x: 0, y: 327680, z: 1310720 }),
            c.target == (Vec3 { x: 0, y: 0, z: 0 }),
            c.up == (Vec3 { x: 0, y: FX_ONE, z: 0 }),
            c.fov == FX_PI / 4,
            c.aspect == aspect,
            c.near == 6554,
            c.far == 6553600,
            c.yaw == 0,
            c.distance_from_target == 1310720,
            cam_wf(c),
    {
        Camera {
            position: Vec3 { x: 0, y: 327680, z: 1310720 },
            target: Vec3 { x: 0, y: 0, z: 0 },
            up: Vec3 { x: 0, y: FX_ONE, z: 0 },
            fov: FX_PI / 4,
            aspect,
            near: 6554,
            far: 6553600,
            yaw: 0,
            distance_from_target: 1310720,
        }
    }

    /// The view matrix looking from the camera position at its target.
    pub fn view_matrix(&self) -> (m: Mat4)
        requires
            cam_wf(*self),
        ensures
            m == look_at_s(self.position, self.target, self.up),
            m_wf(m),
    {
        Mat4::look_at(self.position, self.target, self.up)
    }

    /// The perspective projection matrix of this camera.
    pub fn projection_matrix(&self) -> (m: Mat4)
        requires
            cam_wf(*self),
        ensures
            m == perspective_s(self.fov as int, self.aspect as int, self.near as int, self.far as int),
            m_wf(m),
    {
        Mat4::perspective(self.fov, self.aspect, self.near, self.far)
    }

    /// The combined projection-times-view matrix.
    pub fn view_projection_matrix(&self) -> (m: Mat4)
        requires
            cam_wf(*self),
        ensures
            m == mat_mul_s(
                perspective_s(self.fov as int, self.aspect as int, self.near as int, self.far as int),
                look_at_s(self.position, self.target, self.up),
            ),
            m_wf(m),
    {
        let view: Mat4 = self.view_matrix();
        let proj: Mat4 = self.projection_matrix();
        proj.multiply(&view)
    }

    /// Slide the camera and its target forward along the view direction
    /// projected into the ecliptic plane.
    pub fn move_forward(&mut self, amount: i64)
        requires
            cam_wf(*old(self)),
            fx_wf(amount),
        ensures
            ({
                let dir = vnorm_s(vsub_s(old(self).target, old(self).position));
                let movement = vscale_s(vnorm_s(Vec3 { x: dir.x, y: 0, z: dir.z }), amount as int);
                final(self).position == vadd_s(old(self).position, movement)
                    && final(self).target == vadd_s(old(self).target, movement)
            }),
            final(self).up == old(self).up && final(self).yaw == old(self).yaw,
            final(self).fov == old(self).fov && final(self).aspect == old(self).aspect,
            final(self).near == old(self).near && final(self).far == old(self).far,
            final(self).distance_from_target == old(self).distance_from_target,
            cam_wf(*final(self)),
    {
        let direction: Vec3 = self.target.sub(&self.position).normalize();
        let movement: Vec3 = Vec3 { x: direction.x, y: 0, z: direction.z }.normalize().scale(amount);
        self.position = self.position.add(&movement);
        self.target = self.target.add(&movement);
    }

    /// Slide the camera and its target sideways in the ecliptic plane.
    pub fn move_right(&mut self, amount: i64)
        requires
            cam_wf(*old(self)),
            fx_wf(amount),
        ensures
            ({
                let forward = vnorm_s(vsub_s(old(self).target, old(self).position));
                let right = vnorm_s(vcross_s(forward, old(self).up));
                let movement = vscale_s(vnorm_s(Vec3 { x: right.x, y: 0, z: right.z }), amount as int);
                final(self).position == vadd_s(old(self).position, movement)
                    && final(self).target == vadd_s(old(self).target, movement)
            }),
            final(self).up == old(self).up && final(self).yaw == old(self).yaw,
            final(self).fov == old(self).fov && final(self).aspect == old(self).aspect,
            final(self).near == old(self).near && final(self).far == old(self).far,
            final(self).distance_from_target == old(self).distance_from_target,
            cam_wf(*final(self)),
    {
        let forward: Vec3 = self.target.sub(&self.position).normalize();
        let right: Vec3 = forward.cross(&self.up).normalize();
        let movement: Vec3 = Vec3 { x: right.x, y: 0, z: right.z }.normalize().scale(amount);
        self.position = self.position.add(&movement);
        self.target = self.target.add(&movement);
    }

    /// Turn around the target by the yaw delta, keeping height.
    pub fn rotate(&mut self, delta_yaw: i64)
        requires
            cam_wf(*old(self)),
            fx_wf(delta_yaw),
            -FX_LIM <= old(self).yaw + delta_yaw <= FX_LIM,
        ensures
            final(self).yaw == old(self).yaw + delta_yaw,
            final(self).position == vadd_s(old(self).target, Vec3 {
                x: fx_mul_s(old(self).distance_from_target as int, fx_sin_s(old(self).yaw + delta_yaw)) as i64,
                y: fx_sub_s(old(self).position.y as int, old(self).target.y as int) as i64,
                z: fx_mul_s(old(self).distance_from_target as int, fx_cos_s(old(self).yaw + delta_yaw)) as i64,
            }),
            final(self).target == old(self).target && final(self).up == old(self).up,
            final(self).fov == old(self).fov && final(self).aspect == old(self).aspect,
            final(self).near == old(self).near && final(self).far == old(self).far,
            final(self).distance_from_target == old(self).distance_from_target,
            cam_wf(*final(self)),
    {
        self.yaw = self.yaw + delta_yaw;
        let offset: Vec3 = Vec3 {
            x: fx_mul(self.distance_from_target, fx_sin(self.yaw)),
            y: fx_sub(self.position.y, self.target.y),
            z: fx_mul(self.distance_from_target, fx_cos(self.yaw)),
        };
        self.position = self.target.add(&offset);
    }

    /// Follow a new target, keeping the current yaw and at least the
    /// minimum orbit distance.
    pub fn look_at_target(&mut self, target: Vec3)
        requires
            cam_wf(*old(self)),
            v_wf(target),
        ensures
            final(self).target == target,
            final(self).position == orbit_position_s(
                target,
                (if old(self).distance_from_target >= MIN_DISTANCE {
                    old(self).distance_from_target as int
                } else {
                    MIN_DISTANCE as int
                }),
                old(self).yaw as int,
            ),
            final(self).up == old(self).up && final(self).yaw == old(self).yaw,
            final(self).fov == old(self).fov && final(self).aspect == old(self).aspect,
            final(self).near == old(self).near && final(self).far == old(self).far,
            final(self).distance_from_target == old(self).distance_from_target,
            cam_wf(*final(self)),
    {
        self.target = target;
        let safe_distance: i64 = if self.distance_from_target >= MIN_DISTANCE {
            self.distance_from_target
        } else {
            MIN_DISTANCE
        };
        let offset: Vec3 = Vec3 {
            x: fx_mul(safe_distance, fx_sin(self.yaw)),
            y: CAMERA_HEIGHT,
            z: fx_mul(safe_distance, fx_cos(self.yaw)),
        };
        self.position = target.add(&offset);
    }

    /// Zoom: clamp the orbit distance into its allowed window and re-aim
    /// at the current target.
    pub fn set_distance(&mut self, distance: i64)
        requires
            cam_wf(*old(self)),
        ensures
            final(self).distance_from_target == fx_clamp_s(distance as int, MIN_DISTANCE as int, MAX_DISTANCE as int),
            final(self).target == old(self).target,
            final(self).position == orbit_position_s(
                old(self).target,
                fx_clamp_s(distance as int, MIN_DISTANCE as int, MAX_DISTANCE as int),
                old(self).yaw as int,
            ),
            final(self).up == old(self).up && final(self).yaw == old(self).yaw,
            final(self).fov == old(self).fov && final(self).aspect == old(self).aspect,
            final(self).near == old(self).near && final(self).far == old(self).far,
            cam_wf(*final(self)),
    {
        self.distance_from_target = fx_clamp(distance, MIN_DISTANCE, MAX_DISTANCE);
        let t: Vec3 = self.target;
        self.look_at_target(t);
    }
}

} // verus!
