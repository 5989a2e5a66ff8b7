//! The constants that a simulation is run with.
use vstd::prelude::*;
use crate::units::{MAX_ACCEL, MAX_DURATION_MS, MAX_RATE, MAX_SPEED, WORLD_EXTENT};
use crate::vec3::Vec3;

verus! {

/// The parameters of the simulation, in the units of [`crate::units`].
#[derive(Clone, Copy, Debug, PartialEq, Eq, Structural)]
pub struct Config {
    /// Horizontal speed under a held direction key.
    pub move_speed: i64,
    /// Upward speed given by a jump.
    pub jump_impulse: i64,
    /// Vertical acceleration; negative, since it pulls down.
    pub gravity_accel: i64,
    /// Height at which a body rests on the platform.
    pub ground_height: i64,
    /// Half the platform's extent along x.
    pub platform_half_width: i64,
    /// Half the platform's extent along z.
    pub platform_half_length: i64,
    /// Time out of bounds after which a body is put back at its spawn point.
    pub fall_threshold_ms: i64,
    /// Where the camera wants to be, relative to the body it tracks.
    pub camera_offset: Vec3,
    /// Per-second rate at which the camera closes in on that place.
    pub camera_smoothing_rate: i64,
    /// Time between two obstacles.
    pub spawn_period_ms: i64,
    /// Obstacles appear with an x between minus this and this.
    pub spawn_x_range: i64,
    /// The y at which obstacles appear.
    pub spawn_y: i64,
    /// The z at which obstacles appear.
    pub spawn_z: i64,
    /// The velocity that every obstacle keeps.
    pub obstacle_velocity: Vec3,
}

impl Config {
    /// The parameters are usable: signs are as documented and every magnitude
    /// is within the limits of [`crate::units`].
    pub open spec fn wf(self) -> bool {
        &&& 0 <= self.move_speed <= MAX_SPEED
        &&& 0 < self.jump_impulse <= MAX_SPEED
        &&& -MAX_ACCEL <= self.gravity_accel < 0
        &&& -WORLD_EXTENT <= self.ground_height <= WORLD_EXTENT
        &&& 0 <= self.platform_half_width <= WORLD_EXTENT
        &&& 0 <= self.platform_half_length <= WORLD_EXTENT
        &&& 0 < self.fall_threshold_ms <= MAX_DURATION_MS
        &&& self.camera_offset.in_world()
        &&& 0 <= self.camera_smoothing_rate <= MAX_RATE
        &&& 0 < self.spawn_period_ms <= MAX_DURATION_MS
        &&& 0 <= self.spawn_x_range <= WORLD_EXTENT
        &&& -WORLD_EXTENT <= self.spawn_y <= WORLD_EXTENT
        &&& -WORLD_EXTENT <= self.spawn_z <= WORLD_EXTENT
        &&& self.obstacle_velocity.is_velocity()
    }

    /// The platform supports the point `p`: its x and z lie in the platform's
    /// rectangle, the edges included.
    pub open spec fn supports(self, p: Vec3) -> bool {
        &&& -self.platform_half_width <= p.x <= self.platform_half_width
        &&& -self.platform_half_length <= p.z <= self.platform_half_length
    }

    /// The point `p` is lost: below the ground's height and off the platform.
    pub open spec fn out_of_bounds(self, p: Vec3) -> bool {
        p.y < self.ground_height && !self.supports(p)
    }

    /// The usual game: an 8 by 20 platform with its top at 0.5, gravity of 30,
    /// a jump of 12, a walking speed of 8, five seconds of grace off the
    /// platform, and an obstacle every five seconds at x within 4 of the
    /// centre, moving at 3 along z.
    pub fn standard() -> (cfg: Config)
        ensures
            cfg.wf(),
            cfg == (Config {
                move_speed: 8_000_000,
                jump_impulse: 12_000_000,
                gravity_accel: (-30_000) as i64,
                ground_height: 500_000_000,
                platform_half_width: 4_000_000_000,
                platform_half_length: 10_000_000_000,
                fall_threshold_ms: 5_000,
                camera_offset: Vec3 { x: 0, y: 4_500_000_000, z: 9_000_000_000 },
                camera_smoothing_rate: 2,
                spawn_period_ms: 5_000,
                spawn_x_range: 4_000_000_000,
                spawn_y: 500_000_000,
                spawn_z: 0,
                obstacle_velocity: Vec3 { x: 0, y: 0, z: 3_000_000 },
            }),
    {
        Config {
            move_speed: 8_000_000,
            jump_impulse: 12_000_000,
            gravity_accel: -30_000,
            ground_height: 500_000_000,
            platform_half_width: 4_000_000_000,
            platform_half_length: 10_000_000_000,
            fall_threshold_ms: 5_000,
            camera_offset: Vec3 { x: 0, y: 4_500_000_000, z: 9_000_000_000 },
            camera_smoothing_rate: 2,
            spawn_period_ms: 5_000,
            spawn_x_range: 4_000_000_000,
            spawn_y: 500_000_000,
            spawn_z: 0,
            obstacle_velocity: Vec3 { x: 0, y: 0, z: 3_000_000 },
        }
    }

    /// Tells whether the parameters are usable.
    pub fn is_valid(&self) -> (b: bool)
        ensures
            b == self.wf(),
    {
        let speeds = 0 <= self.move_speed && self.move_speed <= MAX_SPEED && 0 < self.jump_impulse
            && self.jump_impulse <= MAX_SPEED && -MAX_ACCEL <= self.gravity_accel
            && self.gravity_accel < 0 && self.obstacle_velocity.is_admissible_velocity();
        let platform = -WORLD_EXTENT <= self.ground_height && self.ground_height <= WORLD_EXTENT
            && 0 <= self.platform_half_width && self.platform_half_width <= WORLD_EXTENT
            && 0 <= self.platform_half_length && self.platform_half_length <= WORLD_EXTENT;
        let timers = 0 < self.fall_threshold_ms && self.fall_threshold_ms <= MAX_DURATION_MS
            && 0 < self.spawn_period_ms && self.spawn_period_ms <= MAX_DURATION_MS;
        let camera = self.camera_offset.is_in_world() && 0 <= self.camera_smoothing_rate
            && self.camera_smoothing_rate <= MAX_RATE;
        let spawn = 0 <= self.spawn_x_range && self.spawn_x_range <= WORLD_EXTENT
            && -WORLD_EXTENT <= self.spawn_y && self.spawn_y <= WORLD_EXTENT
            && -WORLD_EXTENT <= self.spawn_z && self.spawn_z <= WORLD_EXTENT;
        speeds && platform && timers && camera && spawn
    }

    /// Tells whether the platform supports the point `p`.
    pub fn is_supported(&self, p: &Vec3) -> (b: bool)
        requires
            self.wf(),
        ensures
            b == self.supports(*p),
    {
        -self.platform_half_width <= p.x && p.x <= self.platform_half_width
            && -self.platform_half_length <= p.z && p.z <= self.platform_half_length
    }

    /// Tells whether the point `p` is below the ground's height and off the
    /// platform.
    pub fn is_out_of_bounds(&self, p: &Vec3) -> (b: bool)
        requires
            self.wf(),
        ensures
            b == self.out_of_bounds(*p),
    {
        p.y < self.ground_height && !self.is_supported(p)
    }
}

} // verus!
