//! The controllable body: its data, its invariant and the phase it is in.
use vstd::prelude::*;
use crate::config::Config;
use crate::units::WORLD_EXTENT;
use crate::vec3::Vec3;

verus! {

/// A body that walks, jumps and falls.
#[derive(Clone, Copy, Debug, PartialEq, Eq, Structural)]
pub struct KinematicBody {
    /// Where the body is.
    pub position: Vec3,
    /// How fast it moves.
    pub velocity: Vec3,
    /// Whether it rests on the platform.
    pub grounded: bool,
    /// Milliseconds spent below the ground's height and off the platform.
    pub fall_elapsed: i64,
    /// Where it is put back after falling for too long.
    pub spawn_position: Vec3,
}

/// The phase of a body.
#[derive(Clone, Copy, Debug, PartialEq, Eq, Structural)]
pub enum BodyState {
    /// Resting on the platform.
    Grounded,
    /// In the air, or off the platform but not yet below it.
    Airborne,
    /// Below the ground's height and off the platform.
    FallingOutOfBounds,
}

impl KinematicBody {
    /// The invariant of a body under `cfg`: all vectors are within limits, the
    /// spawn point lies at the ground's height, a grounded body rests at that
    /// height with no vertical speed, and the fall timer runs only while the
    /// body is not grounded and stays below the threshold.
    pub open spec fn wf(self, cfg: Config) -> bool {
        &&& self.position.in_world()
        &&& self.velocity.is_velocity()
        &&& self.spawn_position.in_world()
        &&& self.spawn_position.y == cfg.ground_height
        &&& 0 <= self.fall_elapsed < cfg.fall_threshold_ms
        &&& self.grounded ==> self.velocity.y == 0 && self.position.y == cfg.ground_height
        &&& self.fall_elapsed > 0 ==> !self.grounded
    }

    /// A body at rest on the ground at `(x, z)`, which is also its spawn point.
    pub open spec fn resting(cfg: Config, x: i64, z: i64) -> KinematicBody {
        KinematicBody {
            position: Vec3 { x, y: cfg.ground_height, z },
            velocity: Vec3 { x: 0, y: 0, z: 0 },
            grounded: true,
            fall_elapsed: 0,
            spawn_position: Vec3 { x, y: cfg.ground_height, z },
        }
    }

    /// The body as it is after a respawn: at rest at its spawn point.
    pub open spec fn respawned(self) -> KinematicBody {
        KinematicBody {
            position: self.spawn_position,
            velocity: Vec3 { x: 0, y: 0, z: 0 },
            grounded: true,
            fall_elapsed: 0,
            spawn_position: self.spawn_position,
        }
    }

    /// The phase that the body is in.
    pub open spec fn state(self, cfg: Config) -> BodyState {
        if self.grounded {
            BodyState::Grounded
        } else if cfg.out_of_bounds(self.position) {
            BodyState::FallingOutOfBounds
        } else {
            BodyState::Airborne
        }
    }

    /// Creates a body at rest on the ground at `(x, z)`.
    pub fn new(cfg: &Config, x: i64, z: i64) -> (body: KinematicBody)
        requires
            cfg.wf(),
            -WORLD_EXTENT <= x <= WORLD_EXTENT,
            -WORLD_EXTENT <= z <= WORLD_EXTENT,
        ensures
            body == Self::resting(*cfg, x, z),
            body.wf(*cfg),
    {
        KinematicBody {
            position: Vec3 { x, y: cfg.ground_height, z },
            velocity: Vec3 { x: 0, y: 0, z: 0 },
            grounded: true,
            fall_elapsed: 0,
            spawn_position: Vec3 { x, y: cfg.ground_height, z },
        }
    }

    /// Tells whether the body meets its invariant under `cfg`.
    pub fn is_valid(&self, cfg: &Config) -> (b: bool)
        ensures
            b == self.wf(*cfg),
    {
        let within_limits = self.position.is_in_world() && self.velocity.is_admissible_velocity()
            && self.spawn_position.is_in_world();
        let timer_in_range = 0 <= self.fall_elapsed && self.fall_elapsed < cfg.fall_threshold_ms;
        let rests = self.velocity.y == 0 && self.position.y == cfg.ground_height;
        within_limits && self.spawn_position.y == cfg.ground_height && timer_in_range && (
        !self.grounded || rests) && (self.fall_elapsed == 0 || !self.grounded)
    }

    /// The phase that the body is in.
    pub fn current_state(&self, cfg: &Config) -> (s: BodyState)
        requires
            cfg.wf(),
        ensures
            s == self.state(*cfg),
    {
        if self.grounded {
            BodyState::Grounded
        } else if cfg.is_out_of_bounds(&self.position) {
            BodyState::FallingOutOfBounds
        } else {
            BodyState::Airborne
        }
    }

    /// Puts the body back at its spawn point, at rest.
    pub fn respawn(&mut self)
        ensures
            *final(self) == old(self).respawned(),
    {
        self.position = self.spawn_position;
        self.velocity = Vec3 { x: 0, y: 0, z: 0 };
        self.grounded = true;
        self.fall_elapsed = 0;
    }
}

} // verus!
