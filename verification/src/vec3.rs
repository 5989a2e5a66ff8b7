//! Three-component vectors of fixed-point coordinates.
use vstd::prelude::*;
use crate::units::{
    clamp_world, scaled_by_time, shifted_in_world, frame_time, MAX_SPEED, WORLD_EXTENT,
};

verus! {

/// A point or a velocity; which unit a component has depends on the use.
#[derive(Clone, Copy, Debug, PartialEq, Eq, Structural)]
pub struct Vec3 {
    pub x: i64,
    pub y: i64,
    pub z: i64,
}

impl Vec3 {
    /// Every component lies inside the world.
    pub open spec fn in_world(self) -> bool {
        &&& -WORLD_EXTENT <= self.x <= WORLD_EXTENT
        &&& -WORLD_EXTENT <= self.y <= WORLD_EXTENT
        &&& -WORLD_EXTENT <= self.z <= WORLD_EXTENT
    }

    /// Every component is an admissible speed.
    pub open spec fn is_velocity(self) -> bool {
        &&& -MAX_SPEED <= self.x <= MAX_SPEED
        &&& -MAX_SPEED <= self.y <= MAX_SPEED
        &&& -MAX_SPEED <= self.z <= MAX_SPEED
    }

    /// The point reached from `self` with velocity `v` over a frame of `dt`
    /// milliseconds: `self + v * frame_time(dt)`, each coordinate kept inside
    /// the world.
    pub open spec fn advanced(self, v: Vec3, dt: int) -> Vec3 {
        Vec3 {
            x: clamp_world(self.x + v.x * frame_time(dt)) as i64,
            y: clamp_world(self.y + v.y * frame_time(dt)) as i64,
            z: clamp_world(self.z + v.z * frame_time(dt)) as i64,
        }
    }

    /// The vector with the given components.
    pub fn new(x: i64, y: i64, z: i64) -> (v: Vec3)
        ensures
            v == (Vec3 { x, y, z }),
    {
        Vec3 { x, y, z }
    }

    /// The vector whose components are all zero.
    pub fn zero() -> (v: Vec3)
        ensures
            v == (Vec3 { x: 0, y: 0, z: 0 }),
    {
        Vec3 { x: 0, y: 0, z: 0 }
    }

    /// Tells whether every component lies inside the world.
    pub fn is_in_world(&self) -> (b: bool)
        ensures
            b == self.in_world(),
    {
        -WORLD_EXTENT <= self.x && self.x <= WORLD_EXTENT && -WORLD_EXTENT <= self.y && self.y
            <= WORLD_EXTENT && -WORLD_EXTENT <= self.z && self.z <= WORLD_EXTENT
    }

    /// Tells whether every component is an admissible speed.
    pub fn is_admissible_velocity(&self) -> (b: bool)
        ensures
            b == self.is_velocity(),
    {
        -MAX_SPEED <= self.x && self.x <= MAX_SPEED && -MAX_SPEED <= self.y && self.y
            <= MAX_SPEED && -MAX_SPEED <= self.z && self.z <= MAX_SPEED
    }

    /// Moves the point with velocity `v` for one frame.
    pub fn advance(&self, v: &Vec3, dt: i64) -> (p: Vec3)
        requires
            self.in_world(),
            v.is_velocity(),
        ensures
            p == self.advanced(*v, dt as int),
            p.in_world(),
    {
        Vec3 {
            x: shifted_in_world(self.x, scaled_by_time(v.x, dt)),
            y: shifted_in_world(self.y, scaled_by_time(v.y, dt)),
            z: shifted_in_world(self.z, scaled_by_time(v.z, dt)),
        }
    }
}

} // verus!
