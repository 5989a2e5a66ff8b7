//! Walking and jumping from the keys that are held.
use vstd::prelude::*;
use crate::body::{BodyState, KinematicBody};
use crate::config::Config;
use crate::units::{clamp_world, frame_time, scaled_by_time, shifted_in_world};
use crate::vec3::Vec3;

verus! {

/// A set of the logical keys that the simulation knows.
#[derive(Clone, Copy, Debug, PartialEq, Eq, Structural)]
pub struct KeySet {
    pub left: bool,
    pub right: bool,
    pub jump: bool,
}

/// The keys of one frame.
#[derive(Clone, Copy, Debug, PartialEq, Eq, Structural)]
pub struct Input {
    /// The keys that are down.
    pub pressed: KeySet,
    /// The keys that went down in this frame.
    pub just_pressed: KeySet,
}

/// The speed along x that the held keys ask for: `move_speed` to the right,
/// as much to the left, nothing when both or neither direction is held.
pub open spec fn walking_speed(keys: KeySet, cfg: Config) -> int {
    if keys.right && !keys.left {
        cfg.move_speed as int
    } else if keys.left && !keys.right {
        -(cfg.move_speed as int)
    } else {
        0
    }
}

/// The frame's jump takes effect: the jump key went down in this frame and the
/// body stands on the ground.
pub open spec fn jumps(body: KinematicBody, input: Input) -> bool {
    input.just_pressed.jump && body.grounded
}

/// The body after the movement controller has run for one frame: moved along x
/// by `walking_speed * frame_time(dt)`, and sent upwards with `jump_impulse`
/// where a jump takes effect.
pub open spec fn moved(body: KinematicBody, cfg: Config, input: Input, dt: int) -> KinematicBody {
    KinematicBody {
        position: Vec3 {
            x: clamp_world(body.position.x + walking_speed(input.pressed, cfg) * frame_time(dt)) as i64,
            y: body.position.y,
            z: body.position.z,
        },
        velocity: Vec3 {
            x: body.velocity.x,
            y: if jumps(body, input) {
                cfg.jump_impulse
            } else {
                body.velocity.y
            },
            z: body.velocity.z,
        },
        grounded: body.grounded && !input.just_pressed.jump,
        fall_elapsed: body.fall_elapsed,
        spawn_position: body.spawn_position,
    }
}

impl KeySet {
    /// The set without any key.
    pub fn none() -> (keys: KeySet)
        ensures
            keys == (KeySet { left: false, right: false, jump: false }),
    {
        KeySet { left: false, right: false, jump: false }
    }
}

/// Runs the movement controller on `body` for one frame.
pub fn move_player(body: &mut KinematicBody, cfg: &Config, input: &Input, dt: i64)
    requires
        cfg.wf(),
        old(body).wf(*cfg),
    ensures
        *final(body) == moved(*old(body), *cfg, *input, dt as int),
        final(body).wf(*cfg),
{
    let mut speed: i64 = 0;
    if input.pressed.left {
        speed = speed - cfg.move_speed;
    }
    if input.pressed.right {
        speed = speed + cfg.move_speed;
    }
    body.position.x = shifted_in_world(body.position.x, scaled_by_time(speed, dt));
    if input.just_pressed.jump && body.grounded {
        body.velocity.y = cfg.jump_impulse;
        body.grounded = false;
    }
}

/// A jump that takes effect lifts the body off the ground: it is airborne
/// afterwards and rises with `jump_impulse`. A jump key that is merely held,
/// or pressed in the air, changes neither the speed nor the phase.
pub proof fn lemma_jump_is_edge_triggered(body: KinematicBody, cfg: Config, input: Input, dt: int)
    requires
        cfg.wf(),
        body.wf(cfg),
    ensures
        jumps(body, input) ==> moved(body, cfg, input, dt).state(cfg) == BodyState::Airborne
            && moved(body, cfg, input, dt).velocity.y == cfg.jump_impulse,
        !jumps(body, input) ==> moved(body, cfg, input, dt).velocity == body.velocity && moved(
            body,
            cfg,
            input,
            dt,
        ).grounded == body.grounded,
        moved(body, cfg, input, dt).position.y == body.position.y,
        moved(body, cfg, input, dt).position.z == body.position.z,
{
}

} // verus!
