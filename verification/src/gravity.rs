//! Gravity, vertical integration and landing on the platform.
use vstd::prelude::*;
use crate::body::KinematicBody;
use crate::config::Config;
use crate::units::{clamp, clamp_speed, frame_time, scaled_by_time, MAX_SPEED};
use crate::vec3::Vec3;

verus! {

/// The velocity of `body` after gravity has acted on it for one frame: the
/// vertical speed changes by `gravity_accel * frame_time(dt)` and stays within
/// `MAX_SPEED`.
pub open spec fn accelerated(body: KinematicBody, cfg: Config, dt: int) -> Vec3 {
    Vec3 {
        x: body.velocity.x,
        y: clamp_speed(body.velocity.y + cfg.gravity_accel * frame_time(dt)) as i64,
        z: body.velocity.z,
    }
}

/// Where `body` is after one frame of motion under gravity, before the
/// platform is taken into account.
pub open spec fn drifted(body: KinematicBody, cfg: Config, dt: int) -> Vec3 {
    body.position.advanced(accelerated(body, cfg, dt), dt)
}

/// The body comes to rest in this frame: after the motion it is over the
/// platform and at or below the ground's height.
pub open spec fn lands(body: KinematicBody, cfg: Config, dt: int) -> bool {
    let p = drifted(body, cfg, dt);
    cfg.supports(p) && p.y <= cfg.ground_height
}

/// The body after one frame of gravity and collision. A body that lands is
/// set on the ground with no vertical speed and a cleared fall timer; any
/// other body keeps the integrated position and velocity and is not grounded.
pub open spec fn fallen(body: KinematicBody, cfg: Config, dt: int) -> KinematicBody {
    let v = accelerated(body, cfg, dt);
    let p = drifted(body, cfg, dt);
    if lands(body, cfg, dt) {
        KinematicBody {
            position: Vec3 { x: p.x, y: cfg.ground_height, z: p.z },
            velocity: Vec3 { x: v.x, y: 0, z: v.z },
            grounded: true,
            fall_elapsed: 0,
            spawn_position: body.spawn_position,
        }
    } else {
        KinematicBody {
            position: p,
            velocity: v,
            grounded: false,
            fall_elapsed: body.fall_elapsed,
            spawn_position: body.spawn_position,
        }
    }
}

/// Runs gravity and the collision with the platform on `body` for one frame.
pub fn apply_gravity(body: &mut KinematicBody, cfg: &Config, dt: i64)
    requires
        cfg.wf(),
        old(body).wf(*cfg),
    ensures
        *final(body) == fallen(*old(body), *cfg, dt as int),
        final(body).wf(*cfg),
{
    let dv: i64 = scaled_by_time(cfg.gravity_accel, dt);
    body.velocity.y = clamp(body.velocity.y + dv, -MAX_SPEED, MAX_SPEED);
    body.position = body.position.advance(&body.velocity, dt);
    if cfg.is_supported(&body.position) && body.position.y <= cfg.ground_height {
        body.position.y = cfg.ground_height;
        body.velocity.y = 0;
        body.grounded = true;
        body.fall_elapsed = 0;
    } else {
        body.grounded = false;
    }
}

/// While a body does not land and its speed is short of `MAX_SPEED`, a frame
/// of positive length lowers its vertical speed by exactly
/// `gravity_accel * frame_time(dt)`.
pub proof fn lemma_gravity_lowers_speed(body: KinematicBody, cfg: Config, dt: int)
    requires
        cfg.wf(),
        body.wf(cfg),
        dt > 0,
        !lands(body, cfg, dt),
        body.velocity.y + cfg.gravity_accel * frame_time(dt) >= -MAX_SPEED,
    ensures
        fallen(body, cfg, dt).velocity.y == body.velocity.y + cfg.gravity_accel * frame_time(dt),
        fallen(body, cfg, dt).velocity.y < body.velocity.y,
{
    let t = frame_time(dt);
    assert(cfg.gravity_accel * t < 0) by (nonlinear_arith)
        requires
            cfg.gravity_accel < 0,
            t > 0,
    ;
}

/// A body that reaches the ground's height or below over the platform rests
/// exactly at the ground's height afterwards, with no vertical speed left.
pub proof fn lemma_landing_clamps(body: KinematicBody, cfg: Config, dt: int)
    requires
        cfg.wf(),
        body.wf(cfg),
        lands(body, cfg, dt),
    ensures
        fallen(body, cfg, dt).position.y == cfg.ground_height,
        fallen(body, cfg, dt).velocity.y == 0,
        fallen(body, cfg, dt).grounded,
        fallen(body, cfg, dt).fall_elapsed == 0,
{
}

/// The platform's rectangle is closed: a point on its edge is supported, so a
/// body at the ground's height there stays grounded.
pub proof fn lemma_edge_is_supported(body: KinematicBody, cfg: Config, dt: int)
    requires
        cfg.wf(),
        body.wf(cfg),
        drifted(body, cfg, dt).x == cfg.platform_half_width || drifted(body, cfg, dt).x
            == -cfg.platform_half_width,
        -cfg.platform_half_length <= drifted(body, cfg, dt).z <= cfg.platform_half_length,
        drifted(body, cfg, dt).y <= cfg.ground_height,
    ensures
        cfg.supports(drifted(body, cfg, dt)),
        fallen(body, cfg, dt).grounded,
{
}

/// A body that ends the frame over the platform and above the ground was in
/// the air before: for it the frame changes nothing beyond the integration,
/// and the grounded flag is as it was.
pub proof fn lemma_flight_keeps_flag(body: KinematicBody, cfg: Config, dt: int)
    requires
        cfg.wf(),
        body.wf(cfg),
        cfg.supports(drifted(body, cfg, dt)),
        drifted(body, cfg, dt).y > cfg.ground_height,
    ensures
        !body.grounded,
        fallen(body, cfg, dt).grounded == body.grounded,
        fallen(body, cfg, dt).position == drifted(body, cfg, dt),
        fallen(body, cfg, dt).velocity == accelerated(body, cfg, dt),
        fallen(body, cfg, dt).fall_elapsed == body.fall_elapsed,
{
    if body.grounded {
        let t = frame_time(dt);
        let v = accelerated(body, cfg, dt);
        assert(cfg.gravity_accel * t <= 0) by (nonlinear_arith)
            requires
                cfg.gravity_accel < 0,
                t >= 0,
        ;
        assert(v.y * t <= 0) by (nonlinear_arith)
            requires
                v.y <= 0,
                t >= 0,
        ;
    }
}

/// A grounded body that is still over the platform stays as it is, whatever
/// the frame's length: gravity pulls it down and the ground holds it.
pub proof fn lemma_grounded_stays(body: KinematicBody, cfg: Config, dt: int)
    requires
        cfg.wf(),
        body.wf(cfg),
        body.grounded,
        cfg.supports(body.position),
        body.velocity.x == 0,
        body.velocity.z == 0,
    ensures
        fallen(body, cfg, dt) == body,
{
    let t = frame_time(dt);
    let v = accelerated(body, cfg, dt);
    assert(cfg.gravity_accel * t <= 0) by (nonlinear_arith)
        requires
            cfg.gravity_accel < 0,
            t >= 0,
    ;
    assert(v.y * t <= 0) by (nonlinear_arith)
        requires
            v.y <= 0,
            t >= 0,
    ;
    assert(body.velocity.x * t == 0 && body.velocity.z * t == 0) by (nonlinear_arith)
        requires
            body.velocity.x == 0,
            body.velocity.z == 0,
    ;
}

} // verus!
