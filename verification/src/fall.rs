//! The fall monitor: a grace period off the platform, then a respawn.
//!
//! Of the two ways to bring a lost body back, this is the timed one: a body
//! that is below the ground's height and off the platform is given
//! `fall_threshold_ms` to get back over the platform, and is put back at its
//! spawn point when that time is up. Depth alone never triggers a respawn.
use vstd::prelude::*;
use crate::body::{BodyState, KinematicBody};
use crate::config::Config;
use crate::units::{effective_dt, frame_time};

verus! {

/// The body after the fall monitor has run for one frame. Out of bounds, the
/// fall timer grows by `frame_time(dt)`, and the body respawns once the timer
/// reaches the threshold; anywhere else the timer is cleared.
pub open spec fn monitored(body: KinematicBody, cfg: Config, dt: int) -> KinematicBody {
    if cfg.out_of_bounds(body.position) {
        if body.fall_elapsed + frame_time(dt) >= cfg.fall_threshold_ms {
            body.respawned()
        } else {
            KinematicBody {
                fall_elapsed: (body.fall_elapsed + frame_time(dt)) as i64,
                grounded: false,
                ..body
            }
        }
    } else {
        KinematicBody { fall_elapsed: 0, ..body }
    }
}

/// Runs the fall monitor on `body` for one frame.
pub fn monitor_fall(body: &mut KinematicBody, cfg: &Config, dt: i64)
    requires
        cfg.wf(),
        old(body).wf(*cfg),
    ensures
        *final(body) == monitored(*old(body), *cfg, dt as int),
        final(body).wf(*cfg),
{
    if cfg.is_out_of_bounds(&body.position) {
        let elapsed: i64 = body.fall_elapsed + effective_dt(dt);
        if elapsed >= cfg.fall_threshold_ms {
            body.respawn();
        } else {
            body.fall_elapsed = elapsed;
            body.grounded = false;
        }
    } else {
        body.fall_elapsed = 0;
    }
}

/// A body that is out of bounds when its fall timer reaches the threshold is
/// back at its spawn point after the update, at rest and grounded.
pub proof fn lemma_timeout_respawns(body: KinematicBody, cfg: Config, dt: int)
    requires
        cfg.wf(),
        body.wf(cfg),
        !body.grounded,
        cfg.out_of_bounds(body.position),
        body.fall_elapsed + frame_time(dt) >= cfg.fall_threshold_ms,
    ensures
        monitored(body, cfg, dt).position == body.spawn_position,
        monitored(body, cfg, dt).velocity.x == 0,
        monitored(body, cfg, dt).velocity.y == 0,
        monitored(body, cfg, dt).velocity.z == 0,
        monitored(body, cfg, dt).grounded,
        monitored(body, cfg, dt).fall_elapsed == 0,
        monitored(body, cfg, dt).state(cfg) == BodyState::Grounded,
{
}

/// Time out of bounds does not carry over: an update that finds the body in
/// bounds clears the timer, whatever it held, so that the next frame out of
/// bounds counts from that frame's own length.
pub proof fn lemma_timer_restarts(
    body: KinematicBody,
    later: KinematicBody,
    cfg: Config,
    dt: int,
    dt_later: int,
)
    requires
        cfg.wf(),
        body.wf(cfg),
        later.wf(cfg),
        !cfg.out_of_bounds(body.position),
        later.fall_elapsed == monitored(body, cfg, dt).fall_elapsed,
        cfg.out_of_bounds(later.position),
        frame_time(dt_later) < cfg.fall_threshold_ms,
    ensures
        monitored(body, cfg, dt).fall_elapsed == 0,
        monitored(later, cfg, dt_later).fall_elapsed == frame_time(dt_later),
{
}

/// Before the threshold, each frame out of bounds adds its length to the
/// timer and leaves the body where it is, falling.
pub proof fn lemma_timer_accumulates(body: KinematicBody, cfg: Config, dt: int)
    requires
        cfg.wf(),
        body.wf(cfg),
        cfg.out_of_bounds(body.position),
        body.fall_elapsed + frame_time(dt) < cfg.fall_threshold_ms,
    ensures
        monitored(body, cfg, dt).fall_elapsed == body.fall_elapsed + frame_time(dt),
        monitored(body, cfg, dt).position == body.position,
        monitored(body, cfg, dt).velocity == body.velocity,
        monitored(body, cfg, dt).state(cfg) == BodyState::FallingOutOfBounds,
{
}

} // verus!
