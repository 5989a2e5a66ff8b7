//! The camera that trails the body.
//!
//! Each frame the camera covers a share of the way to its target. The share
//! is `camera_smoothing_rate * frame_time(dt)` thousandths, at most the whole
//! way. A step is rounded towards the target, so a camera that moves at all
//! moves by at least one nano-unit and arrives after finitely many frames.
use vstd::prelude::*;
use crate::config::Config;
use crate::units::{
    abs_int, clamp, clamp_int, clamp_world, frame_time, scaled_by_time, PER_MILLE, WORLD_EXTENT,
};
use crate::vec3::Vec3;

verus! {

/// The camera: where it is and the point that it faces. Its orientation is
/// the one that looks from `position` at `look_target` with +y up.
#[derive(Clone, Copy, Debug, PartialEq, Eq, Structural)]
pub struct FollowCamera {
    pub position: Vec3,
    pub look_target: Vec3,
}

/// The share of the way that the camera covers in a frame, in thousandths.
pub open spec fn smoothing_factor(cfg: Config, dt: int) -> int {
    clamp_int(cfg.camera_smoothing_rate * frame_time(dt), 0, PER_MILLE as int)
}

/// The part of `gap` covered at `factor` thousandths: `gap * factor / 1000`,
/// rounded away from zero.
pub open spec fn blend_step(gap: int, factor: int) -> int {
    if gap >= 0 {
        (gap * factor + 999) / 1000
    } else {
        -((-gap * factor + 999) / 1000)
    }
}

/// The place that the camera heads for when it tracks a body at `p`.
pub open spec fn camera_target(p: Vec3, cfg: Config) -> Vec3 {
    Vec3 {
        x: clamp_world(p.x + cfg.camera_offset.x) as i64,
        y: clamp_world(p.y + cfg.camera_offset.y) as i64,
        z: clamp_world(p.z + cfg.camera_offset.z) as i64,
    }
}

/// The point reached from `from` on the way to `to` at `factor` thousandths.
pub open spec fn blended(from: Vec3, to: Vec3, factor: int) -> Vec3 {
    Vec3 {
        x: (from.x + blend_step(to.x - from.x, factor)) as i64,
        y: (from.y + blend_step(to.y - from.y, factor)) as i64,
        z: (from.z + blend_step(to.z - from.z, factor)) as i64,
    }
}

/// The camera after one frame. Without a body to track nothing changes; with
/// one, the camera moves towards its target and faces the body.
pub open spec fn followed(cam: FollowCamera, subject: Option<Vec3>, cfg: Config, dt: int)
    -> FollowCamera {
    match subject {
        None => cam,
        Some(p) => FollowCamera {
            position: blended(cam.position, camera_target(p, cfg), smoothing_factor(cfg, dt)),
            look_target: p,
        },
    }
}

/// The camera after `n` frames of the same length behind a body that stays
/// at `p`.
pub open spec fn followed_n(cam: FollowCamera, p: Vec3, cfg: Config, dt: int, n: nat)
    -> FollowCamera
    decreases n,
{
    if n == 0 {
        cam
    } else {
        followed(followed_n(cam, p, cfg, dt, (n - 1) as nat), Some(p), cfg, dt)
    }
}

/// The distance between two points, summed over the axes.
pub open spec fn distance(a: Vec3, b: Vec3) -> int {
    abs_int(b.x - a.x) + abs_int(b.y - a.y) + abs_int(b.z - a.z)
}

/// The square of the straight-line distance between two points.
pub open spec fn distance_squared(a: Vec3, b: Vec3) -> int {
    (b.x - a.x) * (b.x - a.x) + (b.y - a.y) * (b.y - a.y) + (b.z - a.z) * (b.z - a.z)
}

/// A gap that shrinks in absolute value shrinks in its square.
pub proof fn lemma_square_is_monotone(a: int, b: int)
    requires
        abs_int(a) <= abs_int(b),
    ensures
        a * a <= b * b,
{
    assert(a * a <= b * b) by (nonlinear_arith)
        requires
            (0 <= a <= b) || (0 <= a <= -b) || (0 <= -a <= b) || (0 <= -a <= -b),
    ;
}

impl FollowCamera {
    /// Both points of the camera lie inside the world.
    pub open spec fn wf(self) -> bool {
        self.position.in_world() && self.look_target.in_world()
    }

    /// A camera at `position` that faces `look_target`.
    pub fn new(position: Vec3, look_target: Vec3) -> (cam: FollowCamera)
        ensures
            cam == (FollowCamera { position, look_target }),
    {
        FollowCamera { position, look_target }
    }
}

/// A step never overshoots and never turns back; it covers the whole gap at
/// 1000 thousandths, nothing at 0, and at least one unit of a gap that is
/// open at any share above 0.
pub proof fn lemma_blend_step(gap: int, factor: int)
    requires
        0 <= factor <= 1000,
    ensures
        gap >= 0 ==> 0 <= blend_step(gap, factor) <= gap,
        gap <= 0 ==> gap <= blend_step(gap, factor) <= 0,
        factor == 1000 ==> blend_step(gap, factor) == gap,
        factor == 0 ==> blend_step(gap, factor) == 0,
        factor > 0 && gap != 0 ==> blend_step(gap, factor) != 0,
        abs_int(gap - blend_step(gap, factor)) <= abs_int(gap),
        factor > 0 && gap != 0 ==> abs_int(gap - blend_step(gap, factor)) < abs_int(gap),
{
    let g = abs_int(gap);
    let m = g * factor;
    assert(0 <= m <= g * 1000 && (factor == 1000 ==> m == g * 1000) && (factor == 0 ==> m == 0)
        && (factor > 0 && g > 0 ==> m >= 1)) by (nonlinear_arith)
        requires
            0 <= factor <= 1000,
            g >= 0,
            m == g * factor,
    ;
    if gap >= 0 {
        assert(gap * factor == m);
    } else {
        assert(-gap * factor == m) by (nonlinear_arith)
            requires
                m == g * factor,
                g == -gap,
        ;
    }
}

fn approach(from: i64, to: i64, factor: i64) -> (r: i64)
    requires
        -WORLD_EXTENT <= from <= WORLD_EXTENT,
        -WORLD_EXTENT <= to <= WORLD_EXTENT,
        0 <= factor <= 1000,
    ensures
        r == from + blend_step(to - from, factor as int),
        -WORLD_EXTENT <= r <= WORLD_EXTENT,
{
    let gap: i64 = to - from;
    proof {
        lemma_blend_step(gap as int, factor as int);
    }
    if gap >= 0 {
        assert(0 <= gap * factor <= 2 * WORLD_EXTENT * 1000) by (nonlinear_arith)
            requires
                0 <= gap <= 2 * WORLD_EXTENT,
                0 <= factor <= 1000,
        ;
        from + (gap * factor + 999) / 1000
    } else {
        let back: i64 = -gap;
        assert(0 <= back * factor <= 2 * WORLD_EXTENT * 1000) by (nonlinear_arith)
            requires
                0 <= back <= 2 * WORLD_EXTENT,
                0 <= factor <= 1000,
        ;
        assert(back * factor == -gap * factor);
        from - (back * factor + 999) / 1000
    }
}

/// Runs the camera for one frame behind a body at `subject`, if there is one.
pub fn camera_follow(cam: &mut FollowCamera, subject: Option<Vec3>, cfg: &Config, dt: i64)
    requires
        cfg.wf(),
        old(cam).wf(),
        subject matches Some(p) ==> p.in_world(),
    ensures
        *final(cam) == followed(*old(cam), subject, *cfg, dt as int),
        final(cam).wf(),
{
    match subject {
        None => {},
        Some(p) => {
            let tx: i64 = clamp(p.x + cfg.camera_offset.x, -WORLD_EXTENT, WORLD_EXTENT);
            let ty: i64 = clamp(p.y + cfg.camera_offset.y, -WORLD_EXTENT, WORLD_EXTENT);
            let tz: i64 = clamp(p.z + cfg.camera_offset.z, -WORLD_EXTENT, WORLD_EXTENT);
            let factor: i64 = clamp(scaled_by_time(cfg.camera_smoothing_rate, dt), 0, PER_MILLE);
            cam.position = Vec3 {
                x: approach(cam.position.x, tx, factor),
                y: approach(cam.position.y, ty, factor),
                z: approach(cam.position.z, tz, factor),
            };
            cam.look_target = p;
        },
    }
}

/// One frame never takes the camera further from its target, on any axis, and
/// leaves it facing the body.
pub proof fn lemma_follow_closes_in(cam: FollowCamera, p: Vec3, cfg: Config, dt: int)
    requires
        cfg.wf(),
        cam.wf(),
        p.in_world(),
    ensures
        followed(cam, Some(p), cfg, dt).wf(),
        followed(cam, Some(p), cfg, dt).look_target == p,
        abs_int(camera_target(p, cfg).x - followed(cam, Some(p), cfg, dt).position.x) <= abs_int(
            camera_target(p, cfg).x - cam.position.x,
        ),
        abs_int(camera_target(p, cfg).y - followed(cam, Some(p), cfg, dt).position.y) <= abs_int(
            camera_target(p, cfg).y - cam.position.y,
        ),
        abs_int(camera_target(p, cfg).z - followed(cam, Some(p), cfg, dt).position.z) <= abs_int(
            camera_target(p, cfg).z - cam.position.z,
        ),
        distance(followed(cam, Some(p), cfg, dt).position, camera_target(p, cfg)) <= distance(
            cam.position,
            camera_target(p, cfg),
        ),
        smoothing_factor(cfg, dt) > 0 && cam.position != camera_target(p, cfg) ==> distance(
            followed(cam, Some(p), cfg, dt).position,
            camera_target(p, cfg),
        ) < distance(cam.position, camera_target(p, cfg)),
        distance_squared(followed(cam, Some(p), cfg, dt).position, camera_target(p, cfg))
            <= distance_squared(cam.position, camera_target(p, cfg)),
        smoothing_factor(cfg, dt) == 1000 ==> followed(cam, Some(p), cfg, dt).position
            == camera_target(p, cfg),
{
    let t = camera_target(p, cfg);
    let f = smoothing_factor(cfg, dt);
    lemma_blend_step(t.x - cam.position.x, f);
    lemma_blend_step(t.y - cam.position.y, f);
    lemma_blend_step(t.z - cam.position.z, f);
    let q = followed(cam, Some(p), cfg, dt).position;
    lemma_square_is_monotone(t.x - q.x, t.x - cam.position.x);
    lemma_square_is_monotone(t.y - q.y, t.y - cam.position.y);
    lemma_square_is_monotone(t.z - q.z, t.z - cam.position.z);
}

/// Behind a body that stands still, with frames of one length, the camera's
/// distance to its target never grows from one frame to the next, summed
/// over the axes or in a straight line, and where the frames move it at all,
/// the summed distance falls by at least one unit per frame until it is
/// zero: after `n` frames it is at most the first distance less `n`.
pub proof fn lemma_camera_converges(cam: FollowCamera, p: Vec3, cfg: Config, dt: int, n: nat)
    requires
        cfg.wf(),
        cam.wf(),
        p.in_world(),
    ensures
        followed_n(cam, p, cfg, dt, n).wf(),
        distance(followed_n(cam, p, cfg, dt, n + 1).position, camera_target(p, cfg)) <= distance(
            followed_n(cam, p, cfg, dt, n).position,
            camera_target(p, cfg),
        ),
        distance(followed_n(cam, p, cfg, dt, n).position, camera_target(p, cfg)) <= distance(
            cam.position,
            camera_target(p, cfg),
        ),
        distance_squared(followed_n(cam, p, cfg, dt, n + 1).position, camera_target(p, cfg))
            <= distance_squared(followed_n(cam, p, cfg, dt, n).position, camera_target(p, cfg)),
        smoothing_factor(cfg, dt) > 0 ==> distance(
            followed_n(cam, p, cfg, dt, n).position,
            camera_target(p, cfg),
        ) <= clamp_int(
            distance(cam.position, camera_target(p, cfg)) - n,
            0,
            distance(cam.position, camera_target(p, cfg)),
        ),
        smoothing_factor(cfg, dt) > 0 && n >= distance(cam.position, camera_target(p, cfg))
            ==> followed_n(cam, p, cfg, dt, n).position == camera_target(p, cfg),
    decreases n,
{
    if n > 0 {
        lemma_camera_converges(cam, p, cfg, dt, (n - 1) as nat);
        lemma_follow_closes_in(followed_n(cam, p, cfg, dt, (n - 1) as nat), p, cfg, dt);
    }
    lemma_follow_closes_in(followed_n(cam, p, cfg, dt, n), p, cfg, dt);
    assert(followed_n(cam, p, cfg, dt, n + 1) == followed(
        followed_n(cam, p, cfg, dt, n),
        Some(p),
        cfg,
        dt,
    ));
}

} // verus!
