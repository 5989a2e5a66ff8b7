//! The whole simulation and its frame.
//!
//! A frame runs the movement controller, gravity and collision, the fall
//! monitor and the camera, in that order, on the body; then the spawner, and
//! last the motion of every obstacle, one that has just appeared included.
use vstd::prelude::*;
use crate::body::{BodyState, KinematicBody};
use crate::camera::{
    camera_follow, camera_target, followed, lemma_blend_step, smoothing_factor, FollowCamera,
};
use crate::config::Config;
use crate::fall::{monitor_fall, monitored};
use crate::gravity::{apply_gravity, drifted, fallen, lands};
use crate::movement::{move_player, moved, Input};
use crate::spawner::{
    all_advanced, all_valid, move_velocity, spawn_obstacles, spawn_obstacles_at, with_spawn, Obstacle,
    SpawnTimer,
};
use crate::units::{frame_time, WORLD_EXTENT};
use crate::vec3::Vec3;

verus! {

/// Everything that a frame reads and changes.
#[derive(Debug)]
pub struct World {
    pub body: KinematicBody,
    pub camera: FollowCamera,
    pub timer: SpawnTimer,
    pub obstacles: Vec<Obstacle>,
}

/// A world as a mathematical value.
pub struct WorldView {
    pub body: KinematicBody,
    pub camera: FollowCamera,
    pub timer: SpawnTimer,
    pub obstacles: Seq<Obstacle>,
}

impl View for World {
    type V = WorldView;

    open spec fn view(&self) -> WorldView {
        WorldView {
            body: self.body,
            camera: self.camera,
            timer: self.timer,
            obstacles: self.obstacles@,
        }
    }
}

/// The body after one frame: moved by the keys, pulled by gravity, held by
/// the platform, and watched by the fall monitor.
pub open spec fn body_stepped(body: KinematicBody, cfg: Config, input: Input, dt: int)
    -> KinematicBody {
    monitored(fallen(moved(body, cfg, input, dt), cfg, dt), cfg, dt)
}

/// The world after one frame in which the random source gave `x`.
pub open spec fn stepped(w: WorldView, cfg: Config, input: Input, dt: int, x: i64) -> WorldView {
    let body = body_stepped(w.body, cfg, input, dt);
    WorldView {
        body,
        camera: followed(w.camera, Some(body.position), cfg, dt),
        timer: w.timer.ticked(dt),
        obstacles: all_advanced(with_spawn(w.obstacles, w.timer, cfg, dt, x), dt),
    }
}

impl WorldView {
    /// Every part of the world meets its invariant under `cfg`.
    pub open spec fn wf(self, cfg: Config) -> bool {
        &&& self.body.wf(cfg)
        &&& self.camera.wf()
        &&& self.timer.wf()
        &&& all_valid(self.obstacles)
    }
}

impl World {
    /// The world at the start: the body at rest on the ground at `(x, z)`,
    /// the camera at `camera_position` and facing the body, the spawn timer
    /// at nothing, and no obstacle.
    pub fn new(cfg: &Config, x: i64, z: i64, camera_position: Vec3) -> (world: World)
        requires
            cfg.wf(),
            -WORLD_EXTENT <= x <= WORLD_EXTENT,
            -WORLD_EXTENT <= z <= WORLD_EXTENT,
            camera_position.in_world(),
        ensures
            world@.wf(*cfg),
            world@.body == KinematicBody::resting(*cfg, x, z),
            world@.camera == (FollowCamera {
                position: camera_position,
                look_target: KinematicBody::resting(*cfg, x, z).position,
            }),
            world@.timer == (SpawnTimer { period: cfg.spawn_period_ms, elapsed: 0 }),
            world@.obstacles == Seq::<Obstacle>::empty(),
    {
        let body = KinematicBody::new(cfg, x, z);
        World {
            body,
            camera: FollowCamera::new(camera_position, body.position),
            timer: SpawnTimer::new(cfg.spawn_period_ms),
            obstacles: Vec::new(),
        }
    }

    /// Tells whether every part of the world meets its invariant under `cfg`.
    pub fn is_valid(&self, cfg: &Config) -> (b: bool)
        ensures
            b == self@.wf(*cfg),
    {
        if !(self.body.is_valid(cfg) && self.camera.position.is_in_world()
            && self.camera.look_target.is_in_world() && self.timer.is_valid()) {
            return false;
        }
        let n: usize = self.obstacles.len();
        let mut i: usize = 0;
        while i < n
            invariant
                i <= n,
                n == self.obstacles@.len(),
                forall|j: int| 0 <= j < i ==> (#[trigger] self.obstacles@[j]).wf(),
            decreases n - i,
        {
            let o: Obstacle = self.obstacles[i];
            if !(o.position.is_in_world() && o.velocity.is_admissible_velocity()) {
                return false;
            }
            i = i + 1;
        }
        true
    }

    fn step_body(&mut self, cfg: &Config, input: &Input, dt: i64)
        requires
            cfg.wf(),
            old(self)@.wf(*cfg),
        ensures
            final(self).body == body_stepped(old(self).body, *cfg, *input, dt as int),
            final(self).camera == followed(
                old(self).camera,
                Some(final(self).body.position),
                *cfg,
                dt as int,
            ),
            final(self).timer == old(self).timer,
            final(self).obstacles == old(self).obstacles,
            final(self)@.wf(*cfg),
    {
        move_player(&mut self.body, cfg, input, dt);
        apply_gravity(&mut self.body, cfg, dt);
        monitor_fall(&mut self.body, cfg, dt);
        camera_follow(&mut self.camera, Some(self.body.position), cfg, dt);
    }

    /// Runs one frame, with `x` as the place of the obstacle that appears if
    /// the spawn timer fires. Tells whether it fired.
    pub fn step_with(&mut self, cfg: &Config, input: &Input, dt: i64, x: i64) -> (fired: bool)
        requires
            cfg.wf(),
            old(self)@.wf(*cfg),
            -cfg.spawn_x_range <= x <= cfg.spawn_x_range,
        ensures
            final(self)@ == stepped(old(self)@, *cfg, *input, dt as int, x),
            final(self)@.wf(*cfg),
            fired == old(self).timer.fires(dt as int),
    {
        self.step_body(cfg, input, dt);
        let fired = spawn_obstacles_at(&mut self.timer, &mut self.obstacles, cfg, dt, x);
        move_velocity(&mut self.obstacles, dt);
        fired
    }

    /// Runs one frame. An obstacle that appears does so at a random x within
    /// `spawn_x_range` of the centre. Tells whether the spawn timer fired.
    pub fn step(&mut self, cfg: &Config, input: &Input, dt: i64) -> (fired: bool)
        requires
            cfg.wf(),
            old(self)@.wf(*cfg),
        ensures
            exists|x: i64|
                -cfg.spawn_x_range <= x <= cfg.spawn_x_range && final(self)@ == #[trigger] stepped(
                    old(self)@,
                    *cfg,
                    *input,
                    dt as int,
                    x,
                ),
            final(self)@.wf(*cfg),
            fired == old(self).timer.fires(dt as int),
    {
        self.step_body(cfg, input, dt);
        let ghost before = self.obstacles@;
        let fired = spawn_obstacles(&mut self.timer, &mut self.obstacles, cfg, dt);
        let ghost x: i64 = if fired {
            choose|x: i64|
                -cfg.spawn_x_range <= x <= cfg.spawn_x_range && self.obstacles@ == before.push(
                    #[trigger] Obstacle::spawned(*cfg, x),
                )
        } else {
            0
        };
        move_velocity(&mut self.obstacles, dt);
        assert(self@ == stepped(old(self)@, *cfg, *input, dt as int, x));
        fired
    }
}

/// The phase of the body after a frame. It is grounded if it landed in the
/// frame, or if the frame brought the fall timer to the threshold while the
/// body was out of bounds; it is falling out of bounds if it ended the
/// motion below the ground's height and off the platform with time to spare;
/// and it is airborne otherwise.
pub proof fn lemma_frame_outcome(body: KinematicBody, cfg: Config, input: Input, dt: int)
    requires
        cfg.wf(),
        body.wf(cfg),
    ensures
        ({
            let walked = moved(body, cfg, input, dt);
            let after = body_stepped(body, cfg, input, dt);
            let lost = cfg.out_of_bounds(drifted(walked, cfg, dt));
            let late = walked.fall_elapsed + frame_time(dt) >= cfg.fall_threshold_ms;
            &&& !(lands(walked, cfg, dt) && lost)
            &&& lands(walked, cfg, dt) ==> after.state(cfg) == BodyState::Grounded
                && after.position.y == cfg.ground_height && after.fall_elapsed == 0
            &&& lost && late ==> after == body.respawned()
            &&& lost && !late ==> after.state(cfg) == BodyState::FallingOutOfBounds
                && after.fall_elapsed == walked.fall_elapsed + frame_time(dt)
            &&& !lands(walked, cfg, dt) && !lost ==> after.state(cfg) == BodyState::Airborne
                && after.fall_elapsed == 0
        }),
{
}

/// What one frame is given: the keys, its length in milliseconds, and the
/// number that the random source hands out in it.
#[derive(Clone, Copy, Debug, PartialEq, Eq, Structural)]
pub struct Frame {
    pub input: Input,
    pub dt: i64,
    pub x: i64,
}

/// The world after the frames of `frames`, first to last.
pub open spec fn run(w: WorldView, cfg: Config, frames: Seq<Frame>) -> WorldView
    decreases frames.len(),
{
    if frames.len() == 0 {
        w
    } else {
        let last = frames.last();
        stepped(run(w, cfg, frames.drop_last()), cfg, last.input, last.dt as int, last.x)
    }
}

/// A frame takes a world that meets its invariant to one that meets it.
pub proof fn lemma_stepped_is_valid(w: WorldView, cfg: Config, input: Input, dt: int, x: i64)
    requires
        cfg.wf(),
        w.wf(cfg),
        -cfg.spawn_x_range <= x <= cfg.spawn_x_range,
    ensures
        stepped(w, cfg, input, dt, x).wf(cfg),
        stepped(w, cfg, input, dt, x).timer.period == w.timer.period,
        stepped(w, cfg, input, dt, x).body.spawn_position == w.body.spawn_position,
{
    let walked = moved(w.body, cfg, input, dt);
    assert(walked.wf(cfg));
    let dropped = fallen(walked, cfg, dt);
    assert(dropped.wf(cfg));
    let body = monitored(dropped, cfg, dt);
    assert(body.wf(cfg));
    let target = camera_target(body.position, cfg);
    let factor = smoothing_factor(cfg, dt);
    lemma_blend_step(target.x - w.camera.position.x, factor);
    lemma_blend_step(target.y - w.camera.position.y, factor);
    lemma_blend_step(target.z - w.camera.position.z, factor);
    assert(followed(w.camera, Some(body.position), cfg, dt).wf());
    let total = w.timer.elapsed + frame_time(dt);
    assert(0 <= total % (w.timer.period as int) < w.timer.period) by (nonlinear_arith)
        requires
            0 <= total,
            0 < w.timer.period,
    ;
    assert(w.timer.ticked(dt).wf());
    let grown = with_spawn(w.obstacles, w.timer, cfg, dt, x);
    assert(Obstacle::spawned(cfg, x).wf());
    assert(all_valid(grown));
    assert(all_valid(all_advanced(grown, dt)));
}

/// Whatever the keys, the frame lengths and the random numbers, a world that
/// starts out meeting its invariant meets it after every frame. In
/// particular a grounded body always rests exactly at the ground's height
/// with no vertical speed, the fall timer runs only while the body is not
/// grounded and stays below the threshold, and the spawn timer holds less
/// than a period.
pub proof fn lemma_run_keeps_invariant(w: WorldView, cfg: Config, frames: Seq<Frame>)
    requires
        cfg.wf(),
        w.wf(cfg),
        forall|i: int|
            0 <= i < frames.len() ==> -cfg.spawn_x_range <= (#[trigger] frames[i]).x
                <= cfg.spawn_x_range,
    ensures
        run(w, cfg, frames).wf(cfg),
        run(w, cfg, frames).body.grounded ==> run(w, cfg, frames).body.position.y
            == cfg.ground_height && run(w, cfg, frames).body.velocity.y == 0,
        run(w, cfg, frames).body.fall_elapsed > 0 ==> !run(w, cfg, frames).body.grounded,
        0 <= run(w, cfg, frames).body.fall_elapsed < cfg.fall_threshold_ms,
        run(w, cfg, frames).body.spawn_position == w.body.spawn_position,
        run(w, cfg, frames).timer.period == w.timer.period,
        0 <= run(w, cfg, frames).timer.elapsed < w.timer.period,
    decreases frames.len(),
{
    if frames.len() > 0 {
        let last = frames.last();
        lemma_run_keeps_invariant(w, cfg, frames.drop_last());
        lemma_stepped_is_valid(
            run(w, cfg, frames.drop_last()),
            cfg,
            last.input,
            last.dt as int,
            last.x,
        );
    }
}

} // verus!
