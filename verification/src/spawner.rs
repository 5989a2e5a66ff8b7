//! The obstacle spawner: a repeating timer, the obstacles it creates and
//! their motion.
//!
//! The timer fires at most once per frame, however long the frame was. When
//! it fires, whole periods are dropped from the elapsed time and the rest is
//! kept, so a steady sequence of frames does not drift.
use vstd::prelude::*;
use rand::Rng;
use crate::config::Config;
use crate::units::{effective_dt, frame_time, MAX_DURATION_MS, MAX_FRAME_MS};
use crate::vec3::Vec3;

verus! {

/// A repeating timer.
#[derive(Clone, Copy, Debug, PartialEq, Eq, Structural)]
pub struct SpawnTimer {
    /// Milliseconds between two firings.
    pub period: i64,
    /// Milliseconds since the last firing.
    pub elapsed: i64,
}

/// A block that moves in a straight line.
#[derive(Clone, Copy, Debug, PartialEq, Eq, Structural)]
pub struct Obstacle {
    pub position: Vec3,
    pub velocity: Vec3,
}

impl SpawnTimer {
    /// The period is positive and within limits, and less than a period has
    /// elapsed.
    pub open spec fn wf(self) -> bool {
        &&& 0 < self.period <= MAX_DURATION_MS
        &&& 0 <= self.elapsed < self.period
    }

    /// The timer fires in a frame of `dt` milliseconds.
    pub open spec fn fires(self, dt: int) -> bool {
        self.elapsed + frame_time(dt) >= self.period
    }

    /// The timer after a frame of `dt` milliseconds.
    pub open spec fn ticked(self, dt: int) -> SpawnTimer {
        SpawnTimer {
            period: self.period,
            elapsed: ((self.elapsed + frame_time(dt)) % (self.period as int)) as i64,
        }
    }

    /// The timer after `n` frames of `dt` milliseconds each.
    pub open spec fn ticked_n(self, dt: int, n: nat) -> SpawnTimer
        decreases n,
    {
        if n == 0 {
            self
        } else {
            self.ticked_n(dt, (n - 1) as nat).ticked(dt)
        }
    }

    /// How often the timer fires in `n` frames of `dt` milliseconds each.
    pub open spec fn firings(self, dt: int, n: nat) -> nat
        decreases n,
    {
        if n == 0 {
            0
        } else {
            let before = self.firings(dt, (n - 1) as nat);
            if self.ticked_n(dt, (n - 1) as nat).fires(dt) {
                before + 1
            } else {
                before
            }
        }
    }

    /// A timer with the given period and nothing elapsed.
    pub fn new(period: i64) -> (timer: SpawnTimer)
        requires
            0 < period <= MAX_DURATION_MS,
        ensures
            timer == (SpawnTimer { period, elapsed: 0 }),
            timer.wf(),
    {
        SpawnTimer { period, elapsed: 0 }
    }

    /// Tells whether the timer meets its invariant.
    pub fn is_valid(&self) -> (b: bool)
        ensures
            b == self.wf(),
    {
        0 < self.period && self.period <= MAX_DURATION_MS && 0 <= self.elapsed && self.elapsed
            < self.period
    }

    /// Advances the timer by one frame and tells whether it fired.
    pub fn tick(&mut self, dt: i64) -> (fired: bool)
        requires
            old(self).wf(),
        ensures
            fired == old(self).fires(dt as int),
            *final(self) == old(self).ticked(dt as int),
            final(self).wf(),
    {
        let total: i64 = self.elapsed + effective_dt(dt);
        if total >= self.period {
            self.elapsed = total % self.period;
            true
        } else {
            assert(total % self.period == total) by (nonlinear_arith)
                requires
                    0 <= total < self.period,
            ;
            self.elapsed = total;
            false
        }
    }
}

impl Obstacle {
    /// Position and velocity are within limits.
    pub open spec fn wf(self) -> bool {
        self.position.in_world() && self.velocity.is_velocity()
    }

    /// The obstacle that appears at `x`.
    pub open spec fn spawned(cfg: Config, x: i64) -> Obstacle {
        Obstacle {
            position: Vec3 { x, y: cfg.spawn_y, z: cfg.spawn_z },
            velocity: cfg.obstacle_velocity,
        }
    }

    /// The obstacle after a frame of `dt` milliseconds: moved by its
    /// velocity, which it keeps.
    pub open spec fn advanced(self, dt: int) -> Obstacle {
        Obstacle { position: self.position.advanced(self.velocity, dt), velocity: self.velocity }
    }
}

/// Every obstacle of `s` is within limits.
pub open spec fn all_valid(s: Seq<Obstacle>) -> bool {
    forall|i: int| 0 <= i < s.len() ==> (#[trigger] s[i]).wf()
}

/// The obstacles of `s`, each after a frame of `dt` milliseconds.
pub open spec fn all_advanced(s: Seq<Obstacle>, dt: int) -> Seq<Obstacle> {
    Seq::new(s.len(), |i: int| s[i].advanced(dt))
}

/// The obstacles after the spawner has run for a frame in which the random
/// source gave `x`: one more at the end if the timer fired, else the same.
pub open spec fn with_spawn(s: Seq<Obstacle>, timer: SpawnTimer, cfg: Config, dt: int, x: i64)
    -> Seq<Obstacle> {
    if timer.fires(dt) {
        s.push(Obstacle::spawned(cfg, x))
    } else {
        s
    }
}

/// The obstacles after `n` frames of the spawner, of `dt` milliseconds each,
/// where the random source gives `xs[i]` in frame `i`.
pub open spec fn spawned_n(
    s: Seq<Obstacle>,
    timer: SpawnTimer,
    cfg: Config,
    dt: int,
    xs: Seq<i64>,
    n: nat,
) -> Seq<Obstacle>
    decreases n,
{
    if n == 0 {
        s
    } else {
        with_spawn(
            spawned_n(s, timer, cfg, dt, xs, (n - 1) as nat),
            timer.ticked_n(dt, (n - 1) as nat),
            cfg,
            dt,
            xs[n - 1],
        )
    }
}

/// Draws an integer from `lo ..= hi` with `gen_range` of rand's `Rng`, on the
/// generator that `rand::thread_rng` hands out. Believed of it: the number
/// lies in the closed interval. Nothing is claimed about which number comes.
#[verifier::external_body]
fn random_between(lo: i64, hi: i64) -> (x: i64)
    requires
        lo <= hi,
    ensures
        lo <= x <= hi,
{
    rand::thread_rng().gen_range(lo..=hi)
}

/// Runs the spawner for one frame, with `x` as the place of the obstacle
/// that appears if the timer fires.
pub fn spawn_obstacles_at(
    timer: &mut SpawnTimer,
    obstacles: &mut Vec<Obstacle>,
    cfg: &Config,
    dt: i64,
    x: i64,
) -> (fired: bool)
    requires
        cfg.wf(),
        old(timer).wf(),
        all_valid(old(obstacles)@),
        -cfg.spawn_x_range <= x <= cfg.spawn_x_range,
    ensures
        fired == old(timer).fires(dt as int),
        *final(timer) == old(timer).ticked(dt as int),
        final(timer).wf(),
        final(obstacles)@ == with_spawn(old(obstacles)@, *old(timer), *cfg, dt as int, x),
        all_valid(final(obstacles)@),
{
    let fired = timer.tick(dt);
    if fired {
        obstacles.push(
            Obstacle {
                position: Vec3 { x, y: cfg.spawn_y, z: cfg.spawn_z },
                velocity: cfg.obstacle_velocity,
            },
        );
    }
    fired
}

/// Runs the spawner for one frame. An obstacle that appears does so at a
/// random x within `spawn_x_range` of the centre; the random source is asked
/// only in a frame in which the timer fires.
pub fn spawn_obstacles(
    timer: &mut SpawnTimer,
    obstacles: &mut Vec<Obstacle>,
    cfg: &Config,
    dt: i64,
) -> (fired: bool)
    requires
        cfg.wf(),
        old(timer).wf(),
        all_valid(old(obstacles)@),
    ensures
        fired == old(timer).fires(dt as int),
        *final(timer) == old(timer).ticked(dt as int),
        final(timer).wf(),
        !fired ==> final(obstacles)@ == old(obstacles)@,
        fired ==> exists|x: i64|
            -cfg.spawn_x_range <= x <= cfg.spawn_x_range && final(obstacles)@ == old(
                obstacles,
            )@.push(#[trigger] Obstacle::spawned(*cfg, x)),
        all_valid(final(obstacles)@),
{
    let fired = timer.tick(dt);
    if fired {
        let x: i64 = random_between(-cfg.spawn_x_range, cfg.spawn_x_range);
        obstacles.push(
            Obstacle {
                position: Vec3 { x, y: cfg.spawn_y, z: cfg.spawn_z },
                velocity: cfg.obstacle_velocity,
            },
        );
        assert(final(obstacles)@ == old(obstacles)@.push(Obstacle::spawned(*cfg, x)));
    }
    fired
}

/// Moves every obstacle by its velocity for one frame.
pub fn move_velocity(obstacles: &mut Vec<Obstacle>, dt: i64)
    requires
        all_valid(old(obstacles)@),
    ensures
        final(obstacles)@ == all_advanced(old(obstacles)@, dt as int),
        all_valid(final(obstacles)@),
{
    let n: usize = obstacles.len();
    let mut i: usize = 0;
    while i < n
        invariant
            i <= n,
            obstacles@.len() == n,
            old(obstacles)@.len() == n,
            forall|j: int| 0 <= j < i ==> obstacles@[j] == old(obstacles)@[j].advanced(dt as int),
            forall|j: int| i <= j < n ==> obstacles@[j] == old(obstacles)@[j],
            all_valid(obstacles@),
            all_valid(old(obstacles)@),
        decreases n - i,
    {
        let o: Obstacle = obstacles[i];
        let moved = Obstacle { position: o.position.advance(&o.velocity, dt), velocity: o.velocity };
        obstacles.set(i, moved);
        i = i + 1;
    }
    assert(obstacles@ =~= all_advanced(old(obstacles)@, dt as int));
}

/// With frames of a tenth of the period, a timer that starts from nothing
/// fires in every tenth frame and in no other: `n / 10` times in `n` frames.
pub proof fn lemma_fires_every_tenth_frame(timer: SpawnTimer, dt: int, n: nat)
    requires
        timer.wf(),
        timer.elapsed == 0,
        0 < dt <= MAX_FRAME_MS,
        timer.period == 10 * dt,
    ensures
        timer.ticked_n(dt, n).period == timer.period,
        timer.ticked_n(dt, n).elapsed == (n % 10) * dt,
        timer.firings(dt, n) == n / 10,
    decreases n,
{
    let r = (n % 10) as int;
    assert(r == 0 ==> r * dt == 0) by (nonlinear_arith);
    if n > 0 {
        let m = (n - 1) as nat;
        lemma_fires_every_tenth_frame(timer, dt, m);
        let before = timer.ticked_n(dt, m);
        let k = (m % 10) as int;
        let total = before.elapsed + dt;
        assert(frame_time(dt) == dt);
        assert(timer.ticked_n(dt, n) == before.ticked(dt));
        assert(k == 9 ==> r == 0);
        assert(k < 9 ==> r == k + 1);
        assert(total == (k + 1) * dt) by (nonlinear_arith)
            requires
                total == k * dt + dt,
        ;
        if k == 9 {
            assert(total == timer.period);
            assert(total % timer.period as int == 0) by (nonlinear_arith)
                requires
                    total == timer.period,
                    timer.period > 0,
            ;
        } else {
            assert(total < timer.period && total >= 0) by (nonlinear_arith)
                requires
                    total == (k + 1) * dt,
                    0 <= k < 9,
                    dt > 0,
                    timer.period == 10 * dt,
            ;
            assert(total % timer.period as int == total) by (nonlinear_arith)
                requires
                    0 <= total < timer.period,
            ;
        }
    }
}

/// Each firing of the timer creates one obstacle and nothing else does: with
/// frames of a tenth of the period, `n` frames create `n / 10` obstacles, and
/// those that were there stay in front, unchanged.
pub proof fn lemma_one_obstacle_per_period(
    s: Seq<Obstacle>,
    timer: SpawnTimer,
    cfg: Config,
    dt: int,
    xs: Seq<i64>,
    n: nat,
)
    requires
        timer.wf(),
        timer.elapsed == 0,
        0 < dt <= MAX_FRAME_MS,
        timer.period == 10 * dt,
    ensures
        spawned_n(s, timer, cfg, dt, xs, n).len() == s.len() + n / 10,
        spawned_n(s, timer, cfg, dt, xs, n).subrange(0, s.len() as int) == s,
    decreases n,
{
    lemma_fires_every_tenth_frame(timer, dt, n);
    if n > 0 {
        let m = (n - 1) as nat;
        lemma_one_obstacle_per_period(s, timer, cfg, dt, xs, m);
        lemma_fires_every_tenth_frame(timer, dt, m);
        let before = spawned_n(s, timer, cfg, dt, xs, m);
        let after = spawned_n(s, timer, cfg, dt, xs, n);
        assert(after.subrange(0, s.len() as int) =~= before.subrange(0, s.len() as int));
    } else {
        assert(s.subrange(0, s.len() as int) =~= s);
    }
}

/// A frame adds at most one obstacle, however long it was.
pub proof fn lemma_at_most_one_per_frame(
    s: Seq<Obstacle>,
    timer: SpawnTimer,
    cfg: Config,
    dt: int,
    x: i64,
)
    ensures
        s.len() <= with_spawn(s, timer, cfg, dt, x).len() <= s.len() + 1,
        with_spawn(s, timer, cfg, dt, x).len() == s.len() + 1 <==> timer.fires(dt),
{
}

} // verus!
