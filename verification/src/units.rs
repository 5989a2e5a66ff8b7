//! Fixed-point units and the limits that keep every step inside `i64`.
//!
//! Lengths are counted in nano-units, speeds in micro-units per second,
//! accelerations in milli-units per second squared and time in milliseconds.
//! Each derivative is a thousand times coarser than the quantity below it, so
//! `speed * milliseconds` is a length and `acceleration * milliseconds` is a
//! speed with nothing to round.
use vstd::prelude::*;

verus! {

/// Largest magnitude of a world coordinate (a million units).
pub const WORLD_EXTENT: i64 = 1_000_000_000_000_000;

/// Largest magnitude of a speed component (a thousand units per second).
pub const MAX_SPEED: i64 = 1_000_000_000;

/// Largest magnitude of an acceleration (a thousand units per second squared).
pub const MAX_ACCEL: i64 = 1_000_000;

/// Longest frame that is integrated in one update; longer frames count as this.
pub const MAX_FRAME_MS: i64 = 60_000;

/// Longest period or threshold that a timer may be configured with.
pub const MAX_DURATION_MS: i64 = 1_000_000_000;

/// The scale of a blend factor: a factor of `PER_MILLE` means "all the way".
pub const PER_MILLE: i64 = 1000;

/// Largest smoothing rate (per second) that a camera may be configured with.
pub const MAX_RATE: i64 = 1_000_000;

/// `x` restricted to the closed interval from `lo` to `hi`.
pub open spec fn clamp_int(x: int, lo: int, hi: int) -> int {
    if x < lo {
        lo
    } else if x > hi {
        hi
    } else {
        x
    }
}

/// The absolute value of `x`.
pub open spec fn abs_int(x: int) -> int {
    if x < 0 {
        -x
    } else {
        x
    }
}

/// The time that an update integrates for a reported frame time `dt`:
/// nothing for a zero or negative `dt`, at most `MAX_FRAME_MS`.
pub open spec fn frame_time(dt: int) -> int {
    clamp_int(dt, 0, MAX_FRAME_MS as int)
}

/// `x` restricted to the world: to `-WORLD_EXTENT ..= WORLD_EXTENT`.
pub open spec fn clamp_world(x: int) -> int {
    clamp_int(x, -(WORLD_EXTENT as int), WORLD_EXTENT as int)
}

/// `v` restricted to `-MAX_SPEED ..= MAX_SPEED`.
pub open spec fn clamp_speed(v: int) -> int {
    clamp_int(v, -(MAX_SPEED as int), MAX_SPEED as int)
}

/// The product of a bounded factor and a bounded non-negative factor is bounded
/// by the product of the bounds.
pub proof fn lemma_mul_bounds(a: int, b: int, amax: int, bmax: int)
    requires
        -amax <= a <= amax,
        0 <= b <= bmax,
    ensures
        -(amax * bmax) <= a * b <= amax * bmax,
{
    assert(-(amax * bmax) <= a * b <= amax * bmax) by (nonlinear_arith)
        requires
            -amax <= a <= amax,
            0 <= b <= bmax,
    ;
}

/// Restricts `x` to `lo ..= hi`.
pub fn clamp(x: i64, lo: i64, hi: i64) -> (r: i64)
    requires
        lo <= hi,
    ensures
        r == clamp_int(x as int, lo as int, hi as int),
{
    if x < lo {
        lo
    } else if x > hi {
        hi
    } else {
        x
    }
}

/// The time integrated for a reported frame time of `dt` milliseconds.
pub fn effective_dt(dt: i64) -> (t: i64)
    ensures
        t == frame_time(dt as int),
        0 <= t <= MAX_FRAME_MS,
{
    clamp(dt, 0, MAX_FRAME_MS)
}

/// What a rate adds up to over the frame: `rate * frame_time(dt)`. With a speed
/// this is a length, with an acceleration a speed.
pub fn scaled_by_time(rate: i64, dt: i64) -> (d: i64)
    requires
        -MAX_SPEED <= rate <= MAX_SPEED,
    ensures
        d == rate * frame_time(dt as int),
        -(MAX_SPEED * MAX_FRAME_MS) <= d <= MAX_SPEED * MAX_FRAME_MS,
{
    let t: i64 = effective_dt(dt);
    proof {
        lemma_mul_bounds(rate as int, t as int, MAX_SPEED as int, MAX_FRAME_MS as int);
    }
    rate * t
}

/// A coordinate moved by `delta` and kept inside the world.
pub fn shifted_in_world(x: i64, delta: i64) -> (r: i64)
    requires
        -WORLD_EXTENT <= x <= WORLD_EXTENT,
        -(MAX_SPEED * MAX_FRAME_MS) <= delta <= MAX_SPEED * MAX_FRAME_MS,
    ensures
        r == clamp_world(x + delta),
        -WORLD_EXTENT <= r <= WORLD_EXTENT,
{
    clamp(x + delta, -WORLD_EXTENT, WORLD_EXTENT)
}

} // verus!
