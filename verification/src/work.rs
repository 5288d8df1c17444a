//! Busy work: computation with no result, done to turn CPU time into heat.
//!
//! A worker spins on the monotonic clock until its time is up. It shares
//! nothing with other workers. The clock is read through trusted functions;
//! what a worker makes of each reading is decided by `spin_step`.

use std::time::{Duration, Instant};
use vstd::prelude::*;

verus! {

/// A point on the monotonic clock of std. Nothing is known of what is inside.
#[verifier::external_type_specification]
#[verifier::external_body]
pub struct ExInstant(Instant);

/// The number of nanoseconds in a second.
pub const NANOS_PER_SECOND: u128 = 1_000_000_000;

/// The number of clock readings in a row that may bring nothing new before a
/// worker takes the clock for broken.
pub const STALL_LIMIT: u64 = 0xffff_ffff_ffff_ffff;

/// The time, in nanoseconds, that `seconds` seconds of busy work take.
pub open spec fn work_nanos(seconds: u64) -> nat {
    (seconds * NANOS_PER_SECOND) as nat
}

/// How far a worker has come.
#[derive(Clone, Copy, Debug, PartialEq, Eq, Structural)]
pub struct Progress {
    /// The largest time since the start that was read so far, in nanoseconds.
    pub seen: u128,
    /// How many readings in a row, up to now, were not larger than `seen`.
    pub stalled: u64,
}

/// What a worker does after a clock reading.
#[derive(Clone, Copy, Debug, PartialEq, Eq, Structural)]
pub enum Spin {
    /// The time is up; the reading that showed it, in nanoseconds.
    Done(u128),
    /// Read the clock again.
    Busy(Progress),
    /// The clock has stood still for more than `STALL_LIMIT` readings.
    Stuck,
}

/// What a reading of `reading` nanoseconds since the start means to a worker
/// that spins for `target` nanoseconds and has come as far as `progress`.
pub open spec fn spin_after(target: u128, progress: Progress, reading: u128) -> Spin {
    if reading >= target {
        Spin::Done(reading)
    } else if reading > progress.seen {
        Spin::Busy(Progress { seen: reading, stalled: 0 })
    } else if progress.stalled < STALL_LIMIT {
        Spin::Busy(Progress { seen: progress.seen, stalled: (progress.stalled + 1) as u64 })
    } else {
        Spin::Stuck
    }
}

/// Decides what a worker does after one clock reading.
pub fn spin_step(target: u128, progress: Progress, reading: u128) -> (next: Spin)
    ensures
        next == spin_after(target, progress, reading),
{
    if reading >= target {
        Spin::Done(reading)
    } else if reading > progress.seen {
        Spin::Busy(Progress { seen: reading, stalled: 0 })
    } else if progress.stalled < STALL_LIMIT {
        Spin::Busy(Progress { seen: progress.seen, stalled: progress.stalled + 1 })
    } else {
        Spin::Stuck
    }
}

/// The present instant.
///
/// Trusted: calls `std::time::Instant::now`. Nothing is claimed of the result.
#[verifier::external_body]
fn clock_start() -> (start: Instant) {
    Instant::now()
}

/// The time that has passed since `start`.
///
/// Trusted: calls `std::time::Instant::elapsed`. Nothing is claimed of the
/// result: it depends on the time.
#[verifier::external_body]
fn elapsed_since(start: &Instant) -> (passed: Duration) {
    start.elapsed()
}

/// A duration in whole nanoseconds.
///
/// Trusted: calls `std::time::Duration::as_nanos`. A duration is opaque here,
/// so nothing is claimed of the result.
#[verifier::external_body]
fn nanos_of(passed: &Duration) -> (nanos: u128) {
    passed.as_nanos()
}

/// Uses up one CPU for `seconds` seconds, counted from the call.
///
/// Returns the time since the call, in nanoseconds, that the clock showed when
/// the work ended. The work ends early, with `None`, only where the clock has
/// stood still for more than `STALL_LIMIT` readings in a row.
pub fn busy_work(seconds: u64) -> (spent: Option<u128>)
    ensures
        spent matches Some(nanos) ==> nanos >= work_nanos(seconds),
        seconds == 0 ==> spent.is_some(),
{
    let start = clock_start();
    let target: u128 = seconds as u128 * NANOS_PER_SECOND;
    let mut progress = Progress { seen: 0, stalled: 0 };
    loop
        invariant
            target == work_nanos(seconds),
            progress.seen <= target,
        decreases target - progress.seen, STALL_LIMIT - progress.stalled,
    {
        let passed = elapsed_since(&start);
        match spin_step(target, progress, nanos_of(&passed)) {
            Spin::Done(nanos) => {
                return Some(nanos);
            },
            Spin::Busy(next) => {
                progress = next;
            },
            Spin::Stuck => {
                return None;
            },
        }
    }
}

} // verus!
