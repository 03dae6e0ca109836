//! Measuring how long the listener has waited.

use std::time::{Duration, Instant};
use vstd::prelude::*;

verus! {

/// A point in time of the monotonic clock.
#[verifier::external_type_specification]
#[verifier::external_body]
pub struct ExInstant(Instant);

/// The time from `earlier` to `later`, as `Instant::duration_since` gives
/// it.
pub uninterp spec fn span_between(later: Instant, earlier: Instant) -> Duration;

/// The whole milliseconds of a duration, as `Duration::as_millis` gives
/// them.
pub uninterp spec fn whole_millis(duration: Duration) -> u128;

/// `Instant::now` reads the monotonic clock. Nothing is claimed of what it
/// reads.
pub assume_specification[ Instant::now ]() -> (r: Instant)
;

/// `Instant::duration_since` gives the time from `earlier` to `this`, and
/// zero where `earlier` is the later one: its result depends on the two
/// instants and on nothing else. Nothing is claimed of the amount.
pub assume_specification[ Instant::duration_since ](this: &Instant, earlier: Instant) -> (r:
    Duration)
    ensures
        r == span_between(*this, earlier),
;

/// `Duration::as_millis` gives the whole milliseconds of a duration: its
/// result depends on the duration and on nothing else. Nothing is claimed
/// of the amount.
pub assume_specification[ Duration::as_millis ](this: &Duration) -> (r: u128)
    ensures
        r == whole_millis(*this),
;

/// The number itself where it fits in a `u64`, and the largest `u64`
/// otherwise.
pub open spec fn saturated(n: u128) -> u64 {
    if n <= u64::MAX {
        n as u64
    } else {
        u64::MAX
    }
}

/// A simple stopwatch. It runs from the moment it is made.
pub struct SimpleStopWatch {
    start: Instant,
}

impl SimpleStopWatch {
    /// The instant at which the stopwatch was started.
    pub closed spec fn started(&self) -> Instant {
        self.start
    }

    /// Starts a stopwatch. The instant at which it starts is the one that
    /// the clock gives.
    pub fn new() -> Self {
        let start = Instant::now();
        SimpleStopWatch { start }
    }

    /// The time since the stopwatch was started: the time from its start
    /// to the instant that the clock gives now.
    pub fn elapsed(&self) -> (r: Duration)
        ensures
            exists|now: Instant| r == #[trigger] span_between(now, self.started()),
    {
        let now = Instant::now();
        let elapsed = now.duration_since(self.start);
        assert(elapsed == span_between(now, self.started()));
        elapsed
    }

    /// The whole milliseconds since the stopwatch was started, and the
    /// largest `u64` where they do not fit in one.
    pub fn elapsed_ms(&self) -> (r: u64)
        ensures
            exists|now: Instant|
                r == saturated(whole_millis(#[trigger] span_between(now, self.started()))),
    {
        saturate_to_u64(self.elapsed().as_millis())
    }
}

/// The number itself where it fits in a `u64`, and the largest `u64`
/// otherwise.
pub fn saturate_to_u64(n: u128) -> (r: u64)
    ensures
        r == saturated(n),
{
    if n > 0xffff_ffff_ffff_ffff {
        u64::MAX
    } else {
        n as u64
    }
}

} // verus!
