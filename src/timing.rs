//! Elapsed-time measurement on the monotonic clock.

use vstd::prelude::*;

use std::time::{Duration, Instant};

verus! {

#[verifier::external_type_specification]
#[verifier::external_body]
pub struct ExInstant(Instant);

/// Relies on `Instant::now`: a reading of the monotonic clock; nothing is
/// known of its value.
pub assume_specification[ Instant::now ]() -> Instant;

/// Relies on `Instant::elapsed`: the time since the reading; nothing is known
/// of its value.
pub assume_specification[ Instant::elapsed ](instant: &Instant) -> Duration;

/// Relies on `Duration::as_secs`: the whole seconds of a duration.
pub assume_specification[ Duration::as_secs ](duration: &Duration) -> u64;

/// Relies on `Duration::subsec_nanos`: the nanoseconds past the whole
/// seconds, which std documents as always less than one billion.
pub assume_specification[ Duration::subsec_nanos ](duration: &Duration) -> (r: u32)
    ensures
        r < 1_000_000_000,
;

/// Whole milliseconds of a duration given as seconds and nanoseconds, held
/// at `u64::MAX`.
pub open spec fn milliseconds_of(seconds: u64, subsec_nanos: u32) -> int {
    let exact = seconds * 1000 + subsec_nanos / 1_000_000;
    if exact > u64::MAX {
        u64::MAX as int
    } else {
        exact
    }
}

/// Whole milliseconds of `seconds` plus `subsec_nanos` nanoseconds.
pub fn milliseconds_from_parts(seconds: u64, subsec_nanos: u32) -> (r: u64)
    requires
        subsec_nanos < 1_000_000_000,
    ensures
        r == milliseconds_of(seconds, subsec_nanos),
{
    let millis: u64 = (subsec_nanos / 1_000_000) as u64;
    if seconds > (u64::MAX - millis) / 1000 {
        u64::MAX
    } else {
        seconds * 1000 + millis
    }
}

/// Whole milliseconds of a duration.
pub fn compute_milliseconds(duration: &Duration) -> (r: u64)
    ensures
        exists|seconds: u64, subsec_nanos: u32|
            subsec_nanos < 1_000_000_000 && r == milliseconds_of(seconds, subsec_nanos),
{
    let seconds = duration.as_secs();
    let subsec_nanos = duration.subsec_nanos();
    milliseconds_from_parts(seconds, subsec_nanos)
}

/// A start mark on the monotonic clock.
pub struct Timestamp {
    time: Instant,
}

impl Timestamp {
    /// Marks the current time.
    pub fn new() -> Timestamp {
        Timestamp { time: Instant::now() }
    }

    /// Whole milliseconds since the mark.
    pub fn elapsed_milliseconds(&self) -> (r: u64)
        ensures
            exists|seconds: u64, subsec_nanos: u32|
                subsec_nanos < 1_000_000_000 && r == milliseconds_of(seconds, subsec_nanos),
    {
        compute_milliseconds(&self.time.elapsed())
    }

    /// The time since the mark.
    pub fn elapsed_time(&self) -> Duration {
        self.time.elapsed()
    }
}

} // verus!
