//! Interval arithmetic on instants.
//!
//! An instant is a number of nanoseconds since the Unix epoch, held in 64
//! bits. Spans between instants are measured in nanoseconds and, where the
//! power estimate calls for it, cut down to whole milliseconds.

use vstd::prelude::*;

verus! {

/// Nanoseconds in one millisecond.
pub const NANOS_PER_MILLI: u64 = 1_000_000;

/// Raised when a newly observed instant lies before the instant it is
/// measured against, so that the time elapsed between them would be negative.
#[derive(Clone, Copy, Debug, PartialEq, Eq)]
pub struct ClockError {
    /// The instant measured against.
    pub reference: u64,
    /// The instant that was observed, earlier than `reference`.
    pub observed: u64,
}

/// Whole milliseconds contained in a span of `nanos` nanoseconds, rounded
/// down.
pub open spec fn whole_millis(nanos: int) -> int {
    nanos / (NANOS_PER_MILLI as int)
}

/// Nanoseconds elapsed from `reference` to `observed`. Fails when `observed`
/// lies before `reference`; a negative span is never clamped to zero.
pub fn elapsed_nanos(reference: u64, observed: u64) -> (r: Result<u64, ClockError>)
    ensures
        observed >= reference ==> r == Ok::<u64, ClockError>((observed - reference) as u64),
        observed < reference ==> r == Err::<u64, ClockError>(ClockError { reference, observed }),
{
    if observed >= reference {
        Ok(observed - reference)
    } else {
        Err(ClockError { reference, observed })
    }
}

/// Whole milliseconds in `nanos` nanoseconds, rounded down.
pub fn millis_in(nanos: u64) -> (ms: u64)
    ensures
        ms == whole_millis(nanos as int),
        ms * NANOS_PER_MILLI <= nanos < (ms + 1) * NANOS_PER_MILLI,
{
    nanos / NANOS_PER_MILLI
}

} // verus!
