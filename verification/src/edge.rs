//! What the edge source reports about the monitored line.

use vstd::prelude::*;

verus! {

/// Longest time, in seconds, to wait for the line to change before the meter
/// is taken to have gone quiet.
pub const IDLE_TIMEOUT_SECS: u64 = 120;

/// Which way the line moved.
#[derive(Clone, Copy, Debug, PartialEq, Eq)]
pub enum Direction {
    /// From low to high.
    Rising,
    /// From high to low.
    Falling,
}

impl Direction {
    /// The direction of the transition that left the line at the given
    /// level: a line that is now high has risen, one that is now low has
    /// fallen.
    pub fn from_level(high: bool) -> (d: Direction)
        ensures
            high ==> d == Direction::Rising,
            !high ==> d == Direction::Falling,
    {
        if high {
            Direction::Rising
        } else {
            Direction::Falling
        }
    }
}

/// One level change on the monitored line.
#[derive(Clone, Copy, Debug, PartialEq, Eq)]
pub struct Transition {
    /// Which way the line moved.
    pub direction: Direction,
    /// When the change was observed, in nanoseconds since the Unix epoch.
    pub observed_at: u64,
}

/// What one wait on the edge source ended with.
#[derive(Clone, Copy, Debug, PartialEq, Eq)]
pub enum EdgeEvent {
    /// The line changed level.
    Transition(Transition),
    /// The wait ran out with no activity on the line.
    TimedOut,
}

} // verus!
