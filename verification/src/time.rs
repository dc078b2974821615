//! Instants and durations on the media timeline, in whole nanoseconds.
use vstd::prelude::*;

verus! {

/// A point or span of media time, as a whole number of nanoseconds.
///
/// Integer, not floating point: time in this application is exact, so a
/// frame boundary computed twice lands on the same instant both times.
#[derive(Clone, Copy, Debug, PartialEq, Eq, PartialOrd, Ord, Hash, Structural)]
pub struct Time {
    pub nanos: u64,
}

/// Nanoseconds in one second.
pub const NANOS_PER_SEC: u64 = 1_000_000_000;

impl Time {
    /// The start of the timeline.
    pub fn zero() -> (t: Time)
        ensures
            t.nanos == 0,
    {
        Time { nanos: 0 }
    }

    pub fn from_nanos(nanos: u64) -> (t: Time)
        ensures
            t.nanos == nanos,
    {
        Time { nanos }
    }

    pub fn as_nanos(&self) -> (n: u64)
        ensures
            n == self.nanos,
    {
        self.nanos
    }

    /// Whole seconds, rounded down.
    pub fn whole_secs(&self) -> (s: u64)
        ensures
            s == self.nanos / NANOS_PER_SEC,
    {
        self.nanos / NANOS_PER_SEC
    }
}

} // verus!
