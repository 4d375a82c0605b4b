//! Spans of time to wait.
use vstd::prelude::*;

verus! {

/// A span of time.
#[derive(Debug, Clone, Copy, PartialEq, Eq, Structural)]
pub struct Delay {
    /// The span in nanoseconds.
    pub nanos: u128,
}

impl Delay {
    /// A span of that many milliseconds.
    pub fn from_millis(millis: u64) -> (r: Delay)
        ensures
            r.nanos == millis * 1_000_000,
    {
        Delay { nanos: millis as u128 * 1_000_000 }
    }

    /// A span of that many seconds.
    pub fn from_secs(secs: u64) -> (r: Delay)
        ensures
            r.nanos == secs * 1_000_000_000,
    {
        Delay { nanos: secs as u128 * 1_000_000_000 }
    }

    /// Twice the span, or `max` where that is less.
    pub open spec fn capped_double(self, max: Delay) -> Delay {
        if self.nanos * 2 <= max.nanos {
            Delay { nanos: (self.nanos * 2) as u128 }
        } else {
            max
        }
    }

    /// Twice the span, or `max` where that is less.
    pub fn doubled_up_to(self, max: Delay) -> (r: Delay)
        ensures
            r == self.capped_double(max),
    {
        if self.nanos <= max.nanos / 2 {
            Delay { nanos: self.nanos * 2 }
        } else {
            max
        }
    }
}

} // verus!
