//! Time of the network stack: a millisecond timestamp.

use vstd::prelude::*;

verus! {

/// A point in time, counted in milliseconds from an arbitrary epoch.
#[derive(Clone, Copy, Debug, PartialEq, Eq, Structural)]
pub struct Instant {
    pub millis: i64,
}

impl Instant {
    /// The instant `millis` milliseconds after the epoch.
    pub fn from_millis(millis: i64) -> (r: Instant)
        ensures
            r.millis == millis,
    {
        Instant { millis }
    }

    /// Milliseconds since the epoch.
    pub fn total_millis(&self) -> (r: i64)
        ensures
            r == self.millis,
    {
        self.millis
    }
}

} // verus!
