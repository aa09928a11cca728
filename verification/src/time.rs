//! Points in time.

use vstd::prelude::*;

use crate::outside::utc_now;

verus! {

/// A point in time in UTC: whole seconds since the Unix epoch, and nanoseconds
/// within the second.
#[derive(Clone, Copy, Debug, PartialEq, Eq, Structural)]
pub struct Timestamp {
    pub secs: i64,
    pub nanos: u32,
}

impl Timestamp {
    /// Whether the nanoseconds are within one second.
    pub open spec fn valid(self) -> bool {
        self.nanos < 1_000_000_000
    }

    /// Whether this time is not after another.
    pub open spec fn upto(self, other: Timestamp) -> bool {
        self.secs < other.secs || (self.secs == other.secs && self.nanos <= other.nanos)
    }

    /// Whether a reading of the clock has given this time.
    pub closed spec fn is_reading(self) -> bool {
        call_ensures(utc_now, (), self)
    }

    /// The current time.
    pub fn now() -> (now: Timestamp)
        ensures
            now.valid(),
            now.is_reading(),
    {
        utc_now()
    }
}

} // verus!
