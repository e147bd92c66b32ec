//! A point in time, held as plain integers.
use vstd::prelude::*;

verus! {

/// Seconds since 1970-01-01T00:00:00Z, and the nanoseconds past that second.
///
/// During a leap second `nanos` may reach 1,999,999,999.
#[derive(Clone, Copy, Debug, PartialEq, Eq, Structural, PartialOrd, Ord, Hash)]
pub struct Timestamp {
    pub secs: i64,
    pub nanos: u32,
}

impl Timestamp {
    /// The start of the epoch, which is also the default.
    pub open spec fn epoch() -> Timestamp {
        Timestamp { secs: 0, nanos: 0 }
    }
}

impl Default for Timestamp {
    fn default() -> (r: Self)
        ensures
            r == Timestamp::epoch(),
    {
        Timestamp { secs: 0, nanos: 0 }
    }
}

} // verus!

verus! {

/// A time of day: seconds since midnight, and the nanoseconds past that
/// second.
#[derive(Clone, Copy, Debug, PartialEq, Eq, Structural, PartialOrd, Ord, Hash)]
pub struct DayTime {
    pub secs: u32,
    pub frac: u32,
}

} // verus!
