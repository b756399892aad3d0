//! The timestamp value type: whole seconds plus a sub-second nanosecond
//! remainder.

use vstd::prelude::*;

verus! {

/// Nanoseconds in one second; every nanosecond field stays strictly below it.
pub const NANOS_PER_SEC: u32 = 1_000_000_000;

/// Bound on the whole-second magnitude inside which both predicate
/// implementations are overflow-free and mutually consistent.
pub const SECONDS_BOUND: i64 = 16_777_216;

/// A point in time: whole seconds (signed) and a nanosecond remainder
/// (unsigned, always below one second for a well-formed value).
///
/// Values are transient: constructed per call and never mutated.
#[derive(Clone, Copy, Debug, PartialEq, Eq, Structural)]
pub struct Timestamp {
    pub seconds: i64,
    pub nanoseconds: u32,
}

impl Timestamp {
    /// The nanosecond remainder names less than a whole second.
    pub open spec fn wf(self) -> bool {
        self.nanoseconds < NANOS_PER_SEC
    }

    /// The whole-second field lies in the range the predicate
    /// implementations support without overflow.
    pub open spec fn in_supported_range(self) -> bool {
        -SECONDS_BOUND <= self.seconds <= SECONDS_BOUND
    }

    /// Build a well-formed timestamp.
    pub fn new(seconds: i64, nanoseconds: u32) -> (t: Timestamp)
        requires
            nanoseconds < NANOS_PER_SEC,
        ensures
            t.seconds == seconds,
            t.nanoseconds == nanoseconds,
            t.wf(),
    {
        Timestamp { seconds, nanoseconds }
    }
}

} // verus!
