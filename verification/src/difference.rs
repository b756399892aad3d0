//! The elapsed-time predicate, in two independently written forms.
//!
//! [`difference_at_least`] is the reference formulation: normalize the gap
//! to a signed nanosecond count and compare. [`difference_at_least_cases`]
//! resolves the same question without ever multiplying seconds by 10^9, by
//! splitting on the relationship of the whole-second fields.
//! [`lemma_mul_cases_agree`] proves the two formulations equal on every
//! legal input, and each executable implementation is proved to return the
//! reference formulation exactly.

use vstd::prelude::*;

use crate::timestamp::NANOS_PER_SEC;
use crate::timestamp::Timestamp;

verus! {

/// The true signed difference `after - before`, in nanoseconds.
pub open spec fn diff_ns(after: Timestamp, before: Timestamp) -> int {
    (after.seconds - before.seconds) * (NANOS_PER_SEC as int)
        + after.nanoseconds - before.nanoseconds
}

/// Reference formulation: the elapsed time from `before` to `after` is at
/// least `min_ns` nanoseconds.
pub open spec fn difference_at_least(after: Timestamp, before: Timestamp, min_ns: u32) -> bool {
    diff_ns(after, before) >= min_ns
}

/// Case-split formulation of the same predicate. The pair falls into
/// exactly one of four cases by the whole-second fields; each case is
/// resolved with nanosecond-scale comparisons only.
pub open spec fn difference_at_least_cases(
    after: Timestamp,
    before: Timestamp,
    min_ns: u32,
) -> bool {
    if after.seconds < before.seconds {
        // The difference is negative and the threshold is not.
        false
    } else if after.seconds == before.seconds {
        // The difference is the plain nanosecond gap, if non-negative.
        after.nanoseconds >= before.nanoseconds
            && after.nanoseconds - before.nanoseconds >= min_ns
    } else if after.seconds == before.seconds + 1 {
        // Borrow one second across the boundary.
        (NANOS_PER_SEC - before.nanoseconds) + after.nanoseconds >= min_ns
    } else {
        // A gap of two or more whole seconds always exceeds a threshold
        // below one second: the nanosecond fields need not be examined.
        true
    }
}

/// Law: the normalized-subtraction formulation and the case-split
/// formulation agree on every well-formed pair of timestamps and every
/// threshold below one second.
pub proof fn lemma_mul_cases_agree(after: Timestamp, before: Timestamp, min_ns: u32)
    requires
        after.wf(),
        before.wf(),
        min_ns < NANOS_PER_SEC,
    ensures
        difference_at_least(after, before, min_ns)
            == difference_at_least_cases(after, before, min_ns),
{
    let ds = after.seconds - before.seconds;
    if ds < 0 {
        assert(ds * (NANOS_PER_SEC as int) <= -1 * (NANOS_PER_SEC as int));
    } else if ds > 1 {
        assert(ds * (NANOS_PER_SEC as int) >= 2 * (NANOS_PER_SEC as int));
    }
}

/// Normalized-subtraction implementation: compute the signed nanosecond
/// difference in 64 bits and compare it to the threshold.
pub fn timespec_difference_at_least_mul(
    after: &Timestamp,
    before: &Timestamp,
    min_ns: u32,
) -> (r: bool)
    requires
        after.wf(),
        before.wf(),
        after.in_supported_range(),
        before.in_supported_range(),
        min_ns < NANOS_PER_SEC,
    ensures
        r == difference_at_least(*after, *before, min_ns),
{
    let delta_s: i64 = after.seconds - before.seconds;
    let total: i64 =
        delta_s * 1_000_000_000i64 + after.nanoseconds as i64 - before.nanoseconds as i64;
    total >= min_ns as i64
}

/// Case-split implementation: classify the pair by the whole-second fields
/// and resolve each case without multiplying seconds by 10^9.
pub fn timespec_difference_at_least_cases(
    after: &Timestamp,
    before: &Timestamp,
    min_ns: u32,
) -> (r: bool)
    requires
        after.wf(),
        before.wf(),
        after.in_supported_range(),
        before.in_supported_range(),
        min_ns < NANOS_PER_SEC,
    ensures
        r == difference_at_least(*after, *before, min_ns),
        r == difference_at_least_cases(*after, *before, min_ns),
{
    proof {
        lemma_mul_cases_agree(*after, *before, min_ns);
    }
    if after.seconds < before.seconds {
        false
    } else if after.seconds == before.seconds {
        if after.nanoseconds >= before.nanoseconds {
            after.nanoseconds - before.nanoseconds >= min_ns
        } else {
            false
        }
    } else if after.seconds == before.seconds + 1 {
        (NANOS_PER_SEC - before.nanoseconds) + after.nanoseconds >= min_ns
    } else {
        true
    }
}

} // verus!
