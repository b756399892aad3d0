//! Properties of the elapsed-time predicate, stated and proved once for all
//! inputs.

use vstd::prelude::*;

use crate::difference::difference_at_least;
use crate::timestamp::NANOS_PER_SEC;
use crate::timestamp::Timestamp;

verus! {

/// Law: a timestamp is at least zero nanoseconds after itself, and never a
/// positive number of nanoseconds after itself.
pub proof fn lemma_reflexive(t: Timestamp, min_ns: u32)
    requires
        t.wf(),
    ensures
        difference_at_least(t, t, 0),
        min_ns > 0 ==> !difference_at_least(t, t, min_ns),
{
}

/// Law: the predicate is monotonic in the threshold. Whatever gap satisfies
/// a threshold also satisfies every smaller one.
pub proof fn lemma_threshold_monotonic(
    after: Timestamp,
    before: Timestamp,
    m: u32,
    m_smaller: u32,
)
    requires
        difference_at_least(after, before, m),
        m_smaller <= m,
    ensures
        difference_at_least(after, before, m_smaller),
{
}

/// Law: when the whole-second field goes backwards, the difference is
/// negative, so no threshold is satisfied, whatever the nanosecond fields
/// and the threshold are.
pub proof fn lemma_negative_gap(after: Timestamp, before: Timestamp, min_ns: u32)
    requires
        after.wf(),
        before.wf(),
        after.seconds < before.seconds,
    ensures
        !difference_at_least(after, before, min_ns),
{
    let ds = after.seconds - before.seconds;
    assert(ds * (NANOS_PER_SEC as int) <= -1 * (NANOS_PER_SEC as int));
}

/// Law: a gap of two or more whole seconds satisfies every threshold below
/// one second, whatever the nanosecond fields are.
pub proof fn lemma_wide_gap(after: Timestamp, before: Timestamp, min_ns: u32)
    requires
        after.wf(),
        before.wf(),
        after.seconds > before.seconds + 1,
        min_ns < NANOS_PER_SEC,
    ensures
        difference_at_least(after, before, min_ns),
{
    let ds = after.seconds - before.seconds;
    assert(ds * (NANOS_PER_SEC as int) >= 2 * (NANOS_PER_SEC as int));
}

} // verus!
