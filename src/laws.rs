use vstd::prelude::*;

use crate::counter::is_increment;

verus! {

/// A run of increments in the order the lock serialised them: `counts[i]` is
/// the count before the `i`-th increment, `counts[i + 1]` the count after it,
/// and `returned[i]` what that increment handed back to its caller.
pub open spec fn is_run(counts: Seq<nat>, returned: Seq<nat>) -> bool {
    &&& counts.len() == returned.len() + 1
    &&& forall|i: int|
        0 <= i < returned.len() ==> is_increment(counts[i], #[trigger] returned[i], counts[i + 1])
}

/// After `i` increments of a run, the count has grown by exactly `i`, and the
/// `i`-th increment handed back the starting count plus `i + 1`.
pub proof fn lemma_run_counts(counts: Seq<nat>, returned: Seq<nat>, i: int)
    requires
        is_run(counts, returned),
        0 <= i <= returned.len(),
    ensures
        counts[i] == counts[0] + i,
        i < returned.len() ==> returned[i] == counts[0] + i + 1,
    decreases i,
{
    if i > 0 {
        lemma_run_counts(counts, returned, i - 1);
        assert(is_increment(counts[i - 1], returned[i - 1], counts[(i - 1) + 1]));
    }
    if i < returned.len() {
        assert(is_increment(counts[i], returned[i], counts[i + 1]));
    }
}

/// From a fresh counter, the values handed back by `n` increments are exactly
/// `1, 2, ..., n`: each of them once, none skipped and none repeated.
pub proof fn lemma_fresh_run_returns_one_to_n(counts: Seq<nat>, returned: Seq<nat>)
    requires
        is_run(counts, returned),
        counts[0] == 0,
    ensures
        forall|i: int| 0 <= i < returned.len() ==> #[trigger] returned[i] == i + 1,
        returned.no_duplicates(),
        returned.to_set() =~= Set::new(|v: nat| 1 <= v <= returned.len()),
{
    assert forall|i: int| 0 <= i < returned.len() implies #[trigger] returned[i] == i + 1 by {
        lemma_run_counts(counts, returned, i);
    }
    assert forall|v: nat| 1 <= v <= returned.len() implies returned.to_set().contains(v) by {
        assert(returned[v - 1] == v);
    }
}

/// An increment that completed before another one started handed back a
/// strictly smaller value.
pub proof fn lemma_earlier_returns_less(counts: Seq<nat>, returned: Seq<nat>, a: int, b: int)
    requires
        is_run(counts, returned),
        0 <= a < b < returned.len(),
    ensures
        returned[a] < returned[b],
{
    lemma_run_counts(counts, returned, a);
    lemma_run_counts(counts, returned, b);
}

/// When `callers` callers each issue `each` increments on a fresh counter, in
/// whatever interleaving, the final count is exactly `callers * each`: no
/// update is lost.
pub proof fn lemma_no_lost_updates(counts: Seq<nat>, returned: Seq<nat>, callers: nat, each: nat)
    requires
        is_run(counts, returned),
        counts[0] == 0,
        returned.len() == callers * each,
    ensures
        counts.last() == callers * each,
{
    lemma_run_counts(counts, returned, returned.len() as int);
}

/// The first increment of a fresh counter hands back 1.
pub proof fn lemma_first_increment_returns_one(before: nat, returned: nat, after: nat)
    requires
        before == 0,
        is_increment(before, returned, after),
    ensures
        returned == 1,
        after == 1,
{
}

} // verus!
