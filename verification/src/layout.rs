//! Which worker queues each worker may steal from.
//!
//! A runtime with `n` workers gives worker `i` a stealer for the queue of every other
//! worker, in ascending order of index, when work stealing is enabled, and none when it
//! is disabled.
use vstd::prelude::*;

verus! {

/// The workers that worker `i` of `n` steals from: every index below `n` but `i`,
/// in ascending order, or nothing when work stealing is disabled.
pub open spec fn spec_steal_targets(n: usize, i: usize, enabled: bool) -> Seq<usize> {
    if enabled && i < n {
        Seq::new((n - 1) as nat, |k: int| (if k < i { k } else { k + 1 }) as usize)
    } else {
        Seq::empty()
    }
}

/// The identifier a task receiver carries. It is set while the stealers are wired up,
/// so it is the worker's index when work stealing is enabled and there is another
/// worker to steal from, and 0 otherwise.
pub open spec fn spec_receiver_id(n: usize, i: usize, enabled: bool) -> usize {
    if enabled && n > 1 {
        i
    } else {
        0
    }
}

/// Computes the workers that worker `index` of `workers` steals from, in the order in
/// which it tries them.
pub fn steal_targets(workers: usize, index: usize, enabled: bool) -> (targets: Vec<usize>)
    requires
        index < workers,
    ensures
        targets@ == spec_steal_targets(workers, index, enabled),
{
    let mut targets: Vec<usize> = Vec::new();
    if enabled {
        let mut j: usize = 0;
        while j < workers
            invariant
                index < workers,
                j <= workers,
                targets@.len() == if j <= index { j as int } else { j - 1 },
                forall|k: int|
                    0 <= k < targets@.len() ==> targets@[k] == (if k < index { k } else { k + 1 }),
            decreases workers - j,
        {
            if j != index {
                targets.push(j);
            }
            j = j + 1;
        }
        assert(targets@ =~= spec_steal_targets(workers, index, enabled));
    } else {
        assert(targets@ =~= spec_steal_targets(workers, index, enabled));
    }
    targets
}

/// Computes the identifier of the task receiver of worker `index` of `workers`.
pub fn receiver_id(workers: usize, index: usize, enabled: bool) -> (id: usize)
    requires
        index < workers,
    ensures
        id == spec_receiver_id(workers, index, enabled),
{
    let mut id: usize = 0;
    if enabled {
        let mut j: usize = 0;
        while j < workers
            invariant
                index < workers,
                j <= workers,
                id == (if j > 1 || (j == 1 && index != 0) { index } else { 0 }),
            decreases workers - j,
        {
            if j != index {
                id = index;
            }
            j = j + 1;
        }
    }
    id
}

/// With work stealing enabled, no worker steals from itself, every other worker is a
/// target exactly once, and the targets come in ascending order.
pub proof fn lemma_steal_targets_cover_others(n: usize, i: usize)
    requires
        i < n,
    ensures
        spec_steal_targets(n, i, true).len() == n - 1,
        forall|k: int|
            0 <= k < spec_steal_targets(n, i, true).len() ==> {
                let t = #[trigger] spec_steal_targets(n, i, true)[k];
                t != i && t < n
            },
        forall|j: usize|
            j < n && j != i ==> #[trigger] spec_steal_targets(n, i, true).contains(j),
        forall|k1: int, k2: int|
            0 <= k1 < k2 < spec_steal_targets(n, i, true).len() ==>
                spec_steal_targets(n, i, true)[k1] < spec_steal_targets(n, i, true)[k2],
{
    let s = spec_steal_targets(n, i, true);
    assert forall|j: usize| j < n && j != i implies #[trigger] s.contains(j) by {
        let k: int = if j < i { j as int } else { j - 1 };
        assert(s[k] == j);
    }
}

/// With work stealing disabled, no worker steals from any other.
pub proof fn lemma_no_stealing_when_disabled(n: usize, i: usize)
    ensures
        spec_steal_targets(n, i, false).len() == 0,
{
}

} // verus!
