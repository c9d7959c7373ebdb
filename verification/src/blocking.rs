//! The life of a handle to a blocking function run on a thread of its own.
//!
//! The handle holds the function until it is first polled; that poll starts a thread
//! running it and reports that the result is pending. The next poll joins the thread and
//! gives back its result. A handle whose thread was joined has nothing left to give and
//! every later poll reports an error.
use vstd::prelude::*;

verus! {

/// What a handle holds: the thread running the function, and the function not yet
/// started.
#[derive(PartialEq, Eq, Structural, Clone, Copy, Debug)]
pub struct BlockingState {
    pub has_join_handle: bool,
    pub has_task: bool,
}

/// What a poll of the handle does.
#[derive(PartialEq, Eq, Structural, Clone, Copy, Debug)]
pub enum PollAction {
    /// Take the function, start a thread running it and report that the result is
    /// pending; the thread wakes the poller when the function returns.
    SpawnThread,
    /// Take the thread, join it and report its result.
    JoinThread,
    /// Report an error: there is no thread to join and no function to run.
    Fail,
}

/// A handle that holds its function and no thread yet.
pub open spec fn spec_fresh() -> BlockingState {
    BlockingState { has_join_handle: false, has_task: true }
}

/// The action a poll takes in state `s`.
pub open spec fn spec_poll_action(s: BlockingState) -> PollAction {
    if !s.has_join_handle && s.has_task {
        PollAction::SpawnThread
    } else if s.has_join_handle {
        PollAction::JoinThread
    } else {
        PollAction::Fail
    }
}

/// The state a poll leaves the handle in.
pub open spec fn spec_after_poll(s: BlockingState) -> BlockingState {
    match spec_poll_action(s) {
        PollAction::SpawnThread => BlockingState { has_join_handle: true, has_task: false },
        PollAction::JoinThread => BlockingState { has_join_handle: false, has_task: s.has_task },
        PollAction::Fail => s,
    }
}

/// The actions of `k` successive polls starting in state `s`.
pub open spec fn spec_polls(s: BlockingState, k: nat) -> Seq<PollAction>
    decreases k,
{
    if k == 0 {
        Seq::empty()
    } else {
        seq![spec_poll_action(s)] + spec_polls(spec_after_poll(s), (k - 1) as nat)
    }
}

/// `k` polls take `k` actions.
pub proof fn lemma_polls_len(s: BlockingState, k: nat)
    ensures
        spec_polls(s, k).len() == k,
    decreases k,
{
    if k > 0 {
        lemma_polls_len(spec_after_poll(s), (k - 1) as nat);
    }
}

impl BlockingState {
    /// A handle that holds its function and no thread yet.
    pub fn new() -> (s: BlockingState)
        ensures
            s == spec_fresh(),
    {
        BlockingState { has_join_handle: false, has_task: true }
    }

    /// Decides what a poll does in this state, and moves to the state it leaves.
    pub fn poll(&mut self) -> (action: PollAction)
        ensures
            action == spec_poll_action(*old(self)),
            *final(self) == spec_after_poll(*old(self)),
    {
        if !self.has_join_handle && self.has_task {
            self.has_join_handle = true;
            self.has_task = false;
            PollAction::SpawnThread
        } else if self.has_join_handle {
            self.has_join_handle = false;
            PollAction::JoinThread
        } else {
            PollAction::Fail
        }
    }
}

/// A handle whose function has been started never starts it again: after a poll that
/// spawned the thread, no later poll spawns one.
pub proof fn lemma_spawns_at_most_once(s: BlockingState, k: nat)
    ensures
        forall|a: int, b: int|
            0 <= a < b < k && #[trigger] spec_polls(s, k)[a] == PollAction::SpawnThread
                ==> #[trigger] spec_polls(s, k)[b] != PollAction::SpawnThread,
    decreases k,
{
    if k > 0 {
        let t = spec_after_poll(s);
        lemma_polls_len(t, (k - 1) as nat);
        lemma_spawns_at_most_once(t, (k - 1) as nat);
        if spec_poll_action(s) == PollAction::SpawnThread {
            lemma_no_spawn_without_task(t, (k - 1) as nat);
        }
        assert forall|a: int, b: int|
            0 <= a < b < k && #[trigger] spec_polls(s, k)[a] == PollAction::SpawnThread
                implies #[trigger] spec_polls(s, k)[b] != PollAction::SpawnThread by {
            assert(spec_polls(s, k)[b] == spec_polls(t, (k - 1) as nat)[b - 1]);
            if a > 0 {
                assert(spec_polls(s, k)[a] == spec_polls(t, (k - 1) as nat)[a - 1]);
            }
        }
    }
}

/// Without its function, a handle never spawns a thread.
pub proof fn lemma_no_spawn_without_task(s: BlockingState, k: nat)
    requires
        !s.has_task,
    ensures
        forall|b: int| 0 <= b < k ==> #[trigger] spec_polls(s, k)[b] != PollAction::SpawnThread,
    decreases k,
{
    if k > 0 {
        let t = spec_after_poll(s);
        lemma_polls_len(t, (k - 1) as nat);
        lemma_no_spawn_without_task(t, (k - 1) as nat);
        assert forall|b: int| 0 <= b < k implies #[trigger] spec_polls(s, k)[b]
            != PollAction::SpawnThread by {
            if b > 0 {
                assert(spec_polls(s, k)[b] == spec_polls(t, (k - 1) as nat)[b - 1]);
            }
        }
    }
}

/// A fresh handle that is polled at least once starts its function exactly once, on
/// the first poll, and never again.
pub proof fn lemma_fresh_handle_spawns_exactly_once(k: nat)
    requires
        k >= 1,
    ensures
        spec_polls(spec_fresh(), k)[0] == PollAction::SpawnThread,
        forall|b: int|
            1 <= b < k ==> #[trigger] spec_polls(spec_fresh(), k)[b] != PollAction::SpawnThread,
{
    let s0 = spec_fresh();
    let s1 = spec_after_poll(s0);
    lemma_polls_len(s1, (k - 1) as nat);
    lemma_no_spawn_without_task(s1, (k - 1) as nat);
    assert forall|b: int| 1 <= b < k implies #[trigger] spec_polls(spec_fresh(), k)[b]
        != PollAction::SpawnThread by {
        assert(spec_polls(s0, k)[b] == spec_polls(s1, (k - 1) as nat)[b - 1]);
    }
}

/// A fresh handle spawns its thread on the first poll, joins it on the second, and
/// fails on every poll after that.
pub proof fn lemma_fresh_handle_lifecycle(k: nat)
    requires
        k >= 2,
    ensures
        spec_polls(spec_fresh(), k)[0] == PollAction::SpawnThread,
        spec_polls(spec_fresh(), k)[1] == PollAction::JoinThread,
        forall|b: int| 2 <= b < k ==> #[trigger] spec_polls(spec_fresh(), k)[b] == PollAction::Fail,
{
    let s0 = spec_fresh();
    let s1 = spec_after_poll(s0);
    let s2 = spec_after_poll(s1);
    assert(s2 == BlockingState { has_join_handle: false, has_task: false });
    lemma_polls_len(s1, (k - 1) as nat);
    lemma_polls_len(s2, (k - 2) as nat);
    lemma_fail_forever(s2, (k - 2) as nat);
    assert(spec_polls(s1, (k - 1) as nat) == seq![PollAction::JoinThread] + spec_polls(
        s2,
        (k - 2) as nat,
    ));
    assert forall|b: int| 2 <= b < k implies #[trigger] spec_polls(spec_fresh(), k)[b]
        == PollAction::Fail by {
        assert(spec_polls(s0, k)[b] == spec_polls(s1, (k - 1) as nat)[b - 1]);
        assert(spec_polls(s1, (k - 1) as nat)[b - 1] == spec_polls(s2, (k - 2) as nat)[b - 2]);
    }
}

/// A handle with neither a thread nor a function fails on every poll.
pub proof fn lemma_fail_forever(s: BlockingState, k: nat)
    requires
        !s.has_join_handle,
        !s.has_task,
    ensures
        spec_polls(s, k).len() == k,
        forall|b: int| 0 <= b < k ==> #[trigger] spec_polls(s, k)[b] == PollAction::Fail,
    decreases k,
{
    if k > 0 {
        lemma_fail_forever(s, (k - 1) as nat);
        assert(spec_after_poll(s) == s);
        assert forall|b: int| 0 <= b < k implies #[trigger] spec_polls(s, k)[b]
            == PollAction::Fail by {
            if b > 0 {
                assert(spec_polls(s, k)[b] == spec_polls(s, (k - 1) as nat)[b - 1]);
            }
        }
    }
}

} // verus!
