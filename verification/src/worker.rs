//! The worker queues of a runtime and the order in which a worker looks for work.
//!
//! Every worker owns a FIFO queue that tasks are pushed onto. The thread that serves a
//! worker repeatedly takes a task from its own queue, or, when that is empty, steals one
//! from the queues of the other workers, trying them in order.
use vstd::prelude::*;
use std::sync::Arc;
use async_task::Runnable;
use crossbeam_deque::{Steal, Stealer, Worker};
use crate::layout::{receiver_id, spec_receiver_id, spec_steal_targets, steal_targets};

verus! {

#[verifier::external_type_specification]
#[verifier::external_body]
#[verifier::reject_recursive_types(T)]
pub struct ExWorker<T>(crossbeam_deque::Worker<T>);

#[verifier::external_type_specification]
#[verifier::external_body]
#[verifier::reject_recursive_types(T)]
pub struct ExStealer<T>(crossbeam_deque::Stealer<T>);

#[verifier::external_type_specification]
#[verifier::external_body]
#[verifier::reject_recursive_types(M)]
pub struct ExRunnable<M>(async_task::Runnable<M>);

/// Creates an empty FIFO queue: `crossbeam_deque::Worker::new_fifo`.
///
/// The queue is shared with other threads through its stealers, so its contents can
/// change at any time; nothing is stated of them.
#[verifier::external_body]
fn new_fifo_queue() -> Worker<Runnable> {
    Worker::new_fifo()
}

/// A handle through which other threads take tasks from the front of `queue`:
/// `crossbeam_deque::Worker::stealer`. Nothing is stated of it.
#[verifier::external_body]
fn queue_stealer(queue: &Worker<Runnable>) -> Stealer<Runnable> {
    queue.stealer()
}

/// Pushes a task onto the back of `queue`: `crossbeam_deque::Worker::push`.
/// Nothing is stated of the queue afterwards, as other threads may take from it.
#[verifier::external_body]
fn queue_push(queue: &Worker<Runnable>, runnable: Runnable) {
    queue.push(runnable)
}

/// Attempts to take a task from the front of the queue behind `stealer`:
/// `crossbeam_deque::Stealer::steal`, with `Steal::Success` given back as `Some` and
/// `Steal::Empty` and `Steal::Retry` as `None`. Whether a task is there depends on
/// the other threads, so nothing is stated of the result.
#[verifier::external_body]
fn try_steal(stealer: &Stealer<Runnable>) -> Option<Runnable> {
    match stealer.steal() {
        Steal::Success(runnable) => Some(runnable),
        Steal::Empty => None,
        Steal::Retry => None,
    }
}

/// Another handle to the same queue: `Stealer::clone` copies the handle's shared
/// pointer to the queue and its flavour, so the copy is the same handle.
#[verifier::external_body]
fn clone_stealer(stealer: &Stealer<Runnable>) -> (copy: Stealer<Runnable>)
    ensures
        copy == *stealer,
{
    stealer.clone()
}

/// Picks a worker index at random: `fastrand::usize(0..len)`, which panics on an empty
/// range and otherwise returns a value of the range.
#[verifier::external_body]
fn random_index(len: usize) -> (index: usize)
    requires
        len > 0,
    ensures
        index < len,
{
    fastrand::usize(0..len)
}

/// `index` is a value that the random draw `random_index(len)` can give.
pub closed spec fn spec_random_draw(len: usize, index: usize) -> bool {
    call_ensures(random_index, (len,), index)
}

/// A random draw over `len` workers is one of them.
pub proof fn lemma_random_draw_in_range(len: usize, index: usize)
    requires
        spec_random_draw(len, index),
    ensures
        index < len,
{
}

/// `r` is a value that a steal through the handle `h` can give: `None` when nothing
/// was taken, or the task taken from the front of the queue behind `h`.
pub closed spec fn spec_stolen(h: Stealer<Runnable>, r: Option<Runnable>) -> bool {
    call_ensures(try_steal, (&h,), r)
}

/// Where a worker looks for its next task: its own queue, or the queue behind its
/// `k`-th stealer.
#[derive(PartialEq, Eq, Structural, Clone, Copy, Debug)]
pub enum Probe {
    Own,
    Stealer(usize),
}

/// The order in which a worker with `n` stealers looks for a task within one pass:
/// its own queue first, then each stealer in turn.
pub open spec fn spec_probe_order(n: usize) -> Seq<Probe> {
    Seq::new(n as nat + 1, |t: int| if t == 0 { Probe::Own } else { Probe::Stealer((t - 1) as usize) })
}

/// The place looked at after `current` when the task was not found there, or `None`
/// when the pass is over.
pub open spec fn spec_next_probe(current: Probe, n: usize) -> Option<Probe> {
    match current {
        Probe::Own => if n > 0 { Some(Probe::Stealer(0)) } else { None },
        Probe::Stealer(k) => if k + 1 < n { Some(Probe::Stealer((k + 1) as usize)) } else { None },
    }
}

/// The position of a probe within a pass.
pub open spec fn spec_probe_position(p: Probe) -> int {
    match p {
        Probe::Own => 0,
        Probe::Stealer(k) => k + 1,
    }
}

/// Decides where a worker with `stealers` stealers looks next after not finding a task
/// at `current`.
pub fn next_probe(current: Probe, stealers: usize) -> (next: Option<Probe>)
    ensures
        next == spec_next_probe(current, stealers),
{
    match current {
        Probe::Own => if stealers > 0 { Some(Probe::Stealer(0)) } else { None },
        Probe::Stealer(k) => if k < stealers && k + 1 < stealers {
            Some(Probe::Stealer(k + 1))
        } else {
            None
        },
    }
}

/// What a worker does after trying the queue at a probe.
#[derive(PartialEq, Eq, Structural, Clone, Copy, Debug)]
pub enum ScanStep {
    /// Run the task found at this probe; the pass is over.
    Run(Probe),
    /// Try the queue at this probe next.
    Try(Probe),
    /// The pass is over without a task.
    Done,
}

/// The step after trying the queue at `p` of a worker with `n` stealers: run the task if
/// one was found there, else try the next place, or end the pass after the last one.
pub open spec fn spec_after_steal(p: Probe, n: usize, got_task: bool) -> ScanStep {
    if got_task {
        ScanStep::Run(p)
    } else {
        match spec_next_probe(p, n) {
            Some(q) => ScanStep::Try(q),
            None => ScanStep::Done,
        }
    }
}

/// Decides what a worker with `stealers` stealers does after trying the queue at `p`,
/// given whether a task was found there.
pub fn after_steal(p: Probe, stealers: usize, got_task: bool) -> (step: ScanStep)
    ensures
        step == spec_after_steal(p, stealers, got_task),
{
    if got_task {
        ScanStep::Run(p)
    } else {
        match next_probe(p, stealers) {
            Some(q) => ScanStep::Try(q),
            None => ScanStep::Done,
        }
    }
}

/// Within a pass, a worker looks at its own queue first and then at each stealer in
/// index order, each once, after which the pass ends.
pub proof fn lemma_probe_order(n: usize)
    ensures
        spec_probe_order(n)[0] == Probe::Own,
        forall|t: int|
            0 <= t < n ==> spec_next_probe(#[trigger] spec_probe_order(n)[t], n) == Some(
                spec_probe_order(n)[t + 1],
            ),
        spec_next_probe(spec_probe_order(n)[n as int], n) is None,
{
}

/// The queue of one worker, onto which its tasks are pushed, and the handle through
/// which tasks are taken from its front.
pub struct WorkerThread {
    queue: Worker<Runnable>,
    own: Stealer<Runnable>,
}

/// The receiving side of a worker: the thread serving the worker takes tasks from its
/// own queue through `queue_out`, and steals through `stealers[k]` from the queue of
/// worker `steal_from[k]`.
pub struct TaskReceiver {
    id: usize,
    queue_out: Stealer<Runnable>,
    stealers: Vec<Stealer<Runnable>>,
    steal_from: Vec<usize>,
}

/// Receiver `rx` serves worker `i` of `workers`: it takes from worker `i`'s queue, and
/// its `k`-th stealer takes from the queue of the `k`-th worker it steals from, which
/// are the workers `spec_steal_targets` gives.
pub open spec fn spec_receiver_wired(
    workers: Seq<Arc<WorkerThread>>,
    rx: TaskReceiver,
    i: int,
    enabled: bool,
) -> bool {
    let n = workers.len() as usize;
    &&& rx.spec_id() == spec_receiver_id(n, i as usize, enabled)
    &&& rx.spec_steal_from() == spec_steal_targets(n, i as usize, enabled)
    &&& rx.spec_queue_out() == workers[i].spec_own()
    &&& rx.spec_stealers().len() == rx.spec_steal_from().len()
    &&& forall|k: int|
        0 <= k < rx.spec_stealers().len() ==> #[trigger] rx.spec_stealers()[k]
            == workers[rx.spec_steal_from()[k] as int].spec_own()
}

/// `receivers` serve `workers` one to one, wired for work stealing when `enabled`.
pub open spec fn spec_wired(
    workers: Seq<Arc<WorkerThread>>,
    receivers: Seq<TaskReceiver>,
    enabled: bool,
) -> bool {
    &&& receivers.len() == workers.len()
    &&& workers.len() <= usize::MAX
    &&& forall|i: int|
        0 <= i < workers.len() ==> spec_receiver_wired(workers, #[trigger] receivers[i], i, enabled)
}

impl WorkerThread {
    /// The handle that takes tasks from the front of this worker's queue.
    pub closed spec fn spec_own(&self) -> Stealer<Runnable> {
        self.own
    }

    /// Creates a worker with an empty queue, and the receiver that takes its tasks from
    /// that queue and does not steal from any other worker yet.
    pub fn new() -> (pair: (Arc<WorkerThread>, TaskReceiver))
        ensures
            pair.1.spec_id() == 0,
            pair.1.spec_queue_out() == (*pair.0).spec_own(),
            pair.1.spec_stealers().len() == 0,
            pair.1.spec_steal_from().len() == 0,
    {
        let queue = new_fifo_queue();
        let own = queue_stealer(&queue);
        let queue_out = clone_stealer(&own);
        let tx = Arc::new(WorkerThread { queue, own });
        let rx = TaskReceiver { id: 0, queue_out, stealers: Vec::new(), steal_from: Vec::new() };
        (tx, rx)
    }

    /// Puts a task that is ready to be polled onto this worker's queue. This is the
    /// scheduling function of every task submitted to the worker.
    pub fn schedule(&self, runnable: Runnable) {
        queue_push(&self.queue, runnable);
    }

    /// A handle through which other workers steal from this worker's queue.
    fn stealer(&self) -> (s: Stealer<Runnable>)
        ensures
            s == self.spec_own(),
    {
        clone_stealer(&self.own)
    }
}

impl TaskReceiver {
    pub closed spec fn spec_id(&self) -> usize {
        self.id
    }

    /// The handle that takes tasks from this receiver's own worker's queue.
    pub closed spec fn spec_queue_out(&self) -> Stealer<Runnable> {
        self.queue_out
    }

    /// The handles that steal from the other workers' queues, in the order tried.
    pub closed spec fn spec_stealers(&self) -> Seq<Stealer<Runnable>> {
        self.stealers@
    }

    pub open spec fn spec_stealer_count(&self) -> nat {
        self.spec_stealers().len()
    }

    /// The workers whose queues this receiver steals from, in the order it tries them.
    pub closed spec fn spec_steal_from(&self) -> Seq<usize> {
        self.steal_from@
    }

    /// The identifier of this receiver.
    pub fn id(&self) -> (id: usize)
        ensures
            id == self.spec_id(),
    {
        self.id
    }

    /// The number of other queues this receiver steals from.
    pub fn stealer_count(&self) -> (n: usize)
        ensures
            n == self.spec_stealer_count(),
    {
        self.stealers.len()
    }

    /// The workers whose queues this receiver steals from, in the order it tries them.
    pub fn steal_from(&self) -> (from: Vec<usize>)
        ensures
            from@ == self.spec_steal_from(),
    {
        self.steal_from.clone()
    }

    /// The queue handle that probe `p` reads: the own queue, or the `k`-th stealer.
    pub open spec fn spec_probe_handle(&self, p: Probe) -> Stealer<Runnable> {
        match p {
            Probe::Own => self.spec_queue_out(),
            Probe::Stealer(k) => self.spec_stealers()[k as int],
        }
    }

    /// The queue handle that probe `p` reads: the own queue, or the `k`-th stealer.
    pub fn probe_queue(&self, p: Probe) -> (s: &Stealer<Runnable>)
        requires
            match p {
                Probe::Own => true,
                Probe::Stealer(k) => k < self.spec_stealer_count(),
            },
        ensures
            *s == self.spec_probe_handle(p),
    {
        match p {
            Probe::Own => &self.queue_out,
            Probe::Stealer(k) => &self.stealers[k],
        }
    }

    /// One pass of the worker's loop: tries its own queue, then the queue behind each
    /// stealer in turn, and stops at the first that yields a task, which it gives back
    /// to be run, with where it was found; `None` when no queue yielded one. The ghost
    /// part of the result lists the queues tried, in the order they were tried: every
    /// try but the last took nothing, and the last took the task given back, or nothing.
    pub fn next_task(&self) -> (result: (Option<(Probe, Runnable)>, Ghost<Seq<Probe>>))
        ensures
            1 <= result.1@.len() <= self.spec_stealer_count() + 1,
            result.1@ == spec_probe_order(self.spec_stealer_count() as usize).take(
                result.1@.len() as int,
            ),
            forall|t: int|
                0 <= t < result.1@.len() - 1 ==> spec_stolen(
                    self.spec_probe_handle(#[trigger] result.1@[t]),
                    None,
                ),
            match result.0 {
                Some((p, r)) => p == result.1@.last() && spec_stolen(
                    self.spec_probe_handle(p),
                    Some(r),
                ),
                None => result.1@.len() == self.spec_stealer_count() + 1 && spec_stolen(
                    self.spec_probe_handle(result.1@.last()),
                    None,
                ),
            },
    {
        let n = self.stealers.len();
        let mut probe = Probe::Own;
        let ghost mut tried: Seq<Probe> = Seq::empty();
        loop
            invariant
                n == self.spec_stealer_count(),
                0 <= spec_probe_position(probe) <= n,
                spec_probe_order(n)[spec_probe_position(probe)] == probe,
                tried == spec_probe_order(n).take(spec_probe_position(probe)),
                forall|t: int|
                    0 <= t < tried.len() ==> spec_stolen(
                        self.spec_probe_handle(#[trigger] tried[t]),
                        None,
                    ),
            decreases n - spec_probe_position(probe),
        {
            let taken = try_steal(self.probe_queue(probe));
            assert(spec_stolen(self.spec_probe_handle(probe), taken));
            proof {
                assert(spec_probe_order(n).take(spec_probe_position(probe) + 1) =~= tried.push(
                    probe,
                ));
                tried = tried.push(probe);
            }
            let got_task = taken.is_some();
            match after_steal(probe, n, got_task) {
                ScanStep::Run(found_at) => {
                    let runnable = taken.unwrap();
                    return (Some((found_at, runnable)), Ghost(tried));
                },
                ScanStep::Try(next) => {
                    probe = next;
                },
                ScanStep::Done => {
                    return (None, Ghost(tried));
                },
            }
        }
    }
}

/// Creates `workers` workers and their receivers: receiver `i` takes from worker `i`'s
/// queue and, with work stealing enabled, steals from the queue of every other worker,
/// in ascending order of index. The receivers are returned unstarted: each is served by
/// a thread of its own.
pub fn make_workers(workers: usize, enable_work_stealing: bool) -> (made: (
    Vec<Arc<WorkerThread>>,
    Vec<TaskReceiver>,
))
    ensures
        made.0@.len() == workers,
        spec_wired(made.0@, made.1@, enable_work_stealing),
{
    let mut txs: Vec<Arc<WorkerThread>> = Vec::new();
    let mut i: usize = 0;
    while i < workers
        invariant
            i <= workers,
            txs@.len() == i,
        decreases workers - i,
    {
        let (tx, _rx) = WorkerThread::new();
        txs.push(tx);
        i = i + 1;
    }
    let mut rxs: Vec<TaskReceiver> = Vec::new();
    let mut i: usize = 0;
    while i < workers
        invariant
            i <= workers,
            txs@.len() == workers,
            rxs@.len() == i,
            forall|m: int|
                0 <= m < i ==> spec_receiver_wired(txs@, #[trigger] rxs@[m], m, enable_work_stealing),
        decreases workers - i,
    {
        let steal_from = steal_targets(workers, i, enable_work_stealing);
        let mut stealers: Vec<Stealer<Runnable>> = Vec::new();
        let mut k: usize = 0;
        while k < steal_from.len()
            invariant
                k <= steal_from@.len(),
                stealers@.len() == k,
                txs@.len() == workers,
                forall|m: int| 0 <= m < steal_from@.len() ==> steal_from@[m] < workers,
                forall|m: int|
                    0 <= m < k ==> #[trigger] stealers@[m] == txs@[steal_from@[m] as int].spec_own(),
            decreases steal_from@.len() - k,
        {
            let j = steal_from[k];
            stealers.push(txs[j].stealer());
            k = k + 1;
        }
        let id = receiver_id(workers, i, enable_work_stealing);
        let queue_out = txs[i].stealer();
        let rx = TaskReceiver { id, queue_out, stealers, steal_from };
        assert(spec_receiver_wired(txs@, rx, i as int, enable_work_stealing));
        rxs.push(rx);
        i = i + 1;
    }
    (txs, rxs)
}

/// The workers of a runtime.
pub struct WorkerPool {
    workers: Arc<Vec<Arc<WorkerThread>>>,
}

impl Clone for WorkerPool {
    /// Another handle to the same workers.
    fn clone(&self) -> (pool: Self)
        ensures
            pool.spec_workers() == self.spec_workers(),
    {
        WorkerPool { workers: Arc::clone(&self.workers) }
    }
}

impl WorkerPool {
    /// The workers in the pool.
    pub closed spec fn spec_workers(&self) -> Seq<Arc<WorkerThread>> {
        (*self.workers)@
    }

    /// The number of workers in the pool.
    pub open spec fn spec_len(&self) -> nat {
        self.spec_workers().len()
    }

    /// Creates a pool of `len` workers, and the receivers that serve them, each of which
    /// is to be run on a thread of its own.
    pub fn new(len: usize, enable_work_stealing: bool) -> (made: (WorkerPool, Vec<TaskReceiver>))
        requires
            len != 0,
        ensures
            made.0.spec_len() == len,
            spec_wired(made.0.spec_workers(), made.1@, enable_work_stealing),
    {
        let (txs, rxs) = make_workers(len, enable_work_stealing);
        let pool = WorkerPool { workers: Arc::new(txs) };
        assert(pool.spec_len() == len);
        (pool, rxs)
    }

    /// A pool with no workers, which can run nothing.
    pub fn empty() -> (pool: WorkerPool)
        ensures
            pool.spec_len() == 0,
    {
        WorkerPool { workers: Arc::new(Vec::new()) }
    }

    /// The number of workers in the pool.
    pub fn len(&self) -> (n: usize)
        ensures
            n == self.spec_len(),
    {
        self.workers.len()
    }

    /// Whether the pool has no workers.
    pub fn is_empty(&self) -> (empty: bool)
        ensures
            empty == (self.spec_len() == 0),
    {
        self.workers.len() == 0
    }

    /// Chooses at random the worker that a newly spawned task is submitted to.
    pub fn pick_worker(&self) -> (index: usize)
        requires
            self.spec_len() > 0,
        ensures
            index < self.spec_len(),
            spec_random_draw(self.spec_len() as usize, index),
    {
        random_index(self.workers.len())
    }

    /// The worker at `index`.
    pub fn worker(&self, index: usize) -> (w: &Arc<WorkerThread>)
        requires
            index < self.spec_len(),
        ensures
            *w == self.spec_workers()[index as int],
    {
        &self.workers[index]
    }
}

/// A task found at any place is run there: after a try that took a task, the pass
/// stops and runs it.
pub proof fn lemma_found_task_is_run(p: Probe, n: usize, step: ScanStep)
    requires
        call_ensures(after_steal, (p, n, true), step),
    ensures
        step == ScanStep::Run(p),
{
}

/// After a try that took nothing, the pass moves from the own queue to the first
/// stealer and from each stealer to the next, and ends after the last one.
pub proof fn lemma_empty_try_moves_on(p: Probe, n: usize, step: ScanStep)
    requires
        call_ensures(after_steal, (p, n, false), step),
    ensures
        step == match p {
            Probe::Own => if n > 0 {
                ScanStep::Try(Probe::Stealer(0))
            } else {
                ScanStep::Done
            },
            Probe::Stealer(k) => if k + 1 < n {
                ScanStep::Try(Probe::Stealer((k + 1) as usize))
            } else {
                ScanStep::Done
            },
        },
{
}

/// A spawned task goes to a worker drawn at random from the whole pool.
pub proof fn lemma_spawn_target_is_a_random_draw(pool: WorkerPool, index: usize)
    requires
        call_ensures(WorkerPool::pick_worker, (&pool,), index),
    ensures
        spec_random_draw(pool.spec_len() as usize, index),
        index < pool.spec_len(),
{
}

/// A pass tries the worker's own queue first and then each stealer in order; every try
/// but the last took nothing; a task given back was taken by the last try, through the
/// handle of the place reported; and a pass that gives back nothing tried the own queue
/// and every stealer and took nothing from any of them.
pub proof fn lemma_pass_takes_first_task_in_order(
    rx: TaskReceiver,
    result: (Option<(Probe, Runnable)>, Ghost<Seq<Probe>>),
)
    requires
        call_ensures(TaskReceiver::next_task, (&rx,), result),
    ensures
        result.1@.len() >= 1,
        result.1@[0] == Probe::Own,
        forall|t: int|
            1 <= t < result.1@.len() ==> #[trigger] result.1@[t] == Probe::Stealer((t - 1) as usize),
        result.1@.len() >= 2 ==> spec_stolen(rx.spec_queue_out(), None),
        forall|k: int|
            0 <= k && k + 2 < result.1@.len() ==> spec_stolen(#[trigger] rx.spec_stealers()[k], None),
        match result.0 {
            Some((p, r)) => p == result.1@.last() && match p {
                Probe::Own => spec_stolen(rx.spec_queue_out(), Some(r)),
                Probe::Stealer(k) => k < rx.spec_stealer_count() && spec_stolen(
                    rx.spec_stealers()[k as int],
                    Some(r),
                ),
            },
            None => spec_stolen(rx.spec_queue_out(), None) && forall|k: int|
                0 <= k < rx.spec_stealer_count() ==> spec_stolen(
                    #[trigger] rx.spec_stealers()[k],
                    None,
                ),
        },
{
    let tried = result.1@;
    let n = rx.spec_stealer_count() as usize;
    assert(rx.stealers.len() == rx.stealers@.len());
    assert(tried[0] == spec_probe_order(n)[0]);
    assert forall|t: int| 1 <= t < tried.len() implies #[trigger] tried[t] == Probe::Stealer(
        (t - 1) as usize,
    ) by {
        assert(tried[t] == spec_probe_order(n)[t]);
    }
    if tried.len() >= 2 {
        assert(rx.spec_probe_handle(tried[0]) == rx.spec_queue_out());
    }
    assert forall|k: int| 0 <= k && k + 2 < tried.len() implies spec_stolen(
        #[trigger] rx.spec_stealers()[k],
        None,
    ) by {
        assert(tried[k + 1] == spec_probe_order(n)[k + 1]);
        assert(rx.spec_probe_handle(tried[k + 1]) == rx.spec_stealers()[k]);
    }
    match result.0 {
        Some((p, r)) => {
            let last = tried.len() - 1;
            assert(tried[last] == spec_probe_order(n)[last]);
        },
        None => {
            let last = tried.len() - 1;
            assert(tried[last] == spec_probe_order(n)[last]);
            assert(rx.spec_probe_handle(tried[0]) == rx.spec_queue_out());
            assert forall|k: int| 0 <= k < rx.spec_stealer_count() implies spec_stolen(
                #[trigger] rx.spec_stealers()[k],
                None,
            ) by {
                assert(tried[k + 1] == spec_probe_order(n)[k + 1]);
                assert(rx.spec_probe_handle(tried[k + 1]) == rx.spec_stealers()[k]);
            }
        },
    }
}

} // verus!
