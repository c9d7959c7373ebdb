//! Configuration of a runtime before it is started.
use vstd::prelude::*;
use crate::worker::{spec_wired, TaskReceiver, WorkerPool};

verus! {

/// Number of physical cores of the machine.
///
/// Calls `num_cpus::get_physical`, which reads the machine's CPU topology; the
/// value depends on the machine it runs on, and the crate documents that it is always
/// at least 1.
#[verifier::external_body]
fn physical_cpus() -> (n: usize)
    ensures
        n >= 1,
{
    num_cpus::get_physical()
}

/// `n` is a count of physical cores that the machine reports: a value that
/// `physical_cpus` can return.
pub closed spec fn spec_machine_cpus(n: usize) -> bool {
    call_ensures(physical_cpus, (), n)
}

/// A core count the machine reports is at least 1.
pub proof fn lemma_machine_cpus_positive(n: usize)
    requires
        spec_machine_cpus(n),
    ensures
        n >= 1,
{
}

/// Settings from which a runtime is built.
pub struct RuntimeBuilder {
    workers: usize,
    enable_work_stealing: bool,
}

impl RuntimeBuilder {
    /// The number of worker threads the runtime will start.
    pub closed spec fn spec_workers(&self) -> usize {
        self.workers
    }

    /// Whether idle workers steal tasks from the other workers' queues.
    pub closed spec fn spec_work_stealing(&self) -> bool {
        self.enable_work_stealing
    }

    /// Create a new builder for a runtime: one worker per physical CPU of the
    /// machine, with work stealing enabled.
    pub fn new() -> (b: Self)
        ensures
            b.spec_work_stealing(),
            b.spec_workers() >= 1,
            spec_machine_cpus(b.spec_workers()),
    {
        RuntimeBuilder { workers: physical_cpus(), enable_work_stealing: true }
    }

    /// By default work stealing is enabled. In an actual runtime you typically would not
    /// make this an option as work stealing is a performance optimisation; here it can be
    /// switched off to compare performance with and without it.
    pub fn work_stealing(self, enabled: bool) -> (b: Self)
        ensures
            b.spec_work_stealing() == enabled,
            b.spec_workers() == self.spec_workers(),
    {
        let mut this = self;
        this.enable_work_stealing = enabled;
        this
    }

    /// Number of worker threads processing tasks. By default this is the number of
    /// physical CPUs on the system.
    pub fn num_workers(self, workers: usize) -> (b: Self)
        ensures
            b.spec_workers() == workers,
            b.spec_work_stealing() == self.spec_work_stealing(),
    {
        let mut this = self;
        this.workers = workers;
        this
    }

    /// Creates the workers of a runtime with these settings: the pool that tasks are
    /// spawned onto, and one task receiver per worker, each to be served by a thread of
    /// its own. Receiver `i` takes from worker `i`'s queue; with work stealing enabled it
    /// also steals from every other worker's queue in ascending order of index.
    pub fn build(self) -> (built: (WorkerPool, Vec<TaskReceiver>))
        requires
            self.spec_workers() != 0,
        ensures
            built.0.spec_len() == self.spec_workers(),
            spec_wired(built.0.spec_workers(), built.1@, self.spec_work_stealing()),
    {
        WorkerPool::new(self.workers, self.enable_work_stealing)
    }

    /// The number of worker threads the runtime will start.
    pub fn workers(&self) -> (n: usize)
        ensures
            n == self.spec_workers(),
    {
        self.workers
    }

    /// Whether the runtime will let idle workers steal tasks.
    pub fn work_stealing_enabled(&self) -> (enabled: bool)
        ensures
            enabled == self.spec_work_stealing(),
    {
        self.enable_work_stealing
    }
}

/// A new builder runs one worker per physical core that the machine reports, with
/// work stealing on.
pub proof fn lemma_new_builder_has_one_worker_per_core(b: RuntimeBuilder)
    requires
        call_ensures(RuntimeBuilder::new, (), b),
    ensures
        spec_machine_cpus(b.spec_workers()),
        b.spec_workers() >= 1,
        b.spec_work_stealing(),
{
}

/// Setting the worker count replaces the machine's count and keeps work stealing as it
/// was; switching work stealing keeps the worker count.
pub proof fn lemma_setters_change_one_setting(
    b: RuntimeBuilder,
    n: usize,
    with_n: RuntimeBuilder,
    enabled: bool,
    with_enabled: RuntimeBuilder,
)
    requires
        call_ensures(RuntimeBuilder::num_workers, (b, n), with_n),
        call_ensures(RuntimeBuilder::work_stealing, (b, enabled), with_enabled),
    ensures
        with_n.spec_workers() == n,
        with_n.spec_work_stealing() == b.spec_work_stealing(),
        with_enabled.spec_work_stealing() == enabled,
        with_enabled.spec_workers() == b.spec_workers(),
{
}

} // verus!
