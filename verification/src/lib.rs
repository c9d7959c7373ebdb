//! Treadmill: a small multi-threaded, work-stealing async runtime.
//!
//! This crate holds the runtime's decisions and bookkeeping: how a runtime is
//! configured, how the worker queues are wired together for work stealing, in which
//! order a worker looks for work, which worker a new task lands on, how a blocking
//! task handle moves through its states, and the small rules used by the network
//! glue. Threads, the I/O driver and the futures themselves are driven around it.

pub mod builder;
pub mod layout;
pub mod worker;
pub mod blocking;
pub mod addr;
pub mod naming;
pub mod connector;
pub mod say_n_times;

pub use builder::RuntimeBuilder;
pub use worker::{make_workers, Probe, ScanStep, TaskReceiver, WorkerPool, WorkerThread};
