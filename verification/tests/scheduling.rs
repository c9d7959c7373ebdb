use treadmill::worker::{after_steal, next_probe, Probe, ScanStep, WorkerPool};

fn ready_task(value: u32) -> (async_task::Runnable, async_task::Task<u32>) {
    async_task::spawn(async move { value }, |_runnable| {})
}

#[test]
fn next_probe_walks_own_queue_then_stealers() {
    assert_eq!(next_probe(Probe::Own, 2), Some(Probe::Stealer(0)));
    assert_eq!(next_probe(Probe::Stealer(0), 2), Some(Probe::Stealer(1)));
    assert_eq!(next_probe(Probe::Stealer(1), 2), None);
    assert_eq!(next_probe(Probe::Own, 0), None);
}

#[test]
fn next_task_with_no_work_finds_nothing() {
    let (_pool, receivers) = WorkerPool::new(2, true);
    assert!(receivers[0].next_task().0.is_none());
}

#[test]
fn next_task_prefers_own_queue() {
    let (pool, receivers) = WorkerPool::new(2, true);
    let (runnable, task) = ready_task(5);
    pool.worker(0).schedule(runnable);
    let (other, other_task) = ready_task(6);
    pool.worker(1).schedule(other);
    let (probe, found) = receivers[0].next_task().0.unwrap();
    assert_eq!(probe, Probe::Own);
    found.run();
    assert_eq!(futures_lite::future::block_on(task), 5);
    let (probe, found) = receivers[1].next_task().0.unwrap();
    assert_eq!(probe, Probe::Own);
    found.run();
    assert_eq!(futures_lite::future::block_on(other_task), 6);
}

#[test]
fn next_task_steals_from_another_worker() {
    let (pool, receivers) = WorkerPool::new(3, true);
    let (runnable, task) = ready_task(9);
    pool.worker(2).schedule(runnable);
    // Worker 0 steals from workers 1 and 2, in that order.
    let (probe, found) = receivers[0].next_task().0.unwrap();
    assert_eq!(probe, Probe::Stealer(1));
    found.run();
    assert_eq!(futures_lite::future::block_on(task), 9);
    assert!(receivers[2].next_task().0.is_none());
}

#[test]
fn next_task_without_work_stealing_leaves_other_queues() {
    let (pool, receivers) = WorkerPool::new(2, false);
    let (runnable, task) = ready_task(3);
    pool.worker(1).schedule(runnable);
    assert!(receivers[0].next_task().0.is_none());
    let (probe, found) = receivers[1].next_task().0.unwrap();
    assert_eq!(probe, Probe::Own);
    found.run();
    assert_eq!(futures_lite::future::block_on(task), 3);
}

#[test]
fn receiver_reads_its_own_worker_queue() {
    let (worker, receiver) = treadmill::WorkerThread::new();
    assert_eq!(receiver.id(), 0);
    assert_eq!(receiver.stealer_count(), 0);
    let (first, first_task) = ready_task(1);
    let (second, second_task) = ready_task(2);
    worker.schedule(first);
    worker.schedule(second);
    let (p, r) = receiver.next_task().0.unwrap();
    assert_eq!(p, Probe::Own);
    r.run();
    assert!(second_task.is_finished() == false);
    assert_eq!(futures_lite::future::block_on(first_task), 1);
    let (_, r) = receiver.next_task().0.unwrap();
    r.run();
    assert_eq!(futures_lite::future::block_on(second_task), 2);
    assert!(receiver.next_task().0.is_none());
}

#[test]
fn after_steal_runs_found_task_or_moves_on() {
    assert_eq!(after_steal(Probe::Own, 2, true), ScanStep::Run(Probe::Own));
    assert_eq!(after_steal(Probe::Own, 2, false), ScanStep::Try(Probe::Stealer(0)));
    assert_eq!(after_steal(Probe::Stealer(0), 2, false), ScanStep::Try(Probe::Stealer(1)));
    assert_eq!(after_steal(Probe::Stealer(1), 2, true), ScanStep::Run(Probe::Stealer(1)));
    assert_eq!(after_steal(Probe::Stealer(1), 2, false), ScanStep::Done);
    assert_eq!(after_steal(Probe::Own, 0, false), ScanStep::Done);
}
