use treadmill::builder::RuntimeBuilder;
use treadmill::layout::{receiver_id, steal_targets};
use treadmill::worker::{make_workers, WorkerPool};

#[test]
fn new_builder_enables_work_stealing() {
    let b = RuntimeBuilder::new();
    assert!(b.work_stealing_enabled());
}

#[test]
fn builder_setters_change_only_their_setting() {
    let b = RuntimeBuilder::new().num_workers(3).work_stealing(false);
    assert_eq!(b.workers(), 3);
    assert!(!b.work_stealing_enabled());
    let b = b.work_stealing(true).num_workers(7);
    assert_eq!(b.workers(), 7);
    assert!(b.work_stealing_enabled());
}

#[test]
fn build_makes_one_receiver_per_worker() {
    let (pool, receivers) = RuntimeBuilder::new().num_workers(3).build();
    assert_eq!(pool.len(), 3);
    assert!(!pool.is_empty());
    assert_eq!(receivers.len(), 3);
    assert_eq!(receivers[0].steal_from(), vec![1, 2]);
    assert_eq!(receivers[1].steal_from(), vec![0, 2]);
    assert_eq!(receivers[2].steal_from(), vec![0, 1]);
}

#[test]
fn build_without_work_stealing_wires_no_stealers() {
    let (pool, receivers) = RuntimeBuilder::new().num_workers(4).work_stealing(false).build();
    assert_eq!(pool.len(), 4);
    for rx in &receivers {
        assert_eq!(rx.stealer_count(), 0);
        assert!(rx.steal_from().is_empty());
        assert_eq!(rx.id(), 0);
    }
}

#[test]
fn steal_targets_skip_the_worker_itself() {
    assert_eq!(steal_targets(4, 0, true), vec![1, 2, 3]);
    assert_eq!(steal_targets(4, 1, true), vec![0, 2, 3]);
    assert_eq!(steal_targets(4, 3, true), vec![0, 1, 2]);
    assert_eq!(steal_targets(1, 0, true), Vec::<usize>::new());
    assert_eq!(steal_targets(4, 2, false), Vec::<usize>::new());
}

#[test]
fn receiver_ids_follow_work_stealing() {
    assert_eq!(receiver_id(4, 2, true), 2);
    assert_eq!(receiver_id(4, 2, false), 0);
    assert_eq!(receiver_id(1, 0, true), 0);
    assert_eq!(receiver_id(2, 1, true), 1);
}

#[test]
fn make_workers_wires_every_other_queue() {
    let (txs, rxs) = make_workers(3, true);
    assert_eq!(txs.len(), 3);
    assert_eq!(rxs.len(), 3);
    for (i, rx) in rxs.iter().enumerate() {
        assert_eq!(rx.id(), i);
        assert_eq!(rx.stealer_count(), 2);
        assert!(!rx.steal_from().contains(&i));
    }
}

#[test]
fn make_workers_with_zero_workers_is_empty() {
    let (txs, rxs) = make_workers(0, true);
    assert!(txs.is_empty());
    assert!(rxs.is_empty());
}

#[test]
fn empty_pool_is_empty() {
    let pool = WorkerPool::empty();
    assert!(pool.is_empty());
    assert_eq!(pool.len(), 0);
}

#[test]
fn picked_worker_is_in_range() {
    let (pool, _receivers) = WorkerPool::new(3, true);
    for _ in 0..200 {
        assert!(pool.pick_worker() < 3);
    }
}
