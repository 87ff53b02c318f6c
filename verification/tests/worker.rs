use hell0::pool::intake::Delivery;
use hell0::pool::worker::{next_action, Action, Attempt, ExitCause, Phase, Worker};
use std::cell::RefCell;

#[test]
fn test_worker_creation() {
    let id = 2;
    let worker = Worker::new(id, |_id| ());
    assert_eq!(worker.id(), id);
}

#[test]
fn new_worker_spawns_once_and_waits() {
    let calls = RefCell::new(Vec::new());
    let worker = Worker::new(7, |id| {
        calls.borrow_mut().push(id);
        "handle"
    });
    assert_eq!(*calls.borrow(), vec![7]);
    assert_eq!(worker.id(), 7);
    assert_eq!(worker.phase(), Phase::Waiting);
    assert!(worker.has_thread());
    assert!(!worker.is_joined());
}

#[test]
fn worker_runs_a_job_it_was_given() {
    assert_eq!(next_action(Attempt::Acquired(Delivery::Job(41u32))), Action::Run(41));
}

#[test]
fn worker_waits_while_the_intake_is_empty() {
    assert_eq!(next_action(Attempt::Acquired(Delivery::<u32>::Pending)), Action::Wait);
}

#[test]
fn worker_exits_when_the_intake_is_closed() {
    assert_eq!(
        next_action(Attempt::Acquired(Delivery::<u32>::Disconnected)),
        Action::Exit(ExitCause::Disconnected)
    );
}

#[test]
fn worker_exits_when_access_is_poisoned() {
    assert_eq!(next_action(Attempt::<u32>::Poisoned), Action::Exit(ExitCause::Poisoned));
}

#[test]
fn pool_types_are_reachable_from_the_crate_root() {
    let pool: hell0::ThreadPool<u8, ()> = hell0::ThreadPool::build(1, |_id| ()).unwrap();
    assert_eq!(pool.workers().len(), 1);
    let none: Result<hell0::ThreadPool<u8, ()>, hell0::PoolCreationError> =
        hell0::ThreadPool::build(0, |_id| ());
    assert_eq!(none.err(), Some(hell0::PoolCreationError));
    assert_eq!(hell0::Worker::new(3, |id| id).id(), 3);
}
