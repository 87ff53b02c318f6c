use hell0::pool::intake::{Delivery, SubmitError};
use hell0::pool::thread_pool::{PoolCreationError, PoolState, Teardown, ThreadPool};
use hell0::pool::worker::Phase;
use std::cell::RefCell;
use std::rc::Rc;
use std::sync::mpsc;

type Job = Box<dyn FnOnce()>;

/// A pool whose "threads" are stand-ins: the handle of worker `id` is `id + 100`.
fn pool_of(capacity: u32) -> ThreadPool<Job, u32> {
    ThreadPool::build(capacity, |id| id + 100).unwrap()
}

/// Lets worker `id` take the next job and run it to the end.
fn work(pool: &mut ThreadPool<Job, u32>, id: u32) -> bool {
    match pool.receive(id) {
        Some(Delivery::Job(job)) => {
            job();
            assert!(pool.complete(id));
            true
        }
        _ => false,
    }
}

#[test]
fn test_thread_pool_creation_with_capacity() {
    let pool: ThreadPool<Job, ()> = ThreadPool::build(4, |_id| ()).unwrap();
    assert_eq!(pool.workers().len(), 4);
}

#[test]
fn test_thread_pool_creation_error() {
    let pool_creation_result: Result<ThreadPool<Job, ()>, PoolCreationError> =
        ThreadPool::build(0, |_id| ());
    assert!(matches!(pool_creation_result, Err(PoolCreationError)));
}

#[test]
fn test_thread_pool_execution() {
    let mut pool: ThreadPool<Job, ()> = ThreadPool::build(4, |_id| ()).unwrap();
    let (tx, rx) = mpsc::channel();
    pool.execute(Box::new(move || {
        tx.send("hello").unwrap();
    }))
    .unwrap();
    match pool.receive(0) {
        Some(Delivery::Job(job)) => job(),
        _ => panic!("worker 0 was not handed the job"),
    }
    assert!(pool.complete(0));
    assert_eq!(rx.recv().unwrap(), "hello");
}

#[test]
fn build_numbers_workers_from_zero() {
    for capacity in [1u32, 2, 5, 64] {
        let pool = pool_of(capacity);
        assert_eq!(pool.workers().len(), capacity as usize);
        for (position, worker) in pool.workers().iter().enumerate() {
            assert_eq!(worker.id(), position as u32);
            assert_eq!(worker.phase(), Phase::Waiting);
            assert!(worker.has_thread());
            assert!(!worker.is_joined());
        }
        assert_eq!(pool.state(), PoolState::Ready);
    }
}

#[test]
fn build_spawns_each_worker_once_in_order() {
    let spawned = RefCell::new(Vec::new());
    let pool: ThreadPool<Job, u32> = ThreadPool::build(3, |id| {
        spawned.borrow_mut().push(id);
        id * 2
    })
    .unwrap();
    assert_eq!(*spawned.borrow(), vec![0, 1, 2]);
    assert_eq!(pool.workers().len(), 3);
}

#[test]
fn build_zero_spawns_nothing() {
    let spawned = RefCell::new(0u32);
    let result: Result<ThreadPool<Job, ()>, PoolCreationError> = ThreadPool::build(0, |_id| {
        *spawned.borrow_mut() += 1;
    });
    assert_eq!(result.err(), Some(PoolCreationError));
    assert_eq!(*spawned.borrow(), 0);
}

#[test]
fn creation_error_message() {
    assert_eq!(PoolCreationError.message(), "Pool cannot be created with no threads");
}

#[test]
fn sender_is_there_until_teardown() {
    let mut pool = pool_of(1);
    assert!(pool.sender().is_ok());
    assert_eq!(pool.sender().unwrap().len(), 0);
    pool.execute(Box::new(|| {})).unwrap();
    assert_eq!(pool.sender().unwrap().len(), 1);
    assert!(pool.sender().unwrap().is_open());
    pool.teardown_step();
    assert_eq!(pool.sender().err(), Some("Unable to get reference to sender."));
}

#[test]
fn submitted_job_runs_exactly_once() {
    let mut pool = pool_of(2);
    let runs = Rc::new(RefCell::new(0u32));
    let seen = Rc::clone(&runs);
    pool.execute(Box::new(move || *seen.borrow_mut() += 1)).unwrap();
    assert!(work(&mut pool, 1));
    assert!(!work(&mut pool, 0));
    assert!(!work(&mut pool, 1));
    assert!(matches!(pool.receive(0), Some(Delivery::Pending)));
    while !matches!(pool.teardown_step(), Teardown::Done) {
        for id in 0..2 {
            pool.receive(id);
            pool.joined(id, true);
        }
    }
    assert_eq!(pool.state(), PoolState::Terminated);
    assert_eq!(*runs.borrow(), 1);
}

#[test]
fn hundred_jobs_on_four_workers_each_seen_once() {
    let mut pool: ThreadPool<Job, ()> = ThreadPool::build(4, |_id| ()).unwrap();
    let (tx, rx) = mpsc::channel();
    for token in 0..100u32 {
        let tx = tx.clone();
        pool.execute(Box::new(move || tx.send(token).unwrap())).unwrap();
    }
    drop(tx);
    let mut turn: u32 = 0;
    loop {
        let id = turn % 4;
        match pool.receive(id) {
            Some(Delivery::Job(job)) => {
                job();
                assert!(pool.complete(id));
            }
            Some(Delivery::Pending) => break,
            other => panic!("unexpected answer: {}", other.is_some()),
        }
        turn += 1;
    }
    let mut seen: Vec<u32> = rx.iter().collect();
    assert_eq!(seen.len(), 100);
    seen.sort();
    seen.dedup();
    assert_eq!(seen, (0..100).collect::<Vec<u32>>());
}

#[test]
fn jobs_leave_in_submission_order() {
    let mut pool = pool_of(3);
    let order = Rc::new(RefCell::new(Vec::new()));
    for token in 0..6u32 {
        let order = Rc::clone(&order);
        pool.execute(Box::new(move || order.borrow_mut().push(token))).unwrap();
    }
    for id in [2u32, 0, 1, 1, 2, 0] {
        assert!(work(&mut pool, id));
    }
    assert_eq!(*order.borrow(), vec![0, 1, 2, 3, 4, 5]);
}

#[test]
fn single_worker_runs_one_job_at_a_time() {
    let mut pool = pool_of(1);
    let log = Rc::new(RefCell::new(Vec::new()));
    let log_a = Rc::clone(&log);
    let log_b = Rc::clone(&log);
    pool.execute(Box::new(move || log_a.borrow_mut().push("A"))).unwrap();
    pool.execute(Box::new(move || log_b.borrow_mut().push("B"))).unwrap();
    let job_a = match pool.receive(0) {
        Some(Delivery::Job(job)) => job,
        _ => panic!("job A was not handed out"),
    };
    assert_eq!(pool.workers()[0].phase(), Phase::Running);
    // A has not run to the end: B stays where it is.
    assert!(pool.receive(0).is_none());
    assert_eq!(pool.sender().unwrap().len(), 1);
    assert!(log.borrow().is_empty());
    job_a();
    assert!(pool.complete(0));
    assert_eq!(*log.borrow(), vec!["A"]);
    assert!(work(&mut pool, 0));
    assert_eq!(*log.borrow(), vec!["A", "B"]);
}

#[test]
fn queued_job_is_dropped_at_teardown() {
    let mut pool = pool_of(2);
    let ran = Rc::new(RefCell::new(Vec::new()));
    for token in 0..3u32 {
        let ran = Rc::clone(&ran);
        pool.execute(Box::new(move || ran.borrow_mut().push(token))).unwrap();
    }
    // Job 0 is delivered before teardown begins; jobs 1 and 2 are still queued.
    let delivered = match pool.receive(0) {
        Some(Delivery::Job(job)) => job,
        _ => panic!("job 0 was not handed out"),
    };
    assert_eq!(pool.teardown_step(), Teardown::SenderClosed { discarded: 2 });
    assert_eq!(Rc::strong_count(&ran), 2);
    delivered();
    assert!(pool.complete(0));
    assert!(matches!(pool.receive(0), Some(Delivery::Disconnected)));
    assert!(matches!(pool.receive(1), Some(Delivery::Disconnected)));
    assert_eq!(*ran.borrow(), vec![0]);
}

#[test]
fn submit_after_teardown_is_refused() {
    let mut pool = pool_of(1);
    assert_eq!(pool.teardown_step(), Teardown::SenderClosed { discarded: 0 });
    let ran = Rc::new(RefCell::new(false));
    let flag = Rc::clone(&ran);
    let refused = pool.execute(Box::new(move || *flag.borrow_mut() = true));
    assert_eq!(refused, Err(SubmitError));
    assert_eq!(Rc::strong_count(&ran), 1);
    assert!(matches!(pool.receive(0), Some(Delivery::Disconnected)));
    assert!(!*ran.borrow());
    assert_eq!(pool.execute(Box::new(|| {})), Err(SubmitError));
}

#[test]
fn teardown_closes_first_and_joins_in_order() {
    let mut pool = pool_of(3);
    assert_eq!(pool.state(), PoolState::Ready);
    assert_eq!(pool.teardown_step(), Teardown::SenderClosed { discarded: 0 });
    assert_eq!(pool.state(), PoolState::ShuttingDown);
    for id in 0..3u32 {
        assert_eq!(pool.teardown_step(), Teardown::Join { id, thread: id + 100 });
        assert!(!pool.workers()[id as usize].has_thread());
        // Until the join is reported, teardown waits for this worker.
        assert_eq!(pool.teardown_step(), Teardown::Joining { id });
        assert_eq!(pool.state(), PoolState::ShuttingDown);
        assert!(pool.joined(id, true));
        assert!(pool.workers()[id as usize].is_joined());
    }
    assert_eq!(pool.teardown_step(), Teardown::Done);
    assert_eq!(pool.teardown_step(), Teardown::Done);
    assert_eq!(pool.state(), PoolState::Terminated);
    for worker in pool.workers() {
        assert!(!worker.has_thread());
        assert_eq!(worker.phase(), Phase::Exited);
    }
}

#[test]
fn failed_join_does_not_stop_teardown() {
    let mut pool = pool_of(2);
    pool.execute(Box::new(|| {})).unwrap();
    // Worker 0 takes the job and never reports back: its thread has died.
    assert!(matches!(pool.receive(0), Some(Delivery::Job(_))));
    assert_eq!(pool.teardown_step(), Teardown::SenderClosed { discarded: 0 });
    assert_eq!(pool.teardown_step(), Teardown::Join { id: 0, thread: 100 });
    assert!(pool.joined(0, false));
    assert_eq!(pool.workers()[0].phase(), Phase::Failed);
    assert_eq!(pool.teardown_step(), Teardown::Join { id: 1, thread: 101 });
    assert!(pool.joined(1, true));
    assert_eq!(pool.workers()[1].phase(), Phase::Exited);
    assert_eq!(pool.teardown_step(), Teardown::Done);
    assert_eq!(pool.state(), PoolState::Terminated);
}

#[test]
fn worker_that_saw_the_closure_needs_no_report() {
    let mut pool = pool_of(1);
    pool.teardown_step();
    assert!(matches!(pool.receive(0), Some(Delivery::Disconnected)));
    assert_eq!(pool.workers()[0].phase(), Phase::Exited);
    assert!(!pool.workers()[0].is_joined());
    assert_eq!(pool.teardown_step(), Teardown::Join { id: 0, thread: 100 });
    assert_eq!(pool.teardown_step(), Teardown::Done);
}

#[test]
fn calls_out_of_turn_change_nothing() {
    let mut pool = pool_of(2);
    assert!(pool.receive(2).is_none());
    assert!(pool.receive(u32::MAX).is_none());
    assert!(!pool.complete(0));
    assert!(!pool.complete(7));
    assert!(!pool.joined(0, true));
    assert!(!pool.joined(9, false));
    assert_eq!(pool.state(), PoolState::Ready);
    for worker in pool.workers() {
        assert_eq!(worker.phase(), Phase::Waiting);
        assert!(worker.has_thread());
    }
    pool.teardown_step();
    assert!(matches!(pool.receive(1), Some(Delivery::Disconnected)));
    // An exited worker is told nothing more.
    assert!(pool.receive(1).is_none());
    assert!(!pool.joined(1, true));
}

#[test]
fn waiting_worker_is_told_to_wait_on_an_empty_intake() {
    let mut pool = pool_of(1);
    assert!(matches!(pool.receive(0), Some(Delivery::Pending)));
    assert_eq!(pool.workers()[0].phase(), Phase::Waiting);
    pool.execute(Box::new(|| {})).unwrap();
    assert!(matches!(pool.receive(0), Some(Delivery::Job(_))));
}
