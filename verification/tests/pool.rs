use hashpool::pool::{JobOutcome, Pool, WorkerPhase};
use hashpool::queue::{JobQueue, PoolError, TakeResult};

#[test]
fn fresh_pool_executes_all_jobs() {
    // Submitting M jobs and shutting down executes exactly M jobs, in order.
    let mut pool = Pool::new(3);
    for id in 0..5u64 {
        assert!(pool.execute(id).is_ok());
    }
    pool.shutdown();
    assert_eq!(pool.executed_count(), 5);
    for i in 0..5usize {
        assert_eq!(pool.executed_job(i), i as u64);
    }
    assert_eq!(pool.pending_count(), 0);
}

#[test]
fn empty_pool_shutdown() {
    // M = 0: shutdown with nothing submitted executes nothing.
    let mut pool = Pool::new(1);
    pool.shutdown();
    assert_eq!(pool.executed_count(), 0);
    assert!(matches!(pool.worker_phase(0), WorkerPhase::Terminated));
}

#[test]
fn fifo_dequeue_order() {
    // Jobs are dequeued in the order they were submitted.
    let mut pool = Pool::new(2);
    for id in [11u64, 22, 33] {
        assert!(pool.execute(id).is_ok());
    }
    assert!(matches!(pool.worker_take(0), TakeResult::Job(11)));
    assert!(matches!(pool.worker_take(1), TakeResult::Job(22)));
    pool.worker_finish(0, JobOutcome::Completed);
    assert!(matches!(pool.worker_take(0), TakeResult::Job(33)));
}

#[test]
fn execute_after_shutdown_fails() {
    // Every submission after shutdown fails with QueueClosed.
    let mut pool = Pool::new(2);
    assert!(pool.execute(1).is_ok());
    pool.shutdown();
    assert!(matches!(pool.execute(2), Err(PoolError::QueueClosed)));
    assert!(matches!(pool.execute(3), Err(PoolError::QueueClosed)));
    assert_eq!(pool.executed_count(), 1);
}

#[test]
fn panicked_job_is_contained() {
    // A panicking job does not stop later jobs or shutdown.
    let mut pool = Pool::new(2);
    assert!(pool.execute(10).is_ok());
    assert!(matches!(pool.worker_take(0), TakeResult::Job(10)));
    pool.worker_finish(0, JobOutcome::Panicked);
    assert!(matches!(pool.worker_phase(0), WorkerPhase::Idle));
    assert!(pool.execute(11).is_ok());
    assert!(pool.execute(12).is_ok());
    pool.shutdown();
    assert_eq!(pool.executed_count(), 3);
    assert_eq!(pool.executed_job(0), 10);
    assert_eq!(pool.executed_job(1), 11);
    assert_eq!(pool.executed_job(2), 12);
    assert_eq!(pool.panicked_count(), 1);
    assert_eq!(pool.panicked_job(0), 10);
    for w in 0..2 {
        assert!(matches!(pool.worker_phase(w), WorkerPhase::Terminated));
    }
}

#[test]
fn thousand_jobs_no_update_lost() {
    // 1000 jobs, each standing for one increment of a shared counter, across
    // 8 workers: the counter ends at exactly 1000.
    let mut pool = Pool::new(8);
    for id in 0..1000u64 {
        assert!(pool.execute(id).is_ok());
    }
    pool.shutdown();
    let mut counter: u64 = 0;
    for _ in 0..pool.executed_count() {
        counter += 1;
    }
    assert_eq!(counter, 1000);
}

#[test]
fn shutdown_twice_is_idempotent() {
    // The second shutdown is a no-op: same end state, no fault.
    let mut pool = Pool::new(3);
    for id in [5u64, 6, 7] {
        assert!(pool.execute(id).is_ok());
    }
    pool.shutdown();
    let executed_once: Vec<u64> = (0..pool.executed_count()).map(|i| pool.executed_job(i)).collect();
    let panicked_once = pool.panicked_count();
    pool.shutdown();
    let executed_twice: Vec<u64> =
        (0..pool.executed_count()).map(|i| pool.executed_job(i)).collect();
    assert_eq!(executed_once, executed_twice);
    assert_eq!(pool.panicked_count(), panicked_once);
    assert!(pool.is_closed());
    assert_eq!(pool.pending_count(), 0);
    for w in 0..pool.worker_count() {
        assert!(matches!(pool.worker_phase(w), WorkerPhase::Terminated));
    }
}

#[test]
fn ten_jobs_are_a_permutation() {
    // N = 4, ten jobs appending their index: the record has length 10 and is
    // a permutation of 0..10.
    let mut pool = Pool::new(4);
    for id in 0..10u64 {
        assert!(pool.execute(id).is_ok());
    }
    pool.shutdown();
    assert_eq!(pool.executed_count(), 10);
    let mut ids: Vec<u64> = (0..pool.executed_count()).map(|i| pool.executed_job(i)).collect();
    ids.sort();
    let expected: Vec<u64> = (0..10u64).collect();
    assert_eq!(ids, expected);
}

#[test]
fn queue_take_and_close() {
    let mut q = JobQueue::new();
    assert!(matches!(q.take(), TakeResult::WouldBlock));
    assert!(q.submit(1).is_ok());
    assert!(q.submit(2).is_ok());
    assert!(matches!(q.take(), TakeResult::Job(1)));
    q.close();
    assert!(matches!(q.submit(3), Err(PoolError::QueueClosed)));
    // Closing is idempotent and keeps the pending job.
    q.close();
    assert!(q.is_closed());
    assert_eq!(q.len(), 1);
    assert!(matches!(q.take(), TakeResult::Job(2)));
    assert!(matches!(q.take(), TakeResult::Closed));
}

#[test]
fn worker_terminates_on_closed_queue() {
    let mut pool = Pool::new(1);
    assert!(matches!(pool.worker_take(0), TakeResult::WouldBlock));
    assert!(matches!(pool.worker_phase(0), WorkerPhase::Idle));
    pool.shutdown();
    assert!(matches!(pool.worker_phase(0), WorkerPhase::Terminated));
}

#[test]
fn error_variants_are_distinct() {
    assert_ne!(PoolError::QueueClosed, PoolError::JobPanicked);
    assert_ne!(PoolError::QueueClosed, PoolError::WorkerJoinFailure);
    assert_ne!(PoolError::JobPanicked, PoolError::WorkerJoinFailure);
}
