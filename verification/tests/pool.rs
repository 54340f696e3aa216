//! Scenario tests driving the worker pool through its transitions.

use workpool::thread_pool::{JobOutcome, ThreadPool, WorkerAction};
use workpool::worker::WorkerPhase;

/// Run every pending job on worker 0, then shut the pool down completely.
fn drain_and_shutdown(pool: &mut ThreadPool<u64>, log: &mut Vec<u64>) {
    while pool.queued_count() > 0 {
        match pool.take_job(0) {
            WorkerAction::Run(j) => {
                log.push(j);
                pool.finish_job(0, JobOutcome::Completed);
            }
            _ => break,
        }
    }
    pool.shutdown();
}

#[test]
fn construct_makes_exactly_size_live_workers() {
    let mut pool: ThreadPool<u64> = ThreadPool::new(5);
    assert_eq!(pool.worker_count(), 5);
    assert_eq!(pool.live_worker_count(), 5);
    assert_eq!(pool.queued_count(), 0);
    assert!(!pool.is_shutting_down());
    for w in 0..5 {
        assert_eq!(pool.worker_phase(w), WorkerPhase::Idle);
    }
    let mut log = Vec::new();
    drain_and_shutdown(&mut pool, &mut log);
    assert_eq!(pool.joined_workers(), 5);
    assert_eq!(pool.live_worker_count(), 0);
    assert!(pool.is_finished());
    assert!(log.is_empty());
}

#[test]
fn shutdown_of_never_used_pool_completes() {
    let mut pool: ThreadPool<u64> = ThreadPool::new(3);
    pool.shutdown();
    assert!(pool.is_finished());
    assert_eq!(pool.joined_workers(), 3);
    for w in 0..3 {
        assert_eq!(pool.worker_phase(w), WorkerPhase::Terminated);
    }
}

#[test]
fn submit_after_close_is_rejected_with_the_job() {
    let mut pool: ThreadPool<u64> = ThreadPool::new(2);
    assert!(pool.exec(1).is_ok());
    pool.close();
    assert!(pool.is_shutting_down());
    let err = pool.exec(9).unwrap_err();
    assert_eq!(err.job, 9);
    // The job accepted before the close is still delivered and executed.
    assert_eq!(pool.queued_count(), 1);
    let mut log = Vec::new();
    drain_and_shutdown(&mut pool, &mut log);
    assert_eq!(log, vec![1]);
    assert!(pool.is_finished());
}

#[test]
fn ten_thousand_jobs_count_to_ten_thousand() {
    let mut pool: ThreadPool<u64> = ThreadPool::new(8);
    for j in 0..10_000u64 {
        assert!(pool.exec(j).is_ok());
    }
    assert_eq!(pool.queued_count(), 10_000);
    let mut counter: u64 = 0;
    while pool.queued_count() > 0 {
        for w in 0..8 {
            if pool.queued_count() == 0 {
                break;
            }
            if pool.worker_phase(w) == WorkerPhase::Idle {
                if let WorkerAction::Run(_j) = pool.take_job(w) {
                    counter += 1;
                    pool.finish_job(w, JobOutcome::Completed);
                }
            }
        }
    }
    pool.shutdown();
    assert_eq!(counter, 10_000);
    assert!(pool.is_finished());
}

#[test]
fn faulting_job_does_not_cost_a_worker() {
    let mut pool: ThreadPool<u64> = ThreadPool::new(2);
    assert!(pool.exec(10).is_ok());
    assert!(pool.exec(20).is_ok());

    match pool.take_job(0) {
        WorkerAction::Run(j) => {
            assert_eq!(j, 10);
            pool.finish_job(0, JobOutcome::Faulted);
        }
        _ => panic!("a pending job must be delivered"),
    }
    // The fault ended only the job: both workers are still live and idle.
    assert_eq!(pool.live_worker_count(), 2);
    assert_eq!(pool.worker_phase(0), WorkerPhase::Idle);

    // The same pool keeps executing subsequent jobs, on either worker.
    match pool.take_job(0) {
        WorkerAction::Run(j) => {
            assert_eq!(j, 20);
            pool.finish_job(0, JobOutcome::Completed);
        }
        _ => panic!("a pending job must be delivered"),
    }
    assert_eq!(pool.live_worker_count(), 2);
    pool.shutdown();
    assert!(pool.is_finished());
    assert_eq!(pool.joined_workers(), 2);
}

#[test]
fn fifo_delivery_interleaved_completion_loses_nothing() {
    let mut pool: ThreadPool<u64> = ThreadPool::new(2);
    for j in 0..100u64 {
        assert!(pool.exec(j).is_ok());
    }
    let mut delivered: Vec<u64> = Vec::new();
    let mut completed: Vec<u64> = Vec::new();
    while pool.queued_count() > 0 {
        let a = match pool.take_job(0) {
            WorkerAction::Run(j) => j,
            _ => panic!("a pending job must be delivered"),
        };
        delivered.push(a);
        let b = match pool.take_job(1) {
            WorkerAction::Run(j) => j,
            _ => panic!("a pending job must be delivered"),
        };
        delivered.push(b);
        // Worker 1 finishes first: completion order differs from
        // submission order across workers.
        completed.push(b);
        pool.finish_job(1, JobOutcome::Completed);
        completed.push(a);
        pool.finish_job(0, JobOutcome::Completed);
    }
    pool.shutdown();
    assert!(pool.is_finished());

    // Delivery followed submission order exactly.
    let expected: Vec<u64> = (0..100).collect();
    assert_eq!(delivered, expected);
    // Completion was permuted, but the set of completed jobs is the full
    // submitted set: nothing lost, nothing duplicated.
    assert_ne!(completed, expected);
    let mut sorted = completed.clone();
    sorted.sort();
    assert_eq!(sorted, expected);
}

#[test]
fn interleaved_submission_keeps_global_fifo() {
    let mut pool: ThreadPool<u64> = ThreadPool::new(1);
    assert!(pool.exec(1).is_ok());
    assert!(pool.exec(2).is_ok());
    let mut delivered = Vec::new();
    match pool.take_job(0) {
        WorkerAction::Run(j) => {
            delivered.push(j);
            // Submission while a job executes still enters at the tail.
            assert!(pool.exec(3).is_ok());
            pool.finish_job(0, JobOutcome::Completed);
        }
        _ => panic!("a pending job must be delivered"),
    }
    let mut log = Vec::new();
    drain_and_shutdown(&mut pool, &mut log);
    delivered.extend(log);
    assert_eq!(delivered, vec![1, 2, 3]);
}

#[test]
fn empty_open_queue_blocks_the_worker() {
    let mut pool: ThreadPool<u64> = ThreadPool::new(1);
    match pool.take_job(0) {
        WorkerAction::Blocked => {}
        _ => panic!("an open, empty queue must keep the worker waiting"),
    }
    assert_eq!(pool.worker_phase(0), WorkerPhase::Idle);
    pool.shutdown();
    assert!(pool.is_finished());
}
