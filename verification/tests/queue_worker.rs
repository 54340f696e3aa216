//! Tests of the queue and worker pieces on their own.

use workpool::queue::{Dequeued, JobQueue};
use workpool::worker::{Worker, WorkerState};

#[test]
fn queue_delivers_in_submission_order_and_reports_closure() {
    let mut q: JobQueue<u64> = JobQueue::new();
    assert_eq!(q.job_count(), 0);
    assert!(q.is_accepting());
    assert!(q.enqueue(1).is_ok());
    assert!(q.enqueue(2).is_ok());
    assert_eq!(q.job_count(), 2);

    assert!(matches!(q.dequeue_step(), Dequeued::Job(1)));
    q.close();
    assert!(!q.is_accepting());
    // A closed queue hands submissions back untouched ...
    assert_eq!(q.enqueue(3), Err(3));
    // ... but still delivers what it accepted before the close.
    assert!(matches!(q.dequeue_step(), Dequeued::Job(2)));
    assert!(matches!(q.dequeue_step(), Dequeued::Closed));
    assert!(matches!(q.dequeue_step(), Dequeued::Closed));
}

#[test]
fn open_empty_queue_reports_empty_not_closed() {
    let mut q: JobQueue<u64> = JobQueue::new();
    assert!(matches!(q.dequeue_step(), Dequeued::Empty));
    q.close();
    q.close();
    assert!(matches!(q.dequeue_step(), Dequeued::Closed));
}

#[test]
fn new_worker_is_idle_with_its_id() {
    let w: Worker<u64> = Worker::new(3);
    assert_eq!(w.id, 3);
    assert!(matches!(w.state, WorkerState::Idle));
}
