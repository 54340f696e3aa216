//! The shared FIFO job queue connecting submitters to workers.
//!
//! The queue is the only channel between the pool's producer side and its
//! workers.  Jobs enter at the tail while the queue is open; workers take
//! them from the head, one at a time.  `close` is a one-time transition after
//! which submission fails but jobs already accepted are still handed out;
//! only an empty, closed queue reports closure to a worker.
//!
//! Besides its pending jobs the queue keeps, as ghost state, the log of jobs
//! it has already delivered, in delivery order.  The whole submission history
//! is then always `delivered + pending`, which is what makes first-in
//! first-out delivery and exactly-once accounting provable facts.

use vstd::prelude::*;

verus! {

/// What one retrieval step of a worker observed.
pub enum Dequeued<J> {
    /// The head job; it now belongs exclusively to the caller.
    Job(J),
    /// Nothing pending, but the queue is still open: a real worker would
    /// stay blocked and retry.
    Empty,
    /// The queue is closed and drained: the caller's loop must exit.
    Closed,
}

/// A first-in first-out queue of jobs with an explicit close signal.
pub struct JobQueue<J> {
    pending: Vec<J>,
    closed: bool,
    delivered: Ghost<Seq<J>>,
}

impl<J> JobQueue<J> {
    /// The jobs accepted but not yet handed to any worker, head first.
    pub closed spec fn pending_jobs(self) -> Seq<J> {
        self.pending@
    }

    /// Whether `close` has happened.
    pub closed spec fn is_closed(self) -> bool {
        self.closed
    }

    /// The jobs handed out so far, in the order they were handed out.
    pub closed spec fn delivered_jobs(self) -> Seq<J> {
        self.delivered@
    }

    /// Every job ever accepted, in submission order: first the ones already
    /// delivered, then the ones still pending.
    pub open spec fn submitted_jobs(self) -> Seq<J> {
        self.delivered_jobs() + self.pending_jobs()
    }

    /// An open, empty queue that has delivered nothing.
    pub fn new() -> (q: JobQueue<J>)
        ensures
            q.pending_jobs() == Seq::<J>::empty(),
            q.delivered_jobs() == Seq::<J>::empty(),
            !q.is_closed(),
    {
        JobQueue { pending: Vec::new(), closed: false, delivered: Ghost(Seq::empty()) }
    }

    /// Insert a job at the tail.  Succeeds exactly as long as the queue has
    /// not been closed; afterwards the job is handed back untouched.
    pub fn enqueue(&mut self, job: J) -> (r: Result<(), J>)
        ensures
            final(self).is_closed() == old(self).is_closed(),
            final(self).delivered_jobs() == old(self).delivered_jobs(),
            old(self).is_closed() ==> (r matches Err(j) && j == job && final(self).pending_jobs()
                == old(self).pending_jobs()),
            !old(self).is_closed() ==> r is Ok && final(self).pending_jobs() == old(
                self,
            ).pending_jobs().push(job) && final(self).submitted_jobs() == old(
                self,
            ).submitted_jobs().push(job),
    {
        if self.closed {
            Err(job)
        } else {
            self.pending.push(job);
            proof {
                assert(self.submitted_jobs() =~= old(self).submitted_jobs().push(job));
            }
            Ok(())
        }
    }

    /// One retrieval step: take the head job if there is one, otherwise
    /// report whether the caller should keep waiting or exit.
    pub fn dequeue_step(&mut self) -> (r: Dequeued<J>)
        ensures
            final(self).is_closed() == old(self).is_closed(),
            final(self).submitted_jobs() == old(self).submitted_jobs(),
            old(self).pending_jobs().len() > 0 ==> (r matches Dequeued::Job(j) && j == old(
                self,
            ).pending_jobs()[0] && final(self).pending_jobs() == old(
                self,
            ).pending_jobs().drop_first() && final(self).delivered_jobs() == old(
                self,
            ).delivered_jobs().push(old(self).pending_jobs()[0])),
            old(self).pending_jobs().len() == 0 ==> final(self).pending_jobs() == old(
                self,
            ).pending_jobs() && final(self).delivered_jobs() == old(self).delivered_jobs(),
            old(self).pending_jobs().len() == 0 && old(self).is_closed() ==> r is Closed,
            old(self).pending_jobs().len() == 0 && !old(self).is_closed() ==> r is Empty,
    {
        if self.pending.len() > 0 {
            let job = self.pending.remove(0);
            proof {
                self.delivered@ = self.delivered@.push(job);
                assert(self.pending_jobs() =~= old(self).pending_jobs().drop_first());
                assert(self.submitted_jobs() =~= old(self).submitted_jobs());
            }
            Dequeued::Job(job)
        } else if self.closed {
            Dequeued::Closed
        } else {
            Dequeued::Empty
        }
    }

    /// How many jobs are pending.
    pub fn job_count(&self) -> (n: usize)
        ensures
            n == self.pending_jobs().len(),
    {
        self.pending.len()
    }

    /// Whether the queue still accepts submissions.
    pub fn is_accepting(&self) -> (b: bool)
        ensures
            b == !self.is_closed(),
    {
        !self.closed
    }

    /// The one-time transition to the closed state.  Pending jobs are kept:
    /// closing only refuses new submissions.  Closing twice changes nothing.
    pub fn close(&mut self)
        ensures
            final(self).is_closed(),
            final(self).pending_jobs() == old(self).pending_jobs(),
            final(self).delivered_jobs() == old(self).delivered_jobs(),
    {
        self.closed = true;
    }
}

} // verus!
