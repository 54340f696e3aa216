//! The pool: owner of the queue's producer side and of all workers.
//!
//! The pool couples one [`JobQueue`] with a fixed group of workers.  Its
//! operations are the transitions of the whole system: `exec` submits a job,
//! `take_job` is one worker's retrieval step, `finish_job` ends an execution
//! (faulted or not — a fault never costs a worker), `close` begins shutdown,
//! `join_next` joins the next terminated worker, in id order.  An embedding
//! runtime drives real threads through exactly these transitions; every
//! decision — who may take which job, when a worker exits, when shutdown is
//! complete — is made and verified here.
//!
//! The well-formedness predicate `wf` ties the logs together: everything
//! delivered is either completed or inside exactly one executing worker, and
//! a terminated worker can only ever have seen a closed, drained queue.  From
//! that the shutdown laws below follow: at a completed shutdown every job
//! ever accepted was handed out exactly once, in submission order, and no
//! worker is leaked.

use vstd::prelude::*;
use vstd::multiset::Multiset;

use crate::queue::{Dequeued, JobQueue};
use crate::worker::{
    executing_jobs, held_job, lemma_executing_jobs_empty, lemma_executing_jobs_update,
    lemma_live_workers_all_live, lemma_live_workers_none, lemma_live_workers_update, live_workers,
    Worker, WorkerPhase, WorkerState,
};

verus! {

/// The distinguishable failure of a submission against a pool whose shutdown
/// has begun.  The rejected job is handed back untouched.
#[derive(Debug)]
pub struct SubmitError<J> {
    pub job: J,
}

/// What a worker's retrieval step told it to do.
pub enum WorkerAction<J> {
    /// Execute this job, then report back with `finish_job`.
    Run(J),
    /// Nothing to do yet: stay blocked on the queue and retry.
    Blocked,
    /// The queue is closed and drained: leave the loop for good.
    Exit,
}

/// How the execution of a job ended.
#[derive(Clone, Copy, Debug, PartialEq, Eq, Structural)]
pub enum JobOutcome {
    /// The job ran to completion.
    Completed,
    /// The job raised an unhandled fault.  The fault is isolated: it ends
    /// only this job, never the worker that ran it.
    Faulted,
}

/// A fixed-size worker pool around a FIFO job queue.
pub struct ThreadPool<J> {
    queue: JobQueue<J>,
    workers: Vec<Worker<J>>,
    joined: usize,
    completed: Ghost<Seq<J>>,
}

impl<J> ThreadPool<J> {
    /// The pool's workers, in id order.
    pub closed spec fn workers_view(self) -> Seq<Worker<J>> {
        self.workers@
    }

    /// The pool's queue.
    pub closed spec fn queue_view(self) -> JobQueue<J> {
        self.queue
    }

    /// The jobs whose execution has finished, in completion order.
    pub closed spec fn completed_jobs(self) -> Seq<J> {
        self.completed@
    }

    /// How many workers have been joined during shutdown.
    pub closed spec fn joined_count(self) -> nat {
        self.joined as nat
    }

    /// The worker count, fixed at construction.
    pub open spec fn size(self) -> nat {
        self.workers_view().len()
    }

    /// The jobs accepted and not yet handed to a worker, head first.
    pub open spec fn pending_jobs(self) -> Seq<J> {
        self.queue_view().pending_jobs()
    }

    /// The jobs handed to workers so far, in delivery order.
    pub open spec fn delivered_jobs(self) -> Seq<J> {
        self.queue_view().delivered_jobs()
    }

    /// Every job ever accepted, in submission order.
    pub open spec fn submitted_jobs(self) -> Seq<J> {
        self.queue_view().submitted_jobs()
    }

    /// Whether shutdown has begun.
    pub open spec fn is_closed(self) -> bool {
        self.queue_view().is_closed()
    }

    /// How many workers have not terminated.
    pub open spec fn live_count(self) -> nat {
        live_workers(self.workers_view())
    }

    /// The phase of worker `i`.
    pub open spec fn phase_of(self, i: int) -> WorkerPhase
        recommends
            0 <= i < self.size(),
    {
        self.workers_view()[i].phase()
    }

    /// Shutdown has begun and every worker has been joined.
    pub open spec fn shutdown_complete(self) -> bool {
        self.is_closed() && self.joined_count() == self.size()
    }

    /// The pool's invariant, established at construction and preserved by
    /// every transition.
    pub open spec fn wf(self) -> bool {
        &&& self.size() >= 1
        &&& self.joined_count() <= self.size()
        &&& (forall|i: int|
            0 <= i < self.size() ==> (#[trigger] self.workers_view()[i]).id == i)
        &&& (forall|i: int|
            0 <= i < self.joined_count() ==> (#[trigger] self.workers_view()[i]).state
                is Terminated)
        &&& (forall|i: int|
            0 <= i < self.size() && (#[trigger] self.workers_view()[i]).state is Terminated
                ==> self.is_closed() && self.pending_jobs().len() == 0)
        &&& self.delivered_jobs().to_multiset() == self.completed_jobs().to_multiset().add(
            executing_jobs(self.workers_view()),
        )
    }

    /// Construct a pool of exactly `size` workers, all idle, around a fresh,
    /// open, empty queue.
    pub fn new(size: usize) -> (pool: ThreadPool<J>)
        requires
            1 <= size,
        ensures
            pool.wf(),
            pool.size() == size,
            !pool.is_closed(),
            pool.pending_jobs() == Seq::<J>::empty(),
            pool.delivered_jobs() == Seq::<J>::empty(),
            pool.completed_jobs() == Seq::<J>::empty(),
            pool.joined_count() == 0,
            pool.live_count() == size,
            forall|i: int| 0 <= i < size ==> (#[trigger] pool.workers_view()[i]).state is Idle,
    {
        let mut workers: Vec<Worker<J>> = Vec::new();
        let mut id: usize = 0;
        while id < size
            invariant
                id <= size,
                workers@.len() == id,
                forall|i: int|
                    0 <= i < id ==> (#[trigger] workers@[i]).id == i && workers@[i].state is Idle,
            decreases size - id,
        {
            workers.push(Worker::new(id));
            id += 1;
        }
        let pool = ThreadPool {
            queue: JobQueue::new(),
            workers,
            joined: 0,
            completed: Ghost(Seq::empty()),
        };
        proof {
            broadcast use vstd::seq_lib::group_to_multiset_ensures;
            broadcast use vstd::multiset::group_multiset_axioms;

            lemma_live_workers_all_live(pool.workers_view());
            lemma_executing_jobs_empty(pool.workers_view());
            assert(Seq::<J>::empty().to_multiset() =~= Multiset::<J>::empty()) by {
                assert forall|j: J| Seq::<J>::empty().to_multiset().count(j) == 0int by {
                    if Seq::<J>::empty().to_multiset().count(j) > 0 {
                        assert(Seq::<J>::empty().contains(j));
                    }
                }
            }
            assert(pool.delivered_jobs().to_multiset() =~= pool.completed_jobs().to_multiset().add(
                executing_jobs(pool.workers_view()),
            ));
        }
        pool
    }

    /// Submit a job.  While the pool is open the job enters the queue's tail
    /// and will be delivered; once shutdown has begun the submission is
    /// rejected and the job handed back — never silently dropped.
    pub fn exec(&mut self, job: J) -> (r: Result<(), SubmitError<J>>)
        requires
            old(self).wf(),
        ensures
            final(self).wf(),
            final(self).size() == old(self).size(),
            final(self).workers_view() == old(self).workers_view(),
            final(self).is_closed() == old(self).is_closed(),
            final(self).joined_count() == old(self).joined_count(),
            final(self).completed_jobs() == old(self).completed_jobs(),
            final(self).delivered_jobs() == old(self).delivered_jobs(),
            old(self).is_closed() ==> (r matches Err(e) && e.job == job
                && final(self).pending_jobs() == old(self).pending_jobs()),
            !old(self).is_closed() ==> (r is Ok
                && final(self).pending_jobs() == old(self).pending_jobs().push(job)
                && final(self).submitted_jobs() == old(self).submitted_jobs().push(job)),
    {
        match self.queue.enqueue(job) {
            Ok(()) => Ok(()),
            Err(j) => Err(SubmitError { job: j }),
        }
    }

    /// One retrieval step of the idle worker `widx`: under mutual exclusion
    /// it either takes the head job — which then belongs to that worker
    /// alone — or learns that it must keep waiting, or that it must exit
    /// because the queue closed.
    pub fn take_job(&mut self, widx: usize) -> (a: WorkerAction<J>)
        requires
            old(self).wf(),
            widx < old(self).size(),
            old(self).phase_of(widx as int) is Idle,
        ensures
            final(self).wf(),
            final(self).size() == old(self).size(),
            final(self).is_closed() == old(self).is_closed(),
            final(self).joined_count() == old(self).joined_count(),
            final(self).completed_jobs() == old(self).completed_jobs(),
            final(self).submitted_jobs() == old(self).submitted_jobs(),
            forall|i: int|
                0 <= i < old(self).size() && i != widx ==> final(self).workers_view()[i] == old(
                    self,
                ).workers_view()[i],
            old(self).pending_jobs().len() > 0 ==> (a matches WorkerAction::Run(j)
                && j == old(self).pending_jobs()[0]
                && final(self).phase_of(widx as int) is Executing
                && final(self).workers_view()[widx as int].executing_job() == old(self).pending_jobs()[0]
                && final(self).pending_jobs() == old(self).pending_jobs().drop_first()
                && final(self).delivered_jobs() == old(self).delivered_jobs().push(old(self).pending_jobs()[0])
                && final(self).live_count() == old(self).live_count()),
            old(self).pending_jobs().len() == 0 && old(self).is_closed() ==> (a is Exit
                && final(self).phase_of(widx as int) is Terminated
                && final(self).pending_jobs() == old(self).pending_jobs()
                && final(self).delivered_jobs() == old(self).delivered_jobs()
                && final(self).live_count() + 1 == old(self).live_count()),
            old(self).pending_jobs().len() == 0 && !old(self).is_closed() ==> (a is Blocked
                && final(self).workers_view() == old(self).workers_view()
                && final(self).pending_jobs() == old(self).pending_jobs()
                && final(self).delivered_jobs() == old(self).delivered_jobs()
                && final(self).live_count() == old(self).live_count()),
    {
        match self.queue.dequeue_step() {
            Dequeued::Job(job) => {
                let replacement = Worker { id: widx, state: WorkerState::Executing(Ghost(job)) };
                self.workers[widx] = replacement;
                proof {
                    broadcast use vstd::seq_lib::group_to_multiset_ensures;
                    broadcast use vstd::multiset::group_multiset_axioms;

                    lemma_executing_jobs_update(
                        old(self).workers_view(),
                        widx as int,
                        self.workers_view()[widx as int],
                    );
                    lemma_live_workers_update(
                        old(self).workers_view(),
                        widx as int,
                        self.workers_view()[widx as int],
                    );
                    assert(self.workers_view() =~= old(self).workers_view().update(
                        widx as int,
                        self.workers_view()[widx as int],
                    ));
                    let d0 = old(self).delivered_jobs().to_multiset();
                    let c0 = old(self).completed_jobs().to_multiset();
                    let e0 = executing_jobs(old(self).workers_view());
                    let e1 = executing_jobs(self.workers_view());
                    assert(e1.add(held_job(old(self).workers_view()[widx as int])) == e0.add(
                        held_job(self.workers_view()[widx as int]),
                    ));
                    assert forall|x: J|
                        self.delivered_jobs().to_multiset().count(x) == c0.add(e1).count(x) by {
                        assert(self.delivered_jobs().to_multiset().count(x) == d0.insert(
                            job,
                        ).count(x));
                        assert(e1.add(Multiset::<J>::empty()).count(x) == e0.add(
                            Multiset::<J>::empty().insert(job),
                        ).count(x));
                    }
                    assert(self.delivered_jobs().to_multiset() =~= self.completed_jobs().to_multiset().add(e1));
                }
                WorkerAction::Run(job)
            },
            Dequeued::Closed => {
                let replacement = Worker { id: widx, state: WorkerState::Terminated };
                self.workers[widx] = replacement;
                proof {
                    broadcast use vstd::multiset::group_multiset_axioms;

                    lemma_executing_jobs_update(
                        old(self).workers_view(),
                        widx as int,
                        self.workers_view()[widx as int],
                    );
                    lemma_live_workers_update(
                        old(self).workers_view(),
                        widx as int,
                        self.workers_view()[widx as int],
                    );
                    assert(self.workers_view() =~= old(self).workers_view().update(
                        widx as int,
                        self.workers_view()[widx as int],
                    ));
                    let e0 = executing_jobs(old(self).workers_view());
                    let e1 = executing_jobs(self.workers_view());
                    assert(e1.add(Multiset::<J>::empty()) == e0.add(Multiset::<J>::empty()));
                    assert forall|x: J| e1.count(x) == e0.count(x) by {
                        assert(e1.add(Multiset::<J>::empty()).count(x) == e0.add(
                            Multiset::<J>::empty(),
                        ).count(x));
                    }
                    assert(e1 =~= e0);
                }
                WorkerAction::Exit
            },
            Dequeued::Empty => WorkerAction::Blocked,
        }
    }

    /// Report that worker `widx` finished executing its job.  Whatever the
    /// outcome — completion or an unhandled fault — the transition is the
    /// same: the job is recorded as executed exactly once and the worker
    /// returns to `Idle`, ready to retrieve again.  A fault never reduces
    /// the number of live workers.
    pub fn finish_job(&mut self, widx: usize, outcome: JobOutcome)
        requires
            old(self).wf(),
            widx < old(self).size(),
            old(self).phase_of(widx as int) is Executing,
        ensures
            final(self).wf(),
            final(self).size() == old(self).size(),
            final(self).is_closed() == old(self).is_closed(),
            final(self).joined_count() == old(self).joined_count(),
            final(self).pending_jobs() == old(self).pending_jobs(),
            final(self).delivered_jobs() == old(self).delivered_jobs(),
            final(self).submitted_jobs() == old(self).submitted_jobs(),
            forall|i: int|
                0 <= i < old(self).size() && i != widx ==> final(self).workers_view()[i] == old(
                    self,
                ).workers_view()[i],
            final(self).phase_of(widx as int) is Idle,
            final(self).live_count() == old(self).live_count(),
            final(self).completed_jobs() == old(self).completed_jobs().push(
                old(self).workers_view()[widx as int].executing_job(),
            ),
    {
        // Fault isolation: both outcomes take the very same transition, so a
        // fault can end only the job, never the worker that ran it.
        match outcome {
            JobOutcome::Completed => {},
            JobOutcome::Faulted => {},
        }
        let ghost job = self.workers@[widx as int].executing_job();
        let replacement = Worker { id: widx, state: WorkerState::Idle };
        self.workers[widx] = replacement;
        proof {
            broadcast use vstd::seq_lib::group_to_multiset_ensures;
            broadcast use vstd::multiset::group_multiset_axioms;

            self.completed@ = self.completed@.push(job);
            lemma_executing_jobs_update(
                old(self).workers_view(),
                widx as int,
                self.workers_view()[widx as int],
            );
            lemma_live_workers_update(
                old(self).workers_view(),
                widx as int,
                self.workers_view()[widx as int],
            );
            assert(self.workers_view() =~= old(self).workers_view().update(
                widx as int,
                self.workers_view()[widx as int],
            ));
            let d0 = old(self).delivered_jobs().to_multiset();
            let c0 = old(self).completed_jobs().to_multiset();
            let e0 = executing_jobs(old(self).workers_view());
            let e1 = executing_jobs(self.workers_view());
            assert(held_job(old(self).workers_view()[widx as int]) == Multiset::<J>::empty().insert(
                job,
            ));
            assert(e1.add(Multiset::<J>::empty().insert(job)) == e0.add(Multiset::<J>::empty()));
            assert forall|x: J|
                self.delivered_jobs().to_multiset().count(x) == self.completed_jobs().to_multiset().add(e1).count(x) by {
                assert(self.completed_jobs().to_multiset().count(x) == c0.insert(job).count(x));
                assert(e1.add(Multiset::<J>::empty().insert(job)).count(x) == e0.add(
                    Multiset::<J>::empty(),
                ).count(x));
                assert(d0.count(x) == c0.add(e0).count(x));
            }
            assert(self.delivered_jobs().to_multiset() =~= self.completed_jobs().to_multiset().add(e1));
        }
    }

    /// Begin shutdown: close the queue's producer side.  Jobs already
    /// accepted stay pending and will still be delivered; new submissions
    /// are rejected from here on.  Closing twice changes nothing.
    pub fn close(&mut self)
        requires
            old(self).wf(),
        ensures
            final(self).wf(),
            final(self).size() == old(self).size(),
            final(self).workers_view() == old(self).workers_view(),
            final(self).is_closed(),
            final(self).joined_count() == old(self).joined_count(),
            final(self).pending_jobs() == old(self).pending_jobs(),
            final(self).delivered_jobs() == old(self).delivered_jobs(),
            final(self).completed_jobs() == old(self).completed_jobs(),
            final(self).live_count() == old(self).live_count(),
    {
        self.queue.close();
    }

    /// Join the next worker, in id order: worker `joined_count()` must have
    /// terminated.  Joining all workers completes the shutdown.
    pub fn join_next(&mut self)
        requires
            old(self).wf(),
            old(self).joined_count() < old(self).size(),
            old(self).phase_of(old(self).joined_count() as int) is Terminated,
        ensures
            final(self).wf(),
            final(self).size() == old(self).size(),
            final(self).workers_view() == old(self).workers_view(),
            final(self).is_closed() == old(self).is_closed(),
            final(self).joined_count() == old(self).joined_count() + 1,
            final(self).pending_jobs() == old(self).pending_jobs(),
            final(self).delivered_jobs() == old(self).delivered_jobs(),
            final(self).completed_jobs() == old(self).completed_jobs(),
            final(self).live_count() == old(self).live_count(),
    {
        let n = self.workers.len();
        if self.joined < n {
            self.joined = self.joined + 1;
        }
    }

    /// Drive a drained, fully idle pool through its complete shutdown: close
    /// the queue, let every worker observe closure and terminate, then join
    /// them all, in id order.  A pool that never received a job — or whose
    /// jobs have all finished — shuts down this way without ever blocking.
    pub fn shutdown(&mut self)
        requires
            old(self).wf(),
            old(self).pending_jobs().len() == 0,
            forall|i: int|
                0 <= i < old(self).size() ==> (#[trigger] old(self).workers_view()[i]).state
                    is Idle,
        ensures
            final(self).wf(),
            final(self).shutdown_complete(),
            final(self).size() == old(self).size(),
            final(self).joined_count() == old(self).size(),
            final(self).is_closed(),
            final(self).live_count() == 0,
            final(self).pending_jobs() == old(self).pending_jobs(),
            final(self).delivered_jobs() == old(self).delivered_jobs(),
            final(self).completed_jobs() == old(self).completed_jobs(),
            final(self).submitted_jobs() == old(self).submitted_jobs(),
            forall|i: int|
                0 <= i < final(self).size() ==> (#[trigger] final(self).workers_view()[i]).state
                    is Terminated,
    {
        proof {
            // Every worker is still idle, so none can have been joined: a
            // joined worker would have to be terminated already.
            if old(self).joined_count() > 0 {
                assert(old(self).workers_view()[0].state is Idle);
                assert(old(self).workers_view()[0].state is Terminated);
            }
        }
        self.close();
        let n = self.workers.len();
        let mut i: usize = 0;
        while i < n
            invariant
                self.wf(),
                i <= n,
                self.size() == n,
                self.is_closed(),
                self.joined_count() == 0,
                self.pending_jobs() == old(self).pending_jobs(),
                self.pending_jobs().len() == 0,
                self.delivered_jobs() == old(self).delivered_jobs(),
                self.completed_jobs() == old(self).completed_jobs(),
                self.submitted_jobs() == old(self).submitted_jobs(),
                forall|k: int|
                    0 <= k < i ==> (#[trigger] self.workers_view()[k]).state is Terminated,
                forall|k: int| i <= k < n ==> (#[trigger] self.workers_view()[k]).state is Idle,
            decreases n - i,
        {
            match self.take_job(i) {
                WorkerAction::Exit => {},
                _ => {
                    // Unreachable: a closed, drained queue always tells the
                    // worker to exit.
                    proof {
                        assert(false);
                    }
                },
            }
            i += 1;
        }
        let mut k: usize = 0;
        while k < n
            invariant
                self.wf(),
                k <= n,
                self.size() == n,
                self.is_closed(),
                self.joined_count() == k,
                self.pending_jobs() == old(self).pending_jobs(),
                self.delivered_jobs() == old(self).delivered_jobs(),
                self.completed_jobs() == old(self).completed_jobs(),
                self.submitted_jobs() == old(self).submitted_jobs(),
                forall|q: int|
                    0 <= q < n ==> (#[trigger] self.workers_view()[q]).state is Terminated,
            decreases n - k,
        {
            self.join_next();
            k += 1;
        }
        proof {
            lemma_live_workers_none(self.workers_view());
        }
    }

    /// The worker count, fixed at construction.
    pub fn worker_count(&self) -> (n: usize)
        ensures
            n == self.size(),
    {
        self.workers.len()
    }

    /// How many jobs are queued and not yet handed to a worker.
    pub fn queued_count(&self) -> (n: usize)
        ensures
            n == self.pending_jobs().len(),
    {
        self.queue.job_count()
    }

    /// Whether shutdown has begun.
    pub fn is_shutting_down(&self) -> (b: bool)
        ensures
            b == self.is_closed(),
    {
        !self.queue.is_accepting()
    }

    /// How many workers have been joined so far.
    pub fn joined_workers(&self) -> (n: usize)
        ensures
            n == self.joined_count(),
    {
        self.joined
    }

    /// Whether shutdown has begun and every worker has been joined.
    pub fn is_finished(&self) -> (b: bool)
        ensures
            b == self.shutdown_complete(),
    {
        !self.queue.is_accepting() && self.joined == self.workers.len()
    }

    /// The phase of worker `widx`.
    pub fn worker_phase(&self, widx: usize) -> (ph: WorkerPhase)
        requires
            widx < self.size(),
        ensures
            ph == self.phase_of(widx as int),
    {
        match &self.workers[widx].state {
            WorkerState::Idle => WorkerPhase::Idle,
            WorkerState::Executing(_) => WorkerPhase::Executing,
            WorkerState::Terminated => WorkerPhase::Terminated,
        }
    }

    /// How many workers are live: every worker that has not terminated.
    pub fn live_worker_count(&self) -> (n: usize)
        ensures
            n == self.live_count(),
    {
        let total = self.workers.len();
        let mut n: usize = 0;
        let mut i: usize = 0;
        while i < total
            invariant
                i <= total,
                total == self.size(),
                n <= i,
                n == live_workers(self.workers_view().take(i as int)),
            decreases total - i,
        {
            let live = match &self.workers[i].state {
                WorkerState::Terminated => false,
                _ => true,
            };
            proof {
                assert(self.workers_view().take(i + 1) =~= self.workers_view().take(
                    i as int,
                ).push(self.workers_view()[i as int]));
                crate::worker::lemma_live_workers_push(
                    self.workers_view().take(i as int),
                    self.workers_view()[i as int],
                );
            }
            if live {
                n = n + 1;
            }
            i += 1;
        }
        proof {
            assert(self.workers_view().take(total as int) =~= self.workers_view());
        }
        n
    }
}

/// Jobs are delivered to workers in the order they were submitted: at every
/// reachable state the delivery log is a prefix of the submission log, and
/// the still-pending jobs are exactly its remainder.
pub proof fn lemma_fifo_delivery<J>(pool: ThreadPool<J>)
    requires
        pool.wf(),
    ensures
        pool.submitted_jobs() == pool.delivered_jobs() + pool.pending_jobs(),
        pool.delivered_jobs() == pool.submitted_jobs().take(pool.delivered_jobs().len() as int),
{
    assert(pool.delivered_jobs() =~= pool.submitted_jobs().take(
        pool.delivered_jobs().len() as int,
    ));
}

/// Every job the pool has handed out is, at every reachable state, either
/// completed or inside exactly one worker — executed at most once, never
/// duplicated, never invented: what is completed is a sub-multiset of what
/// was submitted.
pub proof fn lemma_delivery_accounting<J>(pool: ThreadPool<J>)
    requires
        pool.wf(),
    ensures
        pool.delivered_jobs().to_multiset() == pool.completed_jobs().to_multiset().add(
            executing_jobs(pool.workers_view()),
        ),
        pool.completed_jobs().to_multiset().subset_of(pool.submitted_jobs().to_multiset()),
{
    broadcast use vstd::multiset::group_multiset_axioms;

    vstd::seq_lib::lemma_multiset_commutative(pool.delivered_jobs(), pool.pending_jobs());
    assert forall|x: J|
        pool.completed_jobs().to_multiset().count(x) <= pool.submitted_jobs().to_multiset().count(
            x,
        ) by {
        assert(pool.submitted_jobs().to_multiset().count(x) == pool.delivered_jobs().to_multiset().count(x)
            + pool.pending_jobs().to_multiset().count(x));
        assert(pool.delivered_jobs().to_multiset().count(x) == pool.completed_jobs().to_multiset().count(x)
            + executing_jobs(pool.workers_view()).count(x));
    }
}

/// Until shutdown begins the pool never loses a worker: at every reachable
/// open state all workers constructed are live, whatever jobs ran — or
/// faulted — before it.
pub proof fn lemma_open_pool_keeps_all_workers<J>(pool: ThreadPool<J>)
    requires
        pool.wf(),
        !pool.is_closed(),
    ensures
        pool.live_count() == pool.size(),
{
    lemma_live_workers_all_live(pool.workers_view());
}

/// A completed shutdown leaks nothing and loses nothing: every worker the
/// pool constructed has terminated and been joined, the queue is drained,
/// jobs were delivered in exactly submission order, and every job accepted
/// before the close was executed exactly once — none lost, none duplicated,
/// none left pending.
pub proof fn lemma_shutdown_exactly_once<J>(pool: ThreadPool<J>)
    requires
        pool.wf(),
        pool.shutdown_complete(),
    ensures
        pool.joined_count() == pool.size(),
        forall|i: int|
            0 <= i < pool.size() ==> (#[trigger] pool.workers_view()[i]).state is Terminated,
        pool.live_count() == 0,
        pool.pending_jobs().len() == 0,
        pool.delivered_jobs() == pool.submitted_jobs(),
        pool.completed_jobs().to_multiset() == pool.submitted_jobs().to_multiset(),
{
    broadcast use vstd::multiset::group_multiset_axioms;

    assert(pool.workers_view()[0].state is Terminated);
    assert(pool.pending_jobs().len() == 0);
    assert(pool.delivered_jobs() =~= pool.submitted_jobs());
    lemma_live_workers_none(pool.workers_view());
    lemma_executing_jobs_empty(pool.workers_view());
    let c = pool.completed_jobs().to_multiset();
    assert forall|x: J| c.count(x) == pool.submitted_jobs().to_multiset().count(x) by {
        assert(pool.delivered_jobs().to_multiset().count(x) == c.add(
            Multiset::<J>::empty(),
        ).count(x));
    }
    assert(c =~= pool.submitted_jobs().to_multiset());
}

} // verus!
