//! Workers: the consumers of the job queue.
//!
//! A worker is one execution thread of the pool, identified by a stable
//! integer id.  Its retrieval loop is a small state machine: `Idle` (blocked
//! on retrieval), `Executing` (running the job it retrieved), and the terminal
//! `Terminated` (the queue signalled closure).  While a job executes, the
//! worker remembers in ghost state which job it took, so that the pool can
//! account for every job it ever handed out.

use vstd::prelude::*;
use vstd::multiset::Multiset;

verus! {

/// The lifecycle phase of a worker, as observable by the embedding runtime.
#[derive(Clone, Copy, Debug, PartialEq, Eq, Structural)]
pub enum WorkerPhase {
    /// Blocked in retrieval, ready to accept a job.
    Idle,
    /// Running the job it retrieved; the retrieval lock is released.
    Executing,
    /// The queue reported closure; the worker's loop has exited for good.
    Terminated,
}

/// The state of a worker's retrieval loop.  The `Executing` state carries,
/// as ghost information only, the job that the worker retrieved.
pub enum WorkerState<J> {
    Idle,
    Executing(Ghost<J>),
    Terminated,
}

/// One worker of the pool: a stable id, assigned at construction and never
/// changed, and the state of its retrieval loop.
pub struct Worker<J> {
    pub id: usize,
    pub state: WorkerState<J>,
}

impl<J> Worker<J> {
    /// A fresh worker, idle and ready to retrieve.
    pub fn new(id: usize) -> (w: Worker<J>)
        ensures
            w.id == id,
            w.state is Idle,
    {
        Worker { id, state: WorkerState::Idle }
    }

    /// The phase of this worker, with the ghost payload erased.
    pub open spec fn phase(self) -> WorkerPhase {
        match self.state {
            WorkerState::Idle => WorkerPhase::Idle,
            WorkerState::Executing(_) => WorkerPhase::Executing,
            WorkerState::Terminated => WorkerPhase::Terminated,
        }
    }

    /// A worker is live until it observes closure; a live worker can still
    /// retrieve and execute jobs.
    pub open spec fn is_live(self) -> bool {
        !(self.state is Terminated)
    }

    /// The job this worker is currently executing.
    pub open spec fn executing_job(self) -> J
        recommends
            self.state is Executing,
    {
        self.state->Executing_0@
    }
}

/// The job a single worker holds, as a multiset: one job while executing,
/// nothing otherwise.
pub open spec fn held_job<J>(w: Worker<J>) -> Multiset<J> {
    match w.state {
        WorkerState::Executing(g) => Multiset::empty().insert(g@),
        _ => Multiset::empty(),
    }
}

/// All jobs currently being executed by some worker of the group.
pub open spec fn executing_jobs<J>(ws: Seq<Worker<J>>) -> Multiset<J>
    decreases ws.len(),
{
    if ws.len() == 0 {
        Multiset::empty()
    } else {
        executing_jobs(ws.drop_last()).add(held_job(ws.last()))
    }
}

/// How many workers of the group are still live.
pub open spec fn live_workers<J>(ws: Seq<Worker<J>>) -> nat
    decreases ws.len(),
{
    if ws.len() == 0 {
        0
    } else {
        live_workers(ws.drop_last()) + (if ws.last().is_live() {
            1nat
        } else {
            0nat
        })
    }
}

/// If no worker of the group is executing, the group holds no jobs.
pub proof fn lemma_executing_jobs_empty<J>(ws: Seq<Worker<J>>)
    requires
        forall|i: int| 0 <= i < ws.len() ==> !((#[trigger] ws[i]).state is Executing),
    ensures
        executing_jobs(ws) == Multiset::<J>::empty(),
    decreases ws.len(),
{
    broadcast use vstd::multiset::group_multiset_axioms;

    if ws.len() > 0 {
        lemma_executing_jobs_empty(ws.drop_last());
        assert(ws[ws.len() - 1] == ws.last());
        assert(executing_jobs(ws) =~= Multiset::<J>::empty());
    }
}

/// Replacing one worker of the group exchanges exactly the jobs the old and
/// the new worker hold; no other worker's job is touched.
pub proof fn lemma_executing_jobs_update<J>(ws: Seq<Worker<J>>, i: int, w: Worker<J>)
    requires
        0 <= i < ws.len(),
    ensures
        executing_jobs(ws.update(i, w)).add(held_job(ws[i])) == executing_jobs(ws).add(
            held_job(w),
        ),
    decreases ws.len(),
{
    broadcast use vstd::multiset::group_multiset_axioms;

    let ws2 = ws.update(i, w);
    if i == ws.len() - 1 {
        assert(ws2.drop_last() =~= ws.drop_last());
        assert(ws2.last() == w);
        assert(executing_jobs(ws2).add(held_job(ws[i])) =~= executing_jobs(ws).add(held_job(w)));
    } else {
        assert(ws2.drop_last() =~= ws.drop_last().update(i, w));
        assert(ws2.last() == ws.last());
        lemma_executing_jobs_update(ws.drop_last(), i, w);
        assert(ws.drop_last()[i] == ws[i]);
        let x2 = executing_jobs(ws.drop_last().update(i, w));
        let x = executing_jobs(ws.drop_last());
        let hl = held_job(ws.last());
        let hi = held_job(ws[i]);
        let hw = held_job(w);
        assert(executing_jobs(ws2) == x2.add(hl));
        assert(executing_jobs(ws) == x.add(hl));
        assert forall|e: J| x2.add(hl).add(hi).count(e) == x.add(hl).add(hw).count(e) by {
            assert(x2.add(hi).count(e) == x.add(hw).count(e));
        }
        assert(executing_jobs(ws2).add(held_job(ws[i])) =~= executing_jobs(ws).add(held_job(w)));
    }
}

/// A group whose workers are all live has as many live workers as members.
pub proof fn lemma_live_workers_all_live<J>(ws: Seq<Worker<J>>)
    requires
        forall|i: int| 0 <= i < ws.len() ==> (#[trigger] ws[i]).is_live(),
    ensures
        live_workers(ws) == ws.len(),
    decreases ws.len(),
{
    if ws.len() > 0 {
        lemma_live_workers_all_live(ws.drop_last());
        assert(ws[ws.len() - 1] == ws.last());
    }
}

/// A group whose workers have all terminated has no live worker left.
pub proof fn lemma_live_workers_none<J>(ws: Seq<Worker<J>>)
    requires
        forall|i: int| 0 <= i < ws.len() ==> !(#[trigger] ws[i]).is_live(),
    ensures
        live_workers(ws) == 0,
    decreases ws.len(),
{
    if ws.len() > 0 {
        lemma_live_workers_none(ws.drop_last());
        assert(ws[ws.len() - 1] == ws.last());
    }
}

/// Replacing one worker of the group changes the live count exactly by the
/// liveness the replacement gains or loses.
pub proof fn lemma_live_workers_update<J>(ws: Seq<Worker<J>>, i: int, w: Worker<J>)
    requires
        0 <= i < ws.len(),
    ensures
        live_workers(ws.update(i, w)) + (if ws[i].is_live() {
            1nat
        } else {
            0nat
        }) == live_workers(ws) + (if w.is_live() {
            1nat
        } else {
            0nat
        }),
    decreases ws.len(),
{
    let ws2 = ws.update(i, w);
    if i == ws.len() - 1 {
        assert(ws2.drop_last() =~= ws.drop_last());
        assert(ws2.last() == w);
    } else {
        assert(ws2.drop_last() =~= ws.drop_last().update(i, w));
        assert(ws2.last() == ws.last());
        lemma_live_workers_update(ws.drop_last(), i, w);
        assert(ws.drop_last()[i] == ws[i]);
    }
}

/// Extending the group by one member counts the newcomer's liveness.
pub proof fn lemma_live_workers_push<J>(ws: Seq<Worker<J>>, w: Worker<J>)
    ensures
        live_workers(ws.push(w)) == live_workers(ws) + (if w.is_live() {
            1nat
        } else {
            0nat
        }),
{
    assert(ws.push(w).drop_last() =~= ws);
    assert(ws.push(w).last() == w);
}

} // verus!
