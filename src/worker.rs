use vstd::prelude::*;

verus! {

/// Where a worker stands in its dispatch loop.
#[derive(Debug, Clone, Copy, PartialEq, Eq, Structural)]
pub enum WorkerState {
    /// Blocked on the queue, ready to claim the next job.
    Waiting,
    /// Running a job it claimed.
    Executing,
    /// Saw the queue closed and drained; its thread has nothing more to do.
    Stopped,
}

/// One worker of a pool, as the pool keeps track of it.
#[derive(Debug, Clone, Copy, PartialEq, Eq, Structural)]
pub struct Worker {
    /// Position of the worker in the pool, unique within it.
    pub id: usize,
    pub state: WorkerState,
    /// Whether the worker's thread handle has already been handed out to be joined.
    pub joined: bool,
}

impl Worker {
    /// A worker that has just started and waits for its first job.
    pub fn new(id: usize) -> (w: Worker)
        ensures
            w == (Worker { id, state: WorkerState::Waiting, joined: false }),
    {
        Worker { id, state: WorkerState::Waiting, joined: false }
    }
}

/// Counts the workers of `ws` that are running a job.
pub open spec fn executing_count(ws: Seq<Worker>) -> nat
    decreases ws.len(),
{
    if ws.len() == 0 {
        0
    } else {
        executing_count(ws.drop_last()) + if ws.last().state == WorkerState::Executing {
            1nat
        } else {
            0nat
        }
    }
}

/// Changing one worker changes the count only by what that worker contributes.
pub proof fn lemma_executing_count_update(ws: Seq<Worker>, i: int, w: Worker)
    requires
        0 <= i < ws.len(),
    ensures
        executing_count(ws.update(i, w)) + (if ws[i].state == WorkerState::Executing {
            1nat
        } else {
            0nat
        }) == executing_count(ws) + (if w.state == WorkerState::Executing {
            1nat
        } else {
            0nat
        }),
    decreases ws.len(),
{
    let us = ws.update(i, w);
    if i == ws.len() - 1 {
        assert(us.drop_last() =~= ws.drop_last());
    } else {
        assert(us.drop_last() =~= ws.drop_last().update(i, w));
        lemma_executing_count_update(ws.drop_last(), i, w);
    }
}

/// Two lists of workers in the same states, one for one, have the same count.
pub proof fn lemma_executing_count_same_states(a: Seq<Worker>, b: Seq<Worker>)
    requires
        a.len() == b.len(),
        forall|i: int| 0 <= i < a.len() ==> #[trigger] a[i].state == b[i].state,
    ensures
        executing_count(a) == executing_count(b),
    decreases a.len(),
{
    if a.len() > 0 {
        lemma_executing_count_same_states(a.drop_last(), b.drop_last());
    }
}

/// With no worker running a job, the count is zero.
pub proof fn lemma_executing_count_none(ws: Seq<Worker>)
    requires
        forall|i: int| 0 <= i < ws.len() ==> #[trigger] ws[i].state != WorkerState::Executing,
    ensures
        executing_count(ws) == 0,
    decreases ws.len(),
{
    if ws.len() > 0 {
        lemma_executing_count_none(ws.drop_last());
    }
}

/// The ids of the workers of `ws` whose thread handles have not been handed out yet, in order.
pub open spec fn joins_due(ws: Seq<Worker>) -> Seq<usize>
    decreases ws.len(),
{
    if ws.len() == 0 {
        Seq::empty()
    } else {
        joins_due(ws.drop_last()) + if ws.last().joined {
            Seq::<usize>::empty()
        } else {
            seq![ws.last().id]
        }
    }
}

/// Once every handle has been handed out, no join is due.
pub proof fn lemma_joins_due_none(ws: Seq<Worker>)
    requires
        forall|i: int| 0 <= i < ws.len() ==> #[trigger] ws[i].joined,
    ensures
        joins_due(ws) == Seq::<usize>::empty(),
    decreases ws.len(),
{
    if ws.len() > 0 {
        lemma_joins_due_none(ws.drop_last());
        assert(joins_due(ws) =~= Seq::<usize>::empty());
    }
}

} // verus!
