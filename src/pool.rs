use vstd::prelude::*;

use crate::error::PoolCreationError;
use crate::queue::{JobQueue, QueueView, Recv};
use crate::worker::{
    executing_count, joins_due, lemma_executing_count_none, lemma_executing_count_same_states,
    lemma_executing_count_update, lemma_joins_due_none, Worker, WorkerState,
};

verus! {

/// A pool as mathematics: its workers in construction order, its job queue, and how many
/// claimed jobs the workers have reported finished.
pub struct PoolView<J> {
    pub workers: Seq<Worker>,
    pub queue: QueueView<J>,
    pub finished: nat,
}

impl<J> PoolView<J> {
    /// What holds of every pool between two operations.
    pub open spec fn inv(self) -> bool {
        &&& self.workers.len() > 0
        &&& forall|i: int| 0 <= i < self.workers.len() ==> #[trigger] self.workers[i].id == i
        &&& forall|i: int|
            0 <= i < self.workers.len() && #[trigger] self.workers[i].state == WorkerState::Stopped
                ==> self.queue.closed && self.queue.pending.len() == 0
        &&& self.finished + executing_count(self.workers) == self.queue.delivered.len()
    }

    /// Whether jobs may still be submitted.
    pub open spec fn is_open(self) -> bool {
        !self.queue.closed
    }

    /// The pool after teardown has closed the queue and taken every thread handle.
    pub open spec fn shut_down(self) -> PoolView<J> {
        PoolView {
            workers: Seq::new(
                self.workers.len(),
                |i: int| Worker { joined: true, ..self.workers[i] },
            ),
            queue: QueueView { closed: true, ..self.queue },
            finished: self.finished,
        }
    }

    /// Whether every worker has left its dispatch loop.
    pub open spec fn all_stopped(self) -> bool {
        forall|i: int|
            0 <= i < self.workers.len() ==> #[trigger] self.workers[i].state
                == WorkerState::Stopped
    }
}

/// The worker's next move, as decided by the pool.
pub enum Dispatch<J> {
    /// Run this job, then report back with `finish`.
    Run(J),
    /// Block until something is submitted or the pool shuts down, then ask again.
    Wait,
    /// Leave the dispatch loop: the queue is closed and drained.
    Stop,
}

/// A fixed set of workers fed from one first-in first-out job queue.
///
/// This is the pool's bookkeeping and dispatch protocol; each operation is one atomic step.
/// The threads that run the workers call `claim` and `finish`; the owner calls `execute` and,
/// at teardown, `shutdown`, then joins the threads whose ids it is given.
pub struct ThreadPool<J> {
    workers: Vec<Worker>,
    queue: JobQueue<J>,
    finished: Ghost<nat>,
}

impl<J> View for ThreadPool<J> {
    type V = PoolView<J>;

    closed spec fn view(&self) -> PoolView<J> {
        PoolView { workers: self.workers@, queue: self.queue@, finished: self.finished@ }
    }
}

impl<J> ThreadPool<J> {
    pub open spec fn wf(&self) -> bool {
        self@.inv()
    }

    /// A pool of `thread_count` waiting workers with ids `0..thread_count` and an open,
    /// empty queue.
    pub fn new(thread_count: usize) -> (pool: Self)
        requires
            thread_count > 0,
        ensures
            pool.wf(),
            pool@.workers.len() == thread_count,
            forall|i: int|
                0 <= i < thread_count ==> #[trigger] pool@.workers[i] == (Worker {
                    id: i as usize,
                    state: WorkerState::Waiting,
                    joined: false,
                }),
            pool@.queue == (QueueView::<J> {
                pending: Seq::empty(),
                delivered: Seq::empty(),
                closed: false,
            }),
            pool@.finished == 0,
    {
        let mut workers: Vec<Worker> = Vec::with_capacity(thread_count);
        for id in 0..thread_count
            invariant
                workers@.len() == id,
                forall|i: int|
                    0 <= i < id ==> #[trigger] workers@[i] == (Worker {
                        id: i as usize,
                        state: WorkerState::Waiting,
                        joined: false,
                    }),
        {
            workers.push(Worker::new(id));
        }
        let pool = ThreadPool { workers, queue: JobQueue::new(), finished: Ghost(0) };
        proof {
            lemma_executing_count_none(pool.workers@);
        }
        pool
    }

    /// Like `new`, but a thread count of zero is reported as an error instead of being
    /// ruled out by the caller.
    pub fn build(thread_count: usize) -> (r: Result<Self, PoolCreationError>)
        ensures
            thread_count == 0 <==> r is Err,
            r is Err ==> r == Err::<Self, PoolCreationError>(PoolCreationError::LessThanOne),
            r matches Ok(pool) ==> {
                &&& pool.wf()
                &&& pool@.workers.len() == thread_count
                &&& forall|i: int|
                    0 <= i < thread_count ==> #[trigger] pool@.workers[i] == (Worker {
                        id: i as usize,
                        state: WorkerState::Waiting,
                        joined: false,
                    })
                &&& pool@.queue == (QueueView::<J> {
                    pending: Seq::empty(),
                    delivered: Seq::empty(),
                    closed: false,
                })
                &&& pool@.finished == 0
            },
    {
        if thread_count == 0 {
            Err(PoolCreationError::LessThanOne)
        } else {
            Ok(Self::new(thread_count))
        }
    }

    /// Submits `job`: it goes behind every job submitted before it. Never blocks.
    pub fn execute(&mut self, job: J)
        requires
            old(self).wf(),
            old(self)@.is_open(),
        ensures
            final(self).wf(),
            final(self)@ == (PoolView {
                queue: QueueView { pending: old(self)@.queue.pending.push(job), ..old(self)@.queue },
                ..old(self)@
            }),
            final(self)@.queue.sent() == old(self)@.queue.sent().push(job),
    {
        match self.queue.send(job) {
            Ok(()) => {},
            Err(_) => {},
        }
        proof {
            assert(self@.queue.sent() =~= old(self)@.queue.sent().push(job));
        }
    }

    /// Worker `worker`, waiting, asks for work. It gets the oldest pending job and starts
    /// executing it; or, with nothing pending, it waits while the pool is open and stops
    /// once it is closed.
    pub fn claim(&mut self, worker: usize) -> (r: Dispatch<J>)
        requires
            old(self).wf(),
            worker < old(self)@.workers.len(),
            old(self)@.workers[worker as int].state == WorkerState::Waiting,
        ensures
            final(self).wf(),
            final(self)@.finished == old(self)@.finished,
            final(self)@.queue.sent() == old(self)@.queue.sent(),
            old(self)@.queue.pending.len() > 0 ==> {
                &&& r == Dispatch::Run(old(self)@.queue.sent()[old(self)@.queue.delivered.len() as int])
                &&& final(self)@.queue == (QueueView {
                    pending: old(self)@.queue.pending.drop_first(),
                    delivered: old(self)@.queue.delivered.push(old(self)@.queue.pending[0]),
                    closed: old(self)@.queue.closed,
                })
                &&& final(self)@.workers == old(self)@.workers.update(
                    worker as int,
                    Worker { state: WorkerState::Executing, ..old(self)@.workers[worker as int] },
                )
            },
            old(self)@.queue.pending.len() == 0 && !old(self)@.queue.closed ==> {
                &&& r is Wait
                &&& final(self)@ == old(self)@
            },
            old(self)@.queue.pending.len() == 0 && old(self)@.queue.closed ==> {
                &&& r is Stop
                &&& final(self)@.queue == old(self)@.queue
                &&& final(self)@.workers == old(self)@.workers.update(
                    worker as int,
                    Worker { state: WorkerState::Stopped, ..old(self)@.workers[worker as int] },
                )
            },
    {
        let ghost before = self@;
        match self.queue.recv() {
            Recv::Job(job) => {
                let w = self.workers[worker];
                let w2 = Worker { state: WorkerState::Executing, ..w };
                self.workers.set(worker, w2);
                proof {
                    lemma_executing_count_update(before.workers, worker as int, w2);
                    assert(before.queue.sent() =~= self@.queue.sent());
                }
                Dispatch::Run(job)
            },
            Recv::Empty => Dispatch::Wait,
            Recv::Disconnected => {
                let w = self.workers[worker];
                let w2 = Worker { state: WorkerState::Stopped, ..w };
                self.workers.set(worker, w2);
                proof {
                    lemma_executing_count_update(before.workers, worker as int, w2);
                }
                Dispatch::Stop
            },
        }
    }

    /// Worker `worker` reports that the job it claimed has run; it waits for the next one.
    pub fn finish(&mut self, worker: usize)
        requires
            old(self).wf(),
            worker < old(self)@.workers.len(),
            old(self)@.workers[worker as int].state == WorkerState::Executing,
        ensures
            final(self).wf(),
            final(self)@ == (PoolView {
                workers: old(self)@.workers.update(
                    worker as int,
                    Worker { state: WorkerState::Waiting, ..old(self)@.workers[worker as int] },
                ),
                finished: old(self)@.finished + 1,
                ..old(self)@
            }),
    {
        let ghost before = self@;
        let w = self.workers[worker];
        let w2 = Worker { state: WorkerState::Waiting, ..w };
        self.workers.set(worker, w2);
        proof {
            self.finished@ = self.finished@ + 1;
            lemma_executing_count_update(before.workers, worker as int, w2);
        }
    }

    /// Teardown: closes the queue, then hands out, in construction order, the ids of the
    /// workers whose threads are still to be joined, and marks them joined. Jobs already
    /// pending stay and are still run. A second teardown closes nothing new and hands out
    /// no id.
    pub fn shutdown(&mut self) -> (r: Vec<usize>)
        requires
            old(self).wf(),
        ensures
            final(self).wf(),
            final(self)@ == old(self)@.shut_down(),
            r@ == joins_due(old(self)@.workers),
    {
        let ghost before = self@;
        self.queue.close();
        let mut due: Vec<usize> = Vec::new();
        let n = self.workers.len();
        for i in 0..n
            invariant
                n == before.workers.len(),
                self.workers@.len() == n,
                self.queue@ == before.shut_down().queue,
                self.finished@ == before.finished,
                forall|k: int| 0 <= k < i ==> #[trigger] self.workers@[k] == before.shut_down().workers[k],
                forall|k: int| i <= k < n ==> #[trigger] self.workers@[k] == before.workers[k],
                due@ == joins_due(before.workers.take(i as int)),
        {
            let w = self.workers[i];
            if !w.joined {
                due.push(w.id);
            }
            self.workers.set(i, Worker { joined: true, ..w });
            proof {
                assert(before.workers.take(i + 1).drop_last() =~= before.workers.take(i as int));
            }
        }
        proof {
            assert(before.workers.take(n as int) =~= before.workers);
            assert(self@.workers =~= before.shut_down().workers);
            lemma_executing_count_same_states(self@.workers, before.workers);
        }
        due
    }

    /// The workers, in construction order.
    pub fn workers(&self) -> (r: &Vec<Worker>)
        ensures
            r@ == self@.workers,
    {
        &self.workers
    }

    /// The worker with id `worker`.
    pub fn worker(&self, worker: usize) -> (r: Worker)
        requires
            worker < self@.workers.len(),
        ensures
            r == self@.workers[worker as int],
    {
        self.workers[worker]
    }

    /// How many workers the pool was built with.
    pub fn thread_count(&self) -> (r: usize)
        ensures
            r == self@.workers.len(),
    {
        self.workers.len()
    }

    /// Whether jobs may still be submitted.
    pub fn is_open(&self) -> (r: bool)
        ensures
            r == self@.is_open(),
    {
        !self.queue.is_closed()
    }

    /// How many submitted jobs no worker has claimed yet.
    pub fn pending(&self) -> (r: usize)
        ensures
            r == self@.queue.pending.len(),
    {
        self.queue.len()
    }
}

/// Once every worker has left its dispatch loop, the queue is closed and empty, every job
/// ever submitted was claimed exactly once and in submission order, and as many jobs were
/// reported finished as were submitted.
pub proof fn lemma_drained<J>(v: PoolView<J>)
    requires
        v.inv(),
        v.all_stopped(),
    ensures
        v.queue.closed,
        v.queue.pending.len() == 0,
        v.queue.delivered == v.queue.sent(),
        v.finished == v.queue.sent().len(),
{
    assert(v.workers[0].state == WorkerState::Stopped);
    lemma_executing_count_none(v.workers);
    assert(v.queue.sent() =~= v.queue.delivered);
}

/// A job submitted before another is claimed no later: if the later one has been claimed,
/// so has the earlier, and the claims came in submission order.
pub proof fn lemma_claim_order<J>(v: PoolView<J>, earlier: int, later: int)
    requires
        v.inv(),
        0 <= earlier < later < v.queue.sent().len(),
        later < v.queue.delivered.len(),
    ensures
        earlier < v.queue.delivered.len(),
        v.queue.delivered[earlier] == v.queue.sent()[earlier],
        v.queue.delivered[later] == v.queue.sent()[later],
{
}

/// Teardown keeps the pool's invariant, leaves it closed with no join due, and doing it a
/// second time changes nothing.
pub proof fn lemma_shutdown_idempotent<J>(v: PoolView<J>)
    requires
        v.inv(),
    ensures
        v.shut_down().inv(),
        !v.shut_down().is_open(),
        joins_due(v.shut_down().workers) == Seq::<usize>::empty(),
        v.shut_down().shut_down() == v.shut_down(),
{
    let s = v.shut_down();
    lemma_executing_count_same_states(s.workers, v.workers);
    lemma_joins_due_none(s.workers);
    assert(s.shut_down().workers =~= s.workers);
    assert(s.shut_down().queue == s.queue);
}

} // verus!
