use std::collections::VecDeque;
use vstd::prelude::*;

verus! {

/// What a queue holds, as mathematics.
///
/// `pending` are the jobs sent and not yet received, oldest first; `delivered` are the jobs
/// already received, in the order they left. Together they are everything ever sent.
pub struct QueueView<J> {
    pub pending: Seq<J>,
    pub delivered: Seq<J>,
    pub closed: bool,
}

impl<J> QueueView<J> {
    /// Every job ever sent, in the order it was sent.
    pub open spec fn sent(self) -> Seq<J> {
        self.delivered + self.pending
    }
}

/// The outcome of one attempt to take a job off the queue.
pub enum Recv<J> {
    /// The oldest pending job, now owned by the receiver.
    Job(J),
    /// Nothing is pending, but more may still be sent.
    Empty,
    /// Nothing is pending and the sending side is closed: nothing will ever arrive.
    Disconnected,
}

/// An unbounded first-in first-out conduit of jobs with a one-way close.
pub struct JobQueue<J> {
    items: VecDeque<J>,
    closed: bool,
    delivered: Ghost<Seq<J>>,
}

impl<J> View for JobQueue<J> {
    type V = QueueView<J>;

    closed spec fn view(&self) -> QueueView<J> {
        QueueView { pending: self.items@, delivered: self.delivered@, closed: self.closed }
    }
}

impl<J> JobQueue<J> {
    /// An open queue with nothing sent.
    pub fn new() -> (q: Self)
        ensures
            q@.pending == Seq::<J>::empty(),
            q@.delivered == Seq::<J>::empty(),
            !q@.closed,
    {
        JobQueue { items: VecDeque::new(), closed: false, delivered: Ghost(Seq::empty()) }
    }

    /// Appends `job` behind every pending job. On a closed queue nothing changes and the job
    /// is handed back.
    pub fn send(&mut self, job: J) -> (r: Result<(), J>)
        ensures
            old(self)@.closed ==> r == Err::<(), J>(job) && final(self)@ == old(self)@,
            !old(self)@.closed ==> r is Ok && final(self)@ == (QueueView {
                pending: old(self)@.pending.push(job),
                ..old(self)@
            }),
    {
        if self.closed {
            Err(job)
        } else {
            self.items.push_back(job);
            Ok(())
        }
    }

    /// Takes the oldest pending job, if there is one; otherwise says whether more can come.
    pub fn recv(&mut self) -> (r: Recv<J>)
        ensures
            old(self)@.pending.len() > 0 ==> r == Recv::Job(old(self)@.pending[0])
                && final(self)@ == (QueueView {
                    pending: old(self)@.pending.drop_first(),
                    delivered: old(self)@.delivered.push(old(self)@.pending[0]),
                    closed: old(self)@.closed,
                }),
            old(self)@.pending.len() == 0 ==> final(self)@ == old(self)@
                && r == (if old(self)@.closed { Recv::<J>::Disconnected } else { Recv::<J>::Empty }),
    {
        match self.items.pop_front() {
            Some(job) => {
                proof {
                    self.delivered@ = self.delivered@.push(job);
                }
                Recv::Job(job)
            },
            None => {
                if self.closed {
                    Recv::Disconnected
                } else {
                    Recv::Empty
                }
            },
        }
    }

    /// Closes the sending side. Pending jobs stay and can still be received. Closing a closed
    /// queue changes nothing.
    pub fn close(&mut self)
        ensures
            final(self)@ == (QueueView { closed: true, ..old(self)@ }),
    {
        self.closed = true;
    }

    pub fn is_closed(&self) -> (r: bool)
        ensures
            r == self@.closed,
    {
        self.closed
    }

    /// How many jobs are waiting to be received.
    pub fn len(&self) -> (r: usize)
        ensures
            r == self@.pending.len(),
    {
        self.items.len()
    }
}

} // verus!
