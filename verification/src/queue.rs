//! The job queue: a FIFO hand-off between submitters and workers, with an
//! idempotent close signal that lets drained workers terminate.

use vstd::prelude::*;

verus! {

/// Errors surfaced by the pool and its queue.
#[derive(Clone, Copy, PartialEq, Eq, Structural, Debug)]
pub enum PoolError {
    /// A submission arrived after shutdown had begun.
    QueueClosed,
    /// A job's execution raised an unrecoverable fault; contained at the
    /// worker boundary, the job's intended effect is simply not performed.
    JobPanicked,
    /// A worker's thread could not be joined during shutdown.
    WorkerJoinFailure,
}

/// What a worker sees when it asks the queue for work.
#[derive(Clone, Copy, PartialEq, Eq, Structural, Debug)]
pub enum TakeResult {
    /// The job at the head of the queue, now removed from it.
    Job(u64),
    /// The queue is closed and drained; the worker can terminate.
    Closed,
    /// The queue is open but momentarily empty; the worker should wait.
    WouldBlock,
}

/// Abstract state of a job queue: the pending job ids in submission order,
/// and whether the queue has been closed.
#[verifier::ext_equal]
pub struct QueueView {
    pub pending: Seq<u64>,
    pub closed: bool,
}

/// The FIFO queue of pending job ids plus the close flag.
pub struct JobQueue {
    pending: Vec<u64>,
    closed: bool,
}

impl View for JobQueue {
    type V = QueueView;

    closed spec fn view(&self) -> QueueView {
        QueueView { pending: self.pending@, closed: self.closed }
    }
}

impl JobQueue {
    /// A fresh queue: open and empty.
    pub fn new() -> (q: JobQueue)
        ensures
            q@.pending == Seq::<u64>::empty(),
            !q@.closed,
    {
        JobQueue { pending: Vec::new(), closed: false }
    }

    /// Append a job to the tail, unless the queue has been closed.
    pub fn submit(&mut self, id: u64) -> (r: Result<(), PoolError>)
        ensures
            !old(self)@.closed ==> r == Ok::<(), PoolError>(())
                && final(self)@.pending == old(self)@.pending.push(id)
                && !final(self)@.closed,
            old(self)@.closed ==> r == Err::<(), PoolError>(PoolError::QueueClosed)
                && final(self)@ == old(self)@,
    {
        if self.closed {
            Err(PoolError::QueueClosed)
        } else {
            self.pending.push(id);
            Ok(())
        }
    }

    /// Remove and return the head job; report `Closed` once the queue is
    /// closed and drained, and `WouldBlock` while it is open but empty.
    pub fn take(&mut self) -> (r: TakeResult)
        ensures
            old(self)@.pending.len() > 0 ==> r == TakeResult::Job(old(self)@.pending[0])
                && final(self)@.pending == old(self)@.pending.drop_first()
                && final(self)@.closed == old(self)@.closed,
            old(self)@.pending.len() == 0 && old(self)@.closed ==> r == TakeResult::Closed
                && final(self)@ == old(self)@,
            old(self)@.pending.len() == 0 && !old(self)@.closed ==> r == TakeResult::WouldBlock
                && final(self)@ == old(self)@,
    {
        if self.pending.len() > 0 {
            let id = self.pending.remove(0);
            proof {
                assert(self.pending@ =~= old(self).pending@.drop_first());
            }
            TakeResult::Job(id)
        } else if self.closed {
            TakeResult::Closed
        } else {
            TakeResult::WouldBlock
        }
    }

    /// Close the queue; idempotent, and the pending jobs stay to be drained.
    pub fn close(&mut self)
        ensures
            final(self)@.closed,
            final(self)@.pending == old(self)@.pending,
    {
        self.closed = true;
    }

    /// How many jobs are pending.
    pub fn len(&self) -> (n: usize)
        ensures
            n == self@.pending.len(),
    {
        self.pending.len()
    }

    /// Whether the queue has been closed.
    pub fn is_closed(&self) -> (b: bool)
        ensures
            b == self@.closed,
    {
        self.closed
    }
}

} // verus!
