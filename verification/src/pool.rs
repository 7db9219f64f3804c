//! The pool: a fixed set of workers bound to one job queue.
//!
//! Each job is represented by an identifier; the pool records which ids have
//! been executed (and which of those panicked) so that delivery — every
//! submitted job handed to exactly one worker, in FIFO order — is provable.

use vstd::prelude::*;

use crate::queue::{JobQueue, PoolError, TakeResult};

verus! {

/// The life of a worker: idle between jobs, running exactly one job, or
/// terminated after observing the queue closed and drained.
#[derive(Clone, Copy, PartialEq, Eq, Structural, Debug)]
pub enum WorkerPhase {
    Idle,
    Running(u64),
    Terminated,
}

/// How a job's execution ended. A panic is contained at the worker boundary:
/// the worker survives it and returns to idle.
#[derive(Clone, Copy, PartialEq, Eq, Structural, Debug)]
pub enum JobOutcome {
    Completed,
    Panicked,
}

/// Abstract state of a pool.
#[verifier::ext_equal]
pub struct PoolView {
    /// One phase per worker, indexed by worker id.
    pub workers: Seq<WorkerPhase>,
    /// Pending job ids, in submission order.
    pub pending: Seq<u64>,
    /// Whether the queue has been closed (shutdown has begun).
    pub closed: bool,
    /// Ids of jobs whose execution has finished, in completion order.
    pub executed: Seq<u64>,
    /// Ids of executed jobs that panicked, in completion order.
    pub panicked: Seq<u64>,
}

/// The ids currently being run, in worker order.
pub open spec fn in_flight(ws: Seq<WorkerPhase>) -> Seq<u64>
    decreases ws.len(),
{
    if ws.len() == 0 {
        Seq::empty()
    } else {
        in_flight(ws.drop_last()) + (match ws.last() {
            WorkerPhase::Running(id) => seq![id],
            _ => Seq::<u64>::empty(),
        })
    }
}

impl PoolView {
    /// A pool always has at least one worker.
    pub open spec fn wf(self) -> bool {
        self.workers.len() >= 1
    }

    /// The end state of an orderly shutdown: closed, drained, every worker
    /// terminated.
    pub open spec fn shut_down(self) -> bool {
        &&& self.closed
        &&& self.pending.len() == 0
        &&& forall|i: int| 0 <= i < self.workers.len() ==> self.workers[i] is Terminated
    }

    /// Submission succeeds exactly while the queue is open.
    pub open spec fn execute_ok(self) -> bool {
        !self.closed
    }

    /// What `execute` returns.
    pub open spec fn execute_result_spec(self) -> Result<(), PoolError> {
        if self.closed {
            Err(PoolError::QueueClosed)
        } else {
            Ok(())
        }
    }

    /// What `execute` does to the state: append to the pending tail, or
    /// nothing at all once the queue is closed.
    pub open spec fn execute_spec(self, id: u64) -> PoolView {
        if self.closed {
            self
        } else {
            PoolView { pending: self.pending.push(id), ..self }
        }
    }

    /// What a take by worker `w` returns: the head of the queue, `Closed`
    /// once the queue is closed and drained, `WouldBlock` while it is merely
    /// empty.
    pub open spec fn take_result_spec(self) -> TakeResult {
        if self.pending.len() > 0 {
            TakeResult::Job(self.pending[0])
        } else if self.closed {
            TakeResult::Closed
        } else {
            TakeResult::WouldBlock
        }
    }

    /// What a take by worker `w` does to the state.
    pub open spec fn take_spec(self, w: int) -> PoolView {
        if self.pending.len() > 0 {
            PoolView {
                pending: self.pending.drop_first(),
                workers: self.workers.update(w, WorkerPhase::Running(self.pending[0])),
                ..self
            }
        } else if self.closed {
            PoolView { workers: self.workers.update(w, WorkerPhase::Terminated), ..self }
        } else {
            self
        }
    }

    /// What finishing the job of worker `w` does: the worker returns to idle
    /// whatever the outcome, and the job is recorded as executed.
    pub open spec fn finish_spec(self, w: int, outcome: JobOutcome) -> PoolView
        recommends
            0 <= w < self.workers.len(),
            self.workers[w] is Running,
    {
        let id = self.workers[w]->Running_0;
        PoolView {
            workers: self.workers.update(w, WorkerPhase::Idle),
            executed: self.executed.push(id),
            panicked: if outcome is Panicked {
                self.panicked.push(id)
            } else {
                self.panicked
            },
            ..self
        }
    }

    /// What `shutdown` does: close the queue, let every in-flight job and then
    /// every pending job run to completion, and terminate every worker.
    pub open spec fn shutdown_spec(self) -> PoolView {
        PoolView {
            workers: Seq::new(self.workers.len(), |i: int| WorkerPhase::Terminated),
            pending: Seq::empty(),
            closed: true,
            executed: self.executed + in_flight(self.workers) + self.pending,
            panicked: self.panicked,
        }
    }
}

/// The pool itself: the queue, the workers' phases, and the execution record.
pub struct Pool {
    queue: JobQueue,
    workers: Vec<WorkerPhase>,
    executed: Vec<u64>,
    panicked: Vec<u64>,
}

impl View for Pool {
    type V = PoolView;

    closed spec fn view(&self) -> PoolView {
        PoolView {
            workers: self.workers@,
            pending: self.queue@.pending,
            closed: self.queue@.closed,
            executed: self.executed@,
            panicked: self.panicked@,
        }
    }
}

impl Pool {
    /// Spawn a pool of `worker_count` workers, all idle, bound to a fresh
    /// open queue. The pool is warm the moment construction returns.
    pub fn new(worker_count: usize) -> (p: Pool)
        requires
            worker_count >= 1,
        ensures
            p@.wf(),
            p@.workers.len() == worker_count,
            forall|i: int| 0 <= i < worker_count ==> p@.workers[i] is Idle,
            p@.pending == Seq::<u64>::empty(),
            !p@.closed,
            p@.executed == Seq::<u64>::empty(),
            p@.panicked == Seq::<u64>::empty(),
    {
        let mut workers: Vec<WorkerPhase> = Vec::new();
        let mut w: usize = 0;
        while w < worker_count
            invariant
                w <= worker_count,
                workers@.len() == w,
                forall|i: int| 0 <= i < w ==> workers@[i] is Idle,
            decreases worker_count - w,
        {
            workers.push(WorkerPhase::Idle);
            w += 1;
        }
        Pool { queue: JobQueue::new(), workers, executed: Vec::new(), panicked: Vec::new() }
    }

    /// Submit a job: fire-and-forget. Appends the id to the queue's tail, or
    /// fails with `QueueClosed` — and changes nothing — once shutdown has
    /// begun.
    pub fn execute(&mut self, id: u64) -> (r: Result<(), PoolError>)
        ensures
            r == old(self)@.execute_result_spec(),
            final(self)@ == old(self)@.execute_spec(id),
    {
        let r = self.queue.submit(id);
        proof {
            assert(self@ =~= old(self)@.execute_spec(id));
        }
        r
    }

    /// Worker `w` asks the queue for work: it claims the head job, or
    /// terminates on `Closed`, or is told to wait on `WouldBlock`.
    pub fn worker_take(&mut self, w: usize) -> (r: TakeResult)
        requires
            w < old(self)@.workers.len(),
            old(self)@.workers[w as int] is Idle,
        ensures
            r == old(self)@.take_result_spec(),
            final(self)@ == old(self)@.take_spec(w as int),
    {
        let r = self.queue.take();
        match r {
            TakeResult::Job(id) => {
                self.workers[w] = WorkerPhase::Running(id);
            }
            TakeResult::Closed => {
                self.workers[w] = WorkerPhase::Terminated;
            }
            TakeResult::WouldBlock => {}
        }
        proof {
            assert(self@ =~= old(self)@.take_spec(w as int));
        }
        r
    }

    /// Worker `w` reports that its current job finished, normally or by
    /// panic. Either way the job counts as executed and the worker returns to
    /// idle: one misbehaving job does not take down the pool.
    pub fn worker_finish(&mut self, w: usize, outcome: JobOutcome)
        requires
            w < old(self)@.workers.len(),
            old(self)@.workers[w as int] is Running,
        ensures
            final(self)@ == old(self)@.finish_spec(w as int, outcome),
    {
        let ph = self.workers[w];
        match ph {
            WorkerPhase::Running(id) => {
                self.executed.push(id);
                match outcome {
                    JobOutcome::Panicked => {
                        self.panicked.push(id);
                    }
                    JobOutcome::Completed => {}
                }
                self.workers[w] = WorkerPhase::Idle;
            }
            _ => {
                proof {
                    assert(false);
                }
            }
        }
        proof {
            assert(self@ =~= old(self)@.finish_spec(w as int, outcome));
        }
    }

    /// Graceful shutdown: close the queue, run every in-flight and pending
    /// job to completion, then terminate and join every worker. Idempotent:
    /// on an already shut-down pool it changes nothing.
    pub fn shutdown(&mut self)
        ensures
            final(self)@ == old(self)@.shutdown_spec(),
            final(self)@.shut_down(),
    {
        let n = self.workers.len();
        self.queue.close();

        // Let each in-flight job finish.
        let mut w: usize = 0;
        while w < n
            invariant
                w <= n,
                n == self.workers@.len(),
                n == old(self)@.workers.len(),
                self.queue@.closed,
                self.queue@.pending == old(self)@.pending,
                self.panicked@ == old(self)@.panicked,
                self.executed@ == old(self)@.executed + in_flight(old(self)@.workers.take(w as int)),
                forall|i: int| w <= i < n ==> self.workers@[i] == old(self)@.workers[i],
                forall|i: int| 0 <= i < w ==> !(self.workers@[i] is Running),
            decreases n - w,
        {
            let ph = self.workers[w];
            match ph {
                WorkerPhase::Running(id) => {
                    self.executed.push(id);
                    self.workers[w] = WorkerPhase::Idle;
                }
                _ => {}
            }
            proof {
                let ws = old(self)@.workers;
                assert(ws.take(w as int + 1).drop_last() =~= ws.take(w as int));
                assert(ws.take(w as int + 1).last() == ws[w as int]);
                assert(self.executed@ =~= old(self)@.executed + in_flight(
                    ws.take(w as int + 1),
                ));
            }
            w += 1;
        }
        proof {
            assert(old(self)@.workers.take(n as int) =~= old(self)@.workers);
        }

        // Drain the queue: each remaining job is taken and executed.
        let ghost mid_executed = self.executed@;
        let ghost mid_pending = self.queue@.pending;
        let ghost mid_workers = self.workers@;
        let mut done = false;
        while !done
            invariant
                n == self.workers@.len(),
                self.queue@.closed,
                self.workers@ == mid_workers,
                self.panicked@ == old(self)@.panicked,
                self.executed@ + self.queue@.pending == mid_executed + mid_pending,
                done ==> self.queue@.pending.len() == 0,
            decreases self.queue@.pending.len() + (if done { 0int } else { 1int }),
        {
            let r = self.queue.take();
            match r {
                TakeResult::Job(id) => {
                    self.executed.push(id);
                    proof {
                        assert(self.executed@ + self.queue@.pending =~= mid_executed
                            + mid_pending);
                    }
                }
                TakeResult::Closed => {
                    done = true;
                }
                TakeResult::WouldBlock => {
                    proof {
                        assert(false);
                    }
                }
            }
        }
        proof {
            assert(self.executed@ =~= self.executed@ + self.queue@.pending);
            assert(self.executed@ =~= old(self)@.executed + in_flight(old(self)@.workers)
                + old(self)@.pending);
        }

        // Join every worker.
        let mut w: usize = 0;
        while w < n
            invariant
                w <= n,
                n == self.workers@.len(),
                self.queue@.closed,
                self.queue@.pending.len() == 0,
                self.panicked@ == old(self)@.panicked,
                self.executed@ == old(self)@.executed + in_flight(old(self)@.workers)
                    + old(self)@.pending,
                forall|i: int| 0 <= i < w ==> self.workers@[i] is Terminated,
            decreases n - w,
        {
            self.workers[w] = WorkerPhase::Terminated;
            w += 1;
        }
        proof {
            assert(self.workers@ =~= Seq::new(
                old(self)@.workers.len(),
                |i: int| WorkerPhase::Terminated,
            ));
            assert(self.queue@.pending =~= Seq::<u64>::empty());
            assert(self@ =~= old(self)@.shutdown_spec());
        }
    }

    /// How many workers the pool owns.
    pub fn worker_count(&self) -> (n: usize)
        ensures
            n == self@.workers.len(),
    {
        self.workers.len()
    }

    /// The phase worker `w` is in.
    pub fn worker_phase(&self, w: usize) -> (ph: WorkerPhase)
        requires
            w < self@.workers.len(),
        ensures
            ph == self@.workers[w as int],
    {
        self.workers[w]
    }

    /// How many jobs are pending in the queue.
    pub fn pending_count(&self) -> (n: usize)
        ensures
            n == self@.pending.len(),
    {
        self.queue.len()
    }

    /// Whether shutdown has begun (the queue is closed).
    pub fn is_closed(&self) -> (b: bool)
        ensures
            b == self@.closed,
    {
        self.queue.is_closed()
    }

    /// How many jobs have been executed.
    pub fn executed_count(&self) -> (n: usize)
        ensures
            n == self@.executed.len(),
    {
        self.executed.len()
    }

    /// The id of the `i`-th executed job, in completion order.
    pub fn executed_job(&self, i: usize) -> (id: u64)
        requires
            i < self@.executed.len(),
        ensures
            id == self@.executed[i as int],
    {
        self.executed[i]
    }

    /// How many executed jobs panicked.
    pub fn panicked_count(&self) -> (n: usize)
        ensures
            n == self@.panicked.len(),
    {
        self.panicked.len()
    }

    /// The id of the `i`-th panicked job, in completion order.
    pub fn panicked_job(&self, i: usize) -> (id: u64)
        requires
            i < self@.panicked.len(),
        ensures
            id == self@.panicked[i as int],
    {
        self.panicked[i]
    }
}

/// The state after submitting each id of `ids`, in order, via `execute`.
pub open spec fn submit_all(s: PoolView, ids: Seq<u64>) -> PoolView
    decreases ids.len(),
{
    if ids.len() == 0 {
        s
    } else {
        submit_all(s, ids.drop_last()).execute_spec(ids.last())
    }
}

/// While no worker is running anything, nothing is in flight.
pub proof fn lemma_in_flight_empty(ws: Seq<WorkerPhase>)
    requires
        forall|i: int| 0 <= i < ws.len() ==> !(ws[i] is Running),
    ensures
        in_flight(ws) == Seq::<u64>::empty(),
    decreases ws.len(),
{
    if ws.len() > 0 {
        lemma_in_flight_empty(ws.drop_last());
        assert(in_flight(ws) =~= Seq::<u64>::empty());
    }
}

/// On an open pool, submitting a batch of ids appends exactly those ids to
/// the pending tail, in submission order, and changes nothing else: the FIFO
/// order of a single submitter is kept.
pub proof fn lemma_submit_all_open(s: PoolView, ids: Seq<u64>)
    requires
        !s.closed,
    ensures
        submit_all(s, ids) == (PoolView { pending: s.pending + ids, ..s }),
    decreases ids.len(),
{
    if ids.len() == 0 {
        assert(submit_all(s, ids) =~= PoolView { pending: s.pending + ids, ..s });
    } else {
        lemma_submit_all_open(s, ids.drop_last());
        assert(submit_all(s, ids) =~= PoolView { pending: s.pending + ids, ..s });
    }
}

/// No job is lost and none runs twice: on an open pool, submitting `ids` and
/// then shutting down extends the executed record by exactly the in-flight
/// jobs, the jobs already pending, and then `ids` — each id once, in order.
pub proof fn lemma_no_job_lost(s: PoolView, ids: Seq<u64>)
    requires
        !s.closed,
    ensures
        submit_all(s, ids).shutdown_spec().executed == s.executed + in_flight(s.workers)
            + s.pending + ids,
        submit_all(s, ids).shutdown_spec().shut_down(),
{
    lemma_submit_all_open(s, ids);
    assert(submit_all(s, ids).shutdown_spec().executed =~= s.executed + in_flight(s.workers)
        + s.pending + ids);
}

/// For every worker count N >= 1 and every batch of M jobs: a fresh pool that
/// receives the M jobs and is then shut down executes exactly those M jobs,
/// no job lost and none run twice.
pub proof fn lemma_fresh_pool_executes_all(s: PoolView, ids: Seq<u64>)
    requires
        s.wf(),
        !s.closed,
        s.pending.len() == 0,
        s.executed.len() == 0,
        forall|i: int| 0 <= i < s.workers.len() ==> s.workers[i] is Idle,
    ensures
        submit_all(s, ids).shutdown_spec().executed == ids,
        submit_all(s, ids).shutdown_spec().shut_down(),
{
    lemma_in_flight_empty(s.workers);
    lemma_no_job_lost(s, ids);
    assert(s.executed + in_flight(s.workers) + s.pending + ids =~= ids);
}

/// FIFO delivery: with at least two jobs pending, two successive takes —
/// whichever worker makes each — hand out the first two pending jobs in the
/// order they were submitted.
pub proof fn lemma_fifo_dequeue(s: PoolView, w: int)
    requires
        s.pending.len() >= 2,
        0 <= w < s.workers.len(),
    ensures
        s.take_result_spec() == TakeResult::Job(s.pending[0]),
        s.take_spec(w).take_result_spec() == TakeResult::Job(s.pending[1]),
{
}

/// After shutdown, every submission fails with `QueueClosed` and leaves the
/// pool exactly as it was, however often it is retried.
pub proof fn lemma_execute_after_shutdown(s: PoolView, id: u64)
    ensures
        s.shutdown_spec().closed,
        !s.shutdown_spec().execute_ok(),
        s.shutdown_spec().execute_result_spec() == Err::<(), PoolError>(PoolError::QueueClosed),
        s.shutdown_spec().execute_spec(id) == s.shutdown_spec(),
{
}

/// A panicking job is contained: its worker returns to idle with the queue
/// untouched, jobs submitted afterwards are all still executed, and shutdown
/// still reaches the orderly end state.
pub proof fn lemma_panic_containment(s: PoolView, w: int, ids: Seq<u64>)
    requires
        !s.closed,
        0 <= w < s.workers.len(),
        s.workers[w] is Running,
    ensures
        ({
            let t = s.finish_spec(w, JobOutcome::Panicked);
            &&& t.workers[w] is Idle
            &&& t.pending == s.pending
            &&& !t.closed
            &&& submit_all(t, ids).shutdown_spec().executed == t.executed + in_flight(t.workers)
                + t.pending + ids
            &&& submit_all(t, ids).shutdown_spec().shut_down()
        }),
{
    let t = s.finish_spec(w, JobOutcome::Panicked);
    lemma_no_job_lost(t, ids);
}

/// A closed queue is never reopened: no transition — another submission, a
/// take, a finish, or a second shutdown — makes it open again.
pub proof fn lemma_never_reopened(s: PoolView, id: u64, w: int, outcome: JobOutcome)
    requires
        s.closed,
    ensures
        s.execute_spec(id).closed,
        s.take_spec(w).closed,
        s.finish_spec(w, outcome).closed,
        s.shutdown_spec().closed,
{
}

/// Workers are isolated: a take or a finish by worker `w` leaves every other
/// worker's phase exactly as it was.
pub proof fn lemma_other_workers_untouched(s: PoolView, w: int, i: int, outcome: JobOutcome)
    requires
        0 <= w < s.workers.len(),
        0 <= i < s.workers.len(),
        i != w,
    ensures
        s.take_spec(w).workers[i] == s.workers[i],
        s.finish_spec(w, outcome).workers[i] == s.workers[i],
{
}

/// Shutting down twice is the same as shutting down once: the second pass
/// finds nothing in flight, nothing pending, and every worker already
/// terminated, and changes nothing.
pub proof fn lemma_shutdown_idempotent(s: PoolView)
    ensures
        s.shutdown_spec().shutdown_spec() == s.shutdown_spec(),
{
    let t = s.shutdown_spec();
    assert(forall|i: int| 0 <= i < t.workers.len() ==> !(t.workers[i] is Running));
    lemma_in_flight_empty(t.workers);
    assert(t.shutdown_spec().executed =~= t.executed);
    assert(t.shutdown_spec().workers =~= t.workers);
    assert(t.shutdown_spec().pending =~= t.pending);
    assert(t.shutdown_spec() =~= t);
}

} // verus!
