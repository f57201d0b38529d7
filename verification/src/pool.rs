//! The pool handle and its lifecycle: construction, job submission, the
//! workers' shared receive, and graceful teardown.

use vstd::prelude::*;

verus! {

/// Errors surfaced by the pool handle. Both signal caller bugs, not
/// recoverable runtime conditions.
#[derive(Clone, Copy, Debug, PartialEq, Eq, Structural)]
pub enum PoolError {
    /// Construction asked for zero workers: such a pool could accept jobs
    /// but never run them, so it is refused outright.
    ZeroWorkers,
    /// A job was submitted after teardown had begun (the producer side of
    /// the dispatch channel was already closed).
    Closed,
}

/// What a worker observes when it takes its turn at the shared receiver.
#[derive(Clone, Copy, Debug, PartialEq, Eq, Structural)]
pub enum Received {
    /// A job was dequeued and run; the ticket names which one.
    Job(u64),
    /// The producer side is closed and the queue is drained: no job will
    /// ever arrive again, so the worker's loop exits. This is the expected
    /// termination signal, not an error.
    Closed,
    /// The queue is empty but the producer side is still open: the real
    /// receive blocks here until a job arrives or the channel closes.
    WouldBlock,
}

/// One worker of the pool: its identifier, fixed at construction, and
/// whether its thread handle has already been consumed by a join.
#[derive(Clone, Copy, Debug, PartialEq, Eq, Structural)]
pub struct Worker {
    /// Unique within the pool; worker `i` holds identifier `i`.
    pub id: usize,
    /// True once the pool has joined this worker's thread. A worker is
    /// joined at most once, and teardown leaves none unjoined.
    pub joined: bool,
}

impl Worker {
    /// A worker as the pool records it at construction: bound to `id`,
    /// thread not yet joined.
    pub fn new(id: usize) -> (w: Worker)
        ensures
            w.id == id,
            !w.joined,
    {
        Worker { id, joined: false }
    }
}

/// The pool's state as the contracts see it.
#[verifier::ext_equal]
pub ghost struct PoolView {
    /// The workers, in identifier order.
    pub workers: Seq<Worker>,
    /// Whether the producer side of the dispatch channel is still open.
    pub open: bool,
    /// Tickets of submitted jobs not yet delivered, oldest first.
    pub pending: Seq<u64>,
    /// Tickets of jobs already delivered and run, in delivery order.
    pub executed: Seq<u64>,
    /// The ticket the next submission will receive; tickets are handed out
    /// in order from zero, so this is also how many jobs were submitted.
    pub next_ticket: u64,
}

/// The tickets handed out so far, in submission order: `0, 1, ..., n - 1`.
pub open spec fn submitted(v: PoolView) -> Seq<u64> {
    Seq::new(v.next_ticket as nat, |i: int| i as u64)
}

/// Well-formedness of a pool state.
///
/// The heart of it is the conservation clause: the jobs already executed,
/// followed by the jobs still pending, are exactly the jobs submitted — so
/// no job is ever lost or duplicated. The last clause records the teardown
/// discipline: a worker's thread is joined only once the channel is closed
/// and drained, so a joined worker never leaves a job behind.
pub open spec fn wf(v: PoolView) -> bool {
    &&& v.workers.len() >= 1
    &&& forall|i: int| 0 <= i < v.workers.len() ==> (#[trigger] v.workers[i]).id == i
    &&& v.executed + v.pending == submitted(v)
    &&& forall|i: int|
        0 <= i < v.workers.len() && (#[trigger] v.workers[i]).joined ==> !v.open
            && v.pending.len() == 0
}

/// The state a graceful teardown of a pool in state `v` leaves behind: the
/// producer side closed, every pending job delivered and run (appended to
/// the executed record in queue order), and every worker joined. Nothing
/// else changes.
pub open spec fn spec_teardown(v: PoolView) -> PoolView {
    PoolView {
        workers: Seq::new(v.workers.len(), |i: int| Worker { id: v.workers[i].id, joined: true }),
        open: false,
        pending: Seq::empty(),
        executed: v.executed + v.pending,
        next_ticket: v.next_ticket,
    }
}

/// The pool handle: owns the workers and the producer side of the dispatch
/// channel, and records which jobs are pending and which have run.
pub struct ThreadPool {
    workers: Vec<Worker>,
    open: bool,
    pending: Vec<u64>,
    executed: Vec<u64>,
    next_ticket: u64,
}

impl View for ThreadPool {
    type V = PoolView;

    closed spec fn view(&self) -> PoolView {
        PoolView {
            workers: self.workers@,
            open: self.open,
            pending: self.pending@,
            executed: self.executed@,
            next_ticket: self.next_ticket,
        }
    }
}

impl ThreadPool {
    /// Create a new pool handle with `size` workers, identified `0..size`.
    ///
    /// A pool of zero workers is refused: it could accept jobs but never
    /// run them, a silent-hang hazard, so no partial pool is ever
    /// observable.
    pub fn new(size: usize) -> (r: Result<ThreadPool, PoolError>)
        ensures
            r is Ok <==> size >= 1,
            size == 0 ==> r == Err::<ThreadPool, PoolError>(PoolError::ZeroWorkers),
            r matches Ok(p) ==> {
                &&& wf(p@)
                &&& p@.workers.len() == size
                &&& forall|i: int|
                    0 <= i < size ==> (#[trigger] p@.workers[i]).id == i && !p@.workers[i].joined
                &&& p@.open
                &&& p@.pending.len() == 0
                &&& p@.executed.len() == 0
                &&& p@.next_ticket == 0
            },
    {
        if size == 0 {
            return Err(PoolError::ZeroWorkers);
        }
        let mut workers: Vec<Worker> = Vec::new();
        let mut idx: usize = 0;
        while idx < size
            invariant
                idx <= size,
                workers@.len() == idx,
                forall|i: int|
                    0 <= i < idx ==> (#[trigger] workers@[i]).id == i && !workers@[i].joined,
            decreases size - idx,
        {
            workers.push(Worker::new(idx));
            idx = idx + 1;
        }
        let pool = ThreadPool {
            workers,
            open: true,
            pending: Vec::new(),
            executed: Vec::new(),
            next_ticket: 0,
        };
        proof {
            assert(pool@.executed + pool@.pending =~= submitted(pool@));
        }
        Ok(pool)
    }

    /// Submit one job. While the producer side is open this always
    /// succeeds (the queue is unbounded) and returns the job's ticket,
    /// appended to the pending queue. Once teardown has begun it always
    /// fails with the usage error and changes nothing — a late submission
    /// is never silently swallowed.
    pub fn execute(&mut self) -> (r: Result<u64, PoolError>)
        requires
            wf(old(self)@),
            old(self)@.next_ticket < u64::MAX,
        ensures
            wf(final(self)@),
            r is Ok <==> old(self)@.open,
            old(self)@.open ==> {
                &&& r == Ok::<u64, PoolError>(old(self)@.next_ticket)
                &&& final(self)@.pending == old(self)@.pending.push(old(self)@.next_ticket)
                &&& final(self)@.next_ticket == old(self)@.next_ticket + 1
                &&& final(self)@.executed == old(self)@.executed
                &&& final(self)@.workers == old(self)@.workers
                &&& final(self)@.open
            },
            !old(self)@.open ==> r == Err::<u64, PoolError>(PoolError::Closed) && final(self)@
                == old(self)@,
    {
        if !self.open {
            return Err(PoolError::Closed);
        }
        let ticket = self.next_ticket;
        self.pending.push(ticket);
        self.next_ticket = self.next_ticket + 1;
        proof {
            let ov = old(self)@;
            let fv = self@;
            let n = ov.executed.len() + ov.pending.len();
            assert((ov.executed + ov.pending).len() == submitted(ov).len());
            assert(n == ov.next_ticket);
            assert forall|i: int| 0 <= i < fv.executed.len() + fv.pending.len() implies (
            fv.executed + fv.pending)[i] == submitted(fv)[i] by {
                if i < n {
                    assert((ov.executed + ov.pending)[i] == submitted(ov)[i]);
                    assert((fv.executed + fv.pending)[i] == (ov.executed + ov.pending)[i]);
                } else {
                    assert((fv.executed + fv.pending)[i] == ov.next_ticket);
                }
            }
            assert(fv.executed + fv.pending =~= submitted(fv));
        }
        Ok(ticket)
    }

    /// One worker's turn at the shared receiver. If a job is pending, the
    /// oldest is delivered and run, and its ticket moves from the pending
    /// queue to the executed record. If the queue is empty and the
    /// producer side is closed, the worker observes closure and its loop
    /// exits. Otherwise the real receive blocks without holding the lock.
    pub fn receive(&mut self) -> (r: Received)
        requires
            wf(old(self)@),
        ensures
            wf(final(self)@),
            old(self)@.pending.len() > 0 ==> {
                &&& r == Received::Job(old(self)@.pending[0])
                &&& final(self)@.pending == old(self)@.pending.subrange(
                    1,
                    old(self)@.pending.len() as int,
                )
                &&& final(self)@.executed == old(self)@.executed.push(old(self)@.pending[0])
                &&& final(self)@.workers == old(self)@.workers
                &&& final(self)@.open == old(self)@.open
                &&& final(self)@.next_ticket == old(self)@.next_ticket
            },
            old(self)@.pending.len() == 0 && !old(self)@.open ==> r == Received::Closed
                && final(self)@ == old(self)@,
            old(self)@.pending.len() == 0 && old(self)@.open ==> r == Received::WouldBlock
                && final(self)@ == old(self)@,
    {
        if self.pending.len() > 0 {
            let ticket = self.pending.remove(0);
            self.executed.push(ticket);
            proof {
                let ov = old(self)@;
                let fv = self@;
                assert(fv.pending =~= ov.pending.subrange(1, ov.pending.len() as int));
                assert forall|i: int| 0 <= i < fv.executed.len() + fv.pending.len() implies (
                fv.executed + fv.pending)[i] == submitted(fv)[i] by {
                    assert((ov.executed + ov.pending)[i] == submitted(ov)[i]);
                }
                assert(fv.executed + fv.pending =~= submitted(fv));
            }
            Received::Job(ticket)
        } else if !self.open {
            Received::Closed
        } else {
            Received::WouldBlock
        }
    }

    /// Close the producer side of the dispatch channel: the first step of
    /// teardown. No further submission can succeed, and once the queue
    /// drains every worker's blocked receive observes closure. Closing an
    /// already-closed handle changes nothing.
    pub fn close(&mut self)
        requires
            wf(old(self)@),
        ensures
            wf(final(self)@),
            !final(self)@.open,
            final(self)@.workers == old(self)@.workers,
            final(self)@.pending == old(self)@.pending,
            final(self)@.executed == old(self)@.executed,
            final(self)@.next_ticket == old(self)@.next_ticket,
    {
        self.open = false;
    }

    /// Join worker `i`'s thread. The real join blocks until the worker
    /// exits its loop, and a worker exits only once the channel is closed
    /// and drained — hence the preconditions. The thread handle is
    /// consumed at most once: joining an already-joined worker is a no-op.
    pub fn join_worker(&mut self, i: usize)
        requires
            wf(old(self)@),
            i < old(self)@.workers.len(),
            !old(self)@.open,
            old(self)@.pending.len() == 0,
        ensures
            wf(final(self)@),
            final(self)@.workers == old(self)@.workers.update(
                i as int,
                (Worker { id: old(self)@.workers[i as int].id, joined: true }),
            ),
            final(self)@.open == old(self)@.open,
            final(self)@.pending == old(self)@.pending,
            final(self)@.executed == old(self)@.executed,
            final(self)@.next_ticket == old(self)@.next_ticket,
    {
        if !self.workers[i].joined {
            self.workers[i] = Worker { id: self.workers[i].id, joined: true };
        }
        proof {
            assert(self@.workers =~= old(self)@.workers.update(
                i as int,
                Worker { id: old(self)@.workers[i as int].id, joined: true },
            ));
        }
    }

    /// Graceful teardown. Closes the producer side first, so no further
    /// submission can succeed; then every job already in the queue is
    /// delivered and run, in order, before any worker observes closure;
    /// then every worker's thread is joined, in identifier order. The call
    /// blocks (in the real pool) until all of that has happened, and never
    /// abandons a job that was submitted successfully.
    ///
    /// On a pool that was already torn down this changes nothing: the
    /// producer handle and the thread handles are consumed at most once.
    pub fn teardown(&mut self)
        requires
            wf(old(self)@),
        ensures
            wf(final(self)@),
            final(self)@ == spec_teardown(old(self)@),
    {
        let ghost orig = self@;
        self.close();
        while self.pending.len() > 0
            invariant
                wf(self@),
                !self@.open,
                self@.workers == orig.workers,
                self@.next_ticket == orig.next_ticket,
                self@.executed + self@.pending == orig.executed + orig.pending,
            decreases self@.pending.len(),
        {
            let ghost before = self@;
            let r = self.receive();
            proof {
                assert(self@.executed + self@.pending =~= before.executed + before.pending);
            }
        }
        proof {
            assert(self@.executed =~= self@.executed + self@.pending);
            assert(self@.executed =~= orig.executed + orig.pending);
        }
        let size = self.workers.len();
        let mut idx: usize = 0;
        while idx < size
            invariant
                wf(self@),
                !self@.open,
                idx <= size,
                self@.workers.len() == size,
                self@.next_ticket == orig.next_ticket,
                self@.executed == orig.executed + orig.pending,
                self@.pending.len() == 0,
                size == orig.workers.len(),
                forall|j: int| 0 <= j < idx ==> (#[trigger] self@.workers[j]) == (Worker {
                    id: orig.workers[j].id,
                    joined: true,
                }),
                forall|j: int| idx <= j < size ==> (#[trigger] self@.workers[j]) == orig.workers[j],
            decreases size - idx,
        {
            self.join_worker(idx);
            idx = idx + 1;
        }
        proof {
            assert(self@.workers =~= spec_teardown(orig).workers);
            assert(self@.pending =~= spec_teardown(orig).pending);
            assert(self@ =~= spec_teardown(orig));
        }
    }

    /// How many workers the pool owns; fixed at construction.
    pub fn worker_count(&self) -> (r: usize)
        ensures
            r == self@.workers.len(),
    {
        self.workers.len()
    }

    /// The worker at position `i` (its identifier and join state).
    pub fn worker(&self, i: usize) -> (w: Worker)
        requires
            i < self@.workers.len(),
        ensures
            w == self@.workers[i as int],
    {
        self.workers[i]
    }

    /// Whether the producer side of the dispatch channel is still open,
    /// that is, whether teardown has not yet begun.
    pub fn is_open(&self) -> (r: bool)
        ensures
            r == self@.open,
    {
        self.open
    }

    /// How many submitted jobs have not yet been delivered to a worker.
    pub fn pending_count(&self) -> (r: usize)
        ensures
            r == self@.pending.len(),
    {
        self.pending.len()
    }

    /// How many jobs have been delivered and run so far.
    pub fn executed_count(&self) -> (r: usize)
        ensures
            r == self@.executed.len(),
    {
        self.executed.len()
    }

    /// The ticket of the `i`-th job run, in delivery order.
    pub fn executed_ticket(&self, i: usize) -> (r: u64)
        requires
            i < self@.executed.len(),
        ensures
            r == self@.executed[i as int],
    {
        self.executed[i]
    }

    /// How many jobs have been submitted in the pool's lifetime; also the
    /// ticket the next successful submission will receive.
    pub fn submitted_count(&self) -> (r: u64)
        ensures
            r == self@.next_ticket,
    {
        self.next_ticket
    }
}

} // verus!
