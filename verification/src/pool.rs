//! The worker thread pool, modelled as a state machine.
//!
//! The real pool runs one OS thread per worker, all blocking on the
//! receiving end of a shared channel behind a mutex; that mutual exclusion
//! means at most one worker is ever pulling from the queue at an instant,
//! so the queue's evolution is a sequence of atomic steps. This module
//! verifies that sequence: which job each receive hands out, when a worker
//! may exit, and what submission does once shutdown has begun. The
//! embedding performs the actions (spawn, send, block, join) and feeds the
//! outcomes back as events.
//!
//! Jobs are one-shot and opaque; here each is stood for by a token chosen
//! by the submitter. The ghost histories record every token accepted and
//! every token handed out, so dispatch order, exactly-once delivery and
//! drain-before-exit are stated over whole runs of the pool.

use vstd::prelude::*;

verus! {

/// The lifecycle of one worker thread.
#[derive(Clone, Copy, Debug, PartialEq, Eq, Structural)]
pub enum WorkerState {
    /// Blocking on the queue, ready to take a job.
    Running,
    /// Currently running a job, outside the queue lock.
    Executing,
    /// Received the closed-signal; its loop has exited.
    ShuttingDown,
    /// Its thread has been joined. Terminal.
    Joined,
}

/// What a worker's blocking receive came back with.
#[derive(Clone, Copy, Debug, PartialEq, Eq, Structural)]
pub enum WorkerEvent {
    /// A job was handed out to this worker.
    JobArrived,
    /// The sending side is gone and the queue is drained: the closed-signal.
    ChannelClosed,
    /// The receive lock could not be acquired.
    LockFailed,
}

/// What the worker loop does next in reaction to an event.
#[derive(Clone, Copy, Debug, PartialEq, Eq, Structural)]
pub enum WorkerAction {
    /// Run the received job, outside the queue lock.
    RunJob,
    /// Leave the loop; the thread terminates normally.
    ExitLoop,
    /// Log the failure and keep looping.
    Retry,
}

/// What one atomic receive on the shared queue yields.
#[derive(Clone, Copy, Debug, PartialEq, Eq, Structural)]
pub enum Received {
    /// The job token at the front of the queue.
    Job(u64),
    /// The closed-signal: no job will ever arrive again.
    Closed,
    /// The queue is empty but still open; a real worker stays blocked.
    WouldBlock,
}

/// One long-lived worker thread, as the pool sees it.
#[derive(Clone, Copy, Debug, PartialEq, Eq, Structural)]
pub struct Worker {
    /// Distinct small id, the worker's index in the pool.
    pub id: usize,
    /// Where the worker stands in its lifecycle.
    pub state: WorkerState,
}

/// One step of the worker loop: from the current state and the event the
/// blocking receive produced, decide the next state and the action.
///
/// A job arrival puts the worker into `Executing` and runs the job; the
/// closed-signal ends the loop; a lock failure is logged and the loop goes
/// on unchanged.
pub fn worker_step(state: WorkerState, event: WorkerEvent) -> (r: (WorkerState, WorkerAction))
    requires
        state is Running,
    ensures
        event is JobArrived ==> r == (WorkerState::Executing, WorkerAction::RunJob),
        event is ChannelClosed ==> r == (WorkerState::ShuttingDown, WorkerAction::ExitLoop),
        event is LockFailed ==> r == (state, WorkerAction::Retry),
{
    match event {
        WorkerEvent::JobArrived => (WorkerState::Executing, WorkerAction::RunJob),
        WorkerEvent::ChannelClosed => (WorkerState::ShuttingDown, WorkerAction::ExitLoop),
        WorkerEvent::LockFailed => (state, WorkerAction::Retry),
    }
}

/// The pool: the worker set, the sending handle, and the shared FIFO queue.
pub struct ThreadPool {
    /// The workers, in id order; `workers[i].id == i`.
    pub workers: Vec<Worker>,
    /// Whether the sending handle still exists. Dropping it is what lets
    /// blocked workers wake with the closed-signal.
    pub sender_open: bool,
    /// The job tokens accepted and not yet handed to a worker, oldest first.
    pub queue: Vec<u64>,
    /// Every token ever accepted by `execute`, in submission order.
    pub submitted: Ghost<Seq<u64>>,
    /// Every token ever handed to a worker, in dispatch order.
    pub dispatched: Ghost<Seq<u64>>,
    /// For each dispatch, the id of the one worker that took it.
    pub assigned: Ghost<Seq<usize>>,
    /// The ids of the workers joined so far, in join order.
    pub joined: Ghost<Seq<usize>>,
}

impl ThreadPool {
    /// The pool's invariant, established by `new` and kept by every step.
    pub open spec fn wf(&self) -> bool {
        &&& self.workers@.len() >= 1
        &&& forall|i: int|
            0 <= i < self.workers@.len() ==> (#[trigger] self.workers@[i]).id == i
        &&& self.assigned@.len() == self.dispatched@.len()
        &&& forall|k: int|
            0 <= k < self.assigned@.len() ==> (#[trigger] self.assigned@[k]) < self.workers@.len()
        &&& self.submitted@ == self.dispatched@ + self.queue@
        &&& forall|i: int|
            0 <= i < self.workers@.len() && !((#[trigger] self.workers@[i]).state is Running)
                && !(self.workers@[i].state is Executing) ==> !self.sender_open
                && self.queue@.len() == 0
    }

    /// Construct a pool of `size` workers, ids `0..size`, each already
    /// running, with an open sender and an empty queue. A size of zero is
    /// a fatal caller error and is ruled out here; the embedding asserts
    /// it before any worker is spawned.
    pub fn new(size: usize) -> (p: ThreadPool)
        requires
            size >= 1,
        ensures
            p.wf(),
            p.workers@.len() == size,
            forall|i: int|
                0 <= i < size ==> (#[trigger] p.workers@[i]) == (Worker {
                    id: i as usize,
                    state: WorkerState::Running,
                }),
            p.sender_open,
            p.queue@.len() == 0,
            p.submitted@ == Seq::<u64>::empty(),
            p.dispatched@ == Seq::<u64>::empty(),
            p.assigned@ == Seq::<usize>::empty(),
            p.joined@ == Seq::<usize>::empty(),
    {
        let mut workers: Vec<Worker> = Vec::new();
        let mut id: usize = 0;
        while id < size
            invariant
                id <= size,
                workers@.len() == id,
                forall|i: int|
                    0 <= i < id ==> (#[trigger] workers@[i]) == (Worker {
                        id: i as usize,
                        state: WorkerState::Running,
                    }),
            decreases size - id,
        {
            workers.push(Worker { id, state: WorkerState::Running });
            id = id + 1;
        }
        ThreadPool {
            workers,
            sender_open: true,
            queue: Vec::new(),
            submitted: Ghost(Seq::empty()),
            dispatched: Ghost(Seq::empty()),
            assigned: Ghost(Seq::empty()),
            joined: Ghost(Seq::empty()),
        }
    }

    /// Submit a job. While the sender exists the job is enqueued at the
    /// back, to be delivered to exactly one future receiver; the submitter
    /// never blocks. Once shutdown has begun the job is dropped — a logged
    /// caller error, never a crash — and the pool is left untouched.
    pub fn execute(&mut self, job: u64) -> (accepted: bool)
        requires
            old(self).wf(),
        ensures
            final(self).wf(),
            accepted == old(self).sender_open,
            accepted ==> *final(self) == (ThreadPool {
                queue: final(self).queue,
                submitted: final(self).submitted,
                ..*old(self)
            }) && final(self).queue@ == old(self).queue@.push(job) && final(self).submitted@
                == old(self).submitted@.push(job),
            !accepted ==> *final(self) == *old(self),
    {
        if self.sender_open {
            self.queue.push(job);
            proof {
                self.submitted@ = self.submitted@.push(job);
                assert(self.submitted@ =~= self.dispatched@ + self.queue@);
            }
            true
        } else {
            false
        }
    }

    /// Drop the sending handle: no further job will ever be accepted, and
    /// once the queue drains, blocked workers wake with the closed-signal.
    /// Queue, workers and histories are untouched.
    pub fn begin_shutdown(&mut self)
        requires
            old(self).wf(),
        ensures
            final(self).wf(),
            *final(self) == (ThreadPool { sender_open: false, ..*old(self) }),
    {
        self.sender_open = false;
    }

    /// One atomic receive by worker `wid`, under the queue's mutual
    /// exclusion. The front job, if any, goes to this one worker and is
    /// recorded as dispatched; on an empty, closed queue the worker takes
    /// the closed-signal and will never run another job; on an empty, open
    /// queue a real worker simply stays blocked.
    pub fn worker_receive(&mut self, wid: usize) -> (r: Received)
        requires
            old(self).wf(),
            wid < old(self).workers@.len(),
            old(self).workers@[wid as int].state is Running,
        ensures
            final(self).wf(),
            final(self).sender_open == old(self).sender_open,
            final(self).submitted == old(self).submitted,
            final(self).joined == old(self).joined,
            final(self).workers@.len() == old(self).workers@.len(),
            old(self).queue@.len() > 0 ==> {
                &&& r == Received::Job(old(self).queue@[0])
                &&& final(self).queue@ == old(self).queue@.drop_first()
                &&& final(self).dispatched@ == old(self).dispatched@.push(old(self).queue@[0])
                &&& final(self).assigned@ == old(self).assigned@.push(wid)
                &&& final(self).workers@ == old(self).workers@.update(
                    wid as int,
                    Worker { id: wid, state: WorkerState::Executing },
                )
            },
            old(self).queue@.len() == 0 && !old(self).sender_open ==> {
                &&& r == Received::Closed
                &&& final(self).queue@ == old(self).queue@
                &&& final(self).dispatched == old(self).dispatched
                &&& final(self).assigned == old(self).assigned
                &&& final(self).workers@ == old(self).workers@.update(
                    wid as int,
                    Worker { id: wid, state: WorkerState::ShuttingDown },
                )
            },
            old(self).queue@.len() == 0 && old(self).sender_open ==> r == Received::WouldBlock
                && *final(self) == *old(self),
    {
        if self.queue.len() > 0 {
            let job = self.queue.remove(0);
            self.workers.set(wid, Worker { id: wid, state: WorkerState::Executing });
            proof {
                self.dispatched@ = self.dispatched@.push(job);
                self.assigned@ = self.assigned@.push(wid);
                assert(self.queue@ =~= old(self).queue@.drop_first());
                assert(self.submitted@ =~= self.dispatched@ + self.queue@);
            }
            Received::Job(job)
        } else if !self.sender_open {
            self.workers.set(wid, Worker { id: wid, state: WorkerState::ShuttingDown });
            Received::Closed
        } else {
            Received::WouldBlock
        }
    }

    /// Worker `wid` finished running its job, outside the lock, and goes
    /// back to blocking on the queue.
    pub fn worker_finish(&mut self, wid: usize)
        requires
            old(self).wf(),
            wid < old(self).workers@.len(),
            old(self).workers@[wid as int].state is Executing,
        ensures
            final(self).wf(),
            *final(self) == (ThreadPool { workers: final(self).workers, ..*old(self) }),
            final(self).workers@ == old(self).workers@.update(
                wid as int,
                Worker { id: wid, state: WorkerState::Running },
            ),
    {
        self.workers.set(wid, Worker { id: wid, state: WorkerState::Running });
    }

    /// Join worker `wid`. Only a worker that has already taken the
    /// closed-signal — which exists only once the queue is drained — can be
    /// joined, so the owning thread blocks behind every dispatched job.
    pub fn join_worker(&mut self, wid: usize)
        requires
            old(self).wf(),
            wid < old(self).workers@.len(),
            old(self).workers@[wid as int].state is ShuttingDown,
        ensures
            final(self).wf(),
            *final(self) == (ThreadPool {
                workers: final(self).workers,
                joined: final(self).joined,
                ..*old(self)
            }),
            final(self).workers@ == old(self).workers@.update(
                wid as int,
                Worker { id: wid, state: WorkerState::Joined },
            ),
            final(self).joined@ == old(self).joined@.push(wid),
    {
        self.workers.set(wid, Worker { id: wid, state: WorkerState::Joined });
        proof {
            self.joined@ = self.joined@.push(wid);
        }
    }

    /// Synchronous, destructor-driven shutdown: drop the sending handle,
    /// let the workers drain every queued job, then join each worker in id
    /// order. On return every job ever accepted has been dispatched exactly
    /// once, in submission order, and every worker thread has terminated.
    pub fn shutdown(&mut self)
        requires
            old(self).wf(),
            forall|i: int|
                0 <= i < old(self).workers@.len()
                    ==> (#[trigger] old(self).workers@[i]).state is Running,
        ensures
            final(self).wf(),
            !final(self).sender_open,
            final(self).queue@.len() == 0,
            final(self).workers@.len() == old(self).workers@.len(),
            forall|i: int|
                0 <= i < final(self).workers@.len()
                    ==> (#[trigger] final(self).workers@[i]).state is Joined,
            final(self).submitted == old(self).submitted,
            final(self).dispatched@ == final(self).submitted@,
            final(self).dispatched@ == old(self).dispatched@ + old(self).queue@,
            final(self).joined@ == old(self).joined@ + Seq::new(
                old(self).workers@.len(),
                |i: int| i as usize,
            ),
    {
        self.begin_shutdown();
        while self.queue.len() > 0
            invariant
                self.wf(),
                !self.sender_open,
                self.workers@.len() == old(self).workers@.len(),
                forall|i: int|
                    0 <= i < self.workers@.len() ==> (#[trigger] self.workers@[i]).state
                        is Running,
                self.submitted == old(self).submitted,
                self.joined == old(self).joined,
            decreases self.queue@.len(),
        {
            let _received = self.worker_receive(0);
            self.worker_finish(0);
        }
        let mut wid: usize = 0;
        let n = self.workers.len();
        proof {
            assert(self.joined@ =~= old(self).joined@ + Seq::new(0, |i: int| i as usize));
        }
        while wid < n
            invariant
                self.wf(),
                !self.sender_open,
                self.queue@.len() == 0,
                n == self.workers@.len(),
                n == old(self).workers@.len(),
                wid <= n,
                self.submitted == old(self).submitted,
                self.joined@ == old(self).joined@ + Seq::new(wid as nat, |i: int| i as usize),
                forall|i: int|
                    0 <= i < wid ==> (#[trigger] self.workers@[i]).state is Joined,
                forall|i: int|
                    wid <= i < n ==> (#[trigger] self.workers@[i]).state is Running,
            decreases n - wid,
        {
            let _closed = self.worker_receive(wid);
            self.join_worker(wid);
            proof {
                assert(self.joined@ =~= old(self).joined@ + Seq::new(
                    (wid + 1) as nat,
                    |i: int| i as usize,
                ));
            }
            wid = wid + 1;
        }
        proof {
            assert(self.dispatched@ =~= self.submitted@);
        }
    }
}

/// Every job ever handed out went to exactly one worker, a valid one, and
/// the jobs were handed out in exactly the order they were accepted: the
/// dispatch history is a prefix of the submission history, and what is
/// still queued is exactly the rest of it.
pub proof fn lemma_fifo_exactly_once(p: ThreadPool)
    requires
        p.wf(),
    ensures
        p.dispatched@.len() <= p.submitted@.len(),
        p.dispatched@ == p.submitted@.take(p.dispatched@.len() as int),
        p.queue@ == p.submitted@.skip(p.dispatched@.len() as int),
        p.assigned@.len() == p.dispatched@.len(),
        forall|k: int| 0 <= k < p.assigned@.len() ==> (#[trigger] p.assigned@[k]) < p.workers@.len(),
{
    assert(p.dispatched@ =~= p.submitted@.take(p.dispatched@.len() as int));
    assert(p.queue@ =~= p.submitted@.skip(p.dispatched@.len() as int));
}

/// A pool's worker ids are distinct and cover `[0, N)`.
pub proof fn lemma_worker_ids_distinct(p: ThreadPool)
    requires
        p.wf(),
    ensures
        forall|i: int, j: int|
            0 <= i < p.workers@.len() && 0 <= j < p.workers@.len() && i != j ==> (
            #[trigger] p.workers@[i]).id != (#[trigger] p.workers@[j]).id,
        forall|i: int| 0 <= i < p.workers@.len() ==> (#[trigger] p.workers@[i]).id < p.workers@.len(),
{
}

/// A worker leaves its loop only on the closed-signal, and the
/// closed-signal exists only once shutdown has begun and the queue is
/// drained: so no worker has exited while a job was still queued or while
/// submissions were still possible.
pub proof fn lemma_exit_only_after_drain(p: ThreadPool, i: int)
    requires
        p.wf(),
        0 <= i < p.workers@.len(),
        p.workers@[i].state is ShuttingDown || p.workers@[i].state is Joined,
    ensures
        !p.sender_open,
        p.queue@.len() == 0,
        p.dispatched@ == p.submitted@,
{
    assert(p.dispatched@ =~= p.submitted@);
}

} // verus!
