//! Worker-pool bookkeeping around the shared queue: who may exit, and the
//! conservation law that shutdown drains every task.
//!
//! The real pool is W threads contending for the queue's consumer side; in
//! this model each thread's claim, completion and exit decision pass through
//! one state value, which is what the serialized claim gives in the running
//! daemon: at most one worker pulls at any instant.

use crate::queue::{spec_accepts, spec_claim, spec_offer, BoundedQueue};
use crate::task::Task;
use vstd::prelude::*;

verus! {

/// What a worker does after asking for work: process a task it now owns
/// exclusively, wait because the queue is momentarily empty but the producer
/// is still alive, or exit its loop because no task will ever arrive again.
pub enum WorkerStep {
    Process(Task),
    WaitForWork,
    ExitLoop,
}

/// The queue together with the dispatch ledger: how many tasks were ever
/// accepted, how many are claimed but not yet terminal, how many finished.
pub struct Dispatcher {
    pub queue: BoundedQueue,
    /// Tasks claimed by a worker and not yet at a terminal outcome.
    pub in_flight: usize,
    /// Tasks ever accepted into the queue.
    pub accepted: Ghost<nat>,
    /// Tasks that reached a terminal outcome.
    pub completed: Ghost<nat>,
}

impl Dispatcher {
    /// Conservation: every accepted task is in exactly one place — finished,
    /// in a worker's hands, or still queued.
    pub open spec fn wf(&self) -> bool {
        &&& self.queue.wf()
        &&& self.accepted@ == self.completed@ + self.in_flight + self.queue@.len()
    }

    /// The condition under which the daemon's top level may let the process
    /// exit: the producer is gone, the queue is drained, and no worker still
    /// holds a task.
    pub open spec fn spec_may_exit(&self) -> bool {
        self.queue.is_closed() && self.queue@.len() == 0 && self.in_flight == 0
    }

    pub fn new(capacity: usize) -> (d: Self)
        requires
            capacity >= 1,
        ensures
            d.wf(),
            d.queue@ == Seq::<Task>::empty(),
            d.queue.cap() == capacity,
            !d.queue.is_closed(),
            d.in_flight == 0,
            d.accepted@ == 0,
            d.completed@ == 0,
    {
        Dispatcher {
            queue: BoundedQueue::new(capacity),
            in_flight: 0,
            accepted: Ghost(0),
            completed: Ghost(0),
        }
    }

    /// Listener side: offer one received task. A full queue hands it back —
    /// backpressure — and the ledger does not move.
    pub fn accept(&mut self, t: Task) -> (r: Result<(), Task>)
        requires
            old(self).wf(),
            !old(self).queue.is_closed(),
        ensures
            final(self).wf(),
            !final(self).queue.is_closed(),
            final(self).queue.cap() == old(self).queue.cap(),
            final(self).queue@ == spec_offer(old(self).queue@, old(self).queue.cap(), t),
            r is Ok <==> spec_accepts(old(self).queue@, old(self).queue.cap()),
            r is Ok ==> final(self).accepted@ == old(self).accepted@ + 1,
            r matches Err(back) ==> back == t && final(self).accepted@ == old(self).accepted@,
            final(self).completed@ == old(self).completed@,
            final(self).in_flight == old(self).in_flight,
    {
        let r = self.queue.offer(t);
        if r.is_ok() {
            self.accepted = Ghost(self.accepted@ + 1);
        }
        r
    }

    /// Worker side: ask for work. The claim is atomic and exclusive: the
    /// task leaves the queue in the same step that hands it to this worker.
    pub fn next_step(&mut self) -> (s: WorkerStep)
        requires
            old(self).wf(),
            old(self).in_flight < usize::MAX,
        ensures
            final(self).wf(),
            final(self).queue.cap() == old(self).queue.cap(),
            final(self).queue.is_closed() == old(self).queue.is_closed(),
            final(self).accepted == old(self).accepted,
            final(self).completed == old(self).completed,
            old(self).queue@.len() > 0 ==> (s matches WorkerStep::Process(t)
                && t == old(self).queue@[0]
                && final(self).queue@ == spec_claim(old(self).queue@)
                && final(self).in_flight == old(self).in_flight + 1),
            old(self).queue@.len() == 0 ==> final(self).queue@ == old(self).queue@
                && final(self).in_flight == old(self).in_flight,
            old(self).queue@.len() == 0 && old(self).queue.is_closed() ==> s is ExitLoop,
            old(self).queue@.len() == 0 && !old(self).queue.is_closed() ==> s is WaitForWork,
    {
        match self.queue.claim() {
            Some(t) => {
                self.in_flight = self.in_flight + 1;
                WorkerStep::Process(t)
            },
            None => {
                if self.queue.no_more_work() {
                    WorkerStep::ExitLoop
                } else {
                    WorkerStep::WaitForWork
                }
            },
        }
    }

    /// Worker side: the task it held reached a terminal outcome — processed,
    /// abandoned after a failed signing, or failed; the worker never dies
    /// with it.
    pub fn task_done(&mut self)
        requires
            old(self).wf(),
            old(self).in_flight > 0,
        ensures
            final(self).wf(),
            final(self).queue == old(self).queue,
            final(self).accepted == old(self).accepted,
            final(self).completed@ == old(self).completed@ + 1,
            final(self).in_flight == old(self).in_flight - 1,
    {
        self.in_flight = self.in_flight - 1;
        self.completed = Ghost(self.completed@ + 1);
    }

    /// Shutdown: stop accepting. Queued tasks stay to be drained.
    pub fn begin_shutdown(&mut self)
        requires
            old(self).wf(),
        ensures
            final(self).wf(),
            final(self).queue@ == old(self).queue@,
            final(self).queue.cap() == old(self).queue.cap(),
            final(self).queue.is_closed(),
            final(self).accepted == old(self).accepted,
            final(self).completed == old(self).completed,
            final(self).in_flight == old(self).in_flight,
    {
        self.queue.close();
    }

    /// May the process exit? Only when nothing is queued and nothing is in
    /// flight after the producer closed.
    pub fn may_exit(&self) -> (r: bool)
        ensures
            r == self.spec_may_exit(),
    {
        self.queue.no_more_work() && self.in_flight == 0
    }
}

/// Outstanding work is exactly what was accepted and has not finished: with
/// M tasks queued and K in flight, M + K completions are still owed.
pub proof fn lemma_outstanding_work(d: &Dispatcher)
    requires
        d.wf(),
    ensures
        d.accepted@ - d.completed@ == d.in_flight + d.queue@.len(),
{
}

/// Shutdown drains: the daemon may exit only once every accepted task has
/// reached a terminal outcome — with M tasks queued and K in flight when the
/// producer closed, all M + K complete before the exit condition can hold,
/// and none is abandoned mid-queue.
pub proof fn lemma_shutdown_drains(d: &Dispatcher)
    requires
        d.wf(),
        d.spec_may_exit(),
    ensures
        d.completed@ == d.accepted@,
{
}

} // verus!
