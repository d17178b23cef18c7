//! The bounded FIFO task queue between the listener and the worker pool.
//!
//! The queue never drops work: an offer against a full queue hands the task
//! back to the producer, which is how blocking backpressure appears in this
//! sequential model — the caller retries after a consumer claims a task.
//! Closing the queue is the shutdown signal: no further offers, and the pool
//! exits once the remaining tasks are drained.

use crate::task::Task;
use vstd::prelude::*;

verus! {

/// Whether a queue holding `items` with the given capacity has room for one
/// more task.
pub open spec fn spec_accepts(items: Seq<Task>, capacity: int) -> bool {
    items.len() < capacity
}

/// Contents after one offer: appended when there is room, unchanged when the
/// queue is full.
pub open spec fn spec_offer(items: Seq<Task>, capacity: int, t: Task) -> Seq<Task> {
    if spec_accepts(items, capacity) {
        items.push(t)
    } else {
        items
    }
}

/// Contents after one claim: the front task leaves; an empty queue is
/// unchanged.
pub open spec fn spec_claim(items: Seq<Task>) -> Seq<Task> {
    if items.len() == 0 {
        items
    } else {
        items.subrange(1, items.len() as int)
    }
}

/// Contents after offering the tasks of `ts` one by one, in order.
pub open spec fn spec_offer_all(items: Seq<Task>, capacity: int, ts: Seq<Task>) -> Seq<Task>
    decreases ts.len(),
{
    if ts.len() == 0 {
        items
    } else {
        spec_offer_all(spec_offer(items, capacity, ts[0]), capacity, ts.subrange(1, ts.len() as int))
    }
}

/// An ordered buffer of tasks with a fixed capacity and a closed flag. The
/// number of enqueued-but-unclaimed tasks never exceeds the capacity.
pub struct BoundedQueue {
    items: Vec<Task>,
    capacity: usize,
    closed: bool,
}

impl View for BoundedQueue {
    type V = Seq<Task>;

    closed spec fn view(&self) -> Seq<Task> {
        self.items@
    }
}

impl BoundedQueue {
    /// Fixed capacity the queue was created with.
    pub closed spec fn cap(&self) -> int {
        self.capacity as int
    }

    /// The producer side has shut down; no further task will arrive.
    pub closed spec fn is_closed(&self) -> bool {
        self.closed
    }

    pub open spec fn wf(&self) -> bool {
        &&& self.cap() >= 1
        &&& self@.len() <= self.cap()
    }

    /// An empty, open queue. Capacity must be positive: a queue with no slot
    /// could never accept work.
    pub fn new(capacity: usize) -> (q: Self)
        requires
            capacity >= 1,
        ensures
            q@ == Seq::<Task>::empty(),
            q.cap() == capacity,
            !q.is_closed(),
            q.wf(),
    {
        BoundedQueue { items: Vec::new(), capacity, closed: false }
    }

    pub fn capacity(&self) -> (n: usize)
        ensures
            n == self.cap(),
    {
        self.capacity
    }

    pub fn len(&self) -> (n: usize)
        ensures
            n == self@.len(),
    {
        self.items.len()
    }

    pub fn is_full(&self) -> (r: bool)
        requires
            self.wf(),
        ensures
            r == !spec_accepts(self@, self.cap()),
    {
        self.items.len() == self.capacity
    }

    /// Producer side: hand one task to the queue. A full queue refuses and
    /// returns the task, so the producer can block and retry once a consumer
    /// has claimed a task; nothing is ever dropped.
    pub fn offer(&mut self, t: Task) -> (r: Result<(), Task>)
        requires
            old(self).wf(),
            !old(self).is_closed(),
        ensures
            final(self).wf(),
            final(self).cap() == old(self).cap(),
            !final(self).is_closed(),
            final(self)@ == spec_offer(old(self)@, old(self).cap(), t),
            r is Ok <==> spec_accepts(old(self)@, old(self).cap()),
            r matches Err(back) ==> back == t && final(self)@ == old(self)@,
    {
        if self.items.len() < self.capacity {
            self.items.push(t);
            Ok(())
        } else {
            Err(t)
        }
    }

    /// Consumer side: claim the task at the front, if any. The model keeps
    /// the claim atomic and exclusive — the task leaves the queue in the same
    /// step that hands it out, so no two claimants can receive the same task.
    pub fn claim(&mut self) -> (r: Option<Task>)
        requires
            old(self).wf(),
        ensures
            final(self).wf(),
            final(self).cap() == old(self).cap(),
            final(self).is_closed() == old(self).is_closed(),
            final(self)@ == spec_claim(old(self)@),
            old(self)@.len() == 0 ==> r is None,
            old(self)@.len() > 0 ==> r == Some(old(self)@[0]),
    {
        if self.items.len() == 0 {
            None
        } else {
            let t = self.items.remove(0);
            proof {
                assert(self.items@ =~= old(self)@.subrange(1, old(self)@.len() as int));
            }
            Some(t)
        }
    }

    /// Drop the producer side. The contents stay: shutdown drains, it does
    /// not discard.
    pub fn close(&mut self)
        requires
            old(self).wf(),
        ensures
            final(self).wf(),
            final(self).cap() == old(self).cap(),
            final(self)@ == old(self)@,
            final(self).is_closed(),
    {
        self.closed = true;
    }

    /// End-of-work for a worker: the producer is gone and every queued task
    /// has been claimed.
    pub fn no_more_work(&self) -> (r: bool)
        ensures
            r == (self.is_closed() && self@.len() == 0),
    {
        self.closed && self.items.len() == 0
    }

    /// Claim every remaining task, in order. Used by the drain phase of
    /// shutdown: what comes out is exactly what was queued, once each, and
    /// the queue is left empty.
    pub fn drain(&mut self) -> (r: Vec<Task>)
        requires
            old(self).wf(),
        ensures
            final(self).wf(),
            final(self).cap() == old(self).cap(),
            final(self).is_closed() == old(self).is_closed(),
            final(self)@ == Seq::<Task>::empty(),
            r@ == old(self)@,
    {
        let mut out: Vec<Task> = Vec::new();
        loop
            invariant
                self.wf(),
                self.cap() == old(self).cap(),
                self.is_closed() == old(self).is_closed(),
                out@ + self@ == old(self)@,
            decreases self@.len(),
        {
            match self.claim() {
                Some(t) => {
                    out.push(t);
                    proof {
                        assert(out@ + self@ =~= old(self)@);
                    }
                },
                None => {
                    proof {
                        assert(out@ =~= old(self)@);
                    }
                    return out;
                },
            }
        }
    }
}

/// No loss and no duplication on intake: while the queue has room for all of
/// them, a sequence of offered tasks is appended whole, in arrival order —
/// each task enters the buffer exactly once. Together with `claim`, which
/// removes exactly the front task, and `drain`, which returns the contents
/// once each, every accepted task is claimed by exactly one consumer.
pub proof fn lemma_no_loss_no_duplication(items: Seq<Task>, capacity: int, ts: Seq<Task>)
    requires
        items.len() + ts.len() <= capacity,
    ensures
        spec_offer_all(items, capacity, ts) == items + ts,
    decreases ts.len(),
{
    if ts.len() == 0 {
        assert(items + ts =~= items);
    } else {
        lemma_no_loss_no_duplication(
            items.push(ts[0]),
            capacity,
            ts.subrange(1, ts.len() as int),
        );
        assert(items.push(ts[0]) + ts.subrange(1, ts.len() as int) =~= items + ts);
    }
}

/// Backpressure holds exactly at the capacity boundary: a queue holding
/// fewer than `capacity` tasks accepts the next offer, a queue holding
/// exactly `capacity` refuses it, and one claim from a full queue is enough
/// for intake to resume at once.
pub proof fn lemma_backpressure_boundary(items: Seq<Task>, capacity: int)
    requires
        capacity >= 1,
        items.len() <= capacity,
    ensures
        spec_accepts(items, capacity) <==> items.len() < capacity,
        items.len() == capacity ==> !spec_accepts(items, capacity) && spec_accepts(
            spec_claim(items),
            capacity,
        ),
{
}

} // verus!
