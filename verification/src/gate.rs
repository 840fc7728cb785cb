//! The admission gate: at most a fixed number of executions run at once,
//! and a queue holds whoever found every slot taken.

use vstd::prelude::*;

verus! {

/// The right to occupy one execution slot; surrendered to `release` when
/// the pipeline that holds it reaches any terminal state.
pub struct QueueSlot {
    /// The requester the slot was granted to.
    pub requester_id: u64,
}

/// Relates a gate before and after one `submit`: an admitted requester takes
/// a free slot; with no slot free the requester joins the back of the wait
/// queue and is not dropped.
pub open spec fn submit_post(pre: Gate, id: u64, post: Gate, admitted: bool) -> bool {
    &&& post.capacity == pre.capacity
    &&& if admitted {
        &&& pre.active < pre.capacity
        &&& post.active == pre.active + 1
        &&& post.waiting@ == pre.waiting@
    } else {
        &&& pre.active == pre.capacity
        &&& post.active == pre.active
        &&& post.waiting@ == pre.waiting@.push(id)
    }
}

/// Relates a gate before and after one `release`: the freed slot goes to the
/// waiter at the front of the queue if there is one, else it becomes free.
pub open spec fn release_post(pre: Gate, post: Gate, handed: Option<u64>) -> bool {
    &&& post.capacity == pre.capacity
    &&& match handed {
        Some(id) => {
            &&& pre.waiting@.len() > 0
            &&& id == pre.waiting@[0]
            &&& post.waiting@ == pre.waiting@.subrange(1, pre.waiting@.len() as int)
            &&& post.active == pre.active
        },
        None => {
            &&& pre.waiting@.len() == 0
            &&& post.active == pre.active - 1
            &&& post.waiting@ == pre.waiting@
        },
    }
}

/// Bounded concurrency gate with a first-come-first-served wait queue.
pub struct Gate {
    /// `max_concurrent_executions`; fixed at startup.
    pub capacity: u64,
    /// Slots currently held.
    pub active: u64,
    /// Requesters waiting for a slot, front at index zero.
    pub waiting: Vec<u64>,
}

impl Gate {
    /// No more slots are held than exist, and nobody waits while a slot is
    /// free.
    pub open spec fn wf(self) -> bool {
        &&& self.capacity > 0
        &&& self.active <= self.capacity
        &&& self.waiting@.len() > 0 ==> self.active == self.capacity
    }

    /// An idle gate with the given number of slots.
    pub fn new(capacity: u64) -> (g: Self)
        requires
            capacity > 0,
        ensures
            g.wf(),
            g.capacity == capacity,
            g.active == 0,
            g.waiting@.len() == 0,
    {
        Gate { capacity, active: 0, waiting: Vec::new() }
    }

    /// Asks for a slot. Returns the slot when one is free; otherwise the
    /// requester joins the back of the wait queue.
    pub fn submit(&mut self, id: u64) -> (r: Option<QueueSlot>)
        requires
            old(self).wf(),
        ensures
            final(self).wf(),
            submit_post(*old(self), id, *final(self), r is Some),
            r matches Some(s) ==> s.requester_id == id,
    {
        if self.active < self.capacity {
            self.active = self.active + 1;
            Some(QueueSlot { requester_id: id })
        } else {
            self.waiting.push(id);
            None
        }
    }

    /// Gives a held slot back. When somebody waits, the slot passes to the
    /// front waiter, whose identifier is returned so the shell can wake it;
    /// otherwise the slot becomes free.
    pub fn release(&mut self, slot: QueueSlot) -> (handed: Option<u64>)
        requires
            old(self).wf(),
            old(self).active > 0,
        ensures
            final(self).wf(),
            release_post(*old(self), *final(self), handed),
    {
        let _ = slot;
        if self.waiting.len() > 0 {
            let id = self.waiting.remove(0);
            proof {
                assert(self.waiting@ =~= old(self).waiting@.subrange(
                    1,
                    old(self).waiting@.len() as int,
                ));
            }
            Some(id)
        } else {
            self.active = self.active - 1;
            None
        }
    }

    /// Withdraws a waiter whose admission timeout elapsed; the caller then
    /// reports a busy outcome instead of dropping the request silently.
    /// Returns false when the identifier waits nowhere in the queue.
    pub fn cancel(&mut self, id: u64) -> (found: bool)
        requires
            old(self).wf(),
        ensures
            final(self).wf(),
            final(self).capacity == old(self).capacity,
            final(self).active == old(self).active,
            found ==> exists|i: int|
                0 <= i < old(self).waiting@.len() && old(self).waiting@[i] == id && (forall|j: int|
                    0 <= j < i ==> old(self).waiting@[j] != id) && final(self).waiting@ == old(
                    self,
                ).waiting@.remove(i),
            !found ==> final(self).waiting@ == old(self).waiting@ && (forall|i: int|
                0 <= i < old(self).waiting@.len() ==> old(self).waiting@[i] != id),
    {
        let mut i: usize = 0;
        while i < self.waiting.len()
            invariant
                old(self).wf(),
                *self == *old(self),
                0 <= i <= self.waiting@.len(),
                forall|j: int| 0 <= j < i ==> old(self).waiting@[j] != id,
            decreases self.waiting@.len() - i,
        {
            if self.waiting[i] == id {
                self.waiting.remove(i);
                return true;
            }
            i += 1;
        }
        false
    }
}

/// Decides `QueueTimeout`: whether a caller that has waited `waited_ms` for
/// admission has exhausted the configured admission timeout and must be
/// answered with a busy reply instead of a slot.
pub fn admission_timed_out(waited_ms: u64, timeout_ms: u64) -> (r: bool)
    ensures
        r == (waited_ms >= timeout_ms),
{
    waited_ms >= timeout_ms
}

/// With every slot busy and nobody yet waiting, one more submission is not
/// admitted and not dropped: it stands alone in the wait queue.
pub proof fn lemma_full_gate_queues_one(pre: Gate, id: u64, post: Gate, admitted: bool)
    requires
        pre.wf(),
        pre.active == pre.capacity,
        pre.waiting@.len() == 0,
        submit_post(pre, id, post, admitted),
    ensures
        !admitted,
        post.waiting@ =~= seq![id],
        post.active == pre.capacity,
{
}

/// A released slot always passes to the waiter at the front of the queue:
/// admission is first-come-first-served, and a waiter whose predecessors
/// all release eventually runs.
pub proof fn lemma_release_serves_front(pre: Gate, post: Gate, handed: Option<u64>)
    requires
        pre.wf(),
        pre.waiting@.len() > 0,
        release_post(pre, post, handed),
    ensures
        handed == Some(pre.waiting@[0]),
        post.waiting@.len() == pre.waiting@.len() - 1,
        forall|k: int| 0 <= k < post.waiting@.len() ==> post.waiting@[k] == pre.waiting@[k + 1],
{
}

} // verus!
