use vstd::prelude::*;

use crate::errors::TransportError;

verus! {

/// Maximum number of chunks in flight (pushed but not yet acknowledged),
/// equal to the receiver's bounded queue depth.
pub const QUEUE_CAPACITY: usize = 1024;

/// What `ack_index` becomes when an acknowledgment for `n` arrives while
/// `a` chunks are acknowledged and `p` are pushed: acks that ran ahead of
/// `p` are rejected and change nothing, stale acks are ignored, and a fresh
/// ack raises the index to `n`.
pub open spec fn acked_index(a: nat, p: nat, n: nat) -> nat {
    if n > p {
        a
    } else if n > a {
        n
    } else {
        a
    }
}

/// Sliding-window bookkeeping reconciling chunks pushed against chunks
/// acknowledged. The window `push_index - ack_index` is the credit spent;
/// it never exceeds `QUEUE_CAPACITY`, so the sender can never overrun the
/// receiver's bounded queue.
pub struct AckTracker {
    push_index: u64,
    ack_index: u64,
}

impl AckTracker {
    /// Chunks pushed so far.
    pub closed spec fn spec_push_index(&self) -> nat {
        self.push_index as nat
    }

    /// Chunks acknowledged so far.
    pub closed spec fn spec_ack_index(&self) -> nat {
        self.ack_index as nat
    }

    /// The window invariant: `0 <= push_index - ack_index <= QUEUE_CAPACITY`,
    /// and the indices stay within the machine word they are stored in.
    pub open spec fn wf(&self) -> bool {
        &&& self.spec_ack_index() <= self.spec_push_index()
        &&& self.spec_push_index() - self.spec_ack_index() <= QUEUE_CAPACITY
        &&& self.spec_push_index() <= u64::MAX
    }

    /// Whether one more chunk may be pushed without exceeding the window.
    pub open spec fn spec_can_push(&self) -> bool {
        self.spec_push_index() - self.spec_ack_index() < QUEUE_CAPACITY
    }

    /// A fresh tracker: nothing pushed, nothing acknowledged.
    pub fn new() -> (t: AckTracker)
        ensures
            t.wf(),
            t.spec_push_index() == 0,
            t.spec_ack_index() == 0,
    {
        AckTracker { push_index: 0, ack_index: 0 }
    }

    /// Chunks pushed so far.
    pub fn push_index(&self) -> (n: u64)
        ensures
            n == self.spec_push_index(),
    {
        self.push_index
    }

    /// Chunks acknowledged so far.
    pub fn ack_index(&self) -> (n: u64)
        ensures
            n == self.spec_ack_index(),
    {
        self.ack_index
    }

    /// The number of chunks currently in flight.
    pub fn window(&self) -> (n: u64)
        requires
            self.wf(),
        ensures
            n == self.spec_push_index() - self.spec_ack_index(),
    {
        self.push_index - self.ack_index
    }

    /// True iff one more chunk may be pushed within the credit window.
    pub fn can_push(&self) -> (r: bool)
        requires
            self.wf(),
        ensures
            r == self.spec_can_push(),
    {
        self.push_index - self.ack_index < QUEUE_CAPACITY as u64
    }

    /// Records that one chunk was pushed. Pushing without credit is a logic
    /// error on the caller's side, so it is excluded here rather than retried.
    pub fn record_push(&mut self)
        requires
            old(self).wf(),
            old(self).spec_can_push(),
            old(self).spec_push_index() < u64::MAX,
        ensures
            final(self).wf(),
            final(self).spec_push_index() == old(self).spec_push_index() + 1,
            final(self).spec_ack_index() == old(self).spec_ack_index(),
    {
        self.push_index = self.push_index + 1;
    }

    /// Records an acknowledgment for all chunks up to and including `n`.
    ///
    /// Stale acknowledgments are ignored (idempotent); an acknowledgment
    /// ahead of `push_index` is a protocol violation and is rejected with
    /// `OutOfOrderAck`, leaving the tracker unchanged.
    pub fn record_ack(&mut self, n: u64) -> (r: Result<(), TransportError>)
        requires
            old(self).wf(),
        ensures
            final(self).wf(),
            final(self).spec_push_index() == old(self).spec_push_index(),
            final(self).spec_ack_index() == acked_index(
                old(self).spec_ack_index(),
                old(self).spec_push_index(),
                n as nat,
            ),
            r matches Ok(()) <==> n <= old(self).spec_push_index(),
            r matches Err(e) ==> e == TransportError::OutOfOrderAck
                && *final(self) == *old(self),
            final(self).spec_ack_index() >= old(self).spec_ack_index(),
    {
        if n > self.push_index {
            return Err(TransportError::OutOfOrderAck);
        }
        if n > self.ack_index {
            self.ack_index = n;
        }
        Ok(())
    }
}

/// Acknowledgment monotonicity: recording an acknowledgment never lowers the
/// acknowledged index, and recording the same acknowledgment twice is a
/// no-op: the second application leaves the index where the first put it.
pub proof fn lemma_ack_monotone_idempotent(a: nat, p: nat, n: nat)
    requires
        a <= p,
    ensures
        acked_index(a, p, n) >= a,
        acked_index(acked_index(a, p, n), p, n) == acked_index(a, p, n),
{
}

} // verus!
