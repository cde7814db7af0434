use vstd::prelude::*;

use crate::codec::concat_of;
use crate::codec::lemma_concat_push;
use crate::codec::views_of;
use crate::errors::TransportError;
use crate::stream::Request;

verus! {

/// Drains a data channel tick by tick: appends each arriving request's
/// chunks, in arrival order, to a local reassembly sequence, and answers
/// with an acknowledgment carrying the highest contiguous chunk index now
/// received. Out-of-order arrival is never silently reordered: a message
/// whose position disagrees with the count of chunks already taken in is
/// rejected with `SequenceGap`.
pub struct StreamingReceiver {
    assembled: Vec<u8>,
    chunks_received: u64,
}

impl StreamingReceiver {
    /// The bytes reassembled so far, in delivery order.
    pub closed spec fn spec_assembled(&self) -> Seq<u8> {
        self.assembled@
    }

    /// The highest contiguous chunk index received so far.
    pub closed spec fn spec_chunks_received(&self) -> nat {
        self.chunks_received as nat
    }

    /// A fresh receiver: nothing received.
    pub fn new() -> (r: StreamingReceiver)
        ensures
            r.spec_assembled().len() == 0,
            r.spec_chunks_received() == 0,
    {
        StreamingReceiver { assembled: Vec::new(), chunks_received: 0 }
    }

    /// Takes in one arriving request whose first chunk claims stream
    /// position `start_index`, and returns the acknowledgment to publish:
    /// the highest contiguous chunk index now received.
    ///
    /// A claimed position other than the count of chunks already received
    /// is a protocol violation: the message is rejected with `SequenceGap`
    /// and nothing changes. A batch that would push the chunk count past
    /// its counter is rejected with `CapacityExceeded`.
    pub fn on_request(&mut self, start_index: u64, req: &Request) -> (r: Result<
        u64,
        TransportError,
    >)
        requires
            req.wf(),
        ensures
            start_index != old(self).spec_chunks_received() ==> (r matches Err(e)
                && e == TransportError::SequenceGap
                && *final(self) == *old(self)),
            start_index == old(self).spec_chunks_received()
                && old(self).spec_chunks_received() + req.spec_queue().len() > u64::MAX ==> (
            r matches Err(e)
                && e == TransportError::CapacityExceeded
                && *final(self) == *old(self)),
            start_index == old(self).spec_chunks_received()
                && old(self).spec_chunks_received() + req.spec_queue().len() <= u64::MAX ==> (
            r matches Ok(ack)
                && final(self).spec_chunks_received() == old(self).spec_chunks_received()
                    + req.spec_queue().len()
                && ack == final(self).spec_chunks_received()
                && final(self).spec_assembled() == old(self).spec_assembled().add(
                    concat_of(views_of(req.spec_queue())),
                )),
    {
        if start_index != self.chunks_received {
            return Err(TransportError::SequenceGap);
        }
        let chunks = req.chunks();
        let count = chunks.len();
        if count as u64 > u64::MAX - self.chunks_received {
            return Err(TransportError::CapacityExceeded);
        }
        let ghost base = self.assembled@;
        let mut i: usize = 0;
        proof {
            assert(views_of(chunks@.subrange(0, 0)) =~= Seq::<Seq<u8>>::empty());
            assert(self.assembled@ =~= base.add(concat_of(views_of(chunks@.subrange(0, 0)))));
        }
        while i < count
            invariant
                i <= chunks@.len(),
                count == chunks@.len(),
                self.assembled@ == base.add(concat_of(views_of(chunks@.subrange(0, i as int)))),
                self.chunks_received == old(self).chunks_received,
                chunks@ == req.spec_queue(),
            decreases chunks@.len() - i,
        {
            let bytes = chunks[i].as_bytes();
            let ghost mid = self.assembled@;
            let mut j: usize = 0;
            while j < bytes.len()
                invariant
                    j <= bytes@.len(),
                    self.assembled@ == mid.add(bytes@.subrange(0, j as int)),
                    self.chunks_received == old(self).chunks_received,
                decreases bytes@.len() - j,
            {
                self.assembled.push(bytes[j]);
                j += 1;
                proof {
                    assert(self.assembled@ =~= mid.add(bytes@.subrange(0, j as int)));
                }
            }
            i += 1;
            proof {
                assert(bytes@.subrange(0, bytes@.len() as int) =~= bytes@);
                assert(views_of(chunks@.subrange(0, i as int))
                    =~= views_of(chunks@.subrange(0, i - 1)).push(chunks@[i - 1]@));
                lemma_concat_push(views_of(chunks@.subrange(0, i - 1)), chunks@[i - 1]@);
                assert(self.assembled@ =~= base.add(
                    concat_of(views_of(chunks@.subrange(0, i as int))),
                ));
            }
        }
        proof {
            assert(chunks@.subrange(0, chunks@.len() as int) =~= chunks@);
        }
        self.chunks_received = self.chunks_received + count as u64;
        Ok(self.chunks_received)
    }

    /// Borrows the bytes reassembled so far.
    pub fn payload(&self) -> (r: &Vec<u8>)
        ensures
            r@ == self.spec_assembled(),
    {
        &self.assembled
    }

    /// The highest contiguous chunk index received so far.
    pub fn chunks_received(&self) -> (n: u64)
        ensures
            n == self.spec_chunks_received(),
    {
        self.chunks_received
    }

    /// Hands the fully reassembled payload over, consuming the receiver.
    pub fn into_payload(self) -> (r: Vec<u8>)
        ensures
            r@ == self.spec_assembled(),
    {
        self.assembled
    }
}

} // verus!
