use vstd::prelude::*;

use crate::ack::QUEUE_CAPACITY;
use crate::chunk::ChunkBuffer;
use crate::chunk::CHUNK_CAPACITY;
use crate::errors::TransportError;

verus! {

/// One streamed message: an integer tag identifying the payload encoding
/// and a bounded, ordered batch of chunks.
pub struct Request {
    codec: u64,
    payload_queue: Vec<ChunkBuffer>,
}

impl Request {
    /// The tag identifying the payload encoding.
    pub closed spec fn spec_codec(&self) -> u64 {
        self.codec
    }

    /// The views of the queued chunks, in order.
    pub closed spec fn spec_queue(&self) -> Seq<ChunkBuffer> {
        self.payload_queue@
    }

    /// The tag identifying the payload encoding.
    pub fn codec(&self) -> (c: u64)
        ensures
            c == self.spec_codec(),
    {
        self.codec
    }

    /// A request is well formed when its queue respects the hard capacity
    /// constraint and every queued chunk respects its own.
    pub open spec fn wf(&self) -> bool {
        &&& self.spec_queue().len() <= QUEUE_CAPACITY
        &&& forall|i: int| 0 <= i < self.spec_queue().len() ==> #[trigger] self.spec_queue()[i].wf()
    }

    /// An empty request for the given encoding.
    pub fn new(codec: u64) -> (r: Request)
        ensures
            r.wf(),
            r.spec_codec() == codec,
            r.spec_queue().len() == 0,
    {
        Request { codec, payload_queue: Vec::new() }
    }

    /// The number of queued chunks.
    pub fn queue_len(&self) -> (n: usize)
        ensures
            n == self.spec_queue().len(),
    {
        self.payload_queue.len()
    }

    /// Appends one chunk, refusing to exceed the queue capacity.
    pub fn push_chunk(&mut self, chunk: ChunkBuffer) -> (r: Result<(), TransportError>)
        requires
            old(self).wf(),
            chunk.wf(),
        ensures
            final(self).wf(),
            final(self).spec_codec() == old(self).spec_codec(),
            old(self).spec_queue().len() < QUEUE_CAPACITY ==> (r matches Ok(())
                && final(self).spec_queue() == old(self).spec_queue().push(chunk)),
            old(self).spec_queue().len() == QUEUE_CAPACITY ==> (r matches Err(e)
                && e == TransportError::CapacityExceeded
                && final(self).spec_queue() == old(self).spec_queue()),
    {
        if self.payload_queue.len() >= QUEUE_CAPACITY {
            return Err(TransportError::CapacityExceeded);
        }
        self.payload_queue.push(chunk);
        Ok(())
    }

    /// Hands the queued chunks over for reassembly, in order.
    pub fn into_chunks(self) -> (r: Vec<ChunkBuffer>)
        ensures
            r@ == self.spec_queue(),
    {
        self.payload_queue
    }

    /// Borrows the queued chunks, in order.
    pub fn chunks(&self) -> (r: &Vec<ChunkBuffer>)
        ensures
            r@ == self.spec_queue(),
    {
        &self.payload_queue
    }
}

/// An in-memory payload source that the sender drains chunk by chunk; the
/// position marks how many bytes were already handed out.
pub struct PayloadReader {
    data: Vec<u8>,
    pos: usize,
}

impl PayloadReader {
    /// The whole payload this reader serves.
    pub closed spec fn spec_data(&self) -> Seq<u8> {
        self.data@
    }

    /// How many bytes were already handed out.
    pub closed spec fn spec_pos(&self) -> nat {
        self.pos as nat
    }

    /// The position never runs past the payload.
    pub open spec fn wf(&self) -> bool {
        self.spec_pos() <= self.spec_data().len()
    }

    /// A reader positioned at the start of `data`.
    pub fn new(data: Vec<u8>) -> (r: PayloadReader)
        ensures
            r.wf(),
            r.spec_data() == data@,
            r.spec_pos() == 0,
    {
        PayloadReader { data, pos: 0 }
    }

    /// How many bytes are still unread.
    pub fn remaining(&self) -> (n: usize)
        requires
            self.wf(),
        ensures
            n == self.spec_data().len() - self.spec_pos(),
    {
        self.data.len() - self.pos
    }

    /// Reads the next chunk of up to `CHUNK_CAPACITY` bytes, or reports the
    /// end of the stream with `None` and no movement.
    pub fn read_chunk(&mut self) -> (r: Option<ChunkBuffer>)
        requires
            old(self).wf(),
        ensures
            final(self).wf(),
            final(self).spec_data() == old(self).spec_data(),
            old(self).spec_pos() == old(self).spec_data().len() ==> (r is None
                && final(self).spec_pos() == old(self).spec_pos()),
            old(self).spec_pos() < old(self).spec_data().len() ==> (r matches Some(c)
                && c.wf()
                && c@.len() > 0
                && final(self).spec_pos() == old(self).spec_pos() + c@.len()
                && c@ == old(self).spec_data().subrange(
                    old(self).spec_pos() as int,
                    final(self).spec_pos() as int,
                )),
    {
        let remaining = self.data.len() - self.pos;
        if remaining == 0 {
            return None;
        }
        let step = if remaining < CHUNK_CAPACITY {
            remaining
        } else {
            CHUNK_CAPACITY
        };
        let mut piece: Vec<u8> = Vec::new();
        let mut j: usize = 0;
        while j < step
            invariant
                j <= step,
                self.pos + step <= self.data@.len(),
                self.data@.len() <= usize::MAX,
                piece@ == self.data@.subrange(self.pos as int, self.pos as int + j),
            decreases step - j,
        {
            piece.push(self.data[self.pos + j]);
            j += 1;
            proof {
                assert(piece@ =~= self.data@.subrange(self.pos as int, self.pos as int + j));
            }
        }
        let chunk = ChunkBuffer::from_vec(piece);
        self.pos = self.pos + step;
        Some(chunk)
    }
}

} // verus!
