use vstd::prelude::*;

use crate::errors::TransportError;

verus! {

/// Maximum number of payload bytes one chunk may carry.
pub const CHUNK_CAPACITY: usize = 1024;

/// Fixed-capacity byte chunk: the atomic unit of streamed payload.
///
/// Immutable once constructed for transport purposes; bytes beyond the
/// logical length do not exist in this model.
pub struct ChunkBuffer {
    bytes: Vec<u8>,
}

impl View for ChunkBuffer {
    type V = Seq<u8>;

    closed spec fn view(&self) -> Seq<u8> {
        self.bytes@
    }
}

impl ChunkBuffer {
    /// A chunk is well formed when its logical length stays within capacity.
    pub open spec fn wf(&self) -> bool {
        self@.len() <= CHUNK_CAPACITY
    }

    /// Copies the first `len` bytes of `bytes` into a fresh chunk.
    ///
    /// Rejects a slice longer than `CHUNK_CAPACITY` outright: on failure no
    /// chunk exists, so no partial write can be observed.
    pub fn from_slice(bytes: &[u8], len: usize) -> (r: Result<ChunkBuffer, TransportError>)
        requires
            len <= bytes@.len(),
        ensures
            len <= CHUNK_CAPACITY ==> (r matches Ok(c) && c@ == bytes@.subrange(0, len as int)),
            len > CHUNK_CAPACITY ==> (r matches Err(e) && e == TransportError::CapacityExceeded),
    {
        if len > CHUNK_CAPACITY {
            return Err(TransportError::CapacityExceeded);
        }
        let mut v: Vec<u8> = Vec::new();
        let mut i: usize = 0;
        while i < len
            invariant
                i <= len,
                len <= bytes@.len(),
                v@ == bytes@.subrange(0, i as int),
            decreases len - i,
        {
            v.push(bytes[i]);
            i += 1;
            proof {
                assert(v@ =~= bytes@.subrange(0, i as int));
            }
        }
        Ok(ChunkBuffer { bytes: v })
    }

    /// Wraps bytes already known to fit the capacity; the crate's chunking
    /// code builds its pieces this way.
    pub(crate) fn from_vec(bytes: Vec<u8>) -> (r: ChunkBuffer)
        requires
            bytes@.len() <= CHUNK_CAPACITY,
        ensures
            r@ == bytes@,
            r.wf(),
    {
        ChunkBuffer { bytes }
    }

    /// The logical length of the chunk.
    pub fn len(&self) -> (n: usize)
        ensures
            n == self@.len(),
    {
        self.bytes.len()
    }

    /// The payload bytes of the chunk.
    pub fn as_bytes(&self) -> (r: &Vec<u8>)
        ensures
            r@ == self@,
    {
        &self.bytes
    }
}

} // verus!
