use vstd::prelude::*;

use crate::chunk::ChunkBuffer;
use crate::chunk::CHUNK_CAPACITY;

verus! {

/// The chunking of `data`: full `CHUNK_CAPACITY`-byte pieces, then the
/// shorter remainder if any. An empty stream yields no chunks.
pub open spec fn chunks_of(data: Seq<u8>) -> Seq<Seq<u8>>
    decreases data.len(),
{
    if data.len() == 0 {
        seq![]
    } else if data.len() <= CHUNK_CAPACITY {
        seq![data]
    } else {
        seq![data.subrange(0, CHUNK_CAPACITY as int)].add(
            chunks_of(data.subrange(CHUNK_CAPACITY as int, data.len() as int)),
        )
    }
}

/// The concatenation of a sequence of byte sequences, in order.
pub open spec fn concat_of(chunks: Seq<Seq<u8>>) -> Seq<u8>
    decreases chunks.len(),
{
    if chunks.len() == 0 {
        seq![]
    } else {
        chunks[0].add(concat_of(chunks.subrange(1, chunks.len() as int)))
    }
}

/// The views of a sequence of chunks.
pub open spec fn views_of(chunks: Seq<ChunkBuffer>) -> Seq<Seq<u8>> {
    chunks.map_values(|c: ChunkBuffer| c@)
}

/// Chunk round-trip: splitting any byte sequence into capacity-sized chunks
/// and concatenating the chunks back in order reproduces the original bytes.
pub proof fn lemma_chunk_round_trip(data: Seq<u8>)
    ensures
        concat_of(chunks_of(data)) == data,
    decreases data.len(),
{
    if data.len() == 0 {
        assert(concat_of(chunks_of(data)) =~= data);
    } else if data.len() <= CHUNK_CAPACITY {
        let cs = chunks_of(data);
        assert(cs.len() == 1);
        assert(cs[0] == data);
        let rest = cs.subrange(1, 1);
        assert(rest.len() == 0);
        assert(concat_of(rest) =~= Seq::<u8>::empty());
        assert(concat_of(cs) == cs[0].add(concat_of(rest)));
        assert(concat_of(cs) =~= data);
    } else {
        let head = data.subrange(0, CHUNK_CAPACITY as int);
        let tail = data.subrange(CHUNK_CAPACITY as int, data.len() as int);
        lemma_chunk_round_trip(tail);
        assert(chunks_of(data).subrange(1, chunks_of(data).len() as int) =~= chunks_of(tail));
        assert(chunks_of(data)[0] =~= head);
        assert(concat_of(chunks_of(data)) =~= head.add(tail));
        assert(head.add(tail) =~= data);
    }
}

/// Concatenation distributes over appending one more chunk at the end.
pub proof fn lemma_concat_push(chunks: Seq<Seq<u8>>, last: Seq<u8>)
    ensures
        concat_of(chunks.push(last)) == concat_of(chunks).add(last),
    decreases chunks.len(),
{
    if chunks.len() == 0 {
        let cs = chunks.push(last);
        assert(cs.len() == 1);
        assert(cs[0] == last);
        let rest = cs.subrange(1, 1);
        assert(rest.len() == 0);
        assert(concat_of(rest) =~= Seq::<u8>::empty());
        assert(concat_of(cs) == cs[0].add(concat_of(rest)));
        assert(concat_of(chunks) =~= Seq::<u8>::empty());
        assert(concat_of(cs) =~= concat_of(chunks).add(last));
    } else {
        let rest = chunks.subrange(1, chunks.len() as int);
        lemma_concat_push(rest, last);
        assert(chunks.push(last).subrange(1, chunks.push(last).len() as int) =~= rest.push(last));
        assert(concat_of(chunks.push(last)) =~= concat_of(chunks).add(last));
    }
}

/// Splits `data` into chunks of at most `CHUNK_CAPACITY` bytes, in order:
/// the executable side of `chunks_of`.
pub fn split_into_chunks(data: &Vec<u8>) -> (r: Vec<ChunkBuffer>)
    ensures
        views_of(r@) == chunks_of(data@),
        forall|i: int| 0 <= i < r@.len() ==> #[trigger] r@[i].wf(),
{
    let mut out: Vec<ChunkBuffer> = Vec::new();
    let mut i: usize = 0;
    proof {
        assert(views_of(out@).add(chunks_of(data@.subrange(0, data@.len() as int)))
            =~= chunks_of(data@.subrange(0, data@.len() as int)));
        assert(data@.subrange(0, data@.len() as int) =~= data@);
    }
    while i < data.len()
        invariant
            i <= data@.len(),
            views_of(out@).add(chunks_of(data@.subrange(i as int, data@.len() as int)))
                == chunks_of(data@),
            forall|k: int| 0 <= k < out@.len() ==> #[trigger] out@[k].wf(),
        decreases data@.len() - i,
    {
        let remaining = data.len() - i;
        let step = if remaining < CHUNK_CAPACITY {
            remaining
        } else {
            CHUNK_CAPACITY
        };
        let ghost rest = data@.subrange(i as int, data@.len() as int);
        let mut piece: Vec<u8> = Vec::new();
        let mut j: usize = 0;
        while j < step
            invariant
                j <= step,
                step <= data@.len() - i,
                i <= data@.len(),
                data@.len() <= usize::MAX,
                piece@ == data@.subrange(i as int, i as int + j),
            decreases step - j,
        {
            piece.push(data[i + j]);
            j += 1;
            proof {
                assert(piece@ =~= data@.subrange(i as int, i as int + j));
            }
        }
        proof {
            assert(piece@ =~= rest.subrange(0, step as int));
            if rest.len() <= CHUNK_CAPACITY {
                assert(piece@ =~= rest);
                assert(chunks_of(rest) =~= seq![piece@]);
            } else {
                assert(rest.subrange(CHUNK_CAPACITY as int, rest.len() as int)
                    =~= data@.subrange(i as int + step, data@.len() as int));
            }
        }
        let ghost out0 = out@;
        let ghost pv = piece@;
        let chunk = ChunkBuffer::from_vec(piece);
        out.push(chunk);
        i += step;
        proof {
            let ghost rest2 = data@.subrange(i as int, data@.len() as int);
            assert(views_of(out@) =~= views_of(out0).push(pv));
            if rest.len() <= CHUNK_CAPACITY {
                assert(rest2.len() == 0);
                assert(chunks_of(rest2) =~= Seq::<Seq<u8>>::empty());
                assert(views_of(out@).add(chunks_of(rest2))
                    =~= views_of(out0).add(chunks_of(rest)));
            } else {
                assert(chunks_of(rest) =~= seq![pv].add(chunks_of(rest2)));
                assert(views_of(out@).add(chunks_of(rest2))
                    =~= views_of(out0).add(chunks_of(rest)));
            }
        }
    }
    proof {
        assert(chunks_of(data@.subrange(data@.len() as int, data@.len() as int))
            =~= Seq::<Seq<u8>>::empty());
        assert(views_of(out@) =~= chunks_of(data@));
    }
    out
}

/// Concatenates the chunks' bytes back into one buffer, in delivery order:
/// the executable side of `concat_of`.
pub fn reassemble(chunks: &Vec<ChunkBuffer>) -> (r: Vec<u8>)
    ensures
        r@ == concat_of(views_of(chunks@)),
{
    let mut out: Vec<u8> = Vec::new();
    let mut i: usize = 0;
    proof {
        assert(views_of(chunks@.subrange(0, 0)) =~= Seq::<Seq<u8>>::empty());
        assert(out@ =~= concat_of(views_of(chunks@.subrange(0, 0))));
    }
    while i < chunks.len()
        invariant
            i <= chunks@.len(),
            out@ == concat_of(views_of(chunks@.subrange(0, i as int))),
        decreases chunks@.len() - i,
    {
        let bytes = chunks[i].as_bytes();
        let ghost base = out@;
        let mut j: usize = 0;
        while j < bytes.len()
            invariant
                j <= bytes@.len(),
                out@ == base.add(bytes@.subrange(0, j as int)),
            decreases bytes@.len() - j,
        {
            out.push(bytes[j]);
            j += 1;
            proof {
                assert(out@ =~= base.add(bytes@.subrange(0, j as int)));
            }
        }
        i += 1;
        proof {
            assert(bytes@.subrange(0, bytes@.len() as int) =~= bytes@);
            assert(views_of(chunks@.subrange(0, i as int))
                =~= views_of(chunks@.subrange(0, i - 1)).push(chunks@[i - 1]@));
            lemma_concat_push(views_of(chunks@.subrange(0, i - 1)), chunks@[i - 1]@);
            assert(out@ =~= concat_of(views_of(chunks@.subrange(0, i as int))));
        }
    }
    proof {
        assert(chunks@.subrange(0, chunks@.len() as int) =~= chunks@);
    }
    out
}

} // verus!
