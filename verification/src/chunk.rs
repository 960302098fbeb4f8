//! Chunked handoff: a written file's bytes split into fixed-size chunks,
//! delivered in original order, so that the chunks concatenated in delivery
//! order reconstruct the file exactly.

use vstd::prelude::*;
use vstd::seq_lib::lemma_flatten_concat;

verus! {

/// The fixed chunk size of the upload stream, in bytes, independent of the
/// file's size.
pub const CHUNK_SIZE: usize = 1024;

/// The bound on in-flight chunks between the file reader and the
/// transport: a slow consumer holds the reader back instead of letting
/// chunks pile up.
pub const CHUNK_QUEUE_CAPACITY: usize = 4;

/// The chunks a byte sequence splits into: full `size`-byte chunks in
/// order, then one final shorter chunk holding the remainder, if any. A
/// non-positive size yields no chunks.
pub open spec fn chunks_spec(data: Seq<u8>, size: int) -> Seq<Seq<u8>>
    decreases data.len(),
{
    if size < 1 {
        Seq::empty()
    } else if data.len() == 0 {
        Seq::empty()
    } else if data.len() <= size {
        seq![data]
    } else {
        seq![data.take(size)] + chunks_spec(data.skip(size), size)
    }
}

/// Chunk-order invariant: the chunks of a byte sequence, concatenated in
/// delivery order, are exactly the original bytes.
pub proof fn lemma_chunks_reconstruct(data: Seq<u8>, size: int)
    requires
        size >= 1,
    ensures
        chunks_spec(data, size).flatten() == data,
    decreases data.len(),
{
    if data.len() == 0 {
        assert(chunks_spec(data, size).flatten() =~= data);
    } else if data.len() <= size {
        let one = seq![data];
        one.lemma_flatten_one_element();
        assert(one.flatten() =~= data);
    } else {
        lemma_chunks_reconstruct(data.skip(size), size);
        lemma_flatten_concat(seq![data.take(size)], chunks_spec(data.skip(size), size));
        seq![data.take(size)].lemma_flatten_one_element();
        assert(seq![data.take(size)].flatten() =~= data.take(size));
        assert(data.take(size) + data.skip(size) =~= data);
        assert(chunks_spec(data, size).flatten() =~= data);
    }
}

/// The shape of the split: every chunk before the last is exactly `size`
/// bytes, the last is between 1 and `size` bytes, and together they hold
/// every byte.
pub proof fn lemma_chunks_shape(data: Seq<u8>, size: int)
    requires
        size >= 1,
    ensures
        data.len() == 0 ==> chunks_spec(data, size).len() == 0,
        data.len() > 0 ==> chunks_spec(data, size).len() == (data.len() + size - 1) / size,
        forall|i: int|
            0 <= i < chunks_spec(data, size).len() - 1 ==> (#[trigger] chunks_spec(data, size)[i]).len()
                == size,
        chunks_spec(data, size).len() > 0 ==> {
            let last = chunks_spec(data, size).last();
            1 <= last.len() <= size
        },
    decreases data.len(),
{
    let cs = chunks_spec(data, size);
    if data.len() == 0 {
    } else if data.len() <= size {
        assert(cs.len() == 1);
        assert((data.len() + size - 1) / size == 1) by {
            vstd::arithmetic::div_mod::lemma_basic_div_specific_divisor(size);
            vstd::arithmetic::div_mod::lemma_div_plus_one(data.len() - 1, size);
            assert((data.len() - 1) / size == 0);
        }
    } else {
        lemma_chunks_shape(data.skip(size), size);
        let rest = chunks_spec(data.skip(size), size);
        assert(cs == seq![data.take(size)] + rest);
        assert(cs.len() == 1 + rest.len());
        assert(data.skip(size).len() == data.len() - size);
        assert((data.len() + size - 1) / size == 1 + (data.len() - size + size - 1) / size) by {
            vstd::arithmetic::div_mod::lemma_div_plus_one(data.len() - 1, size);
        }
        assert forall|i: int| 0 <= i < cs.len() - 1 implies (#[trigger] cs[i]).len() == size by {
            if i > 0 {
                assert(cs[i] == rest[i - 1]);
            }
        }
        assert(cs.last() == rest.last());
    }
}

/// The spec-level image of a chunk list.
pub open spec fn chunks_view(cs: Seq<Vec<u8>>) -> Seq<Seq<u8>> {
    cs.map_values(|c: Vec<u8>| c@)
}

/// Splits a byte buffer into upload chunks: full `size`-byte chunks in
/// original byte order, then the remainder as one final shorter chunk.
pub fn chunk_bytes(data: &Vec<u8>, size: usize) -> (r: Vec<Vec<u8>>)
    requires
        size >= 1,
    ensures
        chunks_view(r@) == chunks_spec(data@, size as int),
{
    let mut r: Vec<Vec<u8>> = Vec::new();
    let mut pos: usize = 0;
    proof {
        assert(data@.skip(0) =~= data@);
        assert(chunks_view(r@) + chunks_spec(data@, size as int) =~= chunks_spec(
            data@,
            size as int,
        ));
    }
    while pos < data.len()
        invariant
            0 <= pos <= data.len(),
            size >= 1,
            chunks_spec(data@, size as int) == chunks_view(r@) + chunks_spec(
                data@.skip(pos as int),
                size as int,
            ),
        decreases data.len() - pos,
    {
        let remaining = data.len() - pos;
        let end = if remaining > size {
            pos + size
        } else {
            data.len()
        };
        let mut chunk: Vec<u8> = Vec::new();
        let mut k: usize = pos;
        while k < end
            invariant
                pos <= k <= end <= data.len(),
                chunk@.len() == k - pos,
                chunk@ == data@.subrange(pos as int, k as int),
            decreases end - k,
        {
            chunk.push(data[k]);
            proof {
                assert(chunk@ =~= data@.subrange(pos as int, k as int + 1));
            }
            k = k + 1;
        }
        let ghost prev = chunks_view(r@);
        r.push(chunk);
        proof {
            assert(chunks_view(r@) =~= prev + seq![data@.subrange(pos as int, end as int)]);
            let tail = data@.skip(pos as int);
            if end < data.len() {
                assert(tail.take(size as int) =~= data@.subrange(pos as int, end as int));
                assert(tail.skip(size as int) =~= data@.skip(end as int));
                assert(chunks_spec(tail, size as int) == seq![
                    data@.subrange(pos as int, end as int),
                ] + chunks_spec(data@.skip(end as int), size as int));
            } else {
                assert(tail =~= data@.subrange(pos as int, end as int));
                assert(chunks_spec(tail, size as int) == seq![
                    data@.subrange(pos as int, end as int),
                ]);
                assert(data@.skip(end as int).len() == 0);
                assert(chunks_spec(data@.skip(end as int), size as int) =~= Seq::<
                    Seq<u8>,
                >::empty());
            }
            assert(chunks_view(r@) + chunks_spec(data@.skip(end as int), size as int) =~= prev + (
            seq![data@.subrange(pos as int, end as int)] + chunks_spec(
                data@.skip(end as int),
                size as int,
            )));
        }
        pos = end;
    }
    proof {
        assert(data@.skip(pos as int).len() == 0);
        assert(chunks_view(r@) + chunks_spec(data@.skip(pos as int), size as int) =~= chunks_view(
            r@,
        ));
    }
    r
}

} // verus!
