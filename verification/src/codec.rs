//! Framing codec for the encrypted stream: payloads larger than one chunk
//! are cut into `CHUNK_SIZE`-byte chunks (the last one may be shorter) and
//! carried as successive stream writes; a receiver answers every chunk it
//! has read in full with a fixed 4-byte acknowledgment token.

use vstd::prelude::*;
use vstd::math::min;
use vstd::seq_lib::*;
use vstd::slice::{slice_subrange, slice_to_vec};

verus! {

use crate::CHUNK_SIZE;

/// The number of chunks a payload of `len` bytes occupies on the stream:
/// one chunk for anything not longer than `CHUNK_SIZE` (the empty payload
/// included), else one full chunk plus however many the rest takes. The
/// receiver writes exactly this many acknowledgment tokens.
pub open spec fn spec_chunk_count(len: nat) -> nat
    decreases len,
{
    if len <= CHUNK_SIZE {
        1
    } else {
        1 + spec_chunk_count((len - CHUNK_SIZE) as nat)
    }
}

/// The `i`-th chunk of a payload: bytes `CHUNK_SIZE * i` up to either the
/// next chunk boundary or the end of the payload, whichever comes first.
pub open spec fn spec_chunk_at(data: Seq<u8>, i: int) -> Seq<u8> {
    data.subrange(CHUNK_SIZE * i, min(CHUNK_SIZE * (i + 1), data.len() as int))
}

/// The byte length of the `i`-th chunk of a payload of `len` bytes.
pub open spec fn spec_chunk_len(len: nat, i: int) -> int {
    min(CHUNK_SIZE as int, len - CHUNK_SIZE * i)
}

/// The chunk count is the length divided by `CHUNK_SIZE`, rounded up, with
/// the empty payload counted as one (empty) chunk.
pub proof fn lemma_chunk_count_is_ceil(len: nat)
    ensures
        len == 0 ==> spec_chunk_count(len) == 1,
        len > 0 ==> spec_chunk_count(len) == (len + CHUNK_SIZE - 1) / (CHUNK_SIZE as int),
    decreases len,
{
    if len > CHUNK_SIZE {
        lemma_chunk_count_is_ceil((len - CHUNK_SIZE) as nat);
        assert((len + CHUNK_SIZE - 1) / (CHUNK_SIZE as int) == (len - 1) / (CHUNK_SIZE as int)
            + 1) by (nonlinear_arith);
        assert(((len - CHUNK_SIZE) + CHUNK_SIZE - 1) / (CHUNK_SIZE as int) == (len - 1) / (
        CHUNK_SIZE as int));
    } else if len > 0 {
        assert((len + CHUNK_SIZE - 1) / (CHUNK_SIZE as int) == 1) by (nonlinear_arith)
            requires
                0 < len <= CHUNK_SIZE,
        ;
    }
}

/// Every chunk but the last starts strictly inside the payload, and the
/// chunks together cover it: the payload ends within the last chunk.
pub proof fn lemma_chunk_count_bounds(len: nat)
    ensures
        len > 0 ==> CHUNK_SIZE * (spec_chunk_count(len) - 1) < len,
        len <= CHUNK_SIZE * spec_chunk_count(len),
    decreases len,
{
    if len > CHUNK_SIZE {
        lemma_chunk_count_bounds((len - CHUNK_SIZE) as nat);
    }
}

/// Splits a payload into the chunks written on the stream, in order: the
/// whole payload in one write if it is not longer than `CHUNK_SIZE`, else
/// successive `CHUNK_SIZE`-byte slices with the remainder last.
pub fn split_into_chunks(data: &[u8]) -> (r: Vec<Vec<u8>>)
    ensures
        r@.len() == spec_chunk_count(data@.len()),
        forall|i: int| 0 <= i < r@.len() ==> #[trigger] r@[i]@ == spec_chunk_at(data@, i),
{
    let total: usize = data.len();
    let mut out: Vec<Vec<u8>> = Vec::new();
    let mut offset: usize = 0;
    while total - offset > CHUNK_SIZE
        invariant
            offset <= total,
            total == data@.len(),
            offset == CHUNK_SIZE * out@.len(),
            spec_chunk_count(data@.len()) == out@.len() + spec_chunk_count((total - offset) as nat),
            forall|i: int| 0 <= i < out@.len() ==> #[trigger] out@[i]@ == spec_chunk_at(data@, i),
        decreases total - offset,
    {
        let piece = slice_to_vec(slice_subrange(data, offset, offset + CHUNK_SIZE));
        proof {
            let rem = (total - offset) as nat;
            assert(spec_chunk_count(rem) == 1 + spec_chunk_count((rem - CHUNK_SIZE) as nat));
            assert(data@.subrange(offset as int, offset + CHUNK_SIZE) =~= spec_chunk_at(
                data@,
                out@.len() as int,
            ));
        }
        out.push(piece);
        offset = offset + CHUNK_SIZE;
    }
    let last = slice_to_vec(slice_subrange(data, offset, total));
    proof {
        assert(spec_chunk_count((total - offset) as nat) == 1);
        assert(data@.subrange(offset as int, total as int) =~= spec_chunk_at(
            data@,
            out@.len() as int,
        ));
    }
    out.push(last);
    out
}

/// The lengths of the successive reads a receiver makes for a payload of
/// `total` bytes: `CHUNK_SIZE` for every chunk but possibly the last, which
/// takes the remainder. One acknowledgment token is owed per entry.
pub fn recv_chunk_sizes(total: usize) -> (r: Vec<usize>)
    ensures
        r@.len() == spec_chunk_count(total as nat),
        forall|i: int| 0 <= i < r@.len() ==> #[trigger] r@[i] == spec_chunk_len(total as nat, i),
{
    let mut out: Vec<usize> = Vec::new();
    let mut remaining: usize = total;
    while remaining > CHUNK_SIZE
        invariant
            remaining <= total,
            total - remaining == CHUNK_SIZE * out@.len(),
            spec_chunk_count(total as nat) == out@.len() + spec_chunk_count(remaining as nat),
            forall|i: int| 0 <= i < out@.len() ==> #[trigger] out@[i] == spec_chunk_len(
                total as nat,
                i,
            ),
        decreases remaining,
    {
        proof {
            let rem = remaining as nat;
            assert(spec_chunk_count(rem) == 1 + spec_chunk_count((rem - CHUNK_SIZE) as nat));
            assert(spec_chunk_len(total as nat, out@.len() as int) == CHUNK_SIZE as int);
        }
        out.push(CHUNK_SIZE);
        remaining = remaining - CHUNK_SIZE;
    }
    proof {
        assert(spec_chunk_count(remaining as nat) == 1);
        assert(spec_chunk_len(total as nat, out@.len() as int) == remaining as int);
    }
    out.push(remaining);
    out
}

/// The fixed 4-byte acknowledgment token written back after each chunk a
/// receiver has read in full.
pub open spec fn spec_ack_token() -> Seq<u8> {
    seq![1u8, 1u8, 1u8, 1u8]
}

/// Builds the acknowledgment token.
pub fn ack_token() -> (r: Vec<u8>)
    ensures
        r@ == spec_ack_token(),
{
    let out: Vec<u8> = vec![1u8, 1u8, 1u8, 1u8];
    proof {
        assert(out@ =~= spec_ack_token());
    }
    out
}

/// Concatenates received chunks back into one payload, the inverse of
/// splitting.
pub fn assemble_chunks(chunks: &Vec<Vec<u8>>) -> (r: Vec<u8>)
    ensures
        r@ == chunks@.map_values(|c: Vec<u8>| c@).flatten(),
{
    let mut out: Vec<u8> = Vec::new();
    let mut idx: usize = 0;
    proof {
        assert(chunks@.take(0).map_values(|c: Vec<u8>| c@) =~= Seq::<Seq<u8>>::empty());
        Seq::<Seq<u8>>::empty().lemma_flatten_one_element();
        assert(Seq::<Seq<u8>>::empty().flatten() =~= Seq::<u8>::empty());
    }
    while idx < chunks.len()
        invariant
            idx <= chunks@.len(),
            out@ == chunks@.take(idx as int).map_values(|c: Vec<u8>| c@).flatten(),
        decreases chunks@.len() - idx,
    {
        let mut piece = slice_to_vec(chunks[idx].as_slice());
        proof {
            let prefix = chunks@.take(idx as int).map_values(|c: Vec<u8>| c@);
            let elem = chunks@[idx as int]@;
            assert(chunks@.take(idx + 1).map_values(|c: Vec<u8>| c@) =~= prefix.push(elem));
            prefix.lemma_flatten_push(elem);
        }
        out.append(&mut piece);
        idx = idx + 1;
    }
    proof {
        assert(chunks@.take(chunks@.len() as int) =~= chunks@);
    }
    out
}

/// Chunk round trip: any chunk sequence with the count and per-index
/// contents that splitting produces concatenates back to the original
/// payload. Splitting loses nothing and invents nothing.
pub proof fn lemma_chunks_reassemble(chunks: Seq<Seq<u8>>, data: Seq<u8>)
    requires
        chunks.len() == spec_chunk_count(data.len()),
        forall|i: int| 0 <= i < chunks.len() ==> #[trigger] chunks[i] == spec_chunk_at(data, i),
    ensures
        chunks.flatten() == data,
    decreases data.len(),
{
    if data.len() <= CHUNK_SIZE {
        assert(chunks.len() == 1);
        assert(chunks[0] == spec_chunk_at(data, 0));
        assert(spec_chunk_at(data, 0) =~= data);
        chunks.lemma_flatten_one_element();
        assert(chunks.flatten() == data);
    } else {
        let tail = chunks.drop_first();
        let rest = data.skip(CHUNK_SIZE as int);
        assert(spec_chunk_count(data.len()) == 1 + spec_chunk_count(rest.len() as nat));
        lemma_chunk_count_bounds(rest.len() as nat);
        assert forall|i: int| 0 <= i < tail.len() implies #[trigger] tail[i] == spec_chunk_at(
            rest,
            i,
        ) by {
            assert(chunks[i + 1] == spec_chunk_at(data, i + 1));
            assert(CHUNK_SIZE * i < rest.len()) by {
                assert(i <= spec_chunk_count(rest.len() as nat) - 1);
                assert(CHUNK_SIZE * i <= CHUNK_SIZE * (spec_chunk_count(rest.len() as nat) - 1))
                    by (nonlinear_arith)
                    requires
                        i <= spec_chunk_count(rest.len() as nat) - 1,
                ;
            }
            assert(spec_chunk_at(data, i + 1) =~= spec_chunk_at(rest, i));
        }
        lemma_chunks_reassemble(tail, rest);
        assert(chunks.first() == spec_chunk_at(data, 0));
        assert(spec_chunk_at(data, 0) =~= data.take(CHUNK_SIZE as int));
        assert(chunks.flatten() == chunks.first() + tail.flatten());
        assert(data.take(CHUNK_SIZE as int) + rest =~= data);
    }
}

} // verus!
