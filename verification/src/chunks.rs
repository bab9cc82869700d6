//! Byte-chunk streams. A pty stream crosses the process as a sequence
//! of owned chunks; replay glues the chunks back into one byte string.

use vstd::prelude::*;

verus! {

/// The byte string that a sequence of chunks stands for: the chunks
/// concatenated in order.
pub open spec fn concat_chunks(chunks: Seq<Seq<u8>>) -> Seq<u8>
    decreases chunks.len(),
{
    if chunks.len() == 0 {
        Seq::empty()
    } else {
        concat_chunks(chunks.drop_last()) + chunks.last()
    }
}

/// Appending one chunk to a stream appends exactly its bytes.
pub proof fn lemma_concat_push(chunks: Seq<Seq<u8>>, c: Seq<u8>)
    ensures
        concat_chunks(chunks.push(c)) == concat_chunks(chunks) + c,
{
    assert(chunks.push(c).drop_last() =~= chunks);
    assert(chunks.push(c).last() == c);
}

/// Concatenation distributes over splitting a chunk sequence in two:
/// draining a FIFO in two batches yields the same bytes as draining
/// it in one.
pub proof fn lemma_concat_app(a: Seq<Seq<u8>>, b: Seq<Seq<u8>>)
    ensures
        concat_chunks(a + b) == concat_chunks(a) + concat_chunks(b),
    decreases b.len(),
{
    if b.len() == 0 {
        assert(a + b =~= a);
        assert(concat_chunks(a) + concat_chunks(b) =~= concat_chunks(a));
    } else {
        lemma_concat_app(a, b.drop_last());
        assert((a + b).drop_last() =~= a + b.drop_last());
        assert((a + b).last() == b.last());
        assert(concat_chunks(b) == concat_chunks(b.drop_last()) + b.last());
        assert(concat_chunks(a) + (concat_chunks(b.drop_last()) + b.last())
            =~= (concat_chunks(a) + concat_chunks(b.drop_last())) + b.last());
    }
}

/// Replay: concatenate recorded chunks into the byte string the
/// stream carried, in order and unchanged.
pub fn replay_bytes(chunks: &Vec<Vec<u8>>) -> (out: Vec<u8>)
    ensures
        out@ == concat_chunks(chunks@.map_values(|c: Vec<u8>| c@)),
{
    let ghost views = chunks@.map_values(|c: Vec<u8>| c@);
    let mut out: Vec<u8> = Vec::new();
    assert(views.take(0) =~= Seq::<Seq<u8>>::empty());
    let mut i: usize = 0;
    while i < chunks.len()
        invariant
            i <= chunks.len(),
            views == chunks@.map_values(|c: Vec<u8>| c@),
            out@ == concat_chunks(views.take(i as int)),
        decreases chunks.len() - i,
    {
        let chunk = &chunks[i];
        let mut j: usize = 0;
        while j < chunk.len()
            invariant
                j <= chunk.len(),
                i < chunks.len(),
                views == chunks@.map_values(|c: Vec<u8>| c@),
                chunk@ == views[i as int],
                out@ == concat_chunks(views.take(i as int)) + chunk@.take(j as int),
            decreases chunk.len() - j,
        {
            out.push(chunk[j]);
            j = j + 1;
        }
        proof {
            assert(chunk@.take(chunk@.len() as int) =~= chunk@);
            assert(views.take(i + 1) =~= views.take(i as int).push(views[i as int]));
            lemma_concat_push(views.take(i as int), views[i as int]);
        }
        i = i + 1;
    }
    proof {
        assert(views.take(views.len() as int) =~= views);
    }
    out
}

} // verus!
