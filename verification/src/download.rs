//! The streaming download path.
//!
//! A build's artifact arrives as successive byte chunks. The caller hands
//! each chunk, in arrival order, to a sink; the artifact is exactly the
//! concatenation of the chunks, and its size the sum of their lengths.

use vstd::prelude::*;

verus! {

/// Sum of the lengths of a sequence of byte chunks.
pub open spec fn spec_total_len(chunks: Seq<Seq<u8>>) -> int
    decreases chunks.len(),
{
    if chunks.len() == 0 {
        0
    } else {
        chunks.first().len() + spec_total_len(chunks.drop_first())
    }
}

/// The bytes a body delivered in chunks amounts to: every chunk, in
/// arrival order, nothing reordered, nothing dropped, and the total
/// length is the sum of the chunk lengths.
pub proof fn lemma_chunks_assemble(chunks: Seq<Seq<u8>>)
    ensures
        chunks.flatten().len() == spec_total_len(chunks),
    decreases chunks.len(),
{
    if chunks.len() > 0 {
        lemma_chunks_assemble(chunks.drop_first());
    }
}

/// An in-memory sink: it records every chunk handed to it, in arrival
/// order, and nothing else.
pub struct ChunkSink {
    pub chunks: Vec<Vec<u8>>,
}

impl ChunkSink {
    /// A sink that has received nothing yet.
    pub fn new() -> (s: ChunkSink)
        ensures
            s.chunks@.len() == 0,
    {
        ChunkSink { chunks: Vec::new() }
    }

    /// Receives the next chunk: it is appended after everything received
    /// before; earlier chunks are untouched.
    pub fn push_chunk(&mut self, chunk: Vec<u8>)
        ensures
            final(self).chunks.deep_view() == old(self).chunks.deep_view().push(chunk@),
    {
        let ghost before = self.chunks.deep_view();
        self.chunks.push(chunk);
        proof {
            assert(self.chunks.deep_view() =~~= before.push(chunk@));
        }
    }

    /// The bytes received so far, assembled in arrival order.
    pub fn assemble(&self) -> (r: Vec<u8>)
        ensures
            r@ == self.chunks.deep_view().flatten(),
            r@.len() == spec_total_len(self.chunks.deep_view()),
    {
        let r = concat_chunks(&self.chunks);
        proof {
            lemma_chunks_assemble(self.chunks.deep_view());
        }
        r
    }
}

/// Concatenates byte chunks in order.
#[verifier::loop_isolation(false)]
pub fn concat_chunks(chunks: &Vec<Vec<u8>>) -> (r: Vec<u8>)
    ensures
        r@ == chunks.deep_view().flatten(),
{
    let ghost dv = chunks.deep_view();
    let mut out: Vec<u8> = Vec::new();
    let mut i: usize = 0;
    proof {
        assert(dv.take(0).flatten() =~= Seq::<u8>::empty());
    }
    while i < chunks.len()
        invariant
            i <= chunks@.len(),
            out@ == dv.take(i as int).flatten(),
        decreases chunks@.len() - i,
    {
        let chunk = &chunks[i];
        let mut b: usize = 0;
        while b < chunk.len()
            invariant
                b <= chunk@.len(),
                out@ == dv.take(i as int).flatten() + chunk@.take(b as int),
            decreases chunk@.len() - b,
        {
            out.push(chunk[b]);
            proof {
                assert(chunk@.take(b as int).push(chunk@[b as int]) =~= chunk@.take(
                    b as int + 1,
                ));
            }
            b = b + 1;
        }
        proof {
            assert(chunk@.take(chunk@.len() as int) =~= chunk@);
            assert(dv[i as int] == chunk@);
            dv.take(i as int).lemma_flatten_push(chunk@);
            assert(dv.take(i as int).push(dv[i as int]) =~= dv.take(i as int + 1));
        }
        i = i + 1;
    }
    proof {
        assert(dv.take(chunks@.len() as int) =~= dv);
    }
    out
}

} // verus!
