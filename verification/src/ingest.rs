//! The streaming ingestor's in-memory half: consume a byte stream chunk by
//! chunk, accumulating the full payload for the later thumbnail derivation,
//! while each chunk is handed on for the append-only file write. The
//! accumulated buffer is always exactly the concatenation of the chunks
//! consumed so far, so the bytes on disk and the bytes in memory agree.

use vstd::prelude::*;
use vstd::slice::slice_to_vec;

verus! {

/// The concatenation of a sequence of byte chunks, in arrival order.
pub open spec fn concat_chunks(chunks: Seq<Seq<u8>>) -> Seq<u8>
    decreases chunks.len(),
{
    if chunks.len() == 0 {
        Seq::empty()
    } else {
        concat_chunks(chunks.drop_last()) + chunks.last()
    }
}

/// Accumulates one source's byte stream. The ghost chunk history records
/// what arrived; the invariant ties the buffer to it.
pub struct StreamIngest {
    acc: Vec<u8>,
    chunks: Ghost<Seq<Seq<u8>>>,
}

impl StreamIngest {
    /// The chunks consumed so far, in order.
    pub closed spec fn chunk_history(self) -> Seq<Seq<u8>> {
        self.chunks@
    }

    /// The bytes accumulated so far.
    pub closed spec fn accumulated(self) -> Seq<u8> {
        self.acc@
    }

    /// The buffer holds exactly the concatenation of the consumed chunks.
    pub closed spec fn wf(self) -> bool {
        self.acc@ == concat_chunks(self.chunks@)
    }

    /// An ingestor that has consumed nothing.
    pub fn new() -> (s: Self)
        ensures
            s.wf(),
            s.chunk_history() == Seq::<Seq<u8>>::empty(),
    {
        let s = StreamIngest { acc: Vec::new(), chunks: Ghost(Seq::empty()) };
        proof {
            assert(s.acc@ =~= concat_chunks(s.chunks@));
        }
        s
    }

    /// Consumes the next chunk of the stream: appends it to the accumulated
    /// payload. The same chunk is what the caller appends to the file, so
    /// disk and memory stay in step.
    pub fn push_chunk(&mut self, chunk: &[u8])
        requires
            old(self).wf(),
        ensures
            final(self).wf(),
            final(self).chunk_history() == old(self).chunk_history().push(chunk@),
            final(self).accumulated() == old(self).accumulated() + chunk@,
    {
        let mut v = slice_to_vec(chunk);
        self.acc.append(&mut v);
        proof {
            self.chunks@ = self.chunks@.push(chunk@);
            assert(self.chunks@.drop_last() =~= old(self).chunks@);
            assert(self.acc@ =~= concat_chunks(self.chunks@));
        }
    }

    /// Hands the fully accumulated payload out once the stream is
    /// exhausted: exactly the concatenation of every chunk consumed, so a
    /// file written chunk by chunk holds byte-identical content.
    pub fn finish(self) -> (r: Vec<u8>)
        requires
            self.wf(),
        ensures
            r@ == concat_chunks(self.chunk_history()),
    {
        self.acc
    }
}

} // verus!
