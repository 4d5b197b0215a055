//! Command substitution: what is kept of the child's output.
//!
//! The output is read chunk by chunk into a [`Capture`], which refuses a
//! chunk that would take it past its limit (the caller then abandons the
//! pipe and kills the child), and finally loses its trailing newlines.

use vstd::prelude::*;
use crate::bytes::{arg_views, push_all, NL};
use crate::error::CmdSubstError;

verus! {

/// Maximum number of bytes a command substitution may capture.
///
/// Without a cap, an unbounded producer such as `$(yes)` grows the buffer
/// until the process runs out of memory.
pub const MAX_CAPTURED: usize = 67108864;

/// Output captured so far, never more than its limit.
pub struct Capture {
    out: Vec<u8>,
    limit: usize,
}

/// `s` without its trailing newlines.
pub open spec fn strip_newlines(s: Seq<u8>) -> Seq<u8>
    decreases s.len(),
{
    if s.len() > 0 && s.last() == 0x0au8 {
        strip_newlines(s.drop_last())
    } else {
        s
    }
}

/// All chunks, one after the other.
pub open spec fn concat(chunks: Seq<Seq<u8>>) -> Seq<u8>
    decreases chunks.len(),
{
    if chunks.len() == 0 {
        Seq::empty()
    } else {
        concat(chunks.drop_last()) + chunks.last()
    }
}

impl Capture {
    /// The bytes captured so far.
    pub closed spec fn bytes(&self) -> Seq<u8> {
        self.out@
    }

    /// The most bytes this capture accepts.
    pub closed spec fn limit(&self) -> nat {
        self.limit as nat
    }

    pub closed spec fn wf(&self) -> bool {
        self.out@.len() <= self.limit
    }

    /// An empty capture of at most `limit` bytes.
    pub fn new(limit: usize) -> (c: Capture)
        ensures
            c.wf(),
            c.bytes() == Seq::<u8>::empty(),
            c.limit() == limit,
    {
        Capture { out: Vec::new(), limit }
    }

    /// Append `chunk`, unless that would capture more than the limit.
    pub fn push_chunk(&mut self, chunk: &[u8]) -> (r: Result<(), CmdSubstError>)
        requires
            old(self).wf(),
        ensures
            final(self).wf(),
            final(self).limit() == old(self).limit(),
            old(self).bytes().len() + chunk@.len() > old(self).limit() ==> r == Err::<
                (),
                CmdSubstError,
            >(CmdSubstError::OutputTooLarge) && final(self).bytes() == old(self).bytes(),
            old(self).bytes().len() + chunk@.len() <= old(self).limit() ==> r is Ok
                && final(self).bytes() == old(self).bytes() + chunk@,
    {
        if chunk.len() > self.limit - self.out.len() {
            return Err(CmdSubstError::OutputTooLarge);
        }
        push_all(&mut self.out, chunk);
        Ok(())
    }

    /// The captured bytes as they are.
    pub fn into_bytes(self) -> (r: Vec<u8>)
        requires
            self.wf(),
        ensures
            r@ == self.bytes(),
            r@.len() <= self.limit(),
    {
        self.out
    }

    /// The captured bytes, without trailing newlines.
    pub fn finish(self) -> (r: Vec<u8>)
        ensures
            r@ == strip_newlines(self.bytes()),
    {
        let mut out = self.out;
        while out.len() > 0 && out[out.len() - 1] == NL
            invariant
                strip_newlines(out@) == strip_newlines(self.bytes()),
            decreases out.len(),
        {
            out.pop();
        }
        out
    }
}

/// Read `chunks` in order into a capture of at most `limit` bytes and strip
/// the trailing newlines; fails with `OutputTooLarge` once `limit` bytes
/// would be exceeded.
pub fn drain(chunks: &[Vec<u8>], limit: usize) -> (r: Result<Vec<u8>, CmdSubstError>)
    ensures
        concat(arg_views(chunks@)).len() > limit ==> r == Err::<Vec<u8>, CmdSubstError>(
            CmdSubstError::OutputTooLarge,
        ),
        concat(arg_views(chunks@)).len() <= limit ==> (r matches Ok(v) && v@ == strip_newlines(
            concat(arg_views(chunks@)),
        )),
{
    let ghost cs = arg_views(chunks@);
    let mut cap = Capture::new(limit);
    let mut i: usize = 0;
    while i < chunks.len()
        invariant
            i <= chunks.len(),
            cs == arg_views(chunks@),
            cap.wf(),
            cap.limit() == limit,
            cap.bytes() == concat(cs.take(i as int)),
        decreases chunks.len() - i,
    {
        assert(cs.take(i as int + 1).drop_last() =~= cs.take(i as int));
        assert(cs[i as int] == chunks@[i as int]@);
        match cap.push_chunk(chunks[i].as_slice()) {
            Ok(()) => {},
            Err(e) => {
                proof {
                    lemma_concat_prefix(cs, i as int + 1);
                }
                return Err(e);
            },
        }
        i = i + 1;
    }
    assert(cs.take(chunks.len() as int) =~= cs);
    Ok(cap.finish())
}

/// A prefix of the chunks is never longer than all of them.
pub proof fn lemma_concat_prefix(chunks: Seq<Seq<u8>>, k: int)
    requires
        0 <= k <= chunks.len(),
    ensures
        concat(chunks.take(k)).len() <= concat(chunks).len(),
    decreases chunks.len() - k,
{
    if k < chunks.len() {
        lemma_concat_prefix(chunks, k + 1);
        assert(chunks.take(k + 1).drop_last() =~= chunks.take(k));
    } else {
        assert(chunks.take(k) =~= chunks);
    }
}

/// Stripping leaves no trailing newline, only removes newlines, and a second
/// strip changes nothing.
pub proof fn lemma_strip_newlines(s: Seq<u8>)
    ensures
        strip_newlines(s).len() == 0 || strip_newlines(s).last() != 0x0au8,
        strip_newlines(s).len() <= s.len(),
        strip_newlines(s) == s.subrange(0, strip_newlines(s).len() as int),
        forall|i: int| strip_newlines(s).len() <= i < s.len() ==> s[i] == 0x0au8,
        strip_newlines(strip_newlines(s)) == strip_newlines(s),
    decreases s.len(),
{
    if s.len() > 0 && s.last() == 0x0au8 {
        lemma_strip_newlines(s.drop_last());
        let t = strip_newlines(s.drop_last());
        assert(s.drop_last().subrange(0, t.len() as int) =~= s.subrange(0, t.len() as int));
        assert forall|i: int| t.len() <= i < s.len() implies s[i] == 0x0au8 by {
            if i < s.len() - 1 {
                assert(s.drop_last()[i] == s[i]);
            }
        }
    } else {
        assert(s.subrange(0, s.len() as int) =~= s);
    }
}

} // verus!
