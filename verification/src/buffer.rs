//! A growable byte buffer with a writer handle and a lossy text read of
//! everything written so far.

use vstd::prelude::*;

use crate::strutil::{utf8_decode, utf8_decode_lossy, utf8_to_string_lossy};

verus! {

/// The writing end: appends bytes and never fails; flushing is a no-op.
pub struct WriteBuf {
    pub buf: Vec<u8>,
}

impl WriteBuf {
    /// Append the given bytes; the whole slice is always taken.
    pub fn write(&mut self, data: &[u8]) -> (r: usize)
        ensures
            final(self).buf@ == old(self).buf@ + data@,
            r == data@.len(),
    {
        let ghost pre = self.buf@;
        let n = data.len();
        proof {
            vstd::slice::axiom_spec_len(data);
        }
        let mut i: usize = 0;
        while i < n
            invariant
                i <= n,
                n == data@.len(),
                self.buf@ == pre + data@.subrange(0, i as int),
            decreases n - i,
        {
            self.buf.push(data[i]);
            assert(self.buf@ =~= pre + data@.subrange(0, i + 1));
            i += 1;
        }
        proof {
            assert(self.buf@ =~= pre + data@);
        }
        n
    }

    /// Nothing is buffered beyond the vector itself.
    pub fn flush(&mut self)
        ensures
            *final(self) == *old(self),
    {
    }
}

/// A byte buffer that hands out its writing end and reads everything
/// written back as text, replacing invalid UTF-8.
pub struct ReadWriteBuf {
    pub inner: WriteBuf,
}

impl ReadWriteBuf {
    pub fn new() -> (r: ReadWriteBuf)
        ensures
            r.inner.buf@ == Seq::<u8>::empty(),
    {
        ReadWriteBuf { inner: WriteBuf { buf: Vec::new() } }
    }

    /// Borrow the writing end.
    pub fn get_write_buf(&mut self) -> (r: &mut WriteBuf)
        ensures
            *r == old(self).inner,
            *final(self) == (ReadWriteBuf { inner: *final(r) }),
    {
        &mut self.inner
    }

    /// Everything written so far, decoded as text; invalid UTF-8 is
    /// replaced, never an error.
    pub fn read_all(&self) -> (r: String)
        ensures
            r@ == utf8_decode_lossy(self.inner.buf@),
            utf8_decode(self.inner.buf@) matches Some(s) ==> r@ == s,
    {
        utf8_to_string_lossy(&self.inner.buf)
    }
}

} // verus!
