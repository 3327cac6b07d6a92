//! Scratch space for brotli coders.

use vstd::prelude::*;

verus! {

/// Bytes in either half of the scratch space.
pub const BROTLI_BUFFER_SIZE: usize = 65536;

/// Scratch space split into an input and an output half.
#[derive(Debug)]
pub struct BrotliBuf {
    pub inner: Vec<u8>,
}

impl BrotliBuf {
    /// Both halves have their size.
    pub open spec fn wf(&self) -> bool {
        self.inner@.len() == 2 * BROTLI_BUFFER_SIZE
    }

    /// The input half and the output half, to be written through.
    pub fn split(&mut self) -> (r: (&mut [u8], &mut [u8]))
        requires
            old(self).wf(),
        ensures
            r.0@ == old(self).inner@.take(BROTLI_BUFFER_SIZE as int),
            r.1@ == old(self).inner@.skip(BROTLI_BUFFER_SIZE as int),
            final(self).inner@ == final(r.0)@ + final(r.1)@,
    {
        self.inner.as_mut_slice().split_at_mut(BROTLI_BUFFER_SIZE)
    }
}

impl Default for BrotliBuf {
    fn default() -> (r: Self)
        ensures
            r.wf(),
            r.inner@ == Seq::new(2 * BROTLI_BUFFER_SIZE as nat, |i: int| 0u8),
    {
        let buf: BrotliBuf = BrotliBuf { inner: vec![0; BROTLI_BUFFER_SIZE * 2] };
        assert(buf.inner@ =~= Seq::new(2 * BROTLI_BUFFER_SIZE as nat, |i: int| 0u8));
        buf
    }
}

} // verus!
