//! The buffer behind the kernel log: text is gathered here and handed out
//! whole when it is flushed to the log.

use vstd::prelude::*;
use vstd::string::StringSliceAdditionalSpecFns;

verus! {

/// Bytes written to the kernel log and not yet flushed.
pub struct KernelWriter {
    buffer: Vec<u8>,
}

impl View for KernelWriter {
    type V = Seq<u8>;

    /// The bytes pending, in the order they were written.
    closed spec fn view(&self) -> Seq<u8> {
        self.buffer@
    }
}

impl Default for KernelWriter {
    fn default() -> (r: Self)
        ensures
            r@ == Seq::<u8>::empty(),
    {
        KernelWriter { buffer: Vec::new() }
    }
}

impl KernelWriter {
    /// Adds the UTF-8 bytes of `s` after the pending ones.
    pub fn write_str(&mut self, s: &str)
        ensures
            final(self)@ == old(self)@ + s.spec_bytes(),
    {
        let bytes = s.as_bytes();
        self.buffer.extend_from_slice(bytes);
        assert(self.buffer@ =~= old(self)@ + s.spec_bytes());
    }

    /// Hands out every pending byte, in order, for the log, and starts over
    /// empty.
    pub fn flush(&mut self) -> (r: Vec<u8>)
        ensures
            r@ == old(self)@,
            final(self)@ == Seq::<u8>::empty(),
    {
        let mut out: Vec<u8> = Vec::new();
        core::mem::swap(&mut out, &mut self.buffer);
        out
    }
}

} // verus!
