//! A fixed-size text buffer for debug output written before any heap
//! exists: text that does not fit is cut off.
use vstd::prelude::*;
use vstd::string::StringSliceAdditionalSpecFns;

verus! {

/// A buffer of fixed capacity, filled from the front.
#[derive(Debug)]
pub struct FixedSizeBufferWriter {
    buffer: Vec<u8>,
    pos: usize,
}

impl FixedSizeBufferWriter {
    /// The bytes written so far.
    pub closed spec fn written(&self) -> Seq<u8> {
        self.buffer@.subrange(0, self.pos as int)
    }

    /// The capacity.
    pub closed spec fn capacity(&self) -> nat {
        self.buffer@.len()
    }

    pub closed spec fn wf(&self) -> bool {
        self.pos <= self.buffer@.len()
    }

    /// An empty buffer of `capacity` bytes.
    pub fn new(capacity: usize) -> (r: FixedSizeBufferWriter)
        ensures
            r.wf(),
            r.capacity() == capacity,
            r.written().len() == 0,
    {
        let mut buffer: Vec<u8> = Vec::new();
        let mut i: usize = 0;
        while i < capacity
            invariant
                i <= capacity,
                buffer@.len() == i,
            decreases capacity - i,
        {
            buffer.push(0);
            i = i + 1;
        }
        FixedSizeBufferWriter { buffer, pos: 0 }
    }

    /// Appends as much of `s` as fits.
    pub fn write_str(&mut self, s: &str)
        requires
            old(self).wf(),
        ensures
            final(self).wf(),
            final(self).capacity() == old(self).capacity(),
            final(self).written() == old(self).written() + s.spec_bytes().take(
                vstd::math::min(
                    s.spec_bytes().len() as int,
                    old(self).capacity() - old(self).written().len(),
                ),
            ),
    {
        let bytes = s.as_bytes();
        let room = self.buffer.len() - self.pos;
        let n = if bytes.len() < room { bytes.len() } else { room };
        let ghost start = self.written();
        let mut i: usize = 0;
        while i < n
            invariant
                self.wf(),
                self.buffer@.len() == old(self).buffer@.len(),
                self.pos == old(self).pos + i,
                i <= n,
                n <= bytes@.len(),
                old(self).pos + n <= old(self).buffer@.len(),
                self.buffer@.subrange(0, self.pos as int) == start + bytes@.take(i as int),
                start.len() == old(self).pos,
            decreases n - i,
        {
            let len = self.buffer.len();
            assert(self.pos < len);
            let ghost before = self.buffer@;
            self.buffer.set(self.pos, bytes[i]);
            assert(self.buffer@.subrange(0, self.pos as int) =~= before.subrange(0, self.pos as int));
            self.pos = self.pos + 1;
            assert(bytes@.take(i + 1) =~= bytes@.take(i as int).push(bytes@[i as int]));
            assert(self.buffer@.subrange(0, self.pos as int) =~= start + bytes@.take(i + 1));
            i = i + 1;
        }
        proof {
            assert(start == old(self).written());
        }
    }

    /// The bytes written so far.
    pub fn occupied(&self) -> (r: Vec<u8>)
        requires
            self.wf(),
        ensures
            r@ == self.written(),
    {
        let mut out: Vec<u8> = Vec::new();
        let mut i: usize = 0;
        while i < self.pos
            invariant
                self.wf(),
                i <= self.pos,
                out@ == self.buffer@.subrange(0, i as int),
            decreases self.pos - i,
        {
            out.push(self.buffer[i]);
            assert(out@ =~= self.buffer@.subrange(0, i + 1));
            i = i + 1;
        }
        out
    }

    /// The bytes that may still be written.
    pub fn remaining(&self) -> (r: usize)
        requires
            self.wf(),
        ensures
            r == self.capacity() - self.written().len(),
    {
        self.buffer.len() - self.pos
    }
}

} // verus!
