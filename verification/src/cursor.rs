//! Bounded access to a buffer of bytes: a cursor that reads and one that writes.
//! Neither ever touches a byte outside its buffer. A caller asks `len` how much
//! is left before it reads or writes. To ask for more than is left is a
//! programming error: verified code cannot make it, and in other code the
//! bounds check of the buffer stops the program.
use crate::wire::{u16_from_le, u16_le, u32_from_le, u32_le};
use vstd::prelude::*;

verus! {

/// Reads a buffer from front to back.
pub struct ReadCursor<'a> {
    inner: &'a [u8],
    pos: usize,
}

impl<'a> View for ReadCursor<'a> {
    type V = Seq<u8>;

    /// The bytes that have not been read yet.
    closed spec fn view(&self) -> Seq<u8> {
        self.inner@.skip(self.pos as int)
    }
}

impl<'a> ReadCursor<'a> {
    #[verifier::type_invariant]
    spec fn in_bounds(self) -> bool {
        self.pos <= self.inner.len()
    }

    /// A cursor at the start of `bytes`.
    pub fn new(bytes: &'a [u8]) -> (cursor: Self)
        ensures
            cursor@ == bytes@,
    {
        ReadCursor { inner: bytes, pos: 0 }
    }

    /// The number of bytes that have not been read yet.
    pub fn len(&self) -> (n: usize)
        ensures
            n == self@.len(),
    {
        proof {
            use_type_invariant(&*self);
        }
        self.inner.len() - self.pos
    }

    /// Reads a 16-bit integer, low byte first.
    pub fn read_u16(&mut self) -> (x: u16)
        requires
            old(self)@.len() >= 2,
        ensures
            x == u16_from_le(old(self)@),
            final(self)@ == old(self)@.skip(2),
    {
        proof {
            use_type_invariant(&*self);
        }
        let lo: u8 = self.inner[self.pos];
        let hi: u8 = self.inner[self.pos + 1];
        self.pos = self.pos + 2;
        lo as u16 + 256 * (hi as u16)
    }

    /// Reads a 32-bit integer, low byte first.
    pub fn read_u32(&mut self) -> (x: u32)
        requires
            old(self)@.len() >= 4,
        ensures
            x == u32_from_le(old(self)@),
            final(self)@ == old(self)@.skip(4),
    {
        proof {
            use_type_invariant(&*self);
        }
        let b0: u8 = self.inner[self.pos];
        let b1: u8 = self.inner[self.pos + 1];
        let b2: u8 = self.inner[self.pos + 2];
        let b3: u8 = self.inner[self.pos + 3];
        self.pos = self.pos + 4;
        b0 as u32 + 256 * (b1 as u32) + 65536 * (b2 as u32) + 16777216 * (b3 as u32)
    }

    /// Hands out the next `n` bytes and steps over them.
    pub fn read_slice(&mut self, n: usize) -> (bytes: &'a [u8])
        requires
            n <= old(self)@.len(),
        ensures
            bytes@ == old(self)@.take(n as int),
            final(self)@ == old(self)@.skip(n as int),
    {
        proof {
            use_type_invariant(&*self);
        }
        let start: usize = self.pos;
        let bytes = &self.inner[start..start + n];
        self.pos = start + n;
        bytes
    }
}

/// Fills a buffer of fixed size from front to back.
pub struct WriteCursor {
    inner: Vec<u8>,
    pos: usize,
}

impl WriteCursor {
    #[verifier::type_invariant]
    spec fn in_bounds(self) -> bool {
        self.pos <= self.inner.len()
    }

    /// The bytes written so far.
    pub closed spec fn written(&self) -> Seq<u8> {
        self.inner@.take(self.pos as int)
    }

    /// The part of the buffer that has not been written yet.
    pub closed spec fn unwritten(&self) -> Seq<u8> {
        self.inner@.skip(self.pos as int)
    }

    /// A cursor at the start of `buffer`. The buffer never grows: its length is
    /// all the room there is.
    pub fn new(buffer: Vec<u8>) -> (cursor: Self)
        ensures
            cursor.written() == Seq::<u8>::empty(),
            cursor.unwritten() == buffer@,
    {
        WriteCursor { inner: buffer, pos: 0 }
    }

    /// The number of bytes that can still be written.
    pub fn len(&self) -> (n: usize)
        ensures
            n == self.unwritten().len(),
    {
        proof {
            use_type_invariant(&*self);
        }
        self.inner.len() - self.pos
    }

    /// Gives the buffer back: what was written, then what was left untouched.
    pub fn into_inner(self) -> (buffer: Vec<u8>)
        ensures
            buffer@ == self.written() + self.unwritten(),
    {
        proof {
            use_type_invariant(&self);
        }
        self.inner
    }

    /// Writes one byte.
    pub fn write_u8(&mut self, x: u8)
        requires
            old(self).unwritten().len() >= 1,
        ensures
            final(self).written() == old(self).written().push(x),
            final(self).unwritten() == old(self).unwritten().skip(1),
    {
        proof {
            use_type_invariant(&*self);
        }
        let pos: usize = self.pos;
        self.inner[pos] = x;
        self.pos = pos + 1;
    }

    /// Writes a 16-bit integer, low byte first.
    pub fn write_u16(&mut self, x: u16)
        requires
            old(self).unwritten().len() >= 2,
        ensures
            final(self).written() == old(self).written() + u16_le(x),
            final(self).unwritten() == old(self).unwritten().skip(2),
    {
        self.write_u8((x % 256) as u8);
        self.write_u8((x / 256) as u8);
    }

    /// Writes a 32-bit integer, low byte first.
    pub fn write_u32(&mut self, x: u32)
        requires
            old(self).unwritten().len() >= 4,
        ensures
            final(self).written() == old(self).written() + u32_le(x),
            final(self).unwritten() == old(self).unwritten().skip(4),
    {
        self.write_u8((x % 256) as u8);
        self.write_u8(((x / 256) % 256) as u8);
        self.write_u8(((x / 65536) % 256) as u8);
        self.write_u8((x / 16777216) as u8);
    }

    /// Writes `bytes`, all of them.
    pub fn write_slice(&mut self, bytes: &[u8])
        requires
            bytes@.len() <= old(self).unwritten().len(),
        ensures
            final(self).written() == old(self).written() + bytes@,
            final(self).unwritten() == old(self).unwritten().skip(bytes@.len() as int),
    {
        let n: usize = bytes.len();
        let mut i: usize = 0;
        while i < n
            invariant
                i <= n,
                n == bytes@.len(),
                n <= old(self).unwritten().len(),
                self.written() == old(self).written() + bytes@.take(i as int),
                self.unwritten() == old(self).unwritten().skip(i as int),
            decreases n - i,
        {
            self.write_u8(bytes[i]);
            i = i + 1;
        }
    }
}

} // verus!
