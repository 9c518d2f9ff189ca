//! Sequential big-endian reading from a byte slice and writing to a byte
//! vector.

use crate::endian::{
    be_read_i16, be_read_u16, be_read_u32, be_read_u64, be_write_i16, be_write_u16, be_write_u32,
    be_write_u64, i16_from_be, i16_to_be, u16_from_be, u16_to_be, u32_from_be, u32_to_be,
    u64_from_be, u64_to_be,
};
use crate::error::DecodeError;
use vstd::prelude::*;
use vstd::slice::slice_subrange;

verus! {

/// What a decoder is handed, as a value: the bytes of the buffer, or `None`
/// where no buffer was supplied.
pub open spec fn buffer_view(buffer: Option<&[u8]>) -> Option<Seq<u8>> {
    match buffer {
        Some(bytes) => Some(bytes@),
        None => None,
    }
}

/// A position in a byte slice that moves forward as fields are read.
pub struct ByteReader<'a> {
    bytes: &'a [u8],
    pos: usize,
}

impl<'a> ByteReader<'a> {
    #[verifier::type_invariant]
    spec fn in_bounds(self) -> bool {
        self.pos <= self.bytes@.len()
    }

    /// The bytes that have not been read yet.
    pub closed spec fn remaining(self) -> Seq<u8> {
        self.bytes@.skip(self.pos as int)
    }

    /// A reader placed at the start of `bytes`.
    pub fn new(bytes: &'a [u8]) -> (reader: Self)
        ensures
            reader.remaining() == bytes@,
    {
        ByteReader { bytes, pos: 0 }
    }

    /// How many bytes have not been read yet.
    pub fn remaining_len(&self) -> (n: usize)
        ensures
            n == self.remaining().len(),
    {
        proof {
            use_type_invariant(self);
        }
        self.bytes.len() - self.pos
    }

    /// Takes the next `n` bytes, or fails without moving when fewer remain.
    fn take(&mut self, n: usize) -> (r: Result<&'a [u8], DecodeError>)
        ensures
            old(self).remaining().len() >= n ==> r is Ok && r->Ok_0@ == old(self).remaining().take(
                n as int,
            ) && final(self).remaining() == old(self).remaining().skip(n as int),
            old(self).remaining().len() < n ==> r == Err::<&'a [u8], DecodeError>(
                DecodeError::Truncated,
            ) && final(self).remaining() == old(self).remaining(),
    {
        proof {
            use_type_invariant(&*self);
        }
        if self.bytes.len() - self.pos < n {
            return Err(DecodeError::Truncated);
        }
        let start: usize = self.pos;
        let field = slice_subrange(self.bytes, start, start + n);
        self.pos = start + n;
        Ok(field)
    }

    /// Reads an unsigned 16-bit integer and moves past it.
    pub fn read_u16(&mut self) -> (r: Result<u16, DecodeError>)
        ensures
            match r {
                Ok(n) => {
                    &&& old(self).remaining().len() >= 2
                    &&& n == u16_from_be(old(self).remaining()[0], old(self).remaining()[1])
                    &&& final(self).remaining() == old(self).remaining().skip(2)
                },
                Err(e) => {
                    &&& old(self).remaining().len() < 2
                    &&& e == DecodeError::Truncated
                    &&& final(self).remaining() == old(self).remaining()
                },
            },
    {
        let field = self.take(2)?;
        Ok(be_read_u16(field))
    }

    /// Reads a signed 16-bit integer and moves past it.
    pub fn read_i16(&mut self) -> (r: Result<i16, DecodeError>)
        ensures
            match r {
                Ok(n) => {
                    &&& old(self).remaining().len() >= 2
                    &&& n == i16_from_be(old(self).remaining()[0], old(self).remaining()[1])
                    &&& final(self).remaining() == old(self).remaining().skip(2)
                },
                Err(e) => {
                    &&& old(self).remaining().len() < 2
                    &&& e == DecodeError::Truncated
                    &&& final(self).remaining() == old(self).remaining()
                },
            },
    {
        let field = self.take(2)?;
        Ok(be_read_i16(field))
    }

    /// Reads an unsigned 32-bit integer and moves past it.
    pub fn read_u32(&mut self) -> (r: Result<u32, DecodeError>)
        ensures
            match r {
                Ok(n) => {
                    &&& old(self).remaining().len() >= 4
                    &&& n == u32_from_be(old(self).remaining().take(4))
                    &&& final(self).remaining() == old(self).remaining().skip(4)
                },
                Err(e) => {
                    &&& old(self).remaining().len() < 4
                    &&& e == DecodeError::Truncated
                    &&& final(self).remaining() == old(self).remaining()
                },
            },
    {
        let field = self.take(4)?;
        Ok(be_read_u32(field))
    }

    /// Reads an unsigned 64-bit integer and moves past it.
    pub fn read_u64(&mut self) -> (r: Result<u64, DecodeError>)
        ensures
            match r {
                Ok(n) => {
                    &&& old(self).remaining().len() >= 8
                    &&& n == u64_from_be(old(self).remaining().take(8))
                    &&& final(self).remaining() == old(self).remaining().skip(8)
                },
                Err(e) => {
                    &&& old(self).remaining().len() < 8
                    &&& e == DecodeError::Truncated
                    &&& final(self).remaining() == old(self).remaining()
                },
            },
    {
        let field = self.take(8)?;
        Ok(be_read_u64(field))
    }
}

/// Appends the two big-endian bytes of `n` to `out`.
pub fn write_u16(out: &mut Vec<u8>, n: u16)
    ensures
        final(out)@ == old(out)@ + u16_to_be(n),
{
    let buf = be_write_u16(n);
    out.push(buf[0]);
    out.push(buf[1]);
}

/// Appends the two big-endian bytes of `n` to `out`.
pub fn write_i16(out: &mut Vec<u8>, n: i16)
    ensures
        final(out)@ == old(out)@ + i16_to_be(n),
{
    let buf = be_write_i16(n);
    out.push(buf[0]);
    out.push(buf[1]);
}

/// Appends the four big-endian bytes of `n` to `out`.
pub fn write_u32(out: &mut Vec<u8>, n: u32)
    ensures
        final(out)@ == old(out)@ + u32_to_be(n),
{
    let buf = be_write_u32(n);
    let mut i: usize = 0;
    while i < 4
        invariant
            i <= 4,
            buf@ == u32_to_be(n),
            out@ == old(out)@ + buf@.take(i as int),
        decreases 4 - i,
    {
        out.push(buf[i]);
        i = i + 1;
    }
}

/// Appends the eight big-endian bytes of `n` to `out`.
pub fn write_u64(out: &mut Vec<u8>, n: u64)
    ensures
        final(out)@ == old(out)@ + u64_to_be(n),
{
    let buf = be_write_u64(n);
    let mut i: usize = 0;
    while i < 8
        invariant
            i <= 8,
            buf@ == u64_to_be(n),
            out@ == old(out)@ + buf@.take(i as int),
        decreases 8 - i,
    {
        out.push(buf[i]);
        i = i + 1;
    }
}

} // verus!
