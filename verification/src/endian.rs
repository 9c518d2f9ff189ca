//! Big-endian integers: what their bytes mean, and the calls into
//! `byteorder` that produce and consume them.

use byteorder::{BigEndian, ByteOrder};
use vstd::prelude::*;

verus! {

/// The unsigned 16-bit integer whose big-endian bytes are `hi`, `lo`.
pub open spec fn u16_from_be(hi: u8, lo: u8) -> u16 {
    (hi as int * 0x100 + lo as int) as u16
}

/// The two big-endian bytes of `n`, most significant first.
pub open spec fn u16_to_be(n: u16) -> Seq<u8> {
    seq![(n / 0x100) as u8, (n % 0x100) as u8]
}

/// The signed integer with the same sixteen bits as `n` (two's complement).
pub open spec fn i16_from_bits(n: u16) -> i16 {
    if n < 0x8000 {
        n as i16
    } else {
        (n as int - 0x1_0000) as i16
    }
}

/// The unsigned integer with the same sixteen bits as `n` (two's complement).
pub open spec fn i16_to_bits(n: i16) -> u16 {
    if n >= 0 {
        n as u16
    } else {
        (n as int + 0x1_0000) as u16
    }
}

/// The signed 16-bit integer whose big-endian bytes are `hi`, `lo`.
pub open spec fn i16_from_be(hi: u8, lo: u8) -> i16 {
    i16_from_bits(u16_from_be(hi, lo))
}

/// The two big-endian bytes of `n`, most significant first.
pub open spec fn i16_to_be(n: i16) -> Seq<u8> {
    u16_to_be(i16_to_bits(n))
}

/// The unsigned 32-bit integer whose big-endian bytes are the first four of `b`.
pub open spec fn u32_from_be(b: Seq<u8>) -> u32
    recommends
        b.len() >= 4,
{
    (b[0] as int * 0x100_0000 + b[1] as int * 0x1_0000 + b[2] as int * 0x100 + b[3] as int) as u32
}

/// The four big-endian bytes of `n`, most significant first.
pub open spec fn u32_to_be(n: u32) -> Seq<u8> {
    seq![
        (n / 0x100_0000) as u8,
        (n / 0x1_0000 % 0x100) as u8,
        (n / 0x100 % 0x100) as u8,
        (n % 0x100) as u8,
    ]
}

/// The unsigned 64-bit integer whose big-endian bytes are the first eight of `b`.
pub open spec fn u64_from_be(b: Seq<u8>) -> u64
    recommends
        b.len() >= 8,
{
    (u32_from_be(b) as int * 0x1_0000_0000 + u32_from_be(b.skip(4)) as int) as u64
}

/// The eight big-endian bytes of `n`, most significant first.
pub open spec fn u64_to_be(n: u64) -> Seq<u8> {
    u32_to_be((n / 0x1_0000_0000) as u32) + u32_to_be((n % 0x1_0000_0000) as u32)
}

/// Reading back the two bytes written for `n` gives `n`.
pub proof fn lemma_u16_be_roundtrip(n: u16)
    ensures
        u16_to_be(n).len() == 2,
        u16_from_be(u16_to_be(n)[0], u16_to_be(n)[1]) == n,
{
}

/// Reading back the two bytes written for `n` gives `n`.
pub proof fn lemma_i16_be_roundtrip(n: i16)
    ensures
        i16_to_be(n).len() == 2,
        i16_from_be(i16_to_be(n)[0], i16_to_be(n)[1]) == n,
{
    lemma_u16_be_roundtrip(i16_to_bits(n));
}

/// Reading back the four bytes written for `n` gives `n`.
pub proof fn lemma_u32_be_roundtrip(n: u32)
    ensures
        u32_to_be(n).len() == 4,
        u32_from_be(u32_to_be(n)) == n,
{
}

/// Reading back the eight bytes written for `n` gives `n`.
pub proof fn lemma_u64_be_roundtrip(n: u64)
    ensures
        u64_to_be(n).len() == 8,
        u64_from_be(u64_to_be(n)) == n,
{
    let hi: u32 = (n / 0x1_0000_0000) as u32;
    let lo: u32 = (n % 0x1_0000_0000) as u32;
    lemma_u32_be_roundtrip(hi);
    lemma_u32_be_roundtrip(lo);
}

/// `byteorder::BigEndian::read_u16`: the big-endian reading of the first two
/// bytes of `buf`. It panics on a shorter slice, which `requires` rules out.
#[verifier::external_body]
pub(crate) fn be_read_u16(buf: &[u8]) -> (n: u16)
    requires
        buf@.len() >= 2,
    ensures
        n == u16_from_be(buf@[0], buf@[1]),
{
    BigEndian::read_u16(buf)
}

/// `byteorder::BigEndian::read_i16`: the two's-complement reading of the
/// first two bytes of `buf`, most significant first. It panics on a shorter
/// slice, which `requires` rules out.
#[verifier::external_body]
pub(crate) fn be_read_i16(buf: &[u8]) -> (n: i16)
    requires
        buf@.len() >= 2,
    ensures
        n == i16_from_be(buf@[0], buf@[1]),
{
    BigEndian::read_i16(buf)
}

/// `byteorder::BigEndian::read_u32`: the big-endian reading of the first four
/// bytes of `buf`. It panics on a shorter slice, which `requires` rules out.
#[verifier::external_body]
pub(crate) fn be_read_u32(buf: &[u8]) -> (n: u32)
    requires
        buf@.len() >= 4,
    ensures
        n == u32_from_be(buf@),
{
    BigEndian::read_u32(buf)
}

/// `byteorder::BigEndian::read_u64`: the big-endian reading of the first
/// eight bytes of `buf`. It panics on a shorter slice, which `requires` rules
/// out.
#[verifier::external_body]
pub(crate) fn be_read_u64(buf: &[u8]) -> (n: u64)
    requires
        buf@.len() >= 8,
    ensures
        n == u64_from_be(buf@),
{
    BigEndian::read_u64(buf)
}

/// `byteorder::BigEndian::write_u16` into a fresh two-byte buffer: the bytes
/// of `n`, most significant first.
#[verifier::external_body]
pub(crate) fn be_write_u16(n: u16) -> (buf: [u8; 2])
    ensures
        buf@ == u16_to_be(n),
{
    let mut buf = [0u8; 2];
    BigEndian::write_u16(&mut buf, n);
    buf
}

/// `byteorder::BigEndian::write_i16` into a fresh two-byte buffer: the bytes
/// of the two's-complement form of `n`, most significant first.
#[verifier::external_body]
pub(crate) fn be_write_i16(n: i16) -> (buf: [u8; 2])
    ensures
        buf@ == i16_to_be(n),
{
    let mut buf = [0u8; 2];
    BigEndian::write_i16(&mut buf, n);
    buf
}

/// `byteorder::BigEndian::write_u32` into a fresh four-byte buffer: the bytes
/// of `n`, most significant first.
#[verifier::external_body]
pub(crate) fn be_write_u32(n: u32) -> (buf: [u8; 4])
    ensures
        buf@ == u32_to_be(n),
{
    let mut buf = [0u8; 4];
    BigEndian::write_u32(&mut buf, n);
    buf
}

/// `byteorder::BigEndian::write_u64` into a fresh eight-byte buffer: the
/// bytes of `n`, most significant first.
#[verifier::external_body]
pub(crate) fn be_write_u64(n: u64) -> (buf: [u8; 8])
    ensures
        buf@ == u64_to_be(n),
{
    let mut buf = [0u8; 8];
    BigEndian::write_u64(&mut buf, n);
    buf
}

} // verus!
