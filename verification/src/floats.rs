//! The `real` and `double precision` codecs.
//!
//! A value is its IEEE-754 bit pattern, sent most significant byte first.
//! Nothing is rounded or normalised: every pattern, NaN payloads and signed
//! zeros included, is carried over unchanged.

use crate::cursor::{buffer_view, write_u32, write_u64, ByteReader};
use crate::endian::{
    lemma_u32_be_roundtrip, lemma_u64_be_roundtrip, u32_from_be, u32_to_be, u64_from_be,
    u64_to_be,
};
use crate::error::{DecodeError, IsNull};
use vstd::prelude::*;

verus! {

/// The wire bytes of the single-precision value with bit pattern `bits`.
pub open spec fn float_encoded(bits: u32) -> Seq<u8> {
    u32_to_be(bits)
}

/// The wire bytes of the double-precision value with bit pattern `bits`.
pub open spec fn double_encoded(bits: u64) -> Seq<u8> {
    u64_to_be(bits)
}

/// What decoding `buffer` as a single-precision value gives: the bit pattern
/// held in its first four bytes.
pub open spec fn float_decoded(buffer: Option<Seq<u8>>) -> Result<u32, DecodeError> {
    match buffer {
        None => Err(DecodeError::MissingValue),
        Some(bytes) => if bytes.len() < 4 {
            Err(DecodeError::Truncated)
        } else {
            Ok(u32_from_be(bytes))
        },
    }
}

/// What decoding `buffer` as a double-precision value gives: the bit pattern
/// held in its first eight bytes.
pub open spec fn double_decoded(buffer: Option<Seq<u8>>) -> Result<u64, DecodeError> {
    match buffer {
        None => Err(DecodeError::MissingValue),
        Some(bytes) => if bytes.len() < 8 {
            Err(DecodeError::Truncated)
        } else {
            Ok(u64_from_be(bytes))
        },
    }
}

/// Decodes the bit pattern of a single-precision value.
pub fn float_from_sql(bytes: Option<&[u8]>) -> (r: Result<u32, DecodeError>)
    ensures
        r == float_decoded(buffer_view(bytes)),
        bytes is None ==> r == Err::<u32, DecodeError>(DecodeError::MissingValue),
        bytes is Some && bytes->0@.len() < 4 ==> r == Err::<u32, DecodeError>(
            DecodeError::Truncated,
        ),
{
    match bytes {
        None => Err(DecodeError::MissingValue),
        Some(bytes) => {
            let mut reader = ByteReader::new(bytes);
            reader.read_u32()
        },
    }
}

/// Appends the four wire bytes of the single-precision value with bit
/// pattern `bits` to `out`.
pub fn float_to_sql(bits: u32, out: &mut Vec<u8>) -> (r: IsNull)
    ensures
        r == IsNull::No,
        final(out)@ == old(out)@ + float_encoded(bits),
{
    write_u32(out, bits);
    IsNull::No
}

/// Decodes the bit pattern of a double-precision value.
pub fn double_from_sql(bytes: Option<&[u8]>) -> (r: Result<u64, DecodeError>)
    ensures
        r == double_decoded(buffer_view(bytes)),
        bytes is None ==> r == Err::<u64, DecodeError>(DecodeError::MissingValue),
        bytes is Some && bytes->0@.len() < 8 ==> r == Err::<u64, DecodeError>(
            DecodeError::Truncated,
        ),
{
    match bytes {
        None => Err(DecodeError::MissingValue),
        Some(bytes) => {
            let mut reader = ByteReader::new(bytes);
            reader.read_u64()
        },
    }
}

/// Appends the eight wire bytes of the double-precision value with bit
/// pattern `bits` to `out`.
pub fn double_to_sql(bits: u64, out: &mut Vec<u8>) -> (r: IsNull)
    ensures
        r == IsNull::No,
        final(out)@ == old(out)@ + double_encoded(bits),
{
    write_u64(out, bits);
    IsNull::No
}

/// A single-precision bit pattern can be read back from the front of any
/// buffer that starts with its wire bytes.
pub proof fn lemma_float_roundtrip_prefix(bits: u32, rest: Seq<u8>)
    ensures
        float_decoded(Some(float_encoded(bits) + rest)) == Ok::<u32, DecodeError>(bits),
{
    lemma_u32_be_roundtrip(bits);
}

/// Every single-precision bit pattern survives encoding and decoding: NaN
/// payloads, infinities and signed zeros as any other.
pub proof fn lemma_float_roundtrip(bits: u32)
    ensures
        float_decoded(Some(float_encoded(bits))) == Ok::<u32, DecodeError>(bits),
{
    lemma_u32_be_roundtrip(bits);
}

/// A double-precision bit pattern can be read back from the front of any
/// buffer that starts with its wire bytes.
pub proof fn lemma_double_roundtrip_prefix(bits: u64, rest: Seq<u8>)
    ensures
        double_decoded(Some(double_encoded(bits) + rest)) == Ok::<u64, DecodeError>(bits),
{
    lemma_u64_be_roundtrip(bits);
}

/// Every double-precision bit pattern survives encoding and decoding: NaN
/// payloads, infinities and signed zeros as any other.
pub proof fn lemma_double_roundtrip(bits: u64)
    ensures
        double_decoded(Some(double_encoded(bits))) == Ok::<u64, DecodeError>(bits),
{
    lemma_u64_be_roundtrip(bits);
}

} // verus!
