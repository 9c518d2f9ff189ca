//! The `numeric` codec.
//!
//! On the wire a numeric value is four 16-bit header fields followed by its
//! digit groups, every field big-endian:
//!
//! | field     | type  | meaning                                   |
//! |-----------|-------|-------------------------------------------|
//! | `ndigits` | `u16` | how many digit groups follow              |
//! | `weight`  | `i16` | base-10000 exponent of the first group    |
//! | `sign`    | `u16` | `0x0000`, `0x4000` or `0xC000`            |
//! | `dscale`  | `u16` | decimal digits shown after the point      |
//! | digits    | `i16` | `ndigits` base-10000 digit groups         |
//!
//! The codec carries the structure over and judges nothing but the sign
//! field: digit groups outside `0..=9999` pass in both directions.

use crate::cursor::{buffer_view, write_i16, write_u16, ByteReader};
use crate::endian::{
    i16_from_be, i16_to_be, lemma_i16_be_roundtrip, lemma_u16_be_roundtrip, u16_from_be, u16_to_be,
};
use crate::error::{DecodeError, IsNull};
use vstd::prelude::*;

verus! {

/// The sign field of a positive value.
pub const SIGN_POSITIVE: u16 = 0x0000;

/// The sign field of a negative value.
pub const SIGN_NEGATIVE: u16 = 0x4000;

/// The sign field of the not-a-number value.
pub const SIGN_NAN: u16 = 0xC000;

/// The bytes of the four header fields.
pub const HEADER_LEN: usize = 8;

/// A `numeric` value as PostgreSQL sends it: a sign, carried by the variant,
/// and for a number its exponent, display scale and base-10000 digit groups,
/// most significant group first.
#[derive(Debug, PartialEq, Eq)]
pub enum PgNumeric {
    Positive { weight: i16, scale: u16, digits: Vec<i16> },
    Negative { weight: i16, scale: u16, digits: Vec<i16> },
    NaN,
}

/// The mathematical value of a [`PgNumeric`]: the same three variants, with
/// the digit groups as a sequence.
pub enum NumericView {
    Positive { weight: i16, scale: u16, digits: Seq<i16> },
    Negative { weight: i16, scale: u16, digits: Seq<i16> },
    NaN,
}

impl View for PgNumeric {
    type V = NumericView;

    open spec fn view(&self) -> NumericView {
        match *self {
            PgNumeric::Positive { weight, scale, digits } => NumericView::Positive {
                weight,
                scale,
                digits: digits@,
            },
            PgNumeric::Negative { weight, scale, digits } => NumericView::Negative {
                weight,
                scale,
                digits: digits@,
            },
            PgNumeric::NaN => NumericView::NaN,
        }
    }
}

impl Clone for PgNumeric {
    fn clone(&self) -> (copy: Self)
        ensures
            copy@ == self@,
    {
        match self {
            PgNumeric::Positive { weight, scale, digits } => {
                let copy = PgNumeric::Positive {
                    weight: *weight,
                    scale: *scale,
                    digits: digits.clone(),
                };
                copy
            },
            PgNumeric::Negative { weight, scale, digits } => {
                let copy = PgNumeric::Negative {
                    weight: *weight,
                    scale: *scale,
                    digits: digits.clone(),
                };
                copy
            },
            PgNumeric::NaN => PgNumeric::NaN,
        }
    }
}

impl NumericView {
    /// The sign field written for this value.
    pub open spec fn sign(self) -> u16 {
        match self {
            NumericView::Positive { .. } => SIGN_POSITIVE,
            NumericView::Negative { .. } => SIGN_NEGATIVE,
            NumericView::NaN => SIGN_NAN,
        }
    }

    /// The weight written for this value: zero for not-a-number.
    pub open spec fn weight(self) -> i16 {
        match self {
            NumericView::Positive { weight, .. } => weight,
            NumericView::Negative { weight, .. } => weight,
            NumericView::NaN => 0,
        }
    }

    /// The display scale written for this value: zero for not-a-number.
    pub open spec fn scale(self) -> u16 {
        match self {
            NumericView::Positive { scale, .. } => scale,
            NumericView::Negative { scale, .. } => scale,
            NumericView::NaN => 0,
        }
    }

    /// The digit groups written for this value: none for not-a-number.
    pub open spec fn digits(self) -> Seq<i16> {
        match self {
            NumericView::Positive { digits, .. } => digits,
            NumericView::Negative { digits, .. } => digits,
            NumericView::NaN => Seq::empty(),
        }
    }

    /// The count field written for this value: the number of digit groups,
    /// of which sixteen bits are kept.
    pub open spec fn ndigits(self) -> u16 {
        (self.digits().len() % 0x1_0000) as u16
    }
}

/// The bytes of a run of digit groups: two per group, in order.
pub open spec fn digits_encoded(digits: Seq<i16>) -> Seq<u8> {
    Seq::new(2 * digits.len(), |k: int| i16_to_be(digits[k / 2])[k % 2])
}

/// The `count` digit groups held in the first `2 * count` bytes of `bytes`.
pub open spec fn digits_decoded(bytes: Seq<u8>, count: nat) -> Seq<i16> {
    Seq::new(count, |k: int| i16_from_be(bytes[2 * k], bytes[2 * k + 1]))
}

/// The wire bytes of `value`: count, weight, sign and scale, then the digit
/// groups.
pub open spec fn numeric_encoded(value: NumericView) -> Seq<u8> {
    u16_to_be(value.ndigits()) + i16_to_be(value.weight()) + u16_to_be(value.sign()) + u16_to_be(
        value.scale(),
    ) + digits_encoded(value.digits())
}

/// The value that a complete buffer holds, judged by its sign field.
pub open spec fn numeric_of_fields(sign: u16, weight: i16, scale: u16, digits: Seq<i16>) -> Result<
    NumericView,
    DecodeError,
> {
    if sign == SIGN_POSITIVE {
        Ok(NumericView::Positive { weight, scale, digits })
    } else if sign == SIGN_NEGATIVE {
        Ok(NumericView::Negative { weight, scale, digits })
    } else if sign == SIGN_NAN {
        Ok(NumericView::NaN)
    } else {
        Err(DecodeError::InvalidSign(sign))
    }
}

/// What decoding `buffer` as a numeric value gives.
///
/// A missing buffer is an error, and so is one that ends before the header
/// and the announced digit groups are complete. Only a complete buffer has
/// its sign field judged. The digit groups of a not-a-number value are
/// dropped, and bytes after the last digit group are not looked at.
pub open spec fn numeric_decoded(buffer: Option<Seq<u8>>) -> Result<NumericView, DecodeError> {
    match buffer {
        None => Err(DecodeError::MissingValue),
        Some(bytes) => {
            let count = u16_from_be(bytes[0], bytes[1]);
            if bytes.len() < HEADER_LEN || bytes.len() < HEADER_LEN + 2 * count {
                Err(DecodeError::Truncated)
            } else {
                numeric_of_fields(
                    u16_from_be(bytes[4], bytes[5]),
                    i16_from_be(bytes[2], bytes[3]),
                    u16_from_be(bytes[6], bytes[7]),
                    digits_decoded(bytes.skip(HEADER_LEN as int), count as nat),
                )
            }
        },
    }
}

/// The outcome of a decoder as a value: the view of what it produced, or its
/// error.
pub open spec fn outcome_view(outcome: Result<PgNumeric, DecodeError>) -> Result<
    NumericView,
    DecodeError,
> {
    match outcome {
        Ok(value) => Ok(value@),
        Err(e) => Err(e),
    }
}

impl PgNumeric {
    /// Builds the value that a complete buffer holds from its fields.
    pub fn from_fields(sign: u16, weight: i16, scale: u16, digits: Vec<i16>) -> (r: Result<
        PgNumeric,
        DecodeError,
    >)
        ensures
            outcome_view(r) == numeric_of_fields(sign, weight, scale, digits@),
    {
        if sign == SIGN_POSITIVE {
            Ok(PgNumeric::Positive { weight, scale, digits })
        } else if sign == SIGN_NEGATIVE {
            Ok(PgNumeric::Negative { weight, scale, digits })
        } else if sign == SIGN_NAN {
            Ok(PgNumeric::NaN)
        } else {
            Err(DecodeError::InvalidSign(sign))
        }
    }

    /// Decodes a numeric value from its wire bytes.
    pub fn from_sql(bytes: Option<&[u8]>) -> (r: Result<PgNumeric, DecodeError>)
        ensures
            outcome_view(r) == numeric_decoded(buffer_view(bytes)),
            bytes is None ==> r == Err::<PgNumeric, DecodeError>(DecodeError::MissingValue),
            bytes is Some && bytes->0@.len() < HEADER_LEN ==> r == Err::<PgNumeric, DecodeError>(
                DecodeError::Truncated,
            ),
    {
        let buf: &[u8] = match bytes {
            Some(buf) => buf,
            None => {
                return Err(DecodeError::MissingValue);
            },
        };
        let mut reader = ByteReader::new(buf);
        let ndigits: u16 = reader.read_u16()?;
        let mut digits: Vec<i16> = Vec::with_capacity(ndigits as usize);
        let weight: i16 = reader.read_i16()?;
        let sign: u16 = reader.read_u16()?;
        let scale: u16 = reader.read_u16()?;
        let ghost body = buf@.skip(HEADER_LEN as int);
        let mut i: u16 = 0;
        while i < ndigits
            invariant
                i <= ndigits,
                bytes == Some(buf),
                buf@.len() >= HEADER_LEN,
                ndigits == u16_from_be(buf@[0], buf@[1]),
                weight == i16_from_be(buf@[2], buf@[3]),
                sign == u16_from_be(buf@[4], buf@[5]),
                scale == u16_from_be(buf@[6], buf@[7]),
                body == buf@.skip(HEADER_LEN as int),
                body.len() >= 2 * i,
                reader.remaining() == body.skip(2 * i),
                digits@ == digits_decoded(body, i as nat),
            decreases ndigits - i,
        {
            let digit: i16 = reader.read_i16()?;
            digits.push(digit);
            i = i + 1;
        }
        PgNumeric::from_fields(sign, weight, scale, digits)
    }

    /// Appends the wire bytes of this value to `out`.
    pub fn to_sql(&self, out: &mut Vec<u8>) -> (r: IsNull)
        ensures
            r == IsNull::No,
            final(out)@ == old(out)@ + numeric_encoded(self@),
    {
        let sign: u16 = match self {
            PgNumeric::Positive { .. } => SIGN_POSITIVE,
            PgNumeric::Negative { .. } => SIGN_NEGATIVE,
            PgNumeric::NaN => SIGN_NAN,
        };
        let empty_vec: Vec<i16> = Vec::new();
        let digits: &Vec<i16> = match self {
            PgNumeric::Positive { digits, .. } => digits,
            PgNumeric::Negative { digits, .. } => digits,
            PgNumeric::NaN => &empty_vec,
        };
        let weight: i16 = match self {
            PgNumeric::Positive { weight, .. } => *weight,
            PgNumeric::Negative { weight, .. } => *weight,
            PgNumeric::NaN => 0,
        };
        let scale: u16 = match self {
            PgNumeric::Positive { scale, .. } => *scale,
            PgNumeric::Negative { scale, .. } => *scale,
            PgNumeric::NaN => 0,
        };
        let ndigits: u16 = (digits.len() % 0x1_0000) as u16;
        write_u16(out, ndigits);
        write_i16(out, weight);
        write_u16(out, sign);
        write_u16(out, scale);
        let ghost header = out@;
        let mut i: usize = 0;
        while i < digits.len()
            invariant
                i <= digits.len(),
                out@ == header + digits_encoded(digits@.take(i as int)),
            decreases digits.len() - i,
        {
            write_i16(out, digits[i]);
            i = i + 1;
        }
        IsNull::No
    }
}

/// A value takes eight bytes for its header and two for each digit group.
pub proof fn lemma_numeric_encoded_len(value: NumericView)
    ensures
        numeric_encoded(value).len() == HEADER_LEN + 2 * value.digits().len(),
{
}

/// Decoding gives back the digit groups that were encoded, whatever follows
/// them in the buffer.
pub proof fn lemma_digits_roundtrip(digits: Seq<i16>, rest: Seq<u8>)
    ensures
        digits_decoded(digits_encoded(digits) + rest, digits.len()) == digits,
{
    let bytes = digits_encoded(digits) + rest;
    assert forall|k: int| 0 <= k < digits.len() implies digits_decoded(bytes, digits.len())[k]
        == digits[k] by {
        lemma_i16_be_roundtrip(digits[k]);
    }
}

/// A value with at most 65535 digit groups can be read back from the front
/// of any buffer that starts with its wire bytes.
pub proof fn lemma_numeric_roundtrip_prefix(value: NumericView, rest: Seq<u8>)
    requires
        value.digits().len() <= u16::MAX,
    ensures
        numeric_decoded(Some(numeric_encoded(value) + rest)) == Ok::<NumericView, DecodeError>(
            value,
        ),
{
    let digits = value.digits();
    let bytes = numeric_encoded(value) + rest;
    lemma_u16_be_roundtrip(value.ndigits());
    lemma_i16_be_roundtrip(value.weight());
    lemma_u16_be_roundtrip(value.sign());
    lemma_u16_be_roundtrip(value.scale());
    assert(bytes.skip(HEADER_LEN as int) =~= digits_encoded(digits) + rest);
    lemma_digits_roundtrip(digits, rest);
}

/// A value with at most 65535 digit groups survives encoding and decoding,
/// not-a-number as well as the numbers.
///
/// The count field has sixteen bits, so a longer run of digit groups is
/// written with a count that is too small and does not come back.
pub proof fn lemma_numeric_roundtrip(value: NumericView)
    requires
        value.digits().len() <= u16::MAX,
    ensures
        numeric_decoded(Some(numeric_encoded(value))) == Ok::<NumericView, DecodeError>(value),
{
    lemma_numeric_roundtrip_prefix(value, Seq::empty());
}

/// Not-a-number survives encoding and decoding.
pub proof fn lemma_nan_roundtrip()
    ensures
        numeric_decoded(Some(numeric_encoded(NumericView::NaN))) == Ok::<
            NumericView,
            DecodeError,
        >(NumericView::NaN),
{
    lemma_numeric_roundtrip(NumericView::NaN);
}

/// Not-a-number is written as the header alone, with a count, weight and
/// scale of zero.
pub proof fn lemma_nan_encoded()
    ensures
        numeric_encoded(NumericView::NaN) == seq![0u8, 0u8, 0u8, 0u8, 0xC0u8, 0u8, 0u8, 0u8],
{
    assert(numeric_encoded(NumericView::NaN) =~= seq![
        0u8,
        0u8,
        0u8,
        0u8,
        0xC0u8,
        0u8,
        0u8,
        0u8,
    ]);
}

} // verus!
