//! What a decoder reports when it cannot produce a value, and the marker an
//! encoder hands back.

use vstd::prelude::*;
use vstd::string::{StrSliceExecFns, StringExecFns};

verus! {

/// Why a buffer could not be decoded.
#[derive(Debug, Clone, Copy, PartialEq, Eq, Structural)]
pub enum DecodeError {
    /// No buffer was supplied: the value was SQL NULL, which none of the
    /// types of this crate can hold.
    MissingValue,
    /// The buffer ended before the field being read was complete.
    Truncated,
    /// The sign field of a numeric value was not `0x0000`, `0x4000` or
    /// `0xC000`; the field's value is carried along.
    InvalidSign(u16),
}

/// Whether an encoded value stands for SQL NULL.
#[derive(Debug, Clone, Copy, PartialEq, Eq, Structural)]
pub enum IsNull {
    /// The value is NULL and nothing was written for it.
    Yes,
    /// The value is not NULL; its bytes were written.
    No,
}

/// The digits of lower-case hexadecimal notation, by value.
pub const HEX_DIGITS: &'static str = "0123456789abcdef";

/// `n` in lower-case hexadecimal notation, without prefix or leading zeros.
pub open spec fn lower_hex(n: nat) -> Seq<char>
    decreases n,
{
    if n < 16 {
        seq![HEX_DIGITS@[n as int]]
    } else {
        lower_hex(n / 16).push(HEX_DIGITS@[(n % 16) as int])
    }
}

/// Appends `n` in lower-case hexadecimal notation to `out`.
fn append_lower_hex(out: &mut String, n: u16)
    ensures
        final(out)@ == old(out)@ + lower_hex(n as nat),
    decreases n,
{
    if n >= 16 {
        append_lower_hex(out, n / 16);
    }
    let d: usize = (n % 16) as usize;
    proof {
        reveal_strlit("0123456789abcdef");
    }
    let digit = HEX_DIGITS.substring_ascii(d, d + 1);
    out.append(digit);
}

impl DecodeError {
    /// The fixed description of each kind of error.
    pub open spec fn description_text(self) -> Seq<char> {
        match self {
            DecodeError::MissingValue => "Unexpected null for non-null column"@,
            DecodeError::Truncated => "failed to fill whole buffer"@,
            DecodeError::InvalidSign(_) => "sign for numeric field was not one of 0, 0x4000, 0xC000"@,
        }
    }

    /// The text shown for an error: for an invalid sign the offending field
    /// in hexadecimal, for the other kinds their description.
    pub open spec fn message_text(self) -> Seq<char> {
        match self {
            DecodeError::InvalidSign(raw) => "InvalidNumericSign("@ + lower_hex(raw as nat) + ")"@,
            _ => self.description_text(),
        }
    }

    /// A short description of the kind of error, the same for every error of
    /// that kind.
    pub fn description(&self) -> (text: &'static str)
        ensures
            text@ == self.description_text(),
    {
        match self {
            DecodeError::MissingValue => "Unexpected null for non-null column",
            DecodeError::Truncated => "failed to fill whole buffer",
            DecodeError::InvalidSign(_) => "sign for numeric field was not one of 0, 0x4000, 0xC000",
        }
    }

    /// The text to show for this error.
    pub fn message(&self) -> (text: String)
        ensures
            text@ == self.message_text(),
    {
        match self {
            DecodeError::InvalidSign(raw) => {
                let mut text = String::from_str("InvalidNumericSign(");
                append_lower_hex(&mut text, *raw);
                text.append(")");
                text
            },
            _ => String::from_str(self.description()),
        }
    }
}

} // verus!
