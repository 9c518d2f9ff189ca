use pg_numeric_wire::error::{DecodeError, IsNull};

#[test]
fn invalid_sign_is_shown_in_lower_case_hexadecimal() {
    assert_eq!(DecodeError::InvalidSign(0x1234).message(), "InvalidNumericSign(1234)");
    assert_eq!(DecodeError::InvalidSign(0xBEEF).message(), "InvalidNumericSign(beef)");
    assert_eq!(DecodeError::InvalidSign(0x00A0).message(), "InvalidNumericSign(a0)");
    assert_eq!(DecodeError::InvalidSign(1).message(), "InvalidNumericSign(1)");
    assert_eq!(DecodeError::InvalidSign(0).message(), "InvalidNumericSign(0)");
}

#[test]
fn invalid_sign_message_agrees_with_std_for_every_value() {
    for raw in 0..=u16::MAX {
        assert_eq!(
            DecodeError::InvalidSign(raw).message(),
            format!("InvalidNumericSign({:x})", raw)
        );
    }
}

#[test]
fn descriptions_are_fixed_per_kind() {
    assert_eq!(
        DecodeError::InvalidSign(0x1234).description(),
        "sign for numeric field was not one of 0, 0x4000, 0xC000"
    );
    assert_eq!(
        DecodeError::InvalidSign(7).description(),
        DecodeError::InvalidSign(8).description()
    );
    assert_eq!(DecodeError::MissingValue.description(), "Unexpected null for non-null column");
    assert_eq!(DecodeError::Truncated.description(), "failed to fill whole buffer");
}

#[test]
fn other_kinds_are_shown_by_their_description() {
    assert_eq!(DecodeError::MissingValue.message(), DecodeError::MissingValue.description());
    assert_eq!(DecodeError::Truncated.message(), DecodeError::Truncated.description());
}

#[test]
fn null_marker_has_two_distinct_values() {
    assert_ne!(IsNull::Yes, IsNull::No);
}
