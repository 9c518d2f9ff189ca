use pg_numeric_wire::error::{DecodeError, IsNull};
use pg_numeric_wire::floats::{double_from_sql, double_to_sql, float_from_sql, float_to_sql};

fn encode_f32(value: f32) -> Vec<u8> {
    let mut out = Vec::new();
    assert_eq!(float_to_sql(value.to_bits(), &mut out), IsNull::No);
    out
}

fn encode_f64(value: f64) -> Vec<u8> {
    let mut out = Vec::new();
    assert_eq!(double_to_sql(value.to_bits(), &mut out), IsNull::No);
    out
}

#[test]
fn float_one_is_3f800000() {
    assert_eq!(encode_f32(1.0), vec![0x3F, 0x80, 0x00, 0x00]);
    let decoded = float_from_sql(Some(&[0x3F, 0x80, 0x00, 0x00])).unwrap();
    assert_eq!(f32::from_bits(decoded), 1.0);
}

#[test]
fn double_one_is_3ff0000000000000() {
    assert_eq!(encode_f64(1.0), vec![0x3F, 0xF0, 0, 0, 0, 0, 0, 0]);
    let decoded = double_from_sql(Some(&[0x3F, 0xF0, 0, 0, 0, 0, 0, 0])).unwrap();
    assert_eq!(f64::from_bits(decoded), 1.0);
}

#[test]
fn float_bytes_are_most_significant_first() {
    let mut out = Vec::new();
    float_to_sql(0x0102_0304, &mut out);
    assert_eq!(out, vec![1, 2, 3, 4]);
    assert_eq!(float_from_sql(Some(&[1, 2, 3, 4])), Ok(0x0102_0304));
}

#[test]
fn double_bytes_are_most_significant_first() {
    let mut out = Vec::new();
    double_to_sql(0x0102_0304_0506_0708, &mut out);
    assert_eq!(out, vec![1, 2, 3, 4, 5, 6, 7, 8]);
    assert_eq!(double_from_sql(Some(&[1, 2, 3, 4, 5, 6, 7, 8])), Ok(0x0102_0304_0506_0708));
}

#[test]
fn float_special_values_round_trip_bit_for_bit() {
    let values = [
        f32::NAN,
        -f32::NAN,
        f32::INFINITY,
        f32::NEG_INFINITY,
        0.0,
        -0.0,
        f32::MIN_POSITIVE,
        f32::from_bits(1),
        f32::from_bits(0x7FC0_1234),
        f32::from_bits(0x7F80_0001),
        f32::MAX,
        f32::MIN,
        -5000.25,
    ];
    for value in values {
        let wire = encode_f32(value);
        assert_eq!(wire.len(), 4);
        assert_eq!(float_from_sql(Some(&wire)), Ok(value.to_bits()));
    }
}

#[test]
fn double_special_values_round_trip_bit_for_bit() {
    let values = [
        f64::NAN,
        -f64::NAN,
        f64::INFINITY,
        f64::NEG_INFINITY,
        0.0,
        -0.0,
        f64::MIN_POSITIVE,
        f64::from_bits(1),
        f64::from_bits(0x7FF8_0000_0000_1234),
        f64::from_bits(0x7FF0_0000_0000_0001),
        f64::MAX,
        f64::MIN,
        -5000.25,
    ];
    for value in values {
        let wire = encode_f64(value);
        assert_eq!(wire.len(), 8);
        assert_eq!(double_from_sql(Some(&wire)), Ok(value.to_bits()));
    }
}

#[test]
fn float_bit_patterns_round_trip() {
    let mut bits: u32 = 0;
    for _ in 0..10_000 {
        let mut out = Vec::new();
        float_to_sql(bits, &mut out);
        assert_eq!(out, bits.to_be_bytes().to_vec());
        assert_eq!(float_from_sql(Some(&out)), Ok(bits));
        bits = bits.wrapping_mul(1_664_525).wrapping_add(1_013_904_223);
    }
}

#[test]
fn double_bit_patterns_round_trip() {
    let mut bits: u64 = 0;
    for _ in 0..10_000 {
        let mut out = Vec::new();
        double_to_sql(bits, &mut out);
        assert_eq!(out, bits.to_be_bytes().to_vec());
        assert_eq!(double_from_sql(Some(&out)), Ok(bits));
        bits = bits.wrapping_mul(6_364_136_223_846_793_005).wrapping_add(1_442_695_040_888_963_407);
    }
}

#[test]
fn float_missing_buffer_is_missing_value() {
    assert_eq!(float_from_sql(None), Err(DecodeError::MissingValue));
}

#[test]
fn double_missing_buffer_is_missing_value() {
    assert_eq!(double_from_sql(None), Err(DecodeError::MissingValue));
}

#[test]
fn float_short_buffer_is_truncated() {
    let wire = [0x3F, 0x80, 0x00, 0x00];
    for len in 0..4 {
        assert_eq!(float_from_sql(Some(&wire[..len])), Err(DecodeError::Truncated));
    }
}

#[test]
fn double_short_buffer_is_truncated() {
    let wire = [0x3F, 0xF0, 0, 0, 0, 0, 0, 0];
    for len in 0..8 {
        assert_eq!(double_from_sql(Some(&wire[..len])), Err(DecodeError::Truncated));
    }
}

#[test]
fn float_ignores_what_follows_its_four_bytes() {
    assert_eq!(float_from_sql(Some(&[0x3F, 0x80, 0, 0, 0xAA, 0xBB])), Ok(0x3F80_0000));
}

#[test]
fn double_ignores_what_follows_its_eight_bytes() {
    let wire = [0x3F, 0xF0, 0, 0, 0, 0, 0, 0, 0xAA];
    assert_eq!(double_from_sql(Some(&wire)), Ok(0x3FF0_0000_0000_0000));
}

#[test]
fn float_encoding_appends_to_the_sink() {
    let mut out = vec![9, 9];
    float_to_sql(1.0f32.to_bits(), &mut out);
    double_to_sql(1.0f64.to_bits(), &mut out);
    assert_eq!(out, vec![9, 9, 0x3F, 0x80, 0, 0, 0x3F, 0xF0, 0, 0, 0, 0, 0, 0]);
}
