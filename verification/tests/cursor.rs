use pg_numeric_wire::cursor::{write_i16, write_u16, write_u32, write_u64, ByteReader};
use pg_numeric_wire::error::DecodeError;

#[test]
fn reader_walks_the_buffer_field_by_field() {
    let bytes = [
        0x02, 0x05, 0xFF, 0x7C, 0xDE, 0xAD, 0xBE, 0xEF, 0x01, 0x23, 0x45, 0x67, 0x89, 0xAB, 0xCD,
        0xEF, 0x42,
    ];
    let mut reader = ByteReader::new(&bytes);
    assert_eq!(reader.remaining_len(), 17);
    assert_eq!(reader.read_u16(), Ok(517));
    assert_eq!(reader.remaining_len(), 15);
    assert_eq!(reader.read_i16(), Ok(-132));
    assert_eq!(reader.read_u32(), Ok(0xDEAD_BEEF));
    assert_eq!(reader.read_u64(), Ok(0x0123_4567_89AB_CDEF));
    assert_eq!(reader.remaining_len(), 1);
}

#[test]
fn reader_fails_without_moving_when_too_little_is_left() {
    let bytes = [0x00, 0xC1, 0x03];
    let mut reader = ByteReader::new(&bytes);
    assert_eq!(reader.read_u64(), Err(DecodeError::Truncated));
    assert_eq!(reader.read_u32(), Err(DecodeError::Truncated));
    assert_eq!(reader.remaining_len(), 3);
    assert_eq!(reader.read_i16(), Ok(193));
    assert_eq!(reader.read_u16(), Err(DecodeError::Truncated));
    assert_eq!(reader.read_i16(), Err(DecodeError::Truncated));
    assert_eq!(reader.remaining_len(), 1);
}

#[test]
fn reader_on_an_empty_buffer_reads_nothing() {
    let mut reader = ByteReader::new(&[]);
    assert_eq!(reader.remaining_len(), 0);
    assert_eq!(reader.read_u16(), Err(DecodeError::Truncated));
}

#[test]
fn writers_append_most_significant_byte_first() {
    let mut out = Vec::new();
    write_u16(&mut out, 517);
    write_i16(&mut out, -132);
    write_u32(&mut out, 0xDEAD_BEEF);
    write_u64(&mut out, 0x0123_4567_89AB_CDEF);
    assert_eq!(
        out,
        vec![
            0x02, 0x05, 0xFF, 0x7C, 0xDE, 0xAD, 0xBE, 0xEF, 0x01, 0x23, 0x45, 0x67, 0x89, 0xAB,
            0xCD, 0xEF
        ]
    );
}

#[test]
fn every_u16_round_trips_through_writer_and_reader() {
    for n in 0..=u16::MAX {
        let mut out = Vec::new();
        write_u16(&mut out, n);
        assert_eq!(out, vec![(n >> 8) as u8, (n & 0xFF) as u8]);
        assert_eq!(ByteReader::new(&out).read_u16(), Ok(n));
    }
}

#[test]
fn every_i16_round_trips_through_writer_and_reader() {
    for n in i16::MIN..=i16::MAX {
        let mut out = Vec::new();
        write_i16(&mut out, n);
        assert_eq!(out, n.to_be_bytes().to_vec());
        assert_eq!(ByteReader::new(&out).read_i16(), Ok(n));
    }
}
