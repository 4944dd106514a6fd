use soundfont_synth::binary::{BinaryReader, ByteCursor, ReadCounter, ReadError};

#[test]
fn read_u8_and_i8() {
    let mut c = ByteCursor::new(vec![0x7f, 0x80]);
    assert_eq!(BinaryReader::read_u8(&mut c).unwrap(), 0x7f);
    assert_eq!(BinaryReader::read_i8(&mut c).unwrap(), -128);
    assert!(matches!(
        BinaryReader::read_u8(&mut c),
        Err(ReadError::UnexpectedEndOfStream)
    ));
}

#[test]
fn read_u16_little_endian() {
    let mut c = ByteCursor::new(vec![0x34, 0x12]);
    assert_eq!(BinaryReader::read_u16(&mut c).unwrap(), 0x1234);
}

#[test]
fn read_i16_negative() {
    let mut c = ByteCursor::new(vec![0xff, 0xff]);
    assert_eq!(BinaryReader::read_i16(&mut c).unwrap(), -1);
}

#[test]
fn read_u32_little_endian() {
    let mut c = ByteCursor::new(vec![0x78, 0x56, 0x34, 0x12]);
    assert_eq!(BinaryReader::read_u32(&mut c).unwrap(), 0x12345678);
}

#[test]
fn read_i32_big_endian() {
    let mut c = ByteCursor::new(vec![0x12, 0x34, 0x56, 0x78]);
    assert_eq!(BinaryReader::read_i32_big_endian(&mut c).unwrap(), 0x12345678);
}

#[test]
fn read_i16_big_endian() {
    let mut c = ByteCursor::new(vec![0x12, 0x34]);
    assert_eq!(BinaryReader::read_i16_big_endian(&mut c).unwrap(), 0x1234);
}

#[test]
fn read_variable_length_single_byte() {
    let mut c = ByteCursor::new(vec![0x40]);
    assert_eq!(BinaryReader::read_i32_variable_length(&mut c).unwrap(), 0x40);
}

#[test]
fn read_variable_length_two_bytes() {
    // 0x81 0x00 encodes 128.
    let mut c = ByteCursor::new(vec![0x81, 0x00]);
    assert_eq!(BinaryReader::read_i32_variable_length(&mut c).unwrap(), 128);
}

#[test]
fn read_variable_length_too_long() {
    let mut c = ByteCursor::new(vec![0x80, 0x80, 0x80, 0x80, 0x00]);
    assert!(matches!(
        BinaryReader::read_i32_variable_length(&mut c),
        Err(ReadError::VariableLengthValueTooLong)
    ));
}

#[test]
fn fixed_length_string_stops_at_nul() {
    let mut c = ByteCursor::new(vec![b'P', b'a', b'd', 0, b'x', b'y', b'z', b'w']);
    let s = BinaryReader::read_fixed_length_string(&mut c, 8).unwrap();
    assert_eq!(s, b"Pad".to_vec());
    // The whole field is consumed even past the NUL.
    assert_eq!(c.position(), 8);
}

#[test]
fn fixed_length_string_replaces_unprintable() {
    let mut c = ByteCursor::new(vec![b'A', 0x01, 0xff, b'B']);
    let s = BinaryReader::read_fixed_length_string(&mut c, 4).unwrap();
    assert_eq!(s, vec![b'A', b'?', b'?', b'B']);
}

#[test]
fn wave_data_pairs_bytes() {
    let mut c = ByteCursor::new(vec![0x01, 0x00, 0xff, 0xff, 0x00, 0x80]);
    let w = BinaryReader::read_wave_data(&mut c, 6).unwrap();
    assert_eq!(w, vec![1, -1, i16::MIN]);
}

#[test]
fn discard_data_skips() {
    let mut c = ByteCursor::new(vec![1, 2, 3, 4]);
    BinaryReader::discard_data(&mut c, 3).unwrap();
    assert_eq!(c.position(), 3);
    assert!(matches!(
        BinaryReader::discard_data(&mut c, 2),
        Err(ReadError::UnexpectedEndOfStream)
    ));
}

#[test]
fn read_counter_counts() {
    let mut c = ByteCursor::new(vec![1, 2, 3, 4, 5]);
    BinaryReader::read_u8(&mut c).unwrap();
    let counter = ReadCounter::new(&c);
    BinaryReader::read_u16(&mut c).unwrap();
    assert_eq!(counter.bytes_read(&c), 2);
}
