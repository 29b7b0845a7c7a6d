use cbf_parser::DecodeError;
use cbf_parser::bitflag::{read_bitflag_i32, read_bitflag_string, read_bitflag_dump};
use cbf_parser::params::ParamName;
use cbf_parser::reader::Reader;

#[test]
fn reader_little_endian_scalars() {
    let mut r = Reader::new(vec![0x10, 0x20, 0x30, 0x40, 0xff, 0xff]);
    assert_eq!(r.read_u16().unwrap(), 0x2010);
    r.seek(0);
    assert_eq!(r.read_u32().unwrap(), 0x40302010);
    assert_eq!(r.read_i16().unwrap(), -1);
    assert_eq!(r.position(), 6);
}

#[test]
fn reader_signed_reads() {
    let mut r = Reader::new(vec![0xfe, 0xff, 0xff, 0xff, 0x80]);
    assert_eq!(r.read_i32().unwrap(), -2);
    assert_eq!(r.read_i8().unwrap(), -128);
}

#[test]
fn reader_out_of_bounds_is_fatal() {
    let mut r = Reader::new(vec![0x01, 0x02]);
    assert_eq!(r.read_u32(), Err(DecodeError::OutOfBounds));
    // A failed read leaves the cursor where it was.
    assert_eq!(r.position(), 0);
    r.seek(1);
    assert_eq!(r.read_u16(), Err(DecodeError::OutOfBounds));
}

#[test]
fn reader_null_terminated_string() {
    let mut r = Reader::new(vec![b'A', b'B', b'C', 0, b'D']);
    assert_eq!(r.read_string().unwrap(), "ABC");
    assert_eq!(r.position(), 4);
}

#[test]
fn reader_string_without_terminator_is_out_of_bounds() {
    let mut r = Reader::new(vec![b'A', b'B']);
    assert_eq!(r.read_string(), Err(DecodeError::OutOfBounds));
}

#[test]
fn reader_string_with_non_ascii_byte_is_schema_violation() {
    let mut r = Reader::new(vec![0xc3, 0xa9, 0]);
    assert_eq!(r.read_string(), Err(DecodeError::SchemaViolation));
}

#[test]
fn bitflag_clear_bit_returns_default_and_keeps_cursor() {
    let mut r = Reader::new(vec![0x10, 0x20, 0x30, 0x40]);
    let mut mask: u64 = 0b10;
    let v = read_bitflag_i32(&mut mask, &mut r, 7).unwrap();
    assert_eq!(v, 7);
    assert_eq!(r.position(), 0);
    // The bit was consumed even though it was clear.
    assert_eq!(mask, 0b1);
    let v2 = read_bitflag_i32(&mut mask, &mut r, 0).unwrap();
    assert_eq!(v2, 0x40302010);
    assert_eq!(r.position(), 4);
    assert_eq!(mask, 0);
}

#[test]
fn bitflag_string_consumes_exactly_four_bytes() {
    // Offset field points at a longer payload; only the offset is consumed
    // from the main cursor.
    let data = vec![
        8, 0, 0, 0, // offset: string lives at base + 8
        0xaa, 0xbb, 0xcc, 0xdd, // unrelated bytes
        b'H', b'E', b'L', b'L', b'O', 0,
    ];
    let mut r = Reader::new(data);
    let mut mask: u64 = 1;
    let s = read_bitflag_string(&mut mask, &mut r, 0).unwrap();
    assert_eq!(s.unwrap(), "HELLO");
    assert_eq!(r.position(), 4);
}

#[test]
fn bitflag_dump_reads_block_at_offset() {
    let data = vec![
        6, 0, 0, 0, // offset: block lives at base + 6
        0xaa, 0xbb, 1, 2, 3,
    ];
    let mut r = Reader::new(data);
    let mut mask: u64 = 1;
    let d = read_bitflag_dump(&mut mask, &mut r, 3, 0).unwrap();
    assert_eq!(d.unwrap(), vec![1, 2, 3]);
    assert_eq!(r.position(), 4);

    // A clear bit yields nothing and leaves the cursor alone.
    let mut r2 = Reader::new(vec![1, 2, 3, 4]);
    let mut mask2: u64 = 0;
    assert_eq!(read_bitflag_dump(&mut mask2, &mut r2, 3, 0).unwrap(), None);
    assert_eq!(r2.position(), 0);
}

#[test]
fn param_name_known_symbols() {
    assert_eq!(ParamName::from_string("CP_BAUDRATE"), ParamName::CP_BAUDRATE);
    assert_eq!(ParamName::from_string("CP_P2_TIMEOUT"), ParamName::CP_P2_TIMEOUT);
    assert_eq!(
        ParamName::from_string("CP_S3_TP_PHYS_TIMER"),
        ParamName::CP_S3_TP_PHYS_TIMER
    );
    assert_eq!(ParamName::CP_REQUEST_CANIDENTIFIER.as_text(), "CP_REQUEST_CANIDENTIFIER");
}

#[test]
fn param_name_unknown_symbol_is_tolerated() {
    assert_eq!(ParamName::from_string("CP_FOOBAR"), ParamName::UNKNOWN);
    assert_eq!(ParamName::from_string(""), ParamName::UNKNOWN);
}
