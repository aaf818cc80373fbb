use wasm_decoder::parser::varint::encode_varuint;
use wasm_decoder::parser::{ParseError, Parser};

fn decode_varuint(bytes: Vec<u8>, max_bits: u32) -> Result<(u64, u64), ParseError> {
    let mut p = Parser::new(bytes);
    p.read_varuint_len(max_bits)
}

fn decode_varint(bytes: Vec<u8>, max_bits: u32) -> Result<(i64, u64), ParseError> {
    let mut p = Parser::new(bytes);
    p.read_varint_len(max_bits)
}

#[test]
fn varuint_round_trips_within_width() {
    let cases: [(u64, u32); 10] = [
        (0, 7),
        (1, 7),
        (127, 7),
        (128, 32),
        (300, 32),
        (624485, 32),
        (0xFFFF_FFFF, 32),
        (0xFFFF_FFFF_FFFF_FFFF, 64),
        (1 << 62, 64),
        (42, 64),
    ];
    for (value, bits) in cases {
        let encoded = encode_varuint(value);
        let len = encoded.len() as u64;
        let (decoded, consumed) = decode_varuint(encoded, bits).unwrap();
        assert_eq!(decoded, value);
        assert_eq!(consumed, len);
    }
}

#[test]
fn varuint_reports_bytes_consumed() {
    // 624485 encodes as e5 8e 26
    let mut p = Parser::new(vec![0xe5, 0x8e, 0x26, 0xaa]);
    let (v, n) = p.read_varuint_len(32).unwrap();
    assert_eq!(v, 624485);
    assert_eq!(n, 3);
    assert_eq!(p.get_current_offset(), 3);
}

#[test]
fn varuint_too_long_when_encoding_exceeds_width_budget() {
    // 128 needs two bytes: more than the single byte a 7-bit width allows
    let encoded = encode_varuint(128);
    assert_eq!(decode_varuint(encoded, 7), Err(ParseError::VarintTooLong));
    // six continuation bytes exceed the five a 32-bit width allows
    let bytes = vec![0x80, 0x80, 0x80, 0x80, 0x80, 0x01];
    assert_eq!(decode_varuint(bytes, 32), Err(ParseError::VarintTooLong));
}

#[test]
fn varuint_eof_inside_value() {
    assert_eq!(decode_varuint(vec![0x80], 32), Err(ParseError::UnexpectedEof));
    assert_eq!(decode_varuint(vec![], 32), Err(ParseError::UnexpectedEof));
}

#[test]
fn varint_single_byte_minus_one() {
    let (v, n) = decode_varint(vec![0x7f], 7).unwrap();
    assert_eq!(v, -1);
    assert_eq!(n, 1);
}

#[test]
fn varint_single_byte_zero() {
    let (v, n) = decode_varint(vec![0x00], 7).unwrap();
    assert_eq!(v, 0);
    assert_eq!(n, 1);
}

#[test]
fn varint_sign_extension_across_byte_boundary() {
    // -128 in signed LEB128 is 80 7f
    let (v, n) = decode_varint(vec![0x80, 0x7f], 32).unwrap();
    assert_eq!(v, -128);
    assert_eq!(n, 2);
}

#[test]
fn varint_positive_values() {
    let (v, _) = decode_varint(vec![0x3f], 32).unwrap();
    assert_eq!(v, 63);
    // 64 needs two bytes in signed LEB128: c0 00
    let (v, n) = decode_varint(vec![0xc0, 0x00], 32).unwrap();
    assert_eq!(v, 64);
    assert_eq!(n, 2);
}

#[test]
fn varint_too_long() {
    assert_eq!(decode_varint(vec![0x80, 0x80], 7), Err(ParseError::VarintTooLong));
}

#[test]
fn varuint32_truncates_to_32_bits() {
    // five bytes carrying 35 significant bits: the top bits fall away
    let mut p = Parser::new(vec![0x80, 0x80, 0x80, 0x80, 0x7f]);
    let v = p.read_varuint32().unwrap();
    assert_eq!(v, 0xF000_0000u32);
}

#[test]
fn encode_varuint_minimal_forms() {
    assert_eq!(encode_varuint(0), vec![0x00]);
    assert_eq!(encode_varuint(127), vec![0x7f]);
    assert_eq!(encode_varuint(128), vec![0x80, 0x01]);
    assert_eq!(encode_varuint(624485), vec![0xe5, 0x8e, 0x26]);
}
