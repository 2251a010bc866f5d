use pqc_shim::decode_hex;
use pqc_shim::encode_hex;
use pqc_shim::PqcError;

#[test]
fn encode_basic() {
    assert_eq!(encode_hex(&[]), "");
    assert_eq!(encode_hex(&[0x00]), "00");
    assert_eq!(encode_hex(&[0xff, 0x00]), "ff00");
    assert_eq!(encode_hex(&[0x01, 0x23, 0x45, 0x67, 0x89, 0xab, 0xcd, 0xef]), "0123456789abcdef");
}

#[test]
fn encode_matches_reference_encoder() {
    let bytes: Vec<u8> = (0u16..=255).map(|b| b as u8).collect();
    assert_eq!(encode_hex(&bytes), hex::encode(&bytes));
}

#[test]
fn decode_basic() {
    assert_eq!(decode_hex(""), Ok(vec![]));
    assert_eq!(decode_hex("00"), Ok(vec![0x00]));
    assert_eq!(decode_hex("ff00"), Ok(vec![0xff, 0x00]));
    assert_eq!(decode_hex("0123456789abcdef"), Ok(vec![0x01, 0x23, 0x45, 0x67, 0x89, 0xab, 0xcd, 0xef]));
}

#[test]
fn decode_accepts_upper_case() {
    assert_eq!(decode_hex("0A1B"), Ok(vec![0x0a, 0x1b]));
    assert_eq!(decode_hex("DEADBEEF"), Ok(vec![0xde, 0xad, 0xbe, 0xef]));
}

#[test]
fn decode_rejects_odd_length() {
    assert_eq!(decode_hex("abc"), Err(PqcError::InvalidHex));
    assert_eq!(decode_hex("0"), Err(PqcError::InvalidHex));
}

#[test]
fn decode_rejects_non_hex() {
    assert_eq!(decode_hex("0g"), Err(PqcError::InvalidHex));
    assert_eq!(decode_hex("zz"), Err(PqcError::InvalidHex));
    assert_eq!(decode_hex("12 4"), Err(PqcError::InvalidHex));
    assert_eq!(decode_hex("00\u{e9}1"), Err(PqcError::InvalidHex));
}

#[test]
fn round_trip_all_byte_values() {
    let bytes: Vec<u8> = (0u16..=255).map(|b| b as u8).collect();
    assert_eq!(decode_hex(&encode_hex(&bytes)), Ok(bytes));
}
