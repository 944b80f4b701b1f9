use bitcoin_data_structures::errors::DecodeError;
use bitcoin_data_structures::hex::{from_hex, to_hex};

#[test]
fn test_from_hex() {
    assert_eq!(from_hex("00"), Ok(vec![0x00]));
    assert_eq!(from_hex("aabb"), Ok(vec![0xaa, 0xbb]));
    assert_eq!(from_hex("000"), Err(DecodeError::MalformedHex));
    assert_eq!(from_hex("0x"), Err(DecodeError::MalformedHex));
}

#[test]
fn test_to_hex() {
    assert_eq!(to_hex(&vec![0xAA, 0xBB]), String::from("aabb"));
    assert_eq!(to_hex(&vec![0x00]), String::from("00"));
    assert_eq!(to_hex(&vec![0x99, 0xFF]), String::from("99ff"));
}

#[test]
fn test_from_hex_rejects_non_digit() {
    assert_eq!(from_hex("0g"), Err(DecodeError::MalformedHex));
    assert_eq!(from_hex("0"), Err(DecodeError::MalformedHex));
    assert_eq!(from_hex("zz"), Err(DecodeError::MalformedHex));
}

#[test]
fn test_from_hex_accepts_uppercase() {
    assert_eq!(from_hex("AABB"), Ok(vec![0xaa, 0xbb]));
    assert_eq!(from_hex("AaBb"), Ok(vec![0xaa, 0xbb]));
}

#[test]
fn test_from_hex_empty() {
    assert_eq!(from_hex(""), Ok(vec![]));
    assert_eq!(to_hex(&vec![]), String::new());
}

#[test]
fn test_hex_round_trip() {
    let mut all: Vec<u8> = Vec::new();
    for b in 0..=255u8 {
        all.push(b);
    }
    assert_eq!(from_hex(&to_hex(&all)), Ok(all));
}

#[test]
fn test_hex_encode_after_decode_lowercases() {
    let decoded = from_hex("DeAdBeEf").unwrap();
    assert_eq!(to_hex(&decoded), String::from("deadbeef"));
}
