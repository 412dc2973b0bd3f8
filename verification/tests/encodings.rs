use polkaregistry::decimal::encode_decimal;
use polkaregistry::hex::{encode_hex, encode_prefixed_hex};
use sp_core::hexdisplay::HexDisplay;

#[test]
fn hex_of_no_bytes_is_empty() {
    assert_eq!(encode_hex(&[]), "");
    assert_eq!(encode_prefixed_hex(&[]), "0x");
}

#[test]
fn hex_is_lower_case_two_digits_a_byte_in_order() {
    assert_eq!(encode_hex(&[0x00]), "00");
    assert_eq!(encode_hex(&[0x0a]), "0a");
    assert_eq!(encode_hex(&[0xa0]), "a0");
    assert_eq!(encode_hex(&[0xff]), "ff");
    assert_eq!(encode_hex(&[0x01, 0x23, 0x45, 0x67, 0x89, 0xab, 0xcd, 0xef]), "0123456789abcdef");
    assert_eq!(encode_prefixed_hex(&[0xde, 0xad, 0xbe, 0xef]), "0xdeadbeef");
}

#[test]
fn hex_of_every_byte() {
    for value in 0..=255u8 {
        assert_eq!(encode_hex(&[value]), format!("{:02x}", value));
    }
}

#[test]
fn hex_agrees_with_hex_display() {
    let mut bytes = Vec::new();
    for i in 0..2000u32 {
        bytes.push((i * 7 + 3) as u8);
    }
    assert_eq!(encode_hex(&bytes), format!("{:?}", HexDisplay::from(&bytes)));
    let signature = [0x5au8; 64];
    let text = encode_prefixed_hex(&signature);
    assert_eq!(text, format!("0x{:?}", HexDisplay::from(&signature)));
    assert_eq!(text.len(), 130);
}

#[test]
fn decimal_has_no_leading_zeros() {
    assert_eq!(encode_decimal(0), "0");
    assert_eq!(encode_decimal(2), "2");
    assert_eq!(encode_decimal(10), "10");
    assert_eq!(encode_decimal(42), "42");
    assert_eq!(encode_decimal(1000), "1000");
    assert_eq!(encode_decimal(16383), "16383");
    assert_eq!(encode_decimal(65535), "65535");
}
