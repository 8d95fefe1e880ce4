use printerx::error::ErrorKind;
use printerx::hex::{decode_hex, encode_hex};

#[test]
fn decodes_even_hex_string() {
    let bytes = decode_hex("1B40").unwrap();
    assert_eq!(bytes, vec![0x1Bu8, 0x40]);
}

#[test]
fn decodes_lower_and_upper_case() {
    assert_eq!(decode_hex("ab").unwrap(), vec![0xABu8]);
    assert_eq!(decode_hex("AB").unwrap(), vec![0xABu8]);
    assert_eq!(decode_hex("aB").unwrap(), vec![0xABu8]);
    assert_eq!(decode_hex("09afAF").unwrap(), vec![0x09u8, 0xAF, 0xAF]);
}

#[test]
fn decodes_with_interspersed_whitespace() {
    let bytes = decode_hex(" 1B 40\r\n1d\t56 ").unwrap();
    assert_eq!(bytes, vec![0x1Bu8, 0x40, 0x1D, 0x56]);
}

#[test]
fn decodes_empty_and_whitespace_only_input() {
    assert_eq!(decode_hex("").unwrap(), Vec::<u8>::new());
    assert_eq!(decode_hex(" \r\n\t").unwrap(), Vec::<u8>::new());
}

#[test]
fn rejects_odd_length_with_invalid_hex() {
    let err = decode_hex("1B4").unwrap_err();
    assert_eq!(err.kind, ErrorKind::InvalidHex);
}

#[test]
fn rejects_invalid_character_with_invalid_hex() {
    let err = decode_hex("1G").unwrap_err();
    assert_eq!(err.kind, ErrorKind::InvalidHex);
    let err = decode_hex("zz").unwrap_err();
    assert_eq!(err.kind, ErrorKind::InvalidHex);
}

#[test]
fn whitespace_does_not_hide_an_odd_payload() {
    let err = decode_hex("1 B 4").unwrap_err();
    assert_eq!(err.kind, ErrorKind::InvalidHex);
}

#[test]
fn byte_count_is_half_of_normalized_length() {
    let bytes = decode_hex("00 11 22 33 44 55 66 77").unwrap();
    assert_eq!(bytes.len(), 8);
    let bytes = decode_hex("ffff").unwrap();
    assert_eq!(bytes.len(), 2);
}

#[test]
fn encode_produces_lowercase_pairs() {
    assert_eq!(encode_hex(&vec![0x1Bu8, 0x40]), "1b40");
    assert_eq!(encode_hex(&vec![0x00u8, 0xFF, 0x0A]), "00ff0a");
    assert_eq!(encode_hex(&Vec::new()), "");
}

#[test]
fn encode_then_decode_round_trips_buffers() {
    for len in 0..=32usize {
        let mut buf: Vec<u8> = Vec::new();
        for i in 0..len {
            buf.push(((i * 37 + len * 11) % 256) as u8);
        }
        let text = encode_hex(&buf);
        assert_eq!(text.len(), 2 * len);
        let back = decode_hex(&text).unwrap();
        assert_eq!(back, buf);
    }
}
