use otp_auth::hexcode::{hex_decode, hex_encode};

#[test]
fn bytes_are_written_in_lower_case_high_half_first() {
    assert_eq!(hex_encode(&[]), "");
    assert_eq!(hex_encode(&[0x00]), "00");
    assert_eq!(hex_encode(&[0x0f]), "0f");
    assert_eq!(hex_encode(&[0xf0]), "f0");
    assert_eq!(hex_encode(&[1, 2, 3, 15, 16]), "0102030f10");
    assert_eq!(hex_encode(b"Hello world!"), "48656c6c6f20776f726c6421");
    assert_eq!(hex_encode(&[0xde, 0xad, 0xbe, 0xef, 0xff]), "deadbeefff");
}

#[test]
fn digits_of_either_case_are_read() {
    assert_eq!(hex_decode(b""), Some(vec![]));
    assert_eq!(hex_decode(b"48656c6c6f20776f726c6421"), Some(b"Hello world!".to_vec()));
    assert_eq!(hex_decode(b"DEADbeefFf"), Some(vec![0xde, 0xad, 0xbe, 0xef, 0xff]));
    assert_eq!(hex_decode(b"0a10"), Some(vec![10, 16]));
}

#[test]
fn text_that_is_not_pairs_of_digits_is_refused() {
    for bad in ["1", "123", "foo", "0g", "g0", "0 ", " 0", "0x10", "12:34", "\u{e9}"] {
        assert_eq!(hex_decode(bad.as_bytes()), None, "{:?}", bad);
    }
    assert_eq!(hex_decode(&[0x2f, 0x30]), None);
    assert_eq!(hex_decode(&[0x3a, 0x30]), None);
    assert_eq!(hex_decode(&[0x40, 0x41]), None);
    assert_eq!(hex_decode(&[0x47, 0x41]), None);
    assert_eq!(hex_decode(&[0x60, 0x61]), None);
    assert_eq!(hex_decode(&[0x67, 0x61]), None);
    assert_eq!(hex_decode(&[0xff, 0xff]), None);
}

#[test]
fn every_byte_comes_back() {
    let all: Vec<u8> = (0u8..=255).collect();
    let text = hex_encode(&all);
    assert_eq!(text.len(), 512);
    assert_eq!(hex_decode(text.as_bytes()), Some(all.clone()));
    assert_eq!(hex_decode(text.to_uppercase().as_bytes()), Some(all));
}

#[test]
fn encoding_and_decoding_agree_with_the_hex_crate() {
    let all: Vec<u8> = (0u8..=255).rev().collect();
    assert_eq!(hex_encode(&all), hex::encode(&all));
    for text in ["", "00ff", "AbCd", "abc", "zz", "0102030F10"] {
        assert_eq!(hex_decode(text.as_bytes()), hex::decode(text).ok(), "{:?}", text);
    }
}
