//! The digit strings and the structured payload encoding, on their own.

use tagify::digits;
use tagify::my_cookie_policy::{CookieValue, decode_cookie_value, encode_cookie_value};

#[test]
fn hex_digits_fixed_width() {
    let v = digits::hex_chars(0x1f, 16);
    let s: String = v.into_iter().collect();
    assert_eq!(s, "000000000000001f");
    let v = digits::hex_chars(u64::MAX, 16);
    let s: String = v.into_iter().collect();
    assert_eq!(s, "ffffffffffffffff");
}

#[test]
fn hex_value_reads_back() {
    let v: Vec<char> = "00000000deadbeef".chars().collect();
    assert_eq!(digits::hex16_value_at(&v, 0), Some(0xdead_beef));
    let v: Vec<char> = "00000000deadbeeX".chars().collect();
    assert_eq!(digits::hex16_value_at(&v, 0), None);
}

#[test]
fn dec_digits_print() {
    let v = digits::dec_chars(0);
    let s: String = v.into_iter().collect();
    assert_eq!(s, "0");
    let v = digits::dec_chars(10230);
    let s: String = v.into_iter().collect();
    assert_eq!(s, "10230");
}

#[test]
fn parse_u32_cases() {
    let chars = |s: &str| s.chars().collect::<Vec<char>>();
    assert_eq!(digits::parse_u32_chars(&chars("0")), Some(0));
    assert_eq!(digits::parse_u32_chars(&chars("00012")), Some(12));
    assert_eq!(digits::parse_u32_chars(&chars("4294967295")), Some(u32::MAX));
    assert_eq!(digits::parse_u32_chars(&chars("4294967296")), None);
    assert_eq!(digits::parse_u32_chars(&chars("")), None);
    assert_eq!(digits::parse_u32_chars(&chars("12a")), None);
    assert_eq!(digits::parse_u32_chars(&chars("-3")), None);
}

#[test]
fn payload_encoding_round_trips() {
    let cases = vec![
        CookieValue {
            identity: "alice".to_string(),
            login_timestamp: Some(0),
            visit_timestamp: Some(u64::MAX),
        },
        CookieValue {
            identity: "".to_string(),
            login_timestamp: None,
            visit_timestamp: Some(7),
        },
        CookieValue {
            identity: "dots.and.T1.headers".to_string(),
            login_timestamp: None,
            visit_timestamp: None,
        },
        CookieValue {
            identity: "snowman ☃ und Grüße".to_string(),
            login_timestamp: Some(1_600_000_000),
            visit_timestamp: None,
        },
    ];
    for v in cases {
        let encoded = encode_cookie_value(&v);
        let decoded = decode_cookie_value(&encoded).expect("decode failed");
        assert_eq!(decoded.identity, v.identity);
        assert_eq!(decoded.login_timestamp, v.login_timestamp);
        assert_eq!(decoded.visit_timestamp, v.visit_timestamp);
    }
}

#[test]
fn payload_encoding_shape() {
    let v = CookieValue {
        identity: "bob".to_string(),
        login_timestamp: Some(0x1f),
        visit_timestamp: None,
    };
    let encoded = encode_cookie_value(&v);
    assert_eq!(encoded, "T110000000000000001f0000000000000000bob");
}

#[test]
fn payload_decoding_rejects_junk() {
    assert!(decode_cookie_value("").is_none());
    assert!(decode_cookie_value("alice").is_none());
    assert!(decode_cookie_value("T11000000000000001f0000000000000000").is_none());
    assert!(decode_cookie_value("X110000000000000001f0000000000000000bob").is_none());
    assert!(decode_cookie_value("T120000000000000001f0000000000000000bob").is_none());
    assert!(decode_cookie_value("T11000000000000000Xf0000000000000000bob").is_none());
}
