//! Text helpers: hex rendering, the log shortener, decimal rendering,
//! and big-endian words.

use poly_settle::bytesutil::{contains_bytes, u64_to_be32, word32_is_zero, word32_min};
use poly_settle::hexfmt::{hex_bytes_0x, short_hex, to_hex_0x, u64_dec_bytes};

#[test]
fn hex_rendering_is_lowercase_with_prefix() {
    assert_eq!(to_hex_0x(&vec![]), "0x");
    assert_eq!(to_hex_0x(&vec![0x00, 0xff, 0x1a]), "0x00ff1a");
    assert_eq!(hex_bytes_0x(&vec![0xde, 0xad]), b"0xdead".to_vec());
}

#[test]
fn short_hex_keeps_head_and_tail() {
    assert_eq!(
        short_hex("0x1234567890abcdef1234567890abcdef12345678"),
        "0x12345678..345678"
    );
    assert_eq!(
        short_hex("1234567890abcdef1234567890abcdef12345678"),
        "0x12345678..345678"
    );
}

#[test]
fn short_hex_short_inputs_only_gain_the_prefix() {
    assert_eq!(short_hex("0xabcd"), "0xabcd");
    assert_eq!(short_hex("abcd"), "0xabcd");
    assert_eq!(short_hex(""), "0x");
    assert_eq!(short_hex("12345678901234"), "0x12345678901234");
    assert_eq!(short_hex("123456789012345"), "0x12345678..012345");
}

#[test]
fn decimal_rendering_matches_the_standard_library() {
    for n in [0u64, 7, 10, 160000, 1700000000123, u64::MAX] {
        assert_eq!(u64_dec_bytes(n), n.to_string().into_bytes());
    }
}

#[test]
fn big_endian_words_round_trip() {
    let w = u64_to_be32(0x0102030405060708);
    assert_eq!(w.len(), 32);
    assert_eq!(&w[..24], &[0u8; 24]);
    assert_eq!(&w[24..], &[1, 2, 3, 4, 5, 6, 7, 8]);
    assert!(word32_is_zero(&u64_to_be32(0)));
    assert!(!word32_is_zero(&w));
}

#[test]
fn word_minimum_is_by_value() {
    let a = u64_to_be32(50);
    let b = u64_to_be32(30);
    assert_eq!(word32_min(&a, &b), b);
    assert_eq!(word32_min(&b, &a), b);
    assert_eq!(word32_min(&a, &a), a);
}

#[test]
fn substring_search_finds_runs() {
    assert!(contains_bytes(&b"execution reverted".to_vec(), &b"revert".to_vec()));
    assert!(!contains_bytes(&b"connection refused".to_vec(), &b"revert".to_vec()));
    assert!(contains_bytes(&b"abc".to_vec(), &b"".to_vec()));
    assert!(!contains_bytes(&b"ab".to_vec(), &b"abc".to_vec()));
}
