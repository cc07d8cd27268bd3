//! Boundary marshaling: color-key lists and text arguments.

use tic80::colors::{encode_color_keys, Colors, MAX_COLOR_KEYS};
use tic80::error::Tic80Error;
use tic80::text::{encode_text, encode_text_bytes};

#[test]
fn color_keys_empty_encodes_null() {
    let e = encode_color_keys(&[]).unwrap();
    assert_eq!(e.bytes, Vec::<u8>::new());
    assert_eq!(e.count, 0);
}

#[test]
fn color_keys_single() {
    let e = encode_color_keys(&[14]).unwrap();
    assert_eq!(e.bytes, vec![14]);
    assert_eq!(e.count, 1);
}

#[test]
fn color_keys_at_cap() {
    let keys: Vec<u8> = (0..15).collect();
    let e = encode_color_keys(&keys).unwrap();
    assert_eq!(e.bytes, keys);
    assert_eq!(e.count, 15);
}

#[test]
fn color_keys_over_cap_overflows() {
    let keys: Vec<u8> = (0..16).collect();
    assert_eq!(encode_color_keys(&keys), Err(Tic80Error::WidthOverflow));
}

#[test]
fn max_color_keys_matches_host_cap() {
    assert_eq!(MAX_COLOR_KEYS, 15);
}

#[test]
fn colors_new_is_empty() {
    let c = Colors::new();
    assert_eq!(c.len(), 0);
    assert_eq!(c.as_slice(), &[] as &[u8]);
}

#[test]
fn colors_with_color_holds_it() {
    let c = Colors::with_color(14);
    assert_eq!(c.as_slice(), &[14]);
}

#[test]
fn colors_and_color_appends_in_order() {
    let c = Colors::with_color(1).and_color(2).and_color(3);
    assert_eq!(c.as_slice(), &[1, 2, 3]);
}

#[test]
fn colors_and_color_past_cap_is_discarded() {
    let mut c = Colors::new();
    for i in 0..15 {
        c = c.and_color(i);
    }
    assert_eq!(c.len(), 15);
    let c = c.and_color(99);
    assert_eq!(c.len(), 15);
    let expected: Vec<u8> = (0..15).collect();
    assert_eq!(c.as_slice(), expected.as_slice());
}

#[test]
fn colors_from_slice_round_trip() {
    let keys: Vec<u8> = vec![3, 1, 4, 1, 5];
    let c = Colors::from_slice(&keys).unwrap();
    assert_eq!(c.as_slice(), keys.as_slice());
}

#[test]
fn colors_from_slice_over_cap_overflows() {
    let keys: Vec<u8> = (0..16).collect();
    assert!(matches!(Colors::from_slice(&keys), Err(Tic80Error::WidthOverflow)));
}

#[test]
fn text_encoding_appends_terminator() {
    let out = encode_text("HELLO").unwrap();
    assert_eq!(out, b"HELLO\0".to_vec());
}

#[test]
fn text_encoding_empty_is_just_terminator() {
    let out = encode_text("").unwrap();
    assert_eq!(out, vec![0u8]);
}

#[test]
fn text_bytes_encoding_keeps_contents() {
    let out = encode_text_bytes(&[72, 73]).unwrap();
    assert_eq!(out, vec![72, 73, 0]);
}

#[test]
fn text_with_nul_in_middle_is_rejected() {
    assert_eq!(encode_text_bytes(b"ab\0cd"), Err(Tic80Error::NulCStringError));
}

#[test]
fn text_with_nul_at_start_is_rejected() {
    assert_eq!(encode_text_bytes(b"\0ab"), Err(Tic80Error::NulCStringError));
}

#[test]
fn text_with_trailing_nul_is_rejected() {
    assert_eq!(encode_text_bytes(b"ab\0"), Err(Tic80Error::NulCStringError));
}

#[test]
fn error_descriptions_name_the_failure() {
    assert_eq!(
        Tic80Error::WidthOverflow.describe(),
        "color-key count exceeds the host's field width"
    );
    assert_eq!(
        Tic80Error::NulCStringError.describe(),
        "text contains an embedded null byte"
    );
}
