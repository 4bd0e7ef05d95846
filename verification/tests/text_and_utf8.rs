//! Byte-text utilities and the UTF-8 checker on concrete inputs.

use wasmforge::text::{
    bytes_eq, contains, contains_u8, csv_items, i32_to_dec, last_index_of, split_ws, starts_with,
    to_ascii_lower, u64_to_dec,
};
use wasmforge::utf8::is_utf8_bytes;

#[test]
fn prefix_and_substring_search() {
    assert!(starts_with(b"https://x", b"https://"));
    assert!(!starts_with(b"http", b"https://"));
    assert!(contains(b"a..b", b".."));
    assert!(!contains(b"a.b.c", b".."));
    assert!(contains(b"x", b""));
    assert!(contains_u8(b"abc", b'b'));
    assert!(!contains_u8(b"abc", b'z'));
}

#[test]
fn last_index_of_finds_the_last() {
    assert_eq!(last_index_of(b"a.b.c", b'.'), Some(3));
    assert_eq!(last_index_of(b"abc", b'.'), None);
}

#[test]
fn bytes_eq_and_lowering() {
    assert!(bytes_eq(b"abc", b"abc"));
    assert!(!bytes_eq(b"abc", b"abd"));
    assert_eq!(to_ascii_lower(b"DownLoad A-9"), b"download a-9".to_vec());
}

#[test]
fn decimal_rendering() {
    assert_eq!(u64_to_dec(0), b"0".to_vec());
    assert_eq!(u64_to_dec(12345), b"12345".to_vec());
    assert_eq!(u64_to_dec(u64::MAX), b"18446744073709551615".to_vec());
    assert_eq!(i32_to_dec(-7), b"-7".to_vec());
    assert_eq!(i32_to_dec(i32::MIN), b"-2147483648".to_vec());
}

#[test]
fn whitespace_splitting() {
    let toks = split_ws(b"  echo  hello world ");
    assert_eq!(toks, vec![b"echo".to_vec(), b"hello".to_vec(), b"world".to_vec()]);
    assert!(split_ws(b"   ").is_empty());
    assert!(split_ws(b"").is_empty());
}

#[test]
fn csv_parsing_trims_and_drops_empties() {
    assert_eq!(csv_items(b" a , b ,, c "), vec![b"a".to_vec(), b"b".to_vec(), b"c".to_vec()]);
    assert!(csv_items(b" , ,").is_empty());
    assert_eq!(csv_items(b"one"), vec![b"one".to_vec()]);
}

#[test]
fn utf8_checker_agrees_with_std() {
    let cases: Vec<Vec<u8>> = vec![
        b"".to_vec(),
        b"plain ascii".to_vec(),
        "héllo".as_bytes().to_vec(),
        "日本語".as_bytes().to_vec(),
        "\u{1F950}".as_bytes().to_vec(),
        vec![0xc0, 0x80],             // overlong
        vec![0xed, 0xa0, 0x80],       // surrogate
        vec![0xf4, 0x90, 0x80, 0x80], // above U+10FFFF
        vec![0xff],
        vec![0xc2],                   // truncated
        vec![0xe2, 0x82],             // truncated
    ];
    for c in cases {
        assert_eq!(is_utf8_bytes(&c), std::str::from_utf8(&c).is_ok(), "case {:?}", c);
    }
}
