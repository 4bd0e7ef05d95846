//! The Wasm preamble check and the digest pipeline on known values.

use wasmforge::digest::{calculate_checksum, new_uuid, to_hex};
use wasmforge::manager::module_cache_id;
use wasmforge::header::{validate_wasm_module, HeaderError};

#[test]
fn header_accepts_magic_and_version_one() {
    let bytes = [0x00, 0x61, 0x73, 0x6d, 0x01, 0x00, 0x00, 0x00];
    assert!(validate_wasm_module(&bytes).is_ok());
}

#[test]
fn header_rejects_short_input() {
    assert_eq!(validate_wasm_module(b"\0asm"), Err(HeaderError::TooShort));
    assert_eq!(validate_wasm_module(b""), Err(HeaderError::TooShort));
}

#[test]
fn header_rejects_bad_magic() {
    let bytes = [0x00, 0x61, 0x73, 0x6e, 0x01, 0x00, 0x00, 0x00];
    assert_eq!(validate_wasm_module(&bytes), Err(HeaderError::BadMagic));
}

#[test]
fn header_rejects_bad_version() {
    let bytes = [0x00, 0x61, 0x73, 0x6d, 0x02, 0x00, 0x00, 0x00];
    assert_eq!(validate_wasm_module(&bytes), Err(HeaderError::BadVersion));
}

#[test]
fn checksum_of_empty_input() {
    assert_eq!(
        calculate_checksum(b""),
        b"e3b0c44298fc1c149afbf4c8996fb92427ae41e4649b934ca495991b7852b855".to_vec()
    );
}

#[test]
fn checksum_of_abc() {
    assert_eq!(
        calculate_checksum(b"abc"),
        b"ba7816bf8f01cfea414140de5dae2223b00361a396177a9cb410ff61f20015ad".to_vec()
    );
}

#[test]
fn hex_rendering() {
    assert_eq!(to_hex(&[0x00, 0xff, 0x1a]), b"00ff1a".to_vec());
    assert_eq!(to_hex(&[]), b"".to_vec());
}

#[test]
fn cache_id_uses_configured_checksum_when_set() {
    let id = module_cache_id(b"mod", b"http://x/", &Some(b"deadbeef".to_vec()));
    assert_eq!(id, b"mod_deadbeef".to_vec());
}

#[test]
fn cache_id_hashes_url_when_no_checksum() {
    // MD5 of "abc" is well known.
    let id = module_cache_id(b"mod", b"abc", &None);
    assert_eq!(id, b"mod_900150983cd24fb0d6963f7d28e17f72".to_vec());
}

#[test]
fn uuid_is_36_bytes_and_fresh() {
    let a = new_uuid();
    let b = new_uuid();
    assert_eq!(a.len(), 36);
    assert_eq!(b.len(), 36);
    assert_ne!(a, b);
}
