//! Validation of the eight-byte preamble that every binary Wasm module
//! must carry: the magic bytes `\0asm` followed by version `1` encoded
//! little-endian.

use vstd::prelude::*;

verus! {

/// Why a byte sequence was rejected as a module image.
#[derive(Clone, Copy, Debug, PartialEq, Eq, Structural)]
pub enum HeaderError {
    /// Fewer than eight bytes.
    TooShort,
    /// The first four bytes are not `\0asm`.
    BadMagic,
    /// Bytes four to eight are not the little-endian encoding of 1.
    BadVersion,
}

/// The first four bytes spell `\0asm`.
pub open spec fn spec_magic_ok(b: Seq<u8>) -> bool {
    &&& b.len() >= 4
    &&& b[0] == 0x00u8
    &&& b[1] == 0x61u8
    &&& b[2] == 0x73u8
    &&& b[3] == 0x6du8
}

/// Bytes four to eight encode version 1, little-endian.
pub open spec fn spec_version_ok(b: Seq<u8>) -> bool {
    &&& b.len() >= 8
    &&& b[4] == 0x01u8
    &&& b[5] == 0x00u8
    &&& b[6] == 0x00u8
    &&& b[7] == 0x00u8
}

/// A well-formed module preamble: long enough, right magic, version 1.
pub open spec fn spec_header_valid(b: Seq<u8>) -> bool {
    b.len() >= 8 && spec_magic_ok(b) && spec_version_ok(b)
}

/// Checks the Wasm preamble, reporting the first violated condition in the
/// order: length, magic, version.
pub fn validate_wasm_module(bytes: &[u8]) -> (r: Result<(), HeaderError>)
    ensures
        r is Ok <==> spec_header_valid(bytes@),
        r == Err::<(), HeaderError>(HeaderError::TooShort) <==> bytes@.len() < 8,
        r == Err::<(), HeaderError>(HeaderError::BadMagic) <==> bytes@.len() >= 8
            && !spec_magic_ok(bytes@),
        r == Err::<(), HeaderError>(HeaderError::BadVersion) <==> bytes@.len() >= 8
            && spec_magic_ok(bytes@) && !spec_version_ok(bytes@),
{
    if bytes.len() < 8 {
        return Err(HeaderError::TooShort);
    }
    if !(bytes[0] == 0x00u8 && bytes[1] == 0x61u8 && bytes[2] == 0x73u8 && bytes[3] == 0x6du8) {
        return Err(HeaderError::BadMagic);
    }
    if !(bytes[4] == 0x01u8 && bytes[5] == 0x00u8 && bytes[6] == 0x00u8 && bytes[7] == 0x00u8) {
        return Err(HeaderError::BadVersion);
    }
    Ok(())
}

} // verus!
