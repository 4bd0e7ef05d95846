//! Digests and identifiers. The hash computations come from outside
//! crates and are named, not restated: `sha256_of` and `md5_of` stand for
//! whatever those functions return, which depends on the input alone.
//! The hex rendering on top of them is verified here.

use vstd::prelude::*;
use sha2::Digest;

verus! {

/// The SHA-256 digest of a byte sequence.
pub uninterp spec fn sha256_of(data: Seq<u8>) -> Seq<u8>;

/// The MD5 digest of a byte sequence.
pub uninterp spec fn md5_of(data: Seq<u8>) -> Seq<u8>;

/// Relies on sha2's `Sha256` through the `Digest` trait: a 32-byte digest
/// that depends on the input bytes alone.
#[verifier::external_body]
pub fn sha256(data: &[u8]) -> (r: Vec<u8>)
    ensures
        r@ == sha256_of(data@),
        r@.len() == 32,
{
    sha2::Sha256::digest(data).to_vec()
}

/// Relies on md5's `compute`: a 16-byte digest that depends on the input
/// bytes alone.
#[verifier::external_body]
pub fn md5_digest(data: &[u8]) -> (r: Vec<u8>)
    ensures
        r@ == md5_of(data@),
        r@.len() == 16,
{
    md5::compute(data).0.to_vec()
}

/// Relies on uuid's `Uuid::new_v4` and its hyphenated `Display` form:
/// 36 ASCII bytes. The value is random, so nothing more is stated.
#[verifier::external_body]
pub fn new_uuid() -> (r: Vec<u8>)
    ensures
        r@.len() == 36,
{
    uuid::Uuid::new_v4().to_string().into_bytes()
}

/// Relies on std's `SystemTime::now` and `duration_since`: seconds since
/// the Unix epoch. The value depends on the clock, so nothing is stated;
/// a clock before the epoch reads as zero.
#[verifier::external_body]
pub fn now_unix_seconds() -> u64 {
    std::time::SystemTime::now().duration_since(std::time::UNIX_EPOCH).map(
        |d| d.as_secs(),
    ).unwrap_or(0)
}

/// The lowercase hex digit for a nibble.
pub open spec fn hex_digit(n: u8) -> u8 {
    if n < 10 {
        (0x30 + n) as u8
    } else {
        (0x57 + n) as u8
    }
}

/// Lowercase hex of a byte sequence: two digits per byte, high nibble first.
pub open spec fn hex_of(data: Seq<u8>) -> Seq<u8> {
    Seq::new(
        2 * data.len(),
        |i: int|
            if i % 2 == 0 {
                hex_digit(data[i / 2] / 16)
            } else {
                hex_digit(data[i / 2] % 16)
            },
    )
}

/// Renders bytes as lowercase hex.
pub fn to_hex(data: &[u8]) -> (r: Vec<u8>)
    ensures
        r@ == hex_of(data@),
{
    let mut r: Vec<u8> = Vec::new();
    let mut i: usize = 0;
    while i < data.len()
        invariant
            0 <= i <= data@.len(),
            r@.len() == 2 * i,
            forall|j: int| 0 <= j < 2 * i ==> r@[j] == hex_of(data@)[j],
        decreases data@.len() - i,
    {
        let b = data[i];
        let hi = b / 16;
        let lo = b % 16;
        if hi < 10 {
            r.push(0x30 + hi);
        } else {
            r.push(0x57 + hi);
        }
        if lo < 10 {
            r.push(0x30 + lo);
        } else {
            r.push(0x57 + lo);
        }
        proof {
            assert(hex_of(data@)[2 * i as int] == hex_digit(data@[i as int] / 16));
            assert(hex_of(data@)[2 * i as int + 1] == hex_digit(data@[i as int] % 16));
        }
        i = i + 1;
    }
    proof {
        assert(r@ =~= hex_of(data@));
    }
    r
}

/// The lowercase hex SHA-256 of the given bytes: the integrity checksum
/// recorded for every module.
pub fn calculate_checksum(data: &[u8]) -> (r: Vec<u8>)
    ensures
        r@ == hex_of(sha256_of(data@)),
        r@.len() == 64,
{
    let d = sha256(data);
    to_hex(d.as_slice())
}

} // verus!
