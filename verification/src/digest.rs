//! Hash digests, their lowercase hexadecimal rendering and UUID text.
//!
//! The digests themselves are computed by the RustCrypto crates; their values
//! are named here and not restated.

use vstd::prelude::*;
use sha2::Digest;

verus! {

/// The MD5 digest of `data`, as `md5::Md5::digest` computes it.
pub uninterp spec fn md5_of(data: Seq<u8>) -> Seq<u8>;

/// The SHA-1 digest of `data`, as `sha1::Sha1::digest` computes it.
pub uninterp spec fn sha1_of(data: Seq<u8>) -> Seq<u8>;

/// The SHA-256 digest of `data`, as `sha2::Sha256::digest` computes it.
pub uninterp spec fn sha256_of(data: Seq<u8>) -> Seq<u8>;

/// `md5::Md5::digest` (md-5 crate): the 16-byte digest, named `md5_of`.
#[verifier::external_body]
pub(crate) fn md5_digest(data: &[u8]) -> (d: [u8; 16])
    ensures
        d@ == md5_of(data@),
{
    md5::Md5::digest(data).into()
}

/// `sha1::Sha1::digest`: the 20-byte digest, named `sha1_of`.
#[verifier::external_body]
pub(crate) fn sha1_digest(data: &[u8]) -> (d: Vec<u8>)
    ensures
        d@ == sha1_of(data@),
        d@.len() == 20,
{
    sha1::Sha1::digest(data).to_vec()
}

/// `sha2::Sha256::digest`: the 32-byte digest, named `sha256_of`.
#[verifier::external_body]
pub(crate) fn sha256_digest(data: &[u8]) -> (d: Vec<u8>)
    ensures
        d@ == sha256_of(data@),
        d@.len() == 32,
{
    sha2::Sha256::digest(data).to_vec()
}

/// The lowercase hexadecimal digit for `d` (`0 <= d < 16`).
pub open spec fn hex_digit(d: int) -> char {
    if d < 10 {
        (48 + d) as char
    } else {
        (87 + d) as char
    }
}

/// Two lowercase hexadecimal digits per byte, high nibble first.
pub open spec fn spec_hex_lower(bytes: Seq<u8>) -> Seq<char> {
    Seq::new(
        2 * bytes.len(),
        |i: int|
            if i % 2 == 0 {
                hex_digit(bytes[i / 2] as int / 16)
            } else {
                hex_digit(bytes[i / 2] as int % 16)
            },
    )
}

/// `hex::encode`: lowercase hexadecimal, two digits per byte, high nibble first.
#[verifier::external_body]
pub(crate) fn hex_encode(data: &[u8]) -> (s: String)
    ensures
        s@ == spec_hex_lower(data@),
{
    hex::encode(data)
}

/// The hyphenated lowercase form of a 16-byte UUID: hex groups of 8, 4, 4,
/// 4 and 12 digits separated by `-`.
pub open spec fn spec_uuid_hyphenated(bytes: Seq<u8>) -> Seq<char> {
    let h = spec_hex_lower(bytes);
    h.subrange(0, 8) + seq!['-'] + h.subrange(8, 12) + seq!['-'] + h.subrange(12, 16) + seq!['-']
        + h.subrange(16, 20) + seq!['-'] + h.subrange(20, 32)
}

/// `String::from(uuid::Uuid)` on `Uuid::from_bytes(bytes)`: the hyphenated
/// lowercase text of the UUID.
#[verifier::external_body]
pub(crate) fn uuid_hyphenated(bytes: [u8; 16]) -> (s: String)
    ensures
        s@ == spec_uuid_hyphenated(bytes@),
{
    String::from(uuid::Uuid::from_bytes(bytes))
}

/// Lowercase hex of the SHA-256 digest of `data`.
pub open spec fn spec_sha256_hex(data: Seq<u8>) -> Seq<char> {
    spec_hex_lower(sha256_of(data))
}

/// Lowercase hex of the SHA-1 digest of `data`.
pub open spec fn spec_sha1_hex(data: Seq<u8>) -> Seq<char> {
    spec_hex_lower(sha1_of(data))
}

/// The SHA-256 digest of `data` in lowercase hex.
pub fn sha256_hex(data: &[u8]) -> (s: String)
    ensures
        s@ == spec_sha256_hex(data@),
        s@.len() == 64,
{
    let d = sha256_digest(data);
    hex_encode(d.as_slice())
}

/// The SHA-1 digest of `data` in lowercase hex.
pub fn sha1_hex(data: &[u8]) -> (s: String)
    ensures
        s@ == spec_sha1_hex(data@),
        s@.len() == 40,
{
    let d = sha1_digest(data);
    hex_encode(d.as_slice())
}

} // verus!
