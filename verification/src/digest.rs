//! The fingerprint of an article's content.

use sha2::Digest;
use vstd::prelude::*;
use vstd::string::StringSliceAdditionalSpecFns;

verus! {

/// The SHA-256 digest of `data`.
pub uninterp spec fn sha256(data: Seq<u8>) -> Seq<u8>;

/// The character that writes a hexadecimal digit, in lower case.
pub open spec fn hex_digit(n: int) -> char {
    if n == 0 {
        '0'
    } else if n == 1 {
        '1'
    } else if n == 2 {
        '2'
    } else if n == 3 {
        '3'
    } else if n == 4 {
        '4'
    } else if n == 5 {
        '5'
    } else if n == 6 {
        '6'
    } else if n == 7 {
        '7'
    } else if n == 8 {
        '8'
    } else if n == 9 {
        '9'
    } else if n == 10 {
        'a'
    } else if n == 11 {
        'b'
    } else if n == 12 {
        'c'
    } else if n == 13 {
        'd'
    } else if n == 14 {
        'e'
    } else {
        'f'
    }
}

/// The bytes written in hexadecimal, two lower-case digits a byte, high
/// digit first.
pub open spec fn hex_text(data: Seq<u8>) -> Seq<char>
    decreases data.len(),
{
    if data.len() == 0 {
        Seq::empty()
    } else {
        hex_text(data.drop_last()).push(hex_digit(data.last() as int / 16)).push(
            hex_digit(data.last() as int % 16),
        )
    }
}

/// Trusted: feeds `data` to `sha2::Sha256` of the crate `sha2` (`new`,
/// `update`, `finalize`) and returns the digest's bytes. The digest depends on
/// the data alone. The contract names it and says nothing else of it.
#[verifier::external_body]
fn sha256_of(data: &[u8]) -> (r: Vec<u8>)
    ensures
        r@ == sha256(data@),
{
    let mut hasher = sha2::Sha256::new();
    hasher.update(data);
    hasher.finalize().to_vec()
}

/// Trusted: calls `hex::encode`, which writes each byte as two lower-case
/// hexadecimal digits, the high one first.
#[verifier::external_body]
fn hex_encode(data: &Vec<u8>) -> (r: String)
    ensures
        r@ == hex_text(data@),
{
    hex::encode(data)
}

/// The fingerprint of a text: the SHA-256 digest of its UTF-8 bytes, in
/// hexadecimal.
pub open spec fn fingerprint(content: &str) -> Seq<char> {
    hex_text(sha256(content.spec_bytes()))
}

/// Computes the fingerprint of a content.
pub fn compute_hash(content: &str) -> (r: String)
    ensures
        r@ == fingerprint(content),
{
    let digest = sha256_of(content.as_bytes());
    hex_encode(&digest)
}

} // verus!
