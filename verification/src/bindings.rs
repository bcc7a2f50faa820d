//! The calls this library makes into other crates, each with the contract
//! that the rest of the library relies on. Nothing in this file is proved:
//! the contracts restate what the called crates document.

use vstd::prelude::*;
use sha2::Digest;

verus! {

/// The SHA-256 digest of `data`.
pub uninterp spec fn sha256(data: Seq<u8>) -> Seq<u8>;

/// The sixteen lowercase hexadecimal digits, in order of value.
pub open spec fn hex_alphabet() -> Seq<char> {
    seq!['0', '1', '2', '3', '4', '5', '6', '7', '8', '9', 'a', 'b', 'c', 'd', 'e', 'f']
}

/// Lowercase hexadecimal text of `data`: two digits per byte, the high
/// nibble first.
pub open spec fn hex_lower(data: Seq<u8>) -> Seq<char> {
    Seq::new(
        2 * data.len(),
        |i: int|
            if i % 2 == 0 {
                hex_alphabet()[data[i / 2] as int / 16]
            } else {
                hex_alphabet()[data[i / 2] as int % 16]
            },
    )
}

/// Calls `sha2::Sha256::digest`. Trusted: the result is the SHA-256 digest of
/// `data`, a function of `data` alone, and is 32 bytes long.
#[verifier::external_body]
pub(crate) fn sha256_digest(data: &[u8]) -> (digest: Vec<u8>)
    ensures
        digest@ == sha256(data@),
        digest@.len() == 32,
{
    sha2::Sha256::digest(data).to_vec()
}

/// Calls `hex::encode`. Trusted: the result spells each byte of `data` as two
/// lowercase hexadecimal digits, high nibble first.
#[verifier::external_body]
pub(crate) fn hex_encode(data: &[u8]) -> (text: String)
    ensures
        text@ == hex_lower(data@),
{
    hex::encode(data)
}

/// The 64 characters of the URL-safe base64 alphabet, in order of value.
pub open spec fn base64url_alphabet() -> Seq<char> {
    seq![
        'A', 'B', 'C', 'D', 'E', 'F', 'G', 'H', 'I', 'J', 'K', 'L', 'M',
        'N', 'O', 'P', 'Q', 'R', 'S', 'T', 'U', 'V', 'W', 'X', 'Y', 'Z',
        'a', 'b', 'c', 'd', 'e', 'f', 'g', 'h', 'i', 'j', 'k', 'l', 'm',
        'n', 'o', 'p', 'q', 'r', 's', 't', 'u', 'v', 'w', 'x', 'y', 'z',
        '0', '1', '2', '3', '4', '5', '6', '7', '8', '9', '-', '_',
    ]
}

/// 64 to the power `n`.
pub open spec fn pow64(n: nat) -> int
    decreases n,
{
    if n == 0 {
        1
    } else {
        64 * pow64((n - 1) as nat)
    }
}

/// The `i`-th six-bit group, counted from the most significant end, of the
/// 64 bits of `uid` followed by two zero bits.
pub open spec fn sextet(uid: u64, i: int) -> int {
    ((uid as int * 4) / pow64((10 - i) as nat)) % 64
}

/// Unpadded URL-safe base64 text of the eight big-endian bytes of `uid`:
/// eleven characters, one per six-bit group.
pub open spec fn base64url_u64(uid: u64) -> Seq<char> {
    Seq::new(11, |i: int| base64url_alphabet()[sextet(uid, i)])
}

/// Calls the `Display` impl of `small_uid::SmallUid` through `to_string`.
/// Trusted: the text is the unpadded URL-safe base64 encoding of the eight
/// big-endian bytes of `uid`.
#[verifier::external_body]
pub(crate) fn uid_text(uid: u64) -> (text: String)
    ensures
        text@ == base64url_u64(uid),
{
    small_uid::SmallUid(uid).to_string()
}

} // verus!
