//! Content integrity: the digest of a staged artifact and the comparison
//! against the digest the manifest declares.
use vstd::prelude::*;

use crate::text::{dec_digit, str_eq};
use sha1::Digest;

verus! {

/// The 160-bit digest of a byte sequence. It depends on the bytes alone.
pub uninterp spec fn sha1_of(data: Seq<u8>) -> Seq<u8>;

/// Relies on `sha1::Sha1` (through its `Digest` interface) for the hash;
/// the digest is 20 bytes and depends on the bytes alone.
#[verifier::external_body]
fn sha1_bytes(data: &[u8]) -> (r: Vec<u8>)
    ensures
        r@ == sha1_of(data@),
        r@.len() == 20,
{
    sha1::Sha1::digest(data).to_vec()
}

/// The lowercase hexadecimal digit for a value below sixteen.
pub open spec fn hex_digit(d: nat) -> char {
    if d < 10 {
        dec_digit(d)
    } else if d == 10 {
        'a'
    } else if d == 11 {
        'b'
    } else if d == 12 {
        'c'
    } else if d == 13 {
        'd'
    } else if d == 14 {
        'e'
    } else {
        'f'
    }
}

/// The lowercase hex rendering of a byte sequence, two digits per byte,
/// high nibble first.
pub open spec fn hex_of(data: Seq<u8>) -> Seq<char>
    decreases data.len(),
{
    if data.len() == 0 {
        Seq::empty()
    } else {
        seq![hex_digit((data.first() >> 4) as nat), hex_digit((data.first() & 0x0f) as nat)]
            + hex_of(data.drop_first())
    }
}

/// Relies on `hex::encode`: lowercase digits, two per byte, high nibble
/// first.
#[verifier::external_body]
fn hex_encode(data: &[u8]) -> (r: String)
    ensures
        r@ == hex_of(data@),
{
    hex::encode(data)
}

/// The digest string of a byte sequence as the manifest records it:
/// lowercase hex of its 160-bit digest.
pub open spec fn digest_hex_of(data: Seq<u8>) -> Seq<char> {
    hex_of(sha1_of(data))
}

/// The hex rendering is two characters per byte.
proof fn lemma_hex_of_len(data: Seq<u8>)
    ensures
        hex_of(data).len() == 2 * data.len(),
    decreases data.len(),
{
    if data.len() > 0 {
        lemma_hex_of_len(data.drop_first());
    }
}

/// The digest of an artifact's bytes, as a lowercase hex string of forty
/// characters.
pub fn digest(data: &[u8]) -> (r: String)
    ensures
        r@ == digest_hex_of(data@),
        r@.len() == 40,
{
    let raw = sha1_bytes(data);
    proof {
        lemma_hex_of_len(raw@);
    }
    hex_encode(raw.as_slice())
}

/// The single integrity gate: whether the bytes of a staged artifact carry
/// exactly the digest the manifest declares for it.
pub fn digest_matches(data: &[u8], expected: &str) -> (r: bool)
    ensures
        r == (digest_hex_of(data@) == expected@),
{
    let actual = digest(data);
    str_eq(actual.as_str(), expected)
}

} // verus!
