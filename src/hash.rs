use vstd::prelude::*;

use data_encoding::HEXLOWER;
use sha1::{Digest, Sha1};

verus! {

/// The SHA-1 digest of a byte sequence.
pub uninterp spec fn sha1_of(data: Seq<u8>) -> Seq<u8>;

/// The lowercase hexadecimal digit for a value below sixteen.
pub open spec fn hex_digit(n: u8) -> char {
    if n < 10 {
        (('0' as u8) + n) as char
    } else {
        (('a' as u8) + (n - 10)) as char
    }
}

/// Two lowercase hexadecimal digits per byte, high nibble first.
pub open spec fn hex_lower(b: Seq<u8>) -> Seq<char>
    decreases b.len(),
{
    if b.len() == 0 {
        Seq::<char>::empty()
    } else {
        hex_lower(b.drop_last()) + seq![hex_digit(b.last() / 16), hex_digit(b.last() % 16)]
    }
}

/// The lowercase hexadecimal SHA-1 checksum of a byte sequence.
pub open spec fn checksum_of(data: Seq<u8>) -> Seq<char> {
    hex_lower(sha1_of(data))
}

/// Relies on sha1's `Sha1::digest`: the twenty-byte SHA-1 digest of the input.
#[verifier::external_body]
fn sha1_digest(data: &[u8]) -> (r: Vec<u8>)
    ensures
        r@ == sha1_of(data@),
        r@.len() == 20,
{
    Sha1::digest(data).to_vec()
}

/// Relies on data_encoding's `HEXLOWER.encode`: two lowercase hexadecimal
/// digits per byte, high nibble first (it may panic above `usize::MAX / 512` bytes).
#[verifier::external_body]
fn hex_encode(b: &[u8]) -> (r: String)
    requires
        b@.len() <= usize::MAX / 512,
    ensures
        r@ == hex_lower(b@),
{
    HEXLOWER.encode(b)
}

/// The lowercase hexadecimal SHA-1 checksum of `data`.
pub fn sha1_hex(data: &[u8]) -> (r: String)
    ensures
        r@ == checksum_of(data@),
        r@.len() == 40,
{
    let digest = sha1_digest(data);
    let r = hex_encode(digest.as_slice());
    proof {
        lemma_hex_lower_len(digest@);
    }
    r
}

pub proof fn lemma_hex_lower_len(b: Seq<u8>)
    ensures
        hex_lower(b).len() == 2 * b.len(),
    decreases b.len(),
{
    if b.len() > 0 {
        lemma_hex_lower_len(b.drop_last());
    }
}

/// Whether a file's checksum `actual` is the `expected` one.
pub fn checksum_matches(actual: &str, expected: &str) -> (r: bool)
    ensures
        r == (actual@ == expected@),
{
    crate::text::same(actual, expected)
}

} // verus!
