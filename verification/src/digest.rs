//! Hashing primitives for the ping codec: a SHA-256 digest and its
//! lowercase hexadecimal rendering.

use sha2::Digest;
use vstd::prelude::*;

verus! {

/// The digest that SHA-256 assigns to `data`; a fixed function of the
/// input bytes alone, too long to write out here.
pub uninterp spec fn sha256_of(data: Seq<u8>) -> Seq<u8>;

/// Relies on sha2's `Sha256`: the digest depends on the input bytes
/// alone and is 32 bytes long.
#[verifier::external_body]
pub fn sha256_digest(data: &Vec<u8>) -> (r: Vec<u8>)
    ensures
        r@ == sha256_of(data@),
        r@.len() == 32,
{
    sha2::Sha256::digest(data.as_slice()).to_vec()
}

pub open spec fn hex_digit(d: nat) -> char {
    if d < 10 {
        ((48 + d) as u8) as char
    } else {
        ((87 + d) as u8) as char
    }
}

/// Two lowercase hexadecimal digits for each byte, high nibble first.
pub open spec fn hex_of(bytes: Seq<u8>) -> Seq<char> {
    Seq::new(
        bytes.len() * 2,
        |i: int|
            if i % 2 == 0 {
                hex_digit((bytes[i / 2] >> 4u8) as nat)
            } else {
                hex_digit((bytes[i / 2] & 0xfu8) as nat)
            },
    )
}

/// Relies on hex::encode: two lowercase digits for each byte, high
/// nibble first.
#[verifier::external_body]
pub fn hex_lower(data: &Vec<u8>) -> (r: String)
    ensures
        r@ == hex_of(data@),
{
    hex::encode(data.as_slice())
}

} // verus!
