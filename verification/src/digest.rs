//! File content hashing.
use vstd::prelude::*;

use crate::text::{hex_lower, hex_lower_string};
use crate::trusted::{sha256, sha256_digest};

verus! {

/// The SHA-256 digest of `data` in lower-case hexadecimal, as a monitor
/// records it for a file's contents.
pub open spec fn sha256_hex_of(data: Seq<u8>) -> Seq<char> {
    hex_lower(sha256(data))
}

/// The SHA-256 digest of `data` in lower-case hexadecimal (64 characters).
pub fn sha256_hex(data: &[u8]) -> (r: String)
    ensures
        r@ == sha256_hex_of(data@),
        r@.len() == 64,
{
    let digest = sha256_digest(data);
    proof {
        crate::text::lemma_hex_lower_len(digest@);
    }
    hex_lower_string(digest.as_slice())
}

} // verus!
