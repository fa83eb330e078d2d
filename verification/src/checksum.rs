//! Checksums of source code: the SHA3-256 hash of its UTF-8 bytes.
use vstd::prelude::*;

use tiny_keccak::{Hasher, Sha3};

verus! {

/// The SHA3-256 digest of the bytes, as tiny-keccak computes it.
pub uninterp spec fn sha3_256(data: Seq<u8>) -> Seq<u8>;

/// Hashes the bytes with tiny-keccak's `Sha3::v256` hasher: one `update` with all the bytes,
/// then `finalize` into a 32-byte buffer.
#[verifier::external_body]
fn sha3_digest(data: &[u8]) -> (r: [u8; 32])
    ensures
        r@ == sha3_256(data@),
{
    let mut hasher = Sha3::v256();
    hasher.update(data);
    let mut hash = [0u8; 32];
    hasher.finalize(&mut hash);
    hash
}

/// The checksum of a source text: the SHA3-256 digest of its UTF-8 encoding.
pub open spec fn spec_checksum(source: Seq<char>) -> Seq<u8> {
    sha3_256(vstd::utf8::encode_utf8(source))
}

/// Returns the 32-byte SHA3-256 checksum of the given source code.
pub fn source_code_checksum(source: &str) -> (r: [u8; 32])
    ensures
        r@ == spec_checksum(source@),
{
    sha3_digest(source.as_bytes())
}

} // verus!
