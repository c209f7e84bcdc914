//! SHA3-256, the one hash behind document fingerprints and content addresses.

use sha3::Digest;
use vstd::prelude::*;

verus! {

/// The SHA3-256 digest of a byte string.
pub uninterp spec fn sha3_256(data: Seq<u8>) -> Seq<u8>;

/// Hashes `data` with `sha3::Sha3_256` (`new`, `update`, `finalize`).
/// The digest is the hash of the input alone and is always 32 bytes long.
#[verifier::external_body]
pub fn sha3_256_bytes(data: &[u8]) -> (out: [u8; 32])
    ensures
        out@ == sha3_256(data@),
{
    let mut hasher = sha3::Sha3_256::new();
    hasher.update(data);
    let result = hasher.finalize();
    let mut out = [0u8; 32];
    out.copy_from_slice(&result);
    out
}

} // verus!
