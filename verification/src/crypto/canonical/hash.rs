//! The content address of an envelope.

use crate::crypto::canonical::codec::{hex_encode, hex_text};
use crate::pqc::sha3::{sha3_256, sha3_256_bytes};
use crate::text::text_eq;
use vstd::prelude::*;

verus! {

/// The content address of canonical bytes: their SHA3-256 digest in
/// lowercase hexadecimal.
pub open spec fn content_address(canonical_bytes: Seq<u8>) -> Seq<char> {
    hex_text(sha3_256(canonical_bytes))
}

/// Computes the identifier of an envelope from its canonical bytes.
pub fn envelope_id(canonical_bytes: &[u8]) -> (id: String)
    ensures
        id@ == content_address(canonical_bytes@),
        id@.len() == 64,
{
    let hash = sha3_256_bytes(canonical_bytes);
    hex_encode(hash.as_slice())
}

/// Whether `id` is the identifier of the canonical bytes: what a reader
/// checks on bytes that come back from storage.
pub fn matches_id(canonical_bytes: &[u8], id: &str) -> (ok: bool)
    ensures
        ok == (content_address(canonical_bytes@) == id@),
{
    text_eq(envelope_id(canonical_bytes).as_str(), id)
}

/// Bytes that are equal have the same identifier: the identifier made
/// when an envelope was sealed is the one recomputed from its stored
/// bytes, as long as storage gives the bytes back unchanged.
pub proof fn lemma_same_bytes_same_id(sealed: Seq<u8>, stored: Seq<u8>)
    requires
        sealed == stored,
    ensures
        content_address(sealed) == content_address(stored),
{
}

} // verus!
