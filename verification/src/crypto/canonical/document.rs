//! The description of a plaintext document that travels inside its envelope.

use crate::crypto::canonical::codec::{hex_encode, hex_text};
use crate::pqc::sha3::{sha3_256, sha3_256_bytes};
use crate::text::text_eq;
use vstd::prelude::*;

verus! {

/// The view of an optional text.
pub open spec fn optional_text(o: Option<String>) -> Option<Seq<char>> {
    match o {
        Some(s) => Some(s@),
        None => None,
    }
}

/// Copies an optional text.
pub fn clone_optional_text(o: &Option<String>) -> (r: Option<String>)
    ensures
        optional_text(r) == optional_text(*o),
{
    match o {
        Some(s) => Some(s.clone()),
        None => None,
    }
}

/// What a document says of itself: its name, its kind, and the hash and
/// size of its plaintext.
#[derive(Debug, PartialEq, Eq)]
pub struct CanonicalDocumentV1 {
    pub logical_id: String,
    pub filename: Option<String>,
    pub mime: Option<String>,
    pub plaintext_sha3_256_hex: String,
    pub size_bytes: u64,
}

/// The mathematical content of a [`CanonicalDocumentV1`].
pub struct CanonicalDocumentView {
    pub logical_id: Seq<char>,
    pub filename: Option<Seq<char>>,
    pub mime: Option<Seq<char>>,
    pub plaintext_sha3_256_hex: Seq<char>,
    pub size_bytes: u64,
}

impl View for CanonicalDocumentV1 {
    type V = CanonicalDocumentView;

    open spec fn view(&self) -> CanonicalDocumentView {
        CanonicalDocumentView {
            logical_id: self.logical_id@,
            filename: optional_text(self.filename),
            mime: optional_text(self.mime),
            plaintext_sha3_256_hex: self.plaintext_sha3_256_hex@,
            size_bytes: self.size_bytes,
        }
    }
}

impl CanonicalDocumentView {
    /// Whether the description is that of `plaintext`: the hash is the
    /// SHA3-256 of the plaintext in hexadecimal, the size its length.
    pub open spec fn describes(self, plaintext: Seq<u8>) -> bool {
        &&& self.plaintext_sha3_256_hex == hex_text(sha3_256(plaintext))
        &&& self.size_bytes == plaintext.len()
    }
}

impl Clone for CanonicalDocumentV1 {
    fn clone(&self) -> (r: Self)
        ensures
            r@ == self@,
    {
        CanonicalDocumentV1 {
            logical_id: self.logical_id.clone(),
            filename: clone_optional_text(&self.filename),
            mime: clone_optional_text(&self.mime),
            plaintext_sha3_256_hex: self.plaintext_sha3_256_hex.clone(),
            size_bytes: self.size_bytes,
        }
    }
}

impl CanonicalDocumentV1 {
    /// Describes `bytes`: fingerprints the plaintext and records its size.
    pub fn from_plaintext(
        logical_id: String,
        bytes: &[u8],
        filename: Option<String>,
        mime: Option<String>,
    ) -> (doc: Self)
        ensures
            doc@.logical_id == logical_id@,
            doc@.filename == optional_text(filename),
            doc@.mime == optional_text(mime),
            doc@.describes(bytes@),
            doc@.plaintext_sha3_256_hex.len() == 64,
    {
        let hash = sha3_256_bytes(bytes);
        let hex = hex_encode(hash.as_slice());
        CanonicalDocumentV1 {
            logical_id,
            filename,
            mime,
            plaintext_sha3_256_hex: hex,
            size_bytes: bytes.len() as u64,
        }
    }

    /// Checks recovered plaintext against the description: same size and
    /// same fingerprint.
    pub fn matches_plaintext(&self, bytes: &[u8]) -> (ok: bool)
        ensures
            ok == self@.describes(bytes@),
    {
        if bytes.len() as u64 != self.size_bytes {
            return false;
        }
        let hash = sha3_256_bytes(bytes);
        let hex = hex_encode(hash.as_slice());
        text_eq(hex.as_str(), self.plaintext_sha3_256_hex.as_str())
    }
}

} // verus!
