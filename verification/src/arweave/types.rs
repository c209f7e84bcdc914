//! Records of where a document version lives.

use vstd::prelude::*;

verus! {

/// A single file version on disk.
#[derive(Debug)]
pub struct FileVersionRef {
    /// Where the file lives locally.
    pub local_path: String,
    /// SHA-256 of the file, in hexadecimal.
    pub sha256_hex: String,
    /// File size in bytes.
    pub size_bytes: u64,
    /// The MIME type, where it is known.
    pub mime_type: Option<String>,
}

/// Where a version is stored.
#[derive(Debug)]
pub struct ArweaveLocation {
    /// The transaction id.
    pub tx_id: String,
    /// The URL to fetch the content from.
    pub gateway_url: String,
}

/// One document version: who made it, when, and where it lives.
#[derive(Debug)]
pub struct ChainOfCustodyRecord {
    pub document_id: String,
    pub version: u64,
    /// Unix time of creation, in seconds.
    pub created_at: i64,
    pub actor_wallet_b64: String,
    pub arweave: Option<ArweaveLocation>,
    pub file: FileVersionRef,
    pub c2c_event_id: Option<String>,
}

} // verus!
