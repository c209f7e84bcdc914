//! The offline client: a document version is recorded under a
//! transaction id made from the hash of its bytes.

use crate::arweave::types::{ArweaveLocation, ChainOfCustodyRecord, FileVersionRef};
use crate::crypto::canonical::codec::{hex_encode, hex_text};
use crate::crypto::canonical::json::{decimal, push_decimal, push_utf8, utf8};
use sha2::Digest;
use vstd::prelude::*;
use vstd::string::StringExecFns;

verus! {

/// The gateway that records point to.
pub const DEFAULT_GATEWAY: &'static str = "https://arweave.net";

/// The SHA-256 digest of a byte string.
pub uninterp spec fn sha256(data: Seq<u8>) -> Seq<u8>;

/// Calls `sha2::Sha256::digest`: the digest is the hash of the input
/// alone and is 32 bytes long.
#[verifier::external_body]
pub(crate) fn sha256_bytes(data: &[u8]) -> (out: Vec<u8>)
    ensures
        out@ == sha256(data@),
        out@.len() == 32,
{
    sha2::Sha256::digest(data).to_vec()
}

/// The SHA-256 of a byte string, in lowercase hexadecimal.
pub fn sha256_hex(data: &[u8]) -> (hex: String)
    ensures
        hex@ == hex_text(sha256(data@)),
        hex@.len() == 64,
{
    let digest = sha256_bytes(data);
    hex_encode(digest.as_slice())
}

/// The offline client.
#[derive(Debug)]
pub struct ArweaveClient {
    /// Base URL of the gateway.
    pub gateway_base: String,
    /// Where records are kept, as path components.
    dev_store_root: Vec<String>,
}

impl ArweaveClient {
    /// The base URL of the gateway.
    pub closed spec fn gateway(&self) -> Seq<char> {
        self.gateway_base@
    }

    /// The directory of the records, as path components.
    pub closed spec fn store_root(&self) -> Seq<Seq<char>> {
        self.dev_store_root.deep_view()
    }

    /// The client that keeps its records under the home directory.
    pub fn dev_default(home: Option<String>) -> (r: Option<Self>)
        ensures
            match r {
                Some(c) => home matches Some(h) && c.gateway() == DEFAULT_GATEWAY@ && c.store_root() == seq![
                    h@,
                    ".tidbit"@,
                    "arweave-dev"@,
                ],
                None => home is None,
            },
    {
        match home {
            Some(h) => {
                let mut root: Vec<String> = Vec::new();
                root.push(h);
                root.push(".tidbit".to_owned());
                root.push("arweave-dev".to_owned());
                assert(root.deep_view() =~= seq![h@, ".tidbit"@, "arweave-dev"@]);
                Some(ArweaveClient { gateway_base: DEFAULT_GATEWAY.to_owned(), dev_store_root: root })
            },
            None => None,
        }
    }

    /// The name of the file that holds the record of a version:
    /// `<document id>-v<version>.json`.
    pub open spec fn record_file_name_of(document_id: Seq<char>, version: u64) -> Seq<u8> {
        utf8_of(document_id) + utf8("-v") + decimal(version as nat) + utf8(".json")
    }

    /// The name of the file that holds the record of a version, in UTF-8.
    pub fn record_file_name(document_id: &str, version: u64) -> (name: Vec<u8>)
        ensures
            name@ == Self::record_file_name_of(document_id@, version),
    {
        let mut name: Vec<u8> = Vec::new();
        push_utf8(&mut name, document_id);
        push_utf8(&mut name, "-v");
        push_decimal(&mut name, version);
        push_utf8(&mut name, ".json");
        assert(name@ =~= Self::record_file_name_of(document_id@, version));
        name
    }

    /// Records a document version: the transaction id is the SHA-256 of
    /// the bytes, the gateway URL the base with the id behind a slash.
    pub fn upload_bytes_dev(
        &self,
        document_id: &str,
        version: u64,
        bytes: &[u8],
        local_path: &str,
        actor_wallet_b64: &str,
        c2c_event_id: Option<String>,
        mime_type: Option<String>,
        created_at: i64,
    ) -> (record: ChainOfCustodyRecord)
        ensures
            record.document_id@ == document_id@,
            record.version == version,
            record.created_at == created_at,
            record.actor_wallet_b64@ == actor_wallet_b64@,
            record.arweave matches Some(loc) && loc.tx_id@ == hex_text(sha256(bytes@)) && loc.gateway_url@
                == self.gateway() + "/"@ + hex_text(sha256(bytes@)),
            record.file.local_path@ == local_path@,
            record.file.sha256_hex@ == hex_text(sha256(bytes@)),
            record.file.size_bytes == bytes@.len(),
            record.file.mime_type == mime_type,
            record.c2c_event_id == c2c_event_id,
    {
        let sha = sha256_hex(bytes);
        let arweave_loc = ArweaveLocation {
            tx_id: sha.clone(),
            gateway_url: self.gateway_base.clone().concat("/").concat(sha.as_str()),
        };
        let file_meta = FileVersionRef {
            local_path: local_path.to_owned(),
            sha256_hex: sha,
            size_bytes: bytes.len() as u64,
            mime_type,
        };
        ChainOfCustodyRecord {
            document_id: document_id.to_owned(),
            version,
            created_at,
            actor_wallet_b64: actor_wallet_b64.to_owned(),
            arweave: Some(arweave_loc),
            file: file_meta,
            c2c_event_id,
        }
    }
}

/// The UTF-8 bytes of a text.
pub open spec fn utf8_of(s: Seq<char>) -> Seq<u8> {
    vstd::utf8::encode_utf8(s)
}

} // verus!
