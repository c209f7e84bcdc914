//! Plain records exchanged with clients.

use vstd::prelude::*;

verus! {

/// One document as a client sees it.
#[derive(Debug)]
pub struct DocEntry {
    pub doc_id: String,
    pub hash_hex: String,
    pub label: Option<String>,
    pub local_path: Option<String>,
    pub arweave_tx: Option<String>,
}

} // verus!
