//! The version history of documents.
//!
//! Every version of a document is one record. The records of one
//! document, by ascending version, are its history; a new record
//! continues the history with the next version and the hash of the last
//! one as its parent.

use crate::arweave::ArweaveAnchor;
use crate::c2c::order::{arranged, is_stable_order, stable_order};
use crate::c2c::types::{clone_text_option, C2CEvent};
use crate::system::{fresh_uuid, utc_timestamp};
use vstd::prelude::*;

verus! {

/// What was done with a file.
#[derive(Debug, Clone, Copy, PartialEq, Eq, Structural)]
pub enum FileAction {
    Uploaded,
    Updated,
    Shared,
    Downloaded,
}

/// One version of a document.
#[derive(Debug)]
pub struct FileVersionRecord {
    pub id: String,
    pub logical_doc_id: String,
    pub version: u64,
    pub action: FileAction,
    /// Hash of the previous version; none for the first.
    pub parent_hash: Option<String>,
    pub path: String,
    pub sha256_hex: String,
    pub c2c_event_id: String,
    pub arweave_tx_id: Option<String>,
    /// Unix time, in seconds.
    pub timestamp: i64,
}

impl Clone for FileVersionRecord {
    fn clone(&self) -> (r: Self)
        ensures
            r == *self,
    {
        FileVersionRecord {
            id: self.id.clone(),
            logical_doc_id: self.logical_doc_id.clone(),
            version: self.version,
            action: self.action,
            parent_hash: clone_text_option(&self.parent_hash),
            path: self.path.clone(),
            sha256_hex: self.sha256_hex.clone(),
            c2c_event_id: self.c2c_event_id.clone(),
            arweave_tx_id: clone_text_option(&self.arweave_tx_id),
            timestamp: self.timestamp,
        }
    }
}

/// The version after `version`, at most `u64::MAX`.
pub open spec fn version_after(version: u64) -> u64 {
    if version == u64::MAX {
        u64::MAX
    } else {
        (version + 1) as u64
    }
}

/// The records of one document among `records`, in the order they stand.
pub open spec fn records_of(records: Seq<FileVersionRecord>, logical_doc_id: Seq<char>) -> Seq<FileVersionRecord>
    decreases records.len(),
{
    if records.len() == 0 {
        Seq::<FileVersionRecord>::empty()
    } else {
        let rest = records_of(records.drop_last(), logical_doc_id);
        if records.last().logical_doc_id@ == logical_doc_id {
            rest.push(records.last())
        } else {
            rest
        }
    }
}

/// The versions of the records, in order.
pub open spec fn versions_of(records: Seq<FileVersionRecord>) -> Seq<u64> {
    Seq::new(records.len(), |i: int| records[i].version)
}

/// Whether `history` is `records` sorted by version, records of equal
/// version in the order they stood.
pub open spec fn is_sorted_history(records: Seq<FileVersionRecord>, history: Seq<FileVersionRecord>) -> bool {
    exists|order: Seq<usize>| #[trigger]
        is_stable_order(versions_of(records), order) && history == arranged(records, order)
}

/// The version and the parent hash of the record that continues a
/// history: one after the last version with the last hash, or version 1
/// without a parent for an empty history.
pub fn next_version(history: &[FileVersionRecord]) -> (r: (u64, Option<String>))
    ensures
        history@.len() == 0 ==> r.0 == 1 && r.1 is None,
        history@.len() > 0 ==> r.0 == version_after(history@.last().version),
        history@.len() > 0 ==> (r.1 matches Some(h) && h@ == history@.last().sha256_hex@),
{
    if history.len() == 0 {
        (1, None)
    } else {
        let last = &history[history.len() - 1];
        (last.version.saturating_add(1), Some(last.sha256_hex.clone()))
    }
}

/// The record that continues a history, with the given identifier and time.
pub fn file_version(
    history: &[FileVersionRecord],
    id: String,
    timestamp: i64,
    logical_doc_id: &str,
    action: FileAction,
    path: &str,
    sha256_hex: &str,
    ev: &C2CEvent,
    anchor: Option<&ArweaveAnchor>,
) -> (record: FileVersionRecord)
    ensures
        record.id == id,
        record.timestamp == timestamp,
        record.logical_doc_id@ == logical_doc_id@,
        record.action == action,
        record.path@ == path@,
        record.sha256_hex@ == sha256_hex@,
        record.c2c_event_id@ == ev.id@,
        match anchor {
            Some(a) => record.arweave_tx_id matches Some(tx) && tx@ == a.tx_id@,
            None => record.arweave_tx_id is None,
        },
        history@.len() == 0 ==> record.version == 1 && record.parent_hash is None,
        history@.len() > 0 ==> record.version == version_after(history@.last().version),
        history@.len() > 0 ==> (record.parent_hash matches Some(h) && h@ == history@.last().sha256_hex@),
{
    let (version, parent_hash) = next_version(history);
    let arweave_tx_id = match anchor {
        Some(a) => Some(a.tx_id.clone()),
        None => None,
    };
    FileVersionRecord {
        id,
        logical_doc_id: logical_doc_id.to_owned(),
        version,
        action,
        parent_hash,
        path: path.to_owned(),
        sha256_hex: sha256_hex.to_owned(),
        c2c_event_id: ev.id.clone(),
        arweave_tx_id,
        timestamp,
    }
}

/// The record that continues a history, under a fresh identifier and at
/// the time of the clock. The caller appends it to the log.
pub fn record_file_version(
    history: &[FileVersionRecord],
    logical_doc_id: &str,
    action: FileAction,
    path: &str,
    sha256_hex: &str,
    ev: &C2CEvent,
    anchor: Option<&ArweaveAnchor>,
) -> (record: FileVersionRecord)
    ensures
        record.logical_doc_id@ == logical_doc_id@,
        record.action == action,
        record.path@ == path@,
        record.sha256_hex@ == sha256_hex@,
        record.c2c_event_id@ == ev.id@,
        match anchor {
            Some(a) => record.arweave_tx_id matches Some(tx) && tx@ == a.tx_id@,
            None => record.arweave_tx_id is None,
        },
        history@.len() == 0 ==> record.version == 1 && record.parent_hash is None,
        history@.len() > 0 ==> record.version == version_after(history@.last().version),
        history@.len() > 0 ==> (record.parent_hash matches Some(h) && h@ == history@.last().sha256_hex@),
{
    file_version(history, fresh_uuid(), utc_timestamp(), logical_doc_id, action, path, sha256_hex, ev, anchor)
}

/// The history of one document: its records among `records`, sorted by
/// version, records of equal version in the order they stood.
pub fn load_history(records: &[FileVersionRecord], logical_doc_id: &str) -> (history: Vec<FileVersionRecord>)
    ensures
        is_sorted_history(records_of(records@, logical_doc_id@), history@),
{
    let wanted = logical_doc_id.to_owned();
    let mut own: Vec<FileVersionRecord> = Vec::new();
    let mut keys: Vec<u64> = Vec::new();
    let mut i: usize = 0;
    while i < records.len()
        invariant
            i <= records.len(),
            wanted@ == logical_doc_id@,
            own@ == records_of(records@.subrange(0, i as int), logical_doc_id@),
            keys@ == versions_of(own@),
        decreases records.len() - i,
    {
        proof {
            let next = records@.subrange(0, i as int + 1);
            assert(next.drop_last() =~= records@.subrange(0, i as int));
            assert(next.last() == records@[i as int]);
        }
        if records[i].logical_doc_id == wanted {
            own.push(records[i].clone());
            keys.push(records[i].version);
            assert(keys@ =~= versions_of(own@));
        }
        i += 1;
    }
    assert(records@.subrange(0, i as int) =~= records@);
    let order = stable_order(keys.as_slice());
    let mut history: Vec<FileVersionRecord> = Vec::new();
    let mut j: usize = 0;
    while j < order.len()
        invariant
            j <= order.len(),
            is_stable_order(keys@, order@),
            keys@.len() == own@.len(),
            history@.len() == j,
            forall|k: int| 0 <= k < j ==> history@[k] == own@[order@[k] as int],
        decreases order.len() - j,
    {
        history.push(own[order[j]].clone());
        j += 1;
    }
    assert(history@ =~= arranged(own@, order@));
    history
}

} // verus!
