//! Building events.

use crate::c2c::types::{C2CEvent, C2CEventKind, EventPayload};
use crate::system::{fresh_uuid, utc_timestamp};
use vstd::prelude::*;

verus! {

/// Seconds as an unsigned time; a clock before the epoch counts as zero.
pub open spec fn unsigned_time(seconds: i64) -> u64 {
    if seconds < 0 {
        0
    } else {
        seconds as u64
    }
}

/// Builds an event for a document hash, with the given identifier and
/// time. The event is not signed.
pub fn doc_event(
    id: String,
    seconds: i64,
    actor_wallet: String,
    kind: C2CEventKind,
    doc_hash_hex: String,
    arweave_tx: Option<String>,
    metadata: Option<String>,
) -> (ev: C2CEvent)
    ensures
        ev.id == id,
        ev.timestamp == unsigned_time(seconds),
        ev.actor_wallet == actor_wallet,
        ev.kind == kind,
        ev.payload.doc_hash == doc_hash_hex,
        ev.payload.arweave_tx == arweave_tx,
        ev.payload.metadata == metadata,
        ev.signature_b64 is None,
{
    let timestamp: u64 = if seconds < 0 {
        0
    } else {
        seconds as u64
    };
    C2CEvent {
        id,
        timestamp,
        actor_wallet,
        kind,
        payload: EventPayload { doc_hash: doc_hash_hex, arweave_tx, metadata },
        signature_b64: None,
    }
}

/// Builds an event for a document hash under a fresh identifier, at the
/// time of the clock. The event is not signed.
pub fn new_doc_event(
    actor_wallet: String,
    kind: C2CEventKind,
    doc_hash_hex: String,
    arweave_tx: Option<String>,
    metadata: Option<String>,
) -> (ev: C2CEvent)
    ensures
        ev.actor_wallet == actor_wallet,
        ev.kind == kind,
        ev.payload.doc_hash == doc_hash_hex,
        ev.payload.arweave_tx == arweave_tx,
        ev.payload.metadata == metadata,
        ev.signature_b64 is None,
{
    doc_event(fresh_uuid(), utc_timestamp(), actor_wallet, kind, doc_hash_hex, arweave_tx, metadata)
}

} // verus!
