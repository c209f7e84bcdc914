//! The events that are recorded for uploads and signatures.

use crate::c2c::event::new_doc_event;
use crate::c2c::types::{C2CEvent, C2CEventKind};
use vstd::prelude::*;

verus! {

/// The event for an uploaded document. The caller stores it.
pub fn record_upload_event(actor_wallet: String, doc_hash_hex: String, arweave_tx: Option<String>) -> (ev: C2CEvent)
    ensures
        ev.actor_wallet == actor_wallet,
        ev.kind == C2CEventKind::DocumentUploaded,
        ev.payload.doc_hash == doc_hash_hex,
        ev.payload.arweave_tx == arweave_tx,
        ev.payload.metadata is None,
        ev.signature_b64 is None,
{
    new_doc_event(actor_wallet, C2CEventKind::DocumentUploaded, doc_hash_hex, arweave_tx, None)
}

/// The event for a signed document. The caller stores it.
pub fn record_sign_event(actor_wallet: String, doc_hash_hex: String) -> (ev: C2CEvent)
    ensures
        ev.actor_wallet == actor_wallet,
        ev.kind == C2CEventKind::DocumentSigned,
        ev.payload.doc_hash == doc_hash_hex,
        ev.payload.arweave_tx is None,
        ev.payload.metadata is None,
        ev.signature_b64 is None,
{
    new_doc_event(actor_wallet, C2CEventKind::DocumentSigned, doc_hash_hex, None, None)
}

} // verus!
