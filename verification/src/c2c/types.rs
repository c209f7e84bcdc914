//! Chain-of-custody events.

use vstd::prelude::*;

verus! {

/// What happened to a document.
#[derive(Debug, Clone, Copy, PartialEq, Eq, Structural)]
pub enum C2CEventKind {
    DocumentUploaded,
    DocumentDownloaded,
    DocumentSigned,
    DocumentUpdated,
}

/// What an event says of its document.
#[derive(Debug)]
pub struct EventPayload {
    pub doc_hash: String,
    pub arweave_tx: Option<String>,
    /// Further details, as JSON text.
    pub metadata: Option<String>,
}

/// One event in a document's chain of custody.
#[derive(Debug)]
pub struct C2CEvent {
    pub id: String,
    /// Unix time, in seconds.
    pub timestamp: u64,
    pub actor_wallet: String,
    pub kind: C2CEventKind,
    pub payload: EventPayload,
    pub signature_b64: Option<String>,
}

impl Clone for EventPayload {
    fn clone(&self) -> (r: Self)
        ensures
            r == *self,
    {
        EventPayload {
            doc_hash: self.doc_hash.clone(),
            arweave_tx: clone_text_option(&self.arweave_tx),
            metadata: clone_text_option(&self.metadata),
        }
    }
}

impl Clone for C2CEvent {
    fn clone(&self) -> (r: Self)
        ensures
            r == *self,
    {
        C2CEvent {
            id: self.id.clone(),
            timestamp: self.timestamp,
            actor_wallet: self.actor_wallet.clone(),
            kind: self.kind,
            payload: self.payload.clone(),
            signature_b64: clone_text_option(&self.signature_b64),
        }
    }
}

/// Copies an optional text.
pub fn clone_text_option(o: &Option<String>) -> (r: Option<String>)
    ensures
        r == *o,
{
    match o {
        Some(s) => Some(s.clone()),
        None => None,
    }
}

impl C2CEvent {
    /// The event as it is hashed for anchoring: without its signature.
    pub fn without_signature(&self) -> (bare: Self)
        ensures
            bare == (C2CEvent { signature_b64: None, ..*self }),
    {
        let mut bare = self.clone();
        bare.signature_b64 = None;
        bare
    }
}

} // verus!
