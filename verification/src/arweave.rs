//! Anchoring of hashes: what is sent, what comes back, and the decision
//! between a simulated and a real anchor.

pub mod clients;
pub mod types;

use crate::error::AppError;
use vstd::prelude::*;
use vstd::string::StringExecFns;

verus! {

/// The endpoint used when none is configured.
pub const DEFAULT_ENDPOINT: &'static str = "https://node2.bundlr.network";

/// The kind under which a file version's hash is anchored.
pub const FILE_VERSION_KIND: &'static str = "file_version_hash";

/// The kind under which an event's hash is anchored.
pub const EVENT_KIND: &'static str = "c2c_event_hash";

/// What is sent to be anchored.
#[derive(Debug)]
pub struct ArweaveAnchorPayload<'a> {
    pub kind: &'a str,
    pub hash_hex: &'a str,
    pub label: Option<&'a str>,
}

/// A hash that was anchored.
#[derive(Debug)]
pub struct ArweaveAnchor {
    pub tx_id: String,
}

impl Clone for ArweaveAnchor {
    fn clone(&self) -> (r: Self)
        ensures
            r == *self,
    {
        ArweaveAnchor { tx_id: self.tx_id.clone() }
    }
}

/// Where anchors are sent, and the key to send them with.
#[derive(Debug)]
pub struct ArweaveClient {
    endpoint: String,
    api_key: Option<String>,
}

/// What the client does with a payload.
#[derive(Debug)]
pub enum AnchorStep {
    /// No key is configured: the anchor is simulated under this
    /// transaction id.
    Simulated(String),
    /// The payload is to be posted to this URL with this key.
    Post { url: String, api_key: String },
}

impl ArweaveClient {
    pub closed spec fn endpoint(&self) -> Seq<char> {
        self.endpoint@
    }

    pub closed spec fn api_key(&self) -> Option<Seq<char>> {
        match self.api_key {
            Some(k) => Some(k@),
            None => None,
        }
    }

    /// The client for what the environment configures: the endpoint it
    /// names, or the default one, and the key if it names one.
    pub fn from_env(endpoint: Option<String>, api_key: Option<String>) -> (c: Self)
        ensures
            c.endpoint() == match endpoint {
                Some(e) => e@,
                None => DEFAULT_ENDPOINT@,
            },
            c.api_key() == match api_key {
                Some(k) => Some(k@),
                None => None,
            },
    {
        let endpoint = match endpoint {
            Some(e) => e,
            None => DEFAULT_ENDPOINT.to_owned(),
        };
        ArweaveClient { endpoint, api_key }
    }

    /// Decides how a payload is anchored: simulated under
    /// `"simulated-"` + hash where no key is configured, else posted to
    /// the endpoint's `/tx`.
    pub fn anchor_step(&self, payload: &ArweaveAnchorPayload<'_>) -> (step: AnchorStep)
        ensures
            match self.api_key() {
                None => step matches AnchorStep::Simulated(tx) && tx@ == "simulated-"@ + payload.hash_hex@,
                Some(k) => step matches AnchorStep::Post { url, api_key } && url@ == self.endpoint() + "/tx"@
                    && api_key@ == k,
            },
    {
        match &self.api_key {
            None => AnchorStep::Simulated(String::from_str("simulated-").concat(payload.hash_hex)),
            Some(k) => AnchorStep::Post { url: self.endpoint.clone().concat("/tx"), api_key: k.clone() },
        }
    }

    /// Reads the answer to a posted anchor: the transaction id, where the
    /// post succeeded and the answer carries a non-empty `id`.
    pub fn anchored_id(success: bool, status_and_body: &str, id: Option<&str>) -> (r: Result<String, AppError>)
        ensures
            match r {
                Ok(tx) => id matches Some(i) && success && i@.len() > 0 && tx@ == i@,
                Err(e) => {
                    &&& e is Internal
                    &&& if !success {
                        e.detail() == "Arweave HTTP "@ + status_and_body@
                    } else {
                        e.detail() == "Arweave response missing `id`"@ && (id matches Some(i) ==> i@.len() == 0)
                    }
                },
            },
    {
        if !success {
            return Err(AppError::Internal(String::from_str("Arweave HTTP ").concat(status_and_body)));
        }
        match id {
            Some(i) => {
                if i.is_empty() {
                    Err(AppError::Internal("Arweave response missing `id`".to_owned()))
                } else {
                    Ok(i.to_owned())
                }
            },
            None => Err(AppError::Internal("Arweave response missing `id`".to_owned())),
        }
    }
}

/// The payload that anchors a file version's hash.
pub fn file_version_payload<'a>(hash_hex: &'a str) -> (p: ArweaveAnchorPayload<'a>)
    ensures
        p.kind@ == FILE_VERSION_KIND@,
        p.hash_hex@ == hash_hex@,
        p.label is None,
{
    ArweaveAnchorPayload { kind: FILE_VERSION_KIND, hash_hex, label: None }
}

/// The payload that anchors an event's hash.
pub fn event_payload<'a>(hash_hex: &'a str) -> (p: ArweaveAnchorPayload<'a>)
    ensures
        p.kind@ == EVENT_KIND@,
        p.hash_hex@ == hash_hex@,
        p.label is None,
{
    ArweaveAnchorPayload { kind: EVENT_KIND, hash_hex, label: None }
}

} // verus!
