//! What the HTTP handlers decide, between the request that was read and
//! the answer that is written.

use crate::cli::commands::doc::{find_doc, is_owned_by, lookup_of, DocEntry};
use crate::crypto::canonical::canonicalize::{canonical_form, canonical_json};
use crate::crypto::canonical::envelope::DocumentEnvelopeV1;
use crate::crypto::canonical::hash::envelope_id;
use crate::error::AppError;
use crate::identity_web::state::AuthState;
use crate::system::unix_now;
use crate::text::{lowercase_of, text_eq, to_lowercase};
use vstd::prelude::*;

verus! {

/// The answer to a health check.
pub fn health() -> (s: &'static str)
    ensures
        s@ == "OK"@,
{
    "OK"
}

/// Resolves the wallet of a request at the time `now`, from the session
/// id its header carries. A request without the header, or with the id
/// of no live session, is refused with an `Auth` error.
pub fn require_wallet_at(st: &mut AuthState, session_header: Option<&str>, now: i64) -> (r: Result<String, AppError>)
    requires
        old(st).wf(),
    ensures
        final(st).wf(),
        final(st).nonces() == old(st).nonces(),
        match session_header {
            None => {
                &&& r matches Err(e)
                &&& e is Auth
                &&& e.detail() == "Missing x-session-id header"@
                &&& final(st).sessions() == old(st).sessions()
            },
            Some(sid) => match r {
                Ok(wallet) => {
                    &&& AuthState::looked_up(
                        old(st).sessions(),
                        final(st).sessions(),
                        sid@,
                        now,
                        Some(old(st).sessions()[sid@]),
                    )
                    &&& wallet == old(st).sessions()[sid@].wallet
                },
                Err(e) => {
                    &&& AuthState::looked_up(old(st).sessions(), final(st).sessions(), sid@, now, None)
                    &&& e is Auth
                    &&& e.detail() == "Invalid or expired session"@
                },
            },
        },
{
    let sid = match session_header {
        Some(s) => s,
        None => { return Err(AppError::Auth("Missing x-session-id header".to_owned())); },
    };
    match st.get_session_at(sid, now) {
        Some(sess) => Ok(sess.wallet),
        None => Err(AppError::Auth("Invalid or expired session".to_owned())),
    }
}

/// Resolves the wallet of a request by the clock. See
/// [`require_wallet_at`].
pub fn require_wallet_from_headers(st: &mut AuthState, session_header: Option<&str>) -> (r: Result<String, AppError>)
    requires
        old(st).wf(),
    ensures
        final(st).wf(),
        final(st).nonces() == old(st).nonces(),
        session_header is None ==> r is Err && final(st).sessions() == old(st).sessions(),
        r matches Ok(wallet) ==> session_header matches Some(sid) && old(st).sessions().contains_key(sid@) && wallet
            == old(st).sessions()[sid@].wallet,
        r matches Err(e) ==> e is Auth,
{
    let now = unix_now();
    require_wallet_at(st, session_header, now)
}

/// Ends the session a request names. A request without the header is
/// refused with an `Auth` error and ends nothing.
pub fn logout(st: &mut AuthState, session_header: Option<&str>) -> (r: Result<(), AppError>)
    requires
        old(st).wf(),
    ensures
        final(st).wf(),
        final(st).nonces() == old(st).nonces(),
        match session_header {
            Some(sid) => r is Ok && final(st).sessions() == old(st).sessions().remove(sid@),
            None => {
                &&& r matches Err(e)
                &&& e is Auth
                &&& e.detail() == "Missing x-session-id"@
                &&& final(st).sessions() == old(st).sessions()
            },
        },
{
    match session_header {
        Some(sid) => {
            st.revoke_session(sid);
            Ok(())
        },
        None => Err(AppError::Auth("Missing x-session-id".to_owned())),
    }
}

/// Whether an envelope's owner and a wallet are the same identity,
/// casing aside.
pub open spec fn same_identity(owner: Seq<char>, wallet: Seq<char>) -> bool {
    lowercase_of(owner) == lowercase_of(wallet)
}

/// Checks that an envelope belongs to the wallet of the session. Another
/// owner's envelope is refused as `Forbidden`.
pub fn check_owner(env: &DocumentEnvelopeV1, wallet: &str) -> (r: Result<(), AppError>)
    ensures
        match r {
            Ok(_) => same_identity(env@.owner, wallet@),
            Err(e) => !same_identity(env@.owner, wallet@) && e is Forbidden && e.detail()
                == "envelope owner does not match session wallet"@,
        },
{
    if !text_eq(to_lowercase(env.owner.as_str()).as_str(), to_lowercase(wallet).as_str()) {
        return Err(AppError::Forbidden("envelope owner does not match session wallet".to_owned()));
    }
    Ok(())
}

/// Accepts an envelope for storing: it must belong to the wallet of the
/// session. Returns its identifier and the canonical bytes to store
/// under it.
pub fn accept_envelope(env: &DocumentEnvelopeV1, wallet: &str) -> (r: Result<(String, Vec<u8>), AppError>)
    ensures
        match r {
            Ok((id, canon)) => {
                &&& same_identity(env@.owner, wallet@)
                &&& canon@ == canonical_form(env@)
                &&& id@ == DocumentEnvelopeV1::id_of(env@)
            },
            Err(e) => !same_identity(env@.owner, wallet@) && e is Forbidden && e.detail()
                == "envelope owner does not match session wallet"@,
        },
{
    match check_owner(env, wallet) {
        Ok(_) => {},
        Err(e) => { return Err(e); },
    }
    let canon = canonical_json(env);
    let eid = envelope_id(canon.as_slice());
    Ok((eid, canon))
}

/// What a check of ownership found.
#[derive(Debug)]
pub struct DocVerification {
    /// Whether the document belongs to the wallet that asked.
    pub owned: bool,
    /// The position of the document in the index.
    pub position: usize,
}

/// Looks a document up by identifier, or else by hash, and says whether
/// it belongs to the wallet. Without either the request is refused, and
/// so is one for a document that is not in the index.
pub fn verify_doc(docs: &[DocEntry], logical_id: &Option<String>, hash_hex: &Option<String>, wallet: &str) -> (r:
    Result<DocVerification, AppError>)
    ensures
        match r {
            Ok(v) => {
                &&& lookup_of(docs@, *logical_id, *hash_hex) == Ok::<int, Seq<char>>(v.position as int)
                &&& v.position < docs@.len()
                &&& v.owned == (docs@[v.position as int].owner_wallet matches Some(w) && w@ == wallet@)
            },
            Err(e) => {
                &&& e is BadRequest
                &&& lookup_of(docs@, *logical_id, *hash_hex) is Err
                &&& e.detail() == if logical_id is None && hash_hex is None {
                    "Provide logical_id or hash_hex"@
                } else {
                    "Document not found"@
                }
            },
        },
{
    if logical_id.is_none() && hash_hex.is_none() {
        return Err(AppError::BadRequest("Provide logical_id or hash_hex".to_owned()));
    }
    match find_doc(docs, logical_id, hash_hex) {
        Ok(position) => Ok(DocVerification { owned: is_owned_by(&docs[position], wallet), position }),
        Err(_) => Err(AppError::BadRequest("Document not found".to_owned())),
    }
}

} // verus!
