//! Login with a Solana wallet.

use crate::identity_web::state::AuthState;
use crate::system::unix_now;
use vstd::prelude::*;

verus! {

/// The answer to a request for a nonce.
#[derive(Debug)]
pub struct SolNonceResponse {
    pub session_id: String,
    pub nonce: String,
}

/// A request to verify a login.
#[derive(Debug)]
pub struct SolVerifyRequest {
    pub session_id: String,
    pub address: String,
    pub signature: String,
}

/// A login that succeeded.
#[derive(Debug)]
pub struct AuthSuccess {
    pub address: String,
    pub session_id: String,
}

/// Issues a nonce for a login.
pub fn sol_nonce(st: &mut AuthState) -> (r: SolNonceResponse)
    requires
        old(st).wf(),
    ensures
        final(st).wf(),
        final(st).nonces().contains_key(r.session_id@),
        final(st).nonces()[r.session_id@]@ == r.nonce@,
        final(st).sessions() == old(st).sessions(),
{
    let (session_id, nonce) = st.create_nonce();
    SolNonceResponse { session_id, nonce }
}

/// Accepts a login at the time `now` if the session has a nonce waiting:
/// the nonce is taken and the address bound to the session. Without a
/// nonce the answer is status 400 and nothing changes.
pub fn verify_sol_login_at(st: &mut AuthState, req: SolVerifyRequest, now: i64) -> (r: Result<
    AuthSuccess,
    (u16, String),
>)
    requires
        old(st).wf(),
    ensures
        final(st).wf(),
        final(st).nonces() == old(st).nonces().remove(req.session_id@),
        match r {
            Ok(ok) => {
                &&& old(st).nonces().contains_key(req.session_id@)
                &&& ok.address@ == req.address@
                &&& ok.session_id@ == req.session_id@
                &&& final(st).sessions().dom() == old(st).sessions().dom().insert(req.session_id@)
                &&& final(st).sessions()[req.session_id@].wallet@ == req.address@
                &&& final(st).sessions()[req.session_id@].chain@ == "sol"@
                &&& final(st).sessions()[req.session_id@].created_at == now
            },
            Err(e) => {
                &&& !old(st).nonces().contains_key(req.session_id@)
                &&& e.0 == 400
                &&& e.1@ == "Unknown or expired session"@
                &&& final(st).sessions() == old(st).sessions()
            },
        },
{
    match st.take_nonce(req.session_id.as_str()) {
        Some(_) => {},
        None => {
            return Err((400, "Unknown or expired session".to_owned()));
        },
    }
    st.bind_wallet_at(req.session_id.clone(), req.address.clone(), "sol", now);
    Ok(AuthSuccess { address: req.address, session_id: req.session_id })
}

/// Accepts a login by the clock. See [`verify_sol_login_at`].
pub fn verify_sol_login(st: &mut AuthState, req: SolVerifyRequest) -> (r: Result<AuthSuccess, (u16, String)>)
    requires
        old(st).wf(),
    ensures
        final(st).wf(),
        final(st).nonces() == old(st).nonces().remove(req.session_id@),
        r is Ok <==> old(st).nonces().contains_key(req.session_id@),
{
    let now = unix_now();
    verify_sol_login_at(st, req, now)
}

} // verus!
