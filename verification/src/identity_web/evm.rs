//! Login with an EVM wallet: the message to sign, and the signature
//! held against the nonce that was issued.

use crate::error::AppError;
use crate::identity_web::state::AuthState;
use crate::system::unix_now;
use crate::text::{lowercase_of, to_lowercase, trim, trimmed_of};
use vstd::prelude::*;
use vstd::string::StringExecFns;

verus! {

/// The answer to a request for a nonce.
#[derive(Debug)]
pub struct EvmNonceResponse {
    pub session_id: String,
    pub nonce: String,
}

/// A request to verify a signed login message.
#[derive(Debug)]
pub struct EvmVerifyRequest {
    pub session_id: String,
    pub address: String,
    pub signature: String,
}

/// The address, as `0x` and forty hexadecimal digits, that an EIP-191
/// signature over a message recovers to, if the signature parses and
/// recovers.
pub uninterp spec fn evm_signer_of(message: Seq<char>, signature: Seq<char>) -> Option<Seq<char>>;

/// Parses the signature as `ethers_core::types::Signature`, hashes the
/// message with `ethers_core::utils::hash_message` and calls
/// `Signature::recover`; the address is returned in its `Debug` text.
/// The outcome depends on message and signature alone.
#[verifier::external_body]
fn verify_evm_signature(message: &str, signature: &str) -> (r: Option<String>)
    ensures
        match r {
            Some(a) => evm_signer_of(message@, signature@) == Some(a@),
            None => evm_signer_of(message@, signature@) is None,
        },
{
    let sig: ethers_core::types::Signature = match signature.parse() {
        Ok(s) => s,
        Err(_) => return None,
    };
    match sig.recover(ethers_core::utils::hash_message(message)) {
        Ok(recovered) => Some(format!("{:?}", recovered)),
        Err(_) => None,
    }
}

/// The text of the login message for a nonce.
pub open spec fn login_message_of(nonce: Seq<char>) -> Seq<char> {
    "TIDBIT Authentication\nNonce: "@ + nonce + "\nPurpose: Login\nVersion: 1"@
}

/// The message a wallet signs to log in.
pub fn evm_login_message(nonce: &str) -> (m: String)
    ensures
        m@ == login_message_of(nonce@),
{
    String::from_str("TIDBIT Authentication\nNonce: ").concat(nonce).concat("\nPurpose: Login\nVersion: 1")
}

/// What a login attempt comes to, before anything is bound: the address
/// that logged in, or the reason for refusing.
pub open spec fn evm_login_decision(
    nonces: Map<Seq<char>, String>,
    session_id: Seq<char>,
    address: Seq<char>,
    signature: Seq<char>,
) -> Result<Seq<char>, Seq<char>> {
    let sid = trimmed_of(session_id);
    let addr = lowercase_of(trimmed_of(address));
    let sig = trimmed_of(signature);
    if sid.len() == 0 {
        Err("Missing session_id"@)
    } else if addr.len() == 0 {
        Err("Empty address"@)
    } else if sig.len() == 0 {
        Err("Empty signature"@)
    } else if !nonces.contains_key(sid) {
        Err("Unknown or expired session"@)
    } else {
        match evm_signer_of(login_message_of(nonces[sid]@), sig) {
            None => Err("Invalid signature"@),
            Some(recovered) => if lowercase_of(recovered) != addr {
                Err("Signature does not match address"@)
            } else {
                Ok(addr)
            },
        }
    }
}

/// Whether a request names a session, an address and a signature, so that
/// its nonce is taken.
pub open spec fn evm_login_takes_nonce(session_id: Seq<char>, address: Seq<char>, signature: Seq<char>) -> bool {
    trimmed_of(session_id).len() != 0 && lowercase_of(trimmed_of(address)).len() != 0 && trimmed_of(
        signature,
    ).len() != 0
}

/// Checks a login at the time `now`: the nonce of the session is taken,
/// the signer of the login message recovered and compared with the
/// address. On success the wallet is bound to the session and the
/// address returned in lowercase. Every refusal is an `Auth` error.
pub fn verify_evm_login_at(st: &mut AuthState, req: &EvmVerifyRequest, now: i64) -> (r: Result<String, AppError>)
    requires
        old(st).wf(),
    ensures
        final(st).wf(),
        final(st).nonces() == if evm_login_takes_nonce(req.session_id@, req.address@, req.signature@) {
            old(st).nonces().remove(trimmed_of(req.session_id@))
        } else {
            old(st).nonces()
        },
        match r {
            Ok(address) => {
                let sid = trimmed_of(req.session_id@);
                &&& evm_login_decision(old(st).nonces(), req.session_id@, req.address@, req.signature@) == Ok::<
                    Seq<char>,
                    Seq<char>,
                >(address@)
                &&& final(st).sessions().dom() == old(st).sessions().dom().insert(sid)
                &&& forall|other: Seq<char>|
                    other != sid && old(st).sessions().contains_key(other) ==> final(st).sessions()[other] == old(
                        st,
                    ).sessions()[other]
                &&& final(st).sessions()[sid].wallet@ == address@
                &&& final(st).sessions()[sid].chain@ == "evm"@
                &&& final(st).sessions()[sid].created_at == now
            },
            Err(e) => {
                &&& e is Auth
                &&& evm_login_decision(old(st).nonces(), req.session_id@, req.address@, req.signature@) == Err::<
                    Seq<char>,
                    Seq<char>,
                >(e.detail())
                &&& final(st).sessions() == old(st).sessions()
            },
        },
{
    let sid = trim(req.session_id.as_str());
    let address = to_lowercase(trim(req.address.as_str()));
    let signature = trim(req.signature.as_str());
    if sid.is_empty() {
        return Err(AppError::Auth("Missing session_id".to_owned()));
    }
    if address.as_str().is_empty() {
        return Err(AppError::Auth("Empty address".to_owned()));
    }
    if signature.is_empty() {
        return Err(AppError::Auth("Empty signature".to_owned()));
    }
    let nonce = match st.take_nonce(sid) {
        Some(n) => n,
        None => { return Err(AppError::Auth("Unknown or expired session".to_owned())); },
    };
    let message = evm_login_message(nonce.as_str());
    let recovered = match verify_evm_signature(message.as_str(), signature) {
        Some(a) => to_lowercase(a.as_str()),
        None => { return Err(AppError::Auth("Invalid signature".to_owned())); },
    };
    if recovered != address {
        return Err(AppError::Auth("Signature does not match address".to_owned()));
    }
    st.bind_wallet_at(sid.to_owned(), address.clone(), "evm", now);
    Ok(address)
}

/// Checks a login by the clock. See [`verify_evm_login_at`].
pub fn verify_evm_login(st: &mut AuthState, req: &EvmVerifyRequest) -> (r: Result<String, AppError>)
    requires
        old(st).wf(),
    ensures
        final(st).wf(),
        match r {
            Ok(address) => evm_login_decision(old(st).nonces(), req.session_id@, req.address@, req.signature@)
                == Ok::<Seq<char>, Seq<char>>(address@),
            Err(e) => e is Auth && evm_login_decision(
                old(st).nonces(),
                req.session_id@,
                req.address@,
                req.signature@,
            ) == Err::<Seq<char>, Seq<char>>(e.detail()) && final(st).sessions() == old(st).sessions(),
        },
{
    let now = unix_now();
    verify_evm_login_at(st, req, now)
}

/// Issues a nonce for a login.
pub fn evm_nonce(st: &mut AuthState) -> (r: EvmNonceResponse)
    requires
        old(st).wf(),
    ensures
        final(st).wf(),
        final(st).nonces().contains_key(r.session_id@),
        final(st).nonces()[r.session_id@]@ == r.nonce@,
        final(st).sessions() == old(st).sessions(),
{
    let (session_id, nonce) = st.create_nonce();
    EvmNonceResponse { session_id, nonce }
}

} // verus!
