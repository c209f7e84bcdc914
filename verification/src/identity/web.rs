//! Login by address: a nonce is issued per address, and a login is
//! accepted for an address that has one.

use crate::error::AppError;
use crate::text::{lowercase_of, to_lowercase};
use crate::text_map::TextMap;
use rand::Rng;
use vstd::prelude::*;
use vstd::string::StringExecFns;

verus! {

/// The nonces that were issued, by address.
pub struct AuthState {
    pub evm_nonces: TextMap<String>,
    pub sol_nonces: TextMap<String>,
}

/// A nonce to sign.
#[derive(Debug)]
pub struct NonceResponse {
    pub nonce: String,
}

/// A request for a nonce.
#[derive(Debug)]
pub struct EvmAddressReq {
    pub address: String,
}

/// A request to log in.
#[derive(Debug)]
pub struct EvmVerifyReq {
    pub address: String,
    pub signature: String,
}

/// A login that was accepted.
#[derive(Debug)]
pub struct LoginResponse {
    pub token: String,
    pub identity: String,
}

/// Draws a number with `rand::thread_rng().gen::<u64>()`. Nothing is
/// known of the value.
#[verifier::external_body]
fn random_u64() -> u64 {
    rand::thread_rng().gen::<u64>()
}

/// The character of a decimal digit.
pub open spec fn digit_char(d: nat) -> char {
    if d == 0 { '0' } else if d == 1 { '1' } else if d == 2 { '2' } else if d == 3 { '3' }
    else if d == 4 { '4' } else if d == 5 { '5' } else if d == 6 { '6' } else if d == 7 { '7' }
    else if d == 8 { '8' } else { '9' }
}

/// A natural number in decimal, without leading zeros.
pub open spec fn decimal_text(n: nat) -> Seq<char>
    decreases n,
{
    if n < 10 {
        seq![digit_char(n)]
    } else {
        decimal_text(n / 10).push(digit_char(n % 10))
    }
}

/// The text of one decimal digit.
fn digit_str(d: u64) -> (s: &'static str)
    requires
        d < 10,
    ensures
        s@ == seq![digit_char(d as nat)],
{
    proof {
        reveal_strlit("0");
        reveal_strlit("1");
        reveal_strlit("2");
        reveal_strlit("3");
        reveal_strlit("4");
        reveal_strlit("5");
        reveal_strlit("6");
        reveal_strlit("7");
        reveal_strlit("8");
        reveal_strlit("9");
    }
    let s = if d == 0 { "0" } else if d == 1 { "1" } else if d == 2 { "2" } else if d == 3 { "3" }
    else if d == 4 { "4" } else if d == 5 { "5" } else if d == 6 { "6" } else if d == 7 { "7" }
    else if d == 8 { "8" } else { "9" };
    assert(s@ =~= seq![digit_char(d as nat)]);
    s
}

/// Appends a number in decimal.
pub fn append_decimal(s: String, n: u64) -> (r: String)
    ensures
        r@ == s@ + decimal_text(n as nat),
    decreases n,
{
    let head = if n >= 10 {
        append_decimal(s, n / 10)
    } else {
        s
    };
    let r = head.concat(digit_str(n % 10));
    assert(r@ =~= s@ + decimal_text(n as nat));
    r
}

impl AuthState {
    /// Both stores are well formed.
    pub open spec fn wf(&self) -> bool {
        self.evm_nonces.wf() && self.sol_nonces.wf()
    }

    /// A state with no nonce.
    pub fn new() -> (st: Self)
        ensures
            st.wf(),
            st.evm_nonces@ == Map::<Seq<char>, String>::empty(),
            st.sol_nonces@ == Map::<Seq<char>, String>::empty(),
    {
        AuthState { evm_nonces: TextMap::new(), sol_nonces: TextMap::new() }
    }

    /// Issues the nonce `tidbit-login-<number>` for an address, in place
    /// of an earlier one.
    pub fn evm_nonce_with(&mut self, req: &EvmAddressReq, number: u64) -> (r: NonceResponse)
        requires
            old(self).wf(),
        ensures
            final(self).wf(),
            r.nonce@ == "tidbit-login-"@ + decimal_text(number as nat),
            final(self).evm_nonces@.contains_key(req.address@),
            final(self).evm_nonces@[req.address@]@ == r.nonce@,
            final(self).evm_nonces@.dom() == old(self).evm_nonces@.dom().insert(req.address@),
            final(self).sol_nonces == old(self).sol_nonces,
    {
        let nonce = append_decimal(String::from_str("tidbit-login-"), number);
        self.evm_nonces.insert(req.address.clone(), nonce.clone());
        NonceResponse { nonce }
    }

    /// Issues a nonce with a random number for an address.
    pub fn evm_nonce(&mut self, req: &EvmAddressReq) -> (r: NonceResponse)
        requires
            old(self).wf(),
        ensures
            final(self).wf(),
            final(self).evm_nonces@.contains_key(req.address@),
            final(self).evm_nonces@[req.address@]@ == r.nonce@,
            final(self).sol_nonces == old(self).sol_nonces,
    {
        self.evm_nonce_with(req, random_u64())
    }

    /// Accepts a login for an address that has a nonce; the signature is
    /// not checked. Without a nonce the request is refused.
    pub fn evm_verify(&self, req: &EvmVerifyReq) -> (r: Result<LoginResponse, AppError>)
        requires
            self.wf(),
        ensures
            match r {
                Ok(login) => {
                    &&& self.evm_nonces@.contains_key(req.address@)
                    &&& login.identity@ == "evm:"@ + lowercase_of(req.address@)
                    &&& login.token@ == "token-"@ + login.identity@
                },
                Err(e) => !self.evm_nonces@.contains_key(req.address@) && e is BadRequest && e.detail()
                    == "Nonce expired"@,
            },
    {
        if !self.evm_nonces.contains_key(req.address.as_str()) {
            return Err(AppError::BadRequest("Nonce expired".to_owned()));
        }
        Ok(login_for("evm:", req.address.as_str()))
    }
}

/// The login of an address under a chain prefix.
pub fn login_for(prefix: &str, address: &str) -> (login: LoginResponse)
    ensures
        login.identity@ == prefix@ + lowercase_of(address@),
        login.token@ == "token-"@ + login.identity@,
{
    let lower = to_lowercase(address);
    let identity = String::from_str(prefix).concat(lower.as_str());
    let token = String::from_str("token-").concat(identity.as_str());
    LoginResponse { token, identity }
}

/// The nonce `tidbit-sol-<number>`.
pub fn sol_nonce_with(number: u64) -> (r: NonceResponse)
    ensures
        r.nonce@ == "tidbit-sol-"@ + decimal_text(number as nat),
{
    NonceResponse { nonce: append_decimal(String::from_str("tidbit-sol-"), number) }
}

/// A nonce with a random number.
pub fn sol_nonce() -> (r: NonceResponse)
    ensures
        exists|number: u64| r.nonce@ == "tidbit-sol-"@ + #[trigger] decimal_text(number as nat),
{
    let number = random_u64();
    let r = sol_nonce_with(number);
    assert(r.nonce@ == "tidbit-sol-"@ + decimal_text(number as nat));
    r
}

/// Accepts a login; the signature is not checked.
pub fn sol_verify(req: &EvmVerifyReq) -> (login: LoginResponse)
    ensures
        login.identity@ == "sol:"@ + lowercase_of(req.address@),
        login.token@ == "token-"@ + login.identity@,
{
    login_for("sol:", req.address.as_str())
}

} // verus!
