//! The decrypt command: an envelope is opened for the wallet that owns it.

use crate::crypto::canonical::envelope::{decryption_of, DocumentEnvelopeV1};
use crate::error::{AppError, EnvelopeError};
use crate::text::{lowercase_of, text_eq, to_lowercase};
use vstd::prelude::*;
use vstd::string::StringExecFns;

verus! {

/// The arguments of the decrypt command.
#[derive(Debug)]
pub struct DecryptArgs {
    /// The identifier of the envelope.
    pub envelope_id: String,
    /// The owner's wallet; the environment's where none is given.
    pub wallet: Option<String>,
    /// Where to write the plaintext; standard output where none is given.
    pub out: Option<String>,
}

/// Whether an envelope's owner is the wallet, casing aside on the
/// envelope's side; the wallet is taken as given.
pub open spec fn owned_by_wallet(owner: Seq<char>, wallet: Seq<char>) -> bool {
    lowercase_of(owner) == wallet
}

/// Opens an envelope for a wallet that must own it.
///
/// An envelope of another owner is refused as `Forbidden` before any key
/// is used. A failure to decrypt is a `Crypto` error that carries the
/// envelope error's message.
pub fn open_for_wallet(env: &DocumentEnvelopeV1, owner_wallet: &str, sk_b64: &str) -> (r: Result<
    Vec<u8>,
    AppError,
>)
    ensures
        match r {
            Ok(p) => owned_by_wallet(env@.owner, owner_wallet@) && decryption_of(env@, env@.owner, sk_b64@) == Ok::<
                Seq<u8>,
                EnvelopeError,
            >(p@),
            Err(e) => if !owned_by_wallet(env@.owner, owner_wallet@) {
                e is Forbidden && e.detail() == "this envelope is not owned by the provided wallet"@
            } else {
                e is Crypto && decryption_of(env@, env@.owner, sk_b64@) is Err
            },
        },
{
    if !text_eq(to_lowercase(env.owner.as_str()).as_str(), owner_wallet) {
        return Err(AppError::Forbidden("this envelope is not owned by the provided wallet".to_owned()));
    }
    match env.decrypt_for_owner_mlkem(sk_b64) {
        Ok(p) => Ok(p),
        Err(e) => {
            let message = e.message();
            Err(AppError::Crypto(String::from_str("decrypt: ").concat(message.as_str())))
        },
    }
}

} // verus!
