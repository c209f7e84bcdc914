//! Verification of a wallet's post-quantum signature.

use crate::error::AppError;
use crate::pqc::dilithium;
use crate::pqc::dilithium::{dilithium3_opened, PUBLIC_KEY_LEN};
use vstd::prelude::*;

verus! {

/// Verifies a Dilithium3 signed message against a public key: true
/// exactly when the signed message opens, under the key, to the message.
pub fn verify_pqc_with_pubkey(message: &[u8], signature: &[u8], public_key: &[u8]) -> (r: Result<bool, AppError>)
    ensures
        r is Ok <==> public_key@.len() == PUBLIC_KEY_LEN,
        r matches Ok(b) ==> b == (dilithium3_opened(public_key@, signature@) == Some(message@)),
        r matches Err(e) ==> e is Internal && e.detail() == "Dilithium public key decode failed"@,
{
    dilithium::verify(public_key, message, signature)
}

} // verus!
