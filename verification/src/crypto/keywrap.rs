//! Key wrapping over raw Kyber keys. The library does not offer it: both
//! directions answer with a `Crypto` error.

use crate::error::AppError;
use vstd::prelude::*;

verus! {

/// Wrapping a symmetric key for a recipient is not offered: the answer is
/// always the same `Crypto` error.
pub fn wrap_key_for_recipient(_recipient_kyber_public_key: &[u8], _aes_key: &[u8]) -> (r: Result<Vec<u8>, AppError>)
    ensures
        r matches Err(e) && e is Crypto && e.detail() == "Key wrapping not implemented yet"@,
{
    Err(AppError::Crypto("Key wrapping not implemented yet".to_owned()))
}

/// Unwrapping a symmetric key is not offered: the answer is always the
/// same `Crypto` error.
pub fn unwrap_key_for_recipient(_recipient_kyber_secret_key: &[u8], _wrapped_key: &[u8]) -> (r: Result<
    Vec<u8>,
    AppError,
>)
    ensures
        r matches Err(e) && e is Crypto && e.detail() == "Key unwrapping not implemented yet"@,
{
    Err(AppError::Crypto("Key unwrapping not implemented yet".to_owned()))
}

} // verus!
