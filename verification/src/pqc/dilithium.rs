//! Dilithium3 signatures over raw bytes. A signature is the signed
//! message: the message with its signature attached.

use crate::error::AppError;
use crate::text::bytes_equal;
use pqcrypto_dilithium::dilithium3;
use pqcrypto_traits::sign::PublicKey;
use pqcrypto_traits::sign::SecretKey;
use pqcrypto_traits::sign::SignedMessage;
use vstd::prelude::*;

verus! {

/// Bytes in a Dilithium3 public key.
pub const PUBLIC_KEY_LEN: usize = 1952;

/// Bytes in a Dilithium3 secret key.
pub const SECRET_KEY_LEN: usize = 4032;

/// A Dilithium3 key pair.
#[derive(Debug)]
pub struct DilithiumKeypair {
    pub public_key: Vec<u8>,
    pub secret_key: Vec<u8>,
}

impl DilithiumKeypair {
    /// Both keys have the length of their kind.
    pub open spec fn well_formed(&self) -> bool {
        self.public_key@.len() == PUBLIC_KEY_LEN && self.secret_key@.len() == SECRET_KEY_LEN
    }
}

/// The message that a signed message opens to under a public key, if its
/// signature verifies.
pub uninterp spec fn dilithium3_opened(public_key: Seq<u8>, signed_message: Seq<u8>) -> Option<Seq<u8>>;

/// Calls `dilithium3::keypair` and copies both keys out with `as_bytes`.
/// The keys are random; their lengths are fixed.
#[verifier::external_body]
fn dilithium3_keypair() -> (r: (Vec<u8>, Vec<u8>))
    ensures
        r.0@.len() == PUBLIC_KEY_LEN,
        r.1@.len() == SECRET_KEY_LEN,
{
    let (pk, sk) = dilithium3::keypair();
    (pk.as_bytes().to_vec(), sk.as_bytes().to_vec())
}

/// Calls `dilithium3::SecretKey::from_bytes`, which accepts exactly the
/// byte strings of secret-key length, then `dilithium3::sign`. Nothing is
/// claimed of the signed message itself.
#[verifier::external_body]
fn dilithium3_sign(secret_key: &[u8], msg: &[u8]) -> (r: Option<Vec<u8>>)
    ensures
        r is Some <==> secret_key@.len() == SECRET_KEY_LEN,
{
    match dilithium3::SecretKey::from_bytes(secret_key) {
        Ok(sk) => Some(dilithium3::sign(msg, &sk).as_bytes().to_vec()),
        Err(_) => None,
    }
}

/// Calls `dilithium3::PublicKey::from_bytes`, which accepts exactly the
/// byte strings of public-key length, `dilithium3::SignedMessage::from_bytes`,
/// which accepts every byte string, and `dilithium3::open`. The outer
/// `None` is the refused key; the inner value is what the signed message
/// opens to, which depends on key and signed message alone.
#[verifier::external_body]
fn dilithium3_open(public_key: &[u8], signed_message: &[u8]) -> (r: Option<Option<Vec<u8>>>)
    ensures
        r is Some <==> public_key@.len() == PUBLIC_KEY_LEN,
        r matches Some(Some(m)) ==> dilithium3_opened(public_key@, signed_message@) == Some(m@),
        r matches Some(None) ==> dilithium3_opened(public_key@, signed_message@) is None,
{
    match (dilithium3::PublicKey::from_bytes(public_key), dilithium3::SignedMessage::from_bytes(signed_message)) {
        (Ok(pk), Ok(sm)) => Some(dilithium3::open(&sm, &pk).ok()),
        _ => None,
    }
}

/// Generates a fresh key pair.
pub fn generate_keypair() -> (kp: DilithiumKeypair)
    ensures
        kp.well_formed(),
{
    let (public_key, secret_key) = dilithium3_keypair();
    DilithiumKeypair { public_key, secret_key }
}

/// Signs a message and returns the signed message.
///
/// Fails, with an `Internal` error, exactly when the secret key does not
/// have secret-key length.
pub fn sign(secret_key_bytes: &[u8], msg: &[u8]) -> (r: Result<Vec<u8>, AppError>)
    ensures
        r is Ok <==> secret_key_bytes@.len() == SECRET_KEY_LEN,
        r matches Err(e) ==> e is Internal && e.detail() == "Dilithium secret key decode failed"@,
{
    match dilithium3_sign(secret_key_bytes, msg) {
        Some(sm) => Ok(sm),
        None => Err(AppError::Internal("Dilithium secret key decode failed".to_owned())),
    }
}

/// Verifies a signed message against a public key and a message: true
/// exactly when the signed message opens, under the key, to the message.
///
/// Fails, with an `Internal` error, exactly when the public key does not
/// have public-key length.
pub fn verify(public_key_bytes: &[u8], msg: &[u8], sig_bytes: &[u8]) -> (r: Result<bool, AppError>)
    ensures
        r is Ok <==> public_key_bytes@.len() == PUBLIC_KEY_LEN,
        r matches Ok(b) ==> b == (dilithium3_opened(public_key_bytes@, sig_bytes@) == Some(msg@)),
        r matches Err(e) ==> e is Internal && e.detail() == "Dilithium public key decode failed"@,
{
    match dilithium3_open(public_key_bytes, sig_bytes) {
        Some(Some(opened)) => Ok(bytes_equal(opened.as_slice(), msg)),
        Some(None) => Ok(false),
        None => Err(AppError::Internal("Dilithium public key decode failed".to_owned())),
    }
}

} // verus!
