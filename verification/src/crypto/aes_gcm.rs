//! AES-256-GCM with a random 96-bit nonce.

use crate::crypto::canonical::primitives::random_bytes;
use crate::error::AppError;
use aes_gcm::aead::Aead;
use aes_gcm::KeyInit;
use vstd::prelude::*;

verus! {

/// Length of an AES-GCM nonce.
pub const GCM_NONCE_LEN: usize = 12;

/// The longest message AES-GCM encrypts.
pub const GCM_MAX_PLAINTEXT: u64 = 0x10_0000_0000;

/// The ciphertext (with its tag) of `plaintext` under `key` and `nonce`.
pub uninterp spec fn aes256gcm_sealed(key: Seq<u8>, nonce: Seq<u8>, plaintext: Seq<u8>) -> Seq<u8>;

/// The plaintext that `ciphertext` authenticates and decrypts to under
/// `key` and `nonce`, if it authenticates.
pub uninterp spec fn aes256gcm_opened(key: Seq<u8>, nonce: Seq<u8>, ciphertext: Seq<u8>) -> Option<Seq<u8>>;

/// Calls `Aes256Gcm::new` and `Aead::encrypt` with no associated data.
/// Encryption fails exactly when the message is longer than the cipher
/// allows. The ciphertext depends on key, nonce and message alone and
/// decrypts back to the message under the same key and nonce.
#[verifier::external_body]
fn gcm_encrypt(key: &[u8; 32], nonce: &[u8], plaintext: &[u8]) -> (r: Option<Vec<u8>>)
    requires
        nonce@.len() == GCM_NONCE_LEN,
    ensures
        r is Some <==> plaintext@.len() <= GCM_MAX_PLAINTEXT,
        r matches Some(c) ==> c@ == aes256gcm_sealed(key@, nonce@, plaintext@),
        r matches Some(c) ==> aes256gcm_opened(key@, nonce@, c@) == Some(plaintext@),
{
    let cipher = aes_gcm::Aes256Gcm::new(key.into());
    match cipher.encrypt(aes_gcm::Nonce::from_slice(nonce), plaintext) {
        Ok(c) => Some(c),
        Err(_) => None,
    }
}

/// Calls `Aes256Gcm::new` and `Aead::decrypt` with no associated data.
/// Whether the ciphertext authenticates, and the plaintext if it does,
/// depend on key, nonce and ciphertext alone.
#[verifier::external_body]
fn gcm_decrypt(key: &[u8; 32], nonce: &[u8], ciphertext: &[u8]) -> (r: Option<Vec<u8>>)
    requires
        nonce@.len() == GCM_NONCE_LEN,
    ensures
        match r {
            Some(p) => aes256gcm_opened(key@, nonce@, ciphertext@) == Some(p@),
            None => aes256gcm_opened(key@, nonce@, ciphertext@) is None,
        },
{
    let cipher = aes_gcm::Aes256Gcm::new(key.into());
    match cipher.decrypt(aes_gcm::Nonce::from_slice(nonce), ciphertext) {
        Ok(p) => Some(p),
        Err(_) => None,
    }
}

/// Encrypts under a fresh random nonce and returns `(nonce, ciphertext)`.
///
/// Fails, with a `Crypto` error, exactly when the plaintext is longer
/// than the cipher allows. The pair decrypts back to the plaintext.
pub fn encrypt_aes_gcm(key: &[u8; 32], plaintext: &[u8]) -> (r: Result<(Vec<u8>, Vec<u8>), AppError>)
    ensures
        r is Ok <==> plaintext@.len() <= GCM_MAX_PLAINTEXT,
        r matches Ok(p) ==> {
            &&& p.0@.len() == GCM_NONCE_LEN
            &&& p.1@ == aes256gcm_sealed(key@, p.0@, plaintext@)
            &&& aes256gcm_opened(key@, p.0@, p.1@) == Some(plaintext@)
        },
        r matches Err(e) ==> e is Crypto && e.detail() == "AES-GCM encrypt error"@,
{
    let nonce = random_bytes(GCM_NONCE_LEN);
    match gcm_encrypt(key, nonce.as_slice(), plaintext) {
        Some(ciphertext) => Ok((nonce, ciphertext)),
        None => Err(AppError::Crypto("AES-GCM encrypt error".to_owned())),
    }
}

/// Decrypts a ciphertext under a key and the nonce it was made with.
///
/// Fails, with a `Crypto` error, when the ciphertext does not
/// authenticate.
pub fn decrypt_aes_gcm(key: &[u8; 32], nonce: &[u8], ciphertext: &[u8]) -> (r: Result<Vec<u8>, AppError>)
    requires
        nonce@.len() == GCM_NONCE_LEN,
    ensures
        match r {
            Ok(p) => aes256gcm_opened(key@, nonce@, ciphertext@) == Some(p@),
            Err(e) => aes256gcm_opened(key@, nonce@, ciphertext@) is None && e is Crypto && e.detail()
                == "AES-GCM decrypt error"@,
        },
{
    match gcm_decrypt(key, nonce, ciphertext) {
        Some(plaintext) => Ok(plaintext),
        None => Err(AppError::Crypto("AES-GCM decrypt error".to_owned())),
    }
}

} // verus!
