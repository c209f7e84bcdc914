//! The symmetric primitives of the envelope: XChaCha20-Poly1305,
//! HKDF-SHA256 and the random source.

use chacha20poly1305::aead::Aead;
use chacha20poly1305::KeyInit;
use rand::RngCore;
use vstd::prelude::*;

verus! {

/// Length of a content key and of a wrap key.
pub const KEY_LEN: usize = 32;

/// Length of an XChaCha20 nonce.
pub const NONCE_LEN: usize = 24;

/// Length of the Poly1305 tag that ends every ciphertext.
pub const TAG_LEN: usize = 16;

/// The ciphertext (with its tag) of `plaintext` under `key` and `nonce`.
pub uninterp spec fn xchacha_sealed(key: Seq<u8>, nonce: Seq<u8>, plaintext: Seq<u8>) -> Seq<u8>;

/// The plaintext that `ciphertext` authenticates and decrypts to under
/// `key` and `nonce`, if it authenticates.
pub uninterp spec fn xchacha_opened(key: Seq<u8>, nonce: Seq<u8>, ciphertext: Seq<u8>) -> Option<Seq<u8>>;

/// The HKDF-SHA256 output of `len` bytes for input key material `ikm`,
/// no salt, and context `info`.
pub uninterp spec fn hkdf_sha256_okm(ikm: Seq<u8>, info: Seq<u8>, len: nat) -> Seq<u8>;

/// Whether a message of this length fits the cipher's block counter.
pub open spec fn sealable_len(len: nat) -> bool {
    len / 64 < 0xffff_ffff
}

/// Whether a message of this length fits the cipher's block counter.
pub fn is_sealable(len: usize) -> (b: bool)
    ensures
        b == sealable_len(len as nat),
{
    len / 64 < 0xffff_ffff
}

/// Calls `XChaCha20Poly1305::new` and `Aead::encrypt` with no associated
/// data. Encryption fails exactly when the message is too long for the
/// block counter. The ciphertext depends on key, nonce and message alone,
/// is 16 bytes longer than the message, and decrypts back to the message
/// under the same key and nonce.
#[verifier::external_body]
pub(crate) fn aead_encrypt(key: &[u8], nonce: &[u8], plaintext: &[u8]) -> (r: Option<Vec<u8>>)
    requires
        key@.len() == KEY_LEN,
        nonce@.len() == NONCE_LEN,
    ensures
        r is Some <==> sealable_len(plaintext@.len()),
        r matches Some(c) ==> c@ == xchacha_sealed(key@, nonce@, plaintext@),
        r matches Some(c) ==> c@.len() == plaintext@.len() + TAG_LEN,
        r matches Some(c) ==> xchacha_opened(key@, nonce@, c@) == Some(plaintext@),
{
    let cipher = chacha20poly1305::XChaCha20Poly1305::new(chacha20poly1305::Key::from_slice(key));
    match cipher.encrypt(chacha20poly1305::XNonce::from_slice(nonce), plaintext) {
        Ok(c) => Some(c),
        Err(_) => None,
    }
}

/// Calls `XChaCha20Poly1305::new` and `Aead::decrypt` with no associated
/// data. Whether the ciphertext authenticates, and the plaintext if it
/// does, depend on key, nonce and ciphertext alone.
#[verifier::external_body]
pub(crate) fn aead_decrypt(key: &[u8], nonce: &[u8], ciphertext: &[u8]) -> (r: Option<Vec<u8>>)
    requires
        key@.len() == KEY_LEN,
        nonce@.len() == NONCE_LEN,
    ensures
        match r {
            Some(p) => xchacha_opened(key@, nonce@, ciphertext@) == Some(p@),
            None => xchacha_opened(key@, nonce@, ciphertext@) is None,
        },
{
    let cipher = chacha20poly1305::XChaCha20Poly1305::new(chacha20poly1305::Key::from_slice(key));
    match cipher.decrypt(chacha20poly1305::XNonce::from_slice(nonce), ciphertext) {
        Ok(p) => Some(p),
        Err(_) => None,
    }
}

/// The longest output HKDF-SHA256 gives: 255 blocks of 32 bytes.
pub const HKDF_MAX_LEN: usize = 255 * 32;

/// The most random bytes that are drawn at once.
pub const RANDOM_MAX_LEN: usize = 4096;

/// Calls `Hkdf::<Sha256>::new` with no salt and `Hkdf::expand`, which
/// succeeds for every length up to 255 hash blocks. The output has the
/// length asked for and depends on `ikm`, `info` and that length alone.
#[verifier::external_body]
pub(crate) fn hkdf_sha256(ikm: &[u8], info: &[u8], len: usize) -> (r: Option<Vec<u8>>)
    requires
        len <= HKDF_MAX_LEN,
    ensures
        r is Some,
        r matches Some(k) ==> k@ == hkdf_sha256_okm(ikm@, info@, len as nat),
        r matches Some(k) ==> k@.len() == len,
{
    let hk = hkdf::Hkdf::<sha2::Sha256>::new(None, ikm);
    let mut okm = vec![0u8; len];
    match hk.expand(info, &mut okm) {
        Ok(()) => Some(okm),
        Err(_) => None,
    }
}

/// Fills a fresh buffer of `len` bytes from `rand::thread_rng()`
/// (`RngCore::fill_bytes`). Only the length is known of the result.
#[verifier::external_body]
pub(crate) fn random_bytes(len: usize) -> (r: Vec<u8>)
    requires
        len <= RANDOM_MAX_LEN,
    ensures
        r@.len() == len,
{
    let mut buf = vec![0u8; len];
    rand::thread_rng().fill_bytes(&mut buf);
    buf
}

} // verus!
