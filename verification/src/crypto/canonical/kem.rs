//! ML-KEM-768 key encapsulation over base64url text.

use crate::crypto::canonical::codec::{base64url_bytes, base64url_decode, base64url_encode, base64url_text};
use crate::error::EnvelopeError;
use pqcrypto_kyber::kyber768;
use pqcrypto_traits::kem::Ciphertext;
use pqcrypto_traits::kem::PublicKey;
use pqcrypto_traits::kem::SecretKey;
use pqcrypto_traits::kem::SharedSecret;
use vstd::prelude::*;

verus! {

/// Bytes in an ML-KEM-768 public key.
pub const PUBLIC_KEY_LEN: usize = 1184;

/// Bytes in an ML-KEM-768 secret key.
pub const SECRET_KEY_LEN: usize = 2400;

/// Bytes in an ML-KEM-768 ciphertext.
pub const CIPHERTEXT_LEN: usize = 1088;

/// Bytes in a shared secret.
pub const SHARED_SECRET_LEN: usize = 32;

/// The shared secret that decapsulating `ciphertext` with `secret_key`
/// gives, for a key and a ciphertext of the right lengths.
pub uninterp spec fn mlkem768_decapsulation(secret_key: Seq<u8>, ciphertext: Seq<u8>) -> Seq<u8>;

/// A key pair as base64url text.
#[derive(Debug)]
pub struct MlKemKeypair {
    pub pk_b64: String,
    pub sk_b64: String,
}

impl MlKemKeypair {
    /// Both halves decode, each to the length of its kind.
    pub open spec fn well_formed(&self) -> bool {
        &&& base64url_bytes(self.pk_b64@) matches Some(pk) && pk.len() == PUBLIC_KEY_LEN
        &&& base64url_bytes(self.sk_b64@) matches Some(sk) && sk.len() == SECRET_KEY_LEN
    }
}

impl Clone for MlKemKeypair {
    fn clone(&self) -> (r: Self)
        ensures
            r == *self,
    {
        MlKemKeypair { pk_b64: self.pk_b64.clone(), sk_b64: self.sk_b64.clone() }
    }
}

/// Calls `kyber768::keypair` and copies both keys out with `as_bytes`.
/// The keys are random; their lengths are fixed.
#[verifier::external_body]
fn kem_keypair() -> (r: (Vec<u8>, Vec<u8>))
    ensures
        r.0@.len() == PUBLIC_KEY_LEN,
        r.1@.len() == SECRET_KEY_LEN,
{
    let (pk, sk) = kyber768::keypair();
    (pk.as_bytes().to_vec(), sk.as_bytes().to_vec())
}

/// Calls `kyber768::PublicKey::from_bytes`, which accepts exactly the
/// byte strings of public-key length, then `kyber768::encapsulate`.
/// The ciphertext and the shared secret are random; their lengths are
/// fixed. The result is `(ciphertext, shared secret)`.
#[verifier::external_body]
fn kem_encapsulate(public_key: &[u8]) -> (r: Option<(Vec<u8>, Vec<u8>)>)
    ensures
        r is Some <==> public_key@.len() == PUBLIC_KEY_LEN,
        r matches Some(p) ==> p.0@.len() == CIPHERTEXT_LEN && p.1@.len() == SHARED_SECRET_LEN,
{
    match kyber768::PublicKey::from_bytes(public_key) {
        Ok(pk) => {
            let (ss, ct) = kyber768::encapsulate(&pk);
            Some((ct.as_bytes().to_vec(), ss.as_bytes().to_vec()))
        },
        Err(_) => None,
    }
}

/// Calls `kyber768::SecretKey::from_bytes` and
/// `kyber768::Ciphertext::from_bytes`, which accept exactly the byte
/// strings of their lengths, then `kyber768::decapsulate`. The shared
/// secret depends on key and ciphertext alone and is 32 bytes long.
#[verifier::external_body]
fn kem_decapsulate(secret_key: &[u8], ciphertext: &[u8]) -> (r: Option<Vec<u8>>)
    requires
        ciphertext@.len() == CIPHERTEXT_LEN,
    ensures
        r is Some <==> secret_key@.len() == SECRET_KEY_LEN,
        r matches Some(s) ==> s@ == mlkem768_decapsulation(secret_key@, ciphertext@),
        r matches Some(s) ==> s@.len() == SHARED_SECRET_LEN,
{
    match (kyber768::SecretKey::from_bytes(secret_key), kyber768::Ciphertext::from_bytes(ciphertext)) {
        (Ok(sk), Ok(ct)) => Some(kyber768::decapsulate(&ct, &sk).as_bytes().to_vec()),
        _ => None,
    }
}

/// What decapsulation returns for a secret key and a KEM ciphertext, both
/// as base64url text. The ciphertext is judged first, so a ciphertext of
/// the wrong length is refused whatever the key is.
pub open spec fn decapsulation_of(sk_b64: Seq<char>, ct_b64: Seq<char>) -> Result<Seq<u8>, EnvelopeError> {
    match base64url_bytes(ct_b64) {
        None => Err(EnvelopeError::EncodingError),
        Some(ct) => if ct.len() != CIPHERTEXT_LEN {
            Err(EnvelopeError::InvalidCiphertext)
        } else {
            match base64url_bytes(sk_b64) {
                None => Err(EnvelopeError::InvalidKey),
                Some(sk) => if sk.len() != SECRET_KEY_LEN {
                    Err(EnvelopeError::InvalidKey)
                } else {
                    Ok(mlkem768_decapsulation(sk, ct))
                },
            }
        },
    }
}

/// Whether a public key text can be encapsulated to.
pub open spec fn usable_public_key(pk_b64: Seq<char>) -> bool {
    base64url_bytes(pk_b64) matches Some(pk) && pk.len() == PUBLIC_KEY_LEN
}

/// A KEM ciphertext whose length is not the fixed ciphertext size is
/// refused as `InvalidCiphertext`, whatever stands in the place of the
/// secret key.
pub proof fn lemma_wrong_length_refused(sk_b64: Seq<char>, ct_b64: Seq<char>, ct: Seq<u8>)
    requires
        base64url_bytes(ct_b64) == Some(ct),
        ct.len() != CIPHERTEXT_LEN,
    ensures
        decapsulation_of(sk_b64, ct_b64) == Err::<Seq<u8>, EnvelopeError>(EnvelopeError::InvalidCiphertext),
{
}

/// A KEM ciphertext of the fixed size, as encapsulation returns it, is
/// decapsulated by every well-formed secret key: the result is the
/// primitive's shared secret for that key and ciphertext.
pub proof fn lemma_right_length_decapsulates(sk_b64: Seq<char>, sk: Seq<u8>, ct_b64: Seq<char>, ct: Seq<u8>)
    requires
        base64url_bytes(ct_b64) == Some(ct),
        ct.len() == CIPHERTEXT_LEN,
        base64url_bytes(sk_b64) == Some(sk),
        sk.len() == SECRET_KEY_LEN,
    ensures
        decapsulation_of(sk_b64, ct_b64) == Ok::<Seq<u8>, EnvelopeError>(mlkem768_decapsulation(sk, ct)),
{
}

/// Generates a fresh ML-KEM-768 key pair.
pub fn mlkem_generate_keypair_b64() -> (kp: MlKemKeypair)
    ensures
        kp.well_formed(),
{
    let (pk, sk) = kem_keypair();
    MlKemKeypair { pk_b64: base64url_encode(pk.as_slice()), sk_b64: base64url_encode(sk.as_slice()) }
}

/// Encapsulates to a recipient's public key and returns the KEM
/// ciphertext as text together with the shared secret.
///
/// Fails with `InvalidKey` exactly when the key text does not decode to a
/// public key. The ciphertext returned always has the fixed ciphertext
/// length, so decapsulation will not refuse it for its length.
pub fn mlkem_encapsulate_b64(recipient_pk_b64: &str) -> (r: Result<(String, Vec<u8>), EnvelopeError>)
    ensures
        r is Ok <==> usable_public_key(recipient_pk_b64@),
        r matches Err(e) ==> e == EnvelopeError::InvalidKey,
        r matches Ok(p) ==> {
            &&& p.1@.len() == SHARED_SECRET_LEN
            &&& base64url_bytes(p.0@) matches Some(ct) && ct.len() == CIPHERTEXT_LEN && p.0@ == base64url_text(ct)
        },
{
    let pk_bytes = match base64url_decode(recipient_pk_b64) {
        Some(b) => b,
        None => { return Err(EnvelopeError::InvalidKey); },
    };
    let (ct, ss) = match kem_encapsulate(pk_bytes.as_slice()) {
        Some(p) => p,
        None => { return Err(EnvelopeError::InvalidKey); },
    };
    // A ciphertext of any other length would mean a broken primitive, not a bad key.
    if ct.len() != CIPHERTEXT_LEN {
        return Err(EnvelopeError::InternalCryptoFailure);
    }
    Ok((base64url_encode(ct.as_slice()), ss))
}

/// Recovers the shared secret from a KEM ciphertext with the holder's
/// secret key.
///
/// The ciphertext length is checked before the key is looked at and
/// before the primitive runs: a ciphertext that decodes to any other
/// length gives `InvalidCiphertext`, whatever the key.
pub fn mlkem_decapsulate_b64(owner_sk_b64: &str, ct_b64: &str) -> (r: Result<Vec<u8>, EnvelopeError>)
    ensures
        match r {
            Ok(s) => decapsulation_of(owner_sk_b64@, ct_b64@) == Ok::<Seq<u8>, EnvelopeError>(s@),
            Err(e) => decapsulation_of(owner_sk_b64@, ct_b64@) == Err::<Seq<u8>, EnvelopeError>(e),
        },
        r matches Ok(s) ==> s@.len() == SHARED_SECRET_LEN,
{
    let ct_bytes = match base64url_decode(ct_b64) {
        Some(b) => b,
        None => { return Err(EnvelopeError::EncodingError); },
    };
    if ct_bytes.len() != CIPHERTEXT_LEN {
        return Err(EnvelopeError::InvalidCiphertext);
    }
    let sk_bytes = match base64url_decode(owner_sk_b64) {
        Some(b) => b,
        None => { return Err(EnvelopeError::InvalidKey); },
    };
    match kem_decapsulate(sk_bytes.as_slice(), ct_bytes.as_slice()) {
        Some(ss) => Ok(ss),
        None => Err(EnvelopeError::InvalidKey),
    }
}

} // verus!
