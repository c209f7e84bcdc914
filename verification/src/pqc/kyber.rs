//! Kyber-1024 key pairs as raw bytes.

use pqcrypto_traits::kem::PublicKey;
use pqcrypto_traits::kem::SecretKey;
use vstd::prelude::*;

verus! {

/// Bytes in a Kyber-1024 public key.
pub const PUBLIC_KEY_LEN: usize = 1568;

/// Bytes in a Kyber-1024 secret key.
pub const SECRET_KEY_LEN: usize = 3168;

/// A Kyber-1024 key pair.
#[derive(Debug)]
pub struct KyberKeypair {
    pub public_key: Vec<u8>,
    pub secret_key: Vec<u8>,
}

impl KyberKeypair {
    /// Both keys have the length of their kind.
    pub open spec fn well_formed(&self) -> bool {
        self.public_key@.len() == PUBLIC_KEY_LEN && self.secret_key@.len() == SECRET_KEY_LEN
    }
}

/// Calls `kyber1024::keypair` and copies both keys out with `as_bytes`.
/// The keys are random; their lengths are fixed.
#[verifier::external_body]
fn kyber1024_keypair() -> (r: (Vec<u8>, Vec<u8>))
    ensures
        r.0@.len() == PUBLIC_KEY_LEN,
        r.1@.len() == SECRET_KEY_LEN,
{
    let (pk, sk) = pqcrypto_kyber::kyber1024::keypair();
    (pk.as_bytes().to_vec(), sk.as_bytes().to_vec())
}

/// Generates a fresh key pair.
pub fn generate_keypair() -> (kp: KyberKeypair)
    ensures
        kp.well_formed(),
{
    let (public_key, secret_key) = kyber1024_keypair();
    KyberKeypair { public_key, secret_key }
}

} // verus!
