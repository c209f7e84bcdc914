//! The keystore: one ML-KEM key pair per identity, made on first use and
//! kept unchanged from then on.
//!
//! Identities are trimmed and lowercased before they are used as a key.
//! Paths are given as their components, outermost first; the caller joins
//! them and does the reading and writing.

use crate::crypto::canonical::envelope::KEM_TAG;
use crate::crypto::canonical::kem::{mlkem_generate_keypair_b64, usable_public_key};
use crate::text::{normalize_identity, normalized_identity};
use vstd::prelude::*;
use vstd::string::StringExecFns;

verus! {

/// The record kept for one identity.
#[derive(Debug, PartialEq, Eq)]
pub struct MlKemKeypairFile {
    pub wallet: String,
    /// The KEM, `"mlkem768"`.
    pub kem: String,
    pub pk_b64: String,
    pub sk_b64: String,
}

impl Clone for MlKemKeypairFile {
    fn clone(&self) -> (r: Self)
        ensures
            r == *self,
    {
        MlKemKeypairFile {
            wallet: self.wallet.clone(),
            kem: self.kem.clone(),
            pk_b64: self.pk_b64.clone(),
            sk_b64: self.sk_b64.clone(),
        }
    }
}

/// What the keystore did for an identity.
#[derive(Debug)]
pub enum KeystoreStep {
    /// The stored record, unchanged.
    Loaded(MlKemKeypairFile),
    /// A new record, which is to be stored.
    Created(MlKemKeypairFile),
}

impl KeystoreStep {
    /// The record, stored or new.
    pub open spec fn record_of(self) -> MlKemKeypairFile {
        match self {
            KeystoreStep::Loaded(r) => r,
            KeystoreStep::Created(r) => r,
        }
    }

    /// The record, stored or new.
    pub fn record(self) -> (r: MlKemKeypairFile)
        ensures
            r == self.record_of(),
    {
        match self {
            KeystoreStep::Loaded(r) => r,
            KeystoreStep::Created(r) => r,
        }
    }
}

/// The base directory as text: the home directory, or `.` without one.
pub open spec fn base_of(home: Option<String>) -> Seq<char> {
    match home {
        Some(h) => h@,
        None => "."@,
    }
}

/// The components of the application directory.
pub open spec fn tidbit_dir_of(home: Option<String>) -> Seq<Seq<char>> {
    seq![base_of(home), ".tidbit"@]
}

/// The application directory under the home directory, or under `.`
/// without one.
pub fn tidbit_dir(home: Option<String>) -> (dir: Vec<String>)
    ensures
        dir.deep_view() == tidbit_dir_of(home),
{
    let mut dir: Vec<String> = Vec::new();
    match home {
        Some(h) => dir.push(h),
        None => dir.push(".".to_owned()),
    }
    dir.push(".tidbit".to_owned());
    assert(dir.deep_view() =~= tidbit_dir_of(home));
    dir
}

/// Appends a component to a path.
pub fn push_component(path: &mut Vec<String>, part: String)
    ensures
        final(path).deep_view() == old(path).deep_view().push(part@),
{
    path.push(part);
    assert(path.deep_view() =~= old(path).deep_view().push(part@));
}

/// The directory of all keys.
pub fn keys_root(home: Option<String>) -> (dir: Vec<String>)
    ensures
        dir.deep_view() == tidbit_dir_of(home).push("keys"@),
{
    let mut d = tidbit_dir(home);
    push_component(&mut d, "keys".to_owned());
    d
}

/// The directory of one identity's keys. An identity that is empty once
/// trimmed is refused.
pub fn wallet_key_dir(home: Option<String>, owner_wallet: &str) -> (r: Result<Vec<String>, String>)
    ensures
        match r {
            Ok(dir) => normalized_identity(owner_wallet@).len() > 0 && dir.deep_view() == tidbit_dir_of(home).push(
                "keys"@,
            ).push(normalized_identity(owner_wallet@)),
            Err(e) => normalized_identity(owner_wallet@).len() == 0 && e@ == "wallet is empty"@,
        },
{
    let w = normalize_identity(owner_wallet);
    if w.as_str().is_empty() {
        return Err("wallet is empty".to_owned());
    }
    let mut d = keys_root(home);
    push_component(&mut d, w);
    Ok(d)
}

/// The file that holds one identity's key pair.
pub fn mlkem_key_path(home: Option<String>, owner_wallet: &str) -> (r: Result<Vec<String>, String>)
    ensures
        match r {
            Ok(path) => normalized_identity(owner_wallet@).len() > 0 && path.deep_view() == tidbit_dir_of(home).push(
                "keys"@,
            ).push(normalized_identity(owner_wallet@)).push("mlkem768.json"@),
            Err(e) => normalized_identity(owner_wallet@).len() == 0 && e@ == "wallet is empty"@,
        },
{
    let mut d = match wallet_key_dir(home, owner_wallet) {
        Ok(d) => d,
        Err(e) => { return Err(e); },
    };
    push_component(&mut d, "mlkem768.json".to_owned());
    Ok(d)
}

/// Loads the key pair of an identity, or makes one.
///
/// `stored` is the record found for the identity, if there is one. A
/// stored record is returned as it is; without one a fresh key pair is
/// generated under the normalized identity, to be stored by the caller.
/// An identity that is empty once trimmed is refused.
pub fn load_or_create_mlkem_keypair(owner_wallet: &str, stored: Option<MlKemKeypairFile>) -> (r: Result<
    KeystoreStep,
    String,
>)
    ensures
        match r {
            Ok(step) => {
                &&& normalized_identity(owner_wallet@).len() > 0
                &&& match stored {
                    Some(kf) => step == KeystoreStep::Loaded(kf),
                    None => {
                        &&& step is Created
                        &&& step.record_of().wallet@ == normalized_identity(owner_wallet@)
                        &&& step.record_of().kem@ == KEM_TAG@
                        &&& usable_public_key(step.record_of().pk_b64@)
                    },
                }
            },
            Err(e) => normalized_identity(owner_wallet@).len() == 0 && e@ == "wallet is empty"@,
        },
{
    let w = normalize_identity(owner_wallet);
    if w.as_str().is_empty() {
        return Err("wallet is empty".to_owned());
    }
    match stored {
        Some(kf) => Ok(KeystoreStep::Loaded(kf)),
        None => {
            let kp = mlkem_generate_keypair_b64();
            Ok(
                KeystoreStep::Created(
                    MlKemKeypairFile { wallet: w, kem: KEM_TAG.to_owned(), pk_b64: kp.pk_b64, sk_b64: kp.sk_b64 },
                ),
            )
        },
    }
}

/// The public key of an identity, loaded or made as by
/// [`load_or_create_mlkem_keypair`]. The second part is the new record,
/// where one was made and is to be stored.
pub fn load_mlkem_pk(owner_wallet: &str, stored: Option<MlKemKeypairFile>) -> (r: Result<
    (String, Option<MlKemKeypairFile>),
    String,
>)
    ensures
        match r {
            Ok((pk, created)) => {
                &&& normalized_identity(owner_wallet@).len() > 0
                &&& match stored {
                    Some(kf) => pk@ == kf.pk_b64@ && created is None,
                    None => {
                        &&& created matches Some(kf)
                        &&& pk@ == kf.pk_b64@
                        &&& kf.wallet@ == normalized_identity(owner_wallet@)
                        &&& kf.kem@ == KEM_TAG@
                        &&& usable_public_key(pk@)
                    },
                }
            },
            Err(e) => normalized_identity(owner_wallet@).len() == 0 && e@ == "wallet is empty"@,
        },
{
    match load_or_create_mlkem_keypair(owner_wallet, stored) {
        Ok(KeystoreStep::Loaded(kf)) => Ok((kf.pk_b64, None)),
        Ok(KeystoreStep::Created(kf)) => Ok((kf.pk_b64.clone(), Some(kf))),
        Err(e) => Err(e),
    }
}

/// The name of the file that holds an envelope.
pub fn envelope_file_name(envelope_id: &str) -> (name: String)
    ensures
        name@ == envelope_id@ + ".json"@,
{
    String::from_str(envelope_id).concat(".json")
}

/// The directory of all envelopes. Without a home directory there is none.
pub fn envelope_dir(home: Option<String>) -> (r: Result<Vec<String>, String>)
    ensures
        match r {
            Ok(dir) => home matches Some(h) && dir.deep_view() == seq![h@, ".tidbit"@, "envelopes"@],
            Err(e) => home is None && e@ == "Cannot resolve home dir"@,
        },
{
    match home {
        Some(h) => {
            let mut dir: Vec<String> = Vec::new();
            dir.push(h);
            dir.push(".tidbit".to_owned());
            dir.push("envelopes".to_owned());
            assert(dir.deep_view() =~= seq![h@, ".tidbit"@, "envelopes"@]);
            Ok(dir)
        },
        None => Err("Cannot resolve home dir".to_owned()),
    }
}

/// The file that holds the envelope with the given identifier.
pub fn envelope_path(home: Option<String>, envelope_id: &str) -> (r: Result<Vec<String>, String>)
    ensures
        match r {
            Ok(path) => home matches Some(h) && path.deep_view() == seq![
                h@,
                ".tidbit"@,
                "envelopes"@,
                envelope_id@ + ".json"@,
            ],
            Err(e) => home is None && e@ == "Cannot resolve home dir"@,
        },
{
    let mut path = match envelope_dir(home) {
        Ok(d) => d,
        Err(e) => { return Err(e); },
    };
    push_component(&mut path, envelope_file_name(envelope_id));
    assert(path.deep_view() =~= seq![home.unwrap()@, ".tidbit"@, "envelopes"@, envelope_id@ + ".json"@]);
    Ok(path)
}

} // verus!
