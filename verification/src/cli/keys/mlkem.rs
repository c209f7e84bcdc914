//! The key file the command line keeps per wallet.

use crate::crypto::canonical::kem::{mlkem_generate_keypair_b64, usable_public_key};
use crate::text::{lowercase_of, to_lowercase};
use vstd::prelude::*;
use vstd::string::StringExecFns;

verus! {

/// The key pair of a wallet.
#[derive(Debug)]
pub struct MlKemKeypairFile {
    pub wallet: String,
    pub pk_b64: String,
    pub sk_b64: String,
}

/// The components of the file that holds a wallet's keys, under the home
/// directory.
pub fn key_path(home: String, wallet: &str) -> (path: Vec<String>)
    ensures
        path.deep_view() == seq![home@, ".tidbit/keys/mlkem"@, wallet@ + ".json"@],
{
    let mut p: Vec<String> = Vec::new();
    p.push(home);
    p.push(".tidbit/keys/mlkem".to_owned());
    p.push(String::from_str(wallet).concat(".json"));
    assert(p.deep_view() =~= seq![home@, ".tidbit/keys/mlkem"@, wallet@ + ".json"@]);
    p
}

/// The stored keys of a wallet, or fresh ones under the lowercased
/// wallet. The flag says whether the keys are new and are to be stored.
pub fn load_or_create_mlkem_keys(wallet: &str, stored: Option<MlKemKeypairFile>) -> (r: (MlKemKeypairFile, bool))
    ensures
        match stored {
            Some(file) => r.0 == file && !r.1,
            None => r.1 && r.0.wallet@ == lowercase_of(wallet@) && usable_public_key(r.0.pk_b64@),
        },
{
    match stored {
        Some(file) => (file, false),
        None => {
            let kp = mlkem_generate_keypair_b64();
            (MlKemKeypairFile { wallet: to_lowercase(wallet), pk_b64: kp.pk_b64, sk_b64: kp.sk_b64 }, true)
        },
    }
}

} // verus!
