//! The upload command: a file is sealed into an envelope for its owner.

use crate::crypto::canonical::canonicalize::{canonical_form, canonical_json};
use crate::crypto::canonical::document::{optional_text, CanonicalDocumentV1};
use crate::crypto::canonical::envelope::{sealed_through, DocumentEnvelopeV1, ENVELOPE_VERSION};
use crate::crypto::canonical::hash::envelope_id;
use crate::crypto::canonical::kem::usable_public_key;
use crate::crypto::canonical::primitives::sealable_len;
use crate::error::AppError;
use crate::text::{lowercase_of, to_lowercase};
use vstd::prelude::*;
use vstd::string::StringExecFns;

verus! {

/// The arguments of the upload command.
#[derive(Debug)]
pub struct UploadArgs {
    /// The file to seal into an envelope.
    pub path: String,
    /// A label shown in the metadata.
    pub label: Option<String>,
    /// The owner's wallet; the environment's where none is given.
    pub wallet: Option<String>,
}

/// The wallet to act for: the one given, or else the environment's,
/// lowercased.
pub open spec fn resolved_wallet(given: Option<String>, from_env: Option<String>) -> Option<Seq<char>> {
    match given {
        Some(w) => Some(lowercase_of(w@)),
        None => match from_env {
            Some(w) => Some(lowercase_of(w@)),
            None => None,
        },
    }
}

/// Picks the wallet to act for: the one given, or else the
/// environment's, lowercased. With neither the request is refused.
pub fn resolve_wallet(given: Option<String>, from_env: Option<String>) -> (r: Result<String, AppError>)
    ensures
        match r {
            Ok(w) => resolved_wallet(given, from_env) == Some(w@),
            Err(e) => resolved_wallet(given, from_env) is None && e is BadRequest && e.detail()
                == "Missing --wallet (or set TIDBIT_WALLET)"@,
        },
{
    match given {
        Some(w) => Ok(to_lowercase(w.as_str())),
        None => match from_env {
            Some(w) => Ok(to_lowercase(w.as_str())),
            None => Err(AppError::BadRequest("Missing --wallet (or set TIDBIT_WALLET)".to_owned())),
        },
    }
}

/// A sealed file: the envelope, its identifier, and the canonical bytes
/// to store under the identifier.
#[derive(Debug)]
pub struct SealedFile {
    pub envelope: DocumentEnvelopeV1,
    pub envelope_id: String,
    pub canonical: Vec<u8>,
}

/// Seals a file for its owner.
///
/// The file is described, encrypted into an envelope under the owner's
/// public key, and encoded; the identifier is recomputed from the bytes
/// that will be stored. Fails with a `Crypto` error that carries the
/// envelope error's message when the envelope cannot be made.
pub fn seal_file(
    owner_wallet: String,
    owner_pk_b64: &str,
    logical_id: String,
    file_name: Option<String>,
    label: Option<String>,
    created_at: i64,
    plaintext: &[u8],
) -> (r: Result<SealedFile, AppError>)
    ensures
        match r {
            Ok(sealed) => {
                let env = sealed.envelope@;
                &&& sealable_len(plaintext@.len()) && usable_public_key(owner_pk_b64@)
                &&& env.v == ENVELOPE_VERSION
                &&& env.owner == lowercase_of(owner_wallet@)
                &&& env.created_at == created_at
                &&& env.doc.logical_id == logical_id@
                &&& env.doc.filename == optional_text(file_name)
                &&& env.doc.mime == optional_text(label)
                &&& env.doc.describes(plaintext@)
                &&& env.encryption.wrapped_keys.len() == 1
                &&& env.encryption.wrapped_keys[0].recipient == lowercase_of(owner_wallet@)
                &&& sealed_through(env, env.encryption.wrapped_keys[0], plaintext@)
                &&& sealed.canonical@ == canonical_form(env)
                &&& sealed.envelope_id@ == DocumentEnvelopeV1::id_of(env)
            },
            Err(e) => {
                &&& e is Crypto
                &&& !sealable_len(plaintext@.len()) || !usable_public_key(owner_pk_b64@)
                &&& e.detail() == "envelope create: "@ + (if !sealable_len(plaintext@.len()) {
                    "internal crypto failure"@
                } else {
                    "invalid key"@
                })
            },
        },
{
    let doc = CanonicalDocumentV1::from_plaintext(logical_id, plaintext, file_name, label);
    let (env, eid) = match DocumentEnvelopeV1::create_mlkem_owner(owner_wallet, owner_pk_b64, created_at, doc, plaintext) {
        Ok(p) => p,
        Err(e) => {
            let message = e.message();
            return Err(AppError::Crypto(String::from_str("envelope create: ").concat(message.as_str())));
        },
    };
    let canon = canonical_json(&env);
    // The identifier must be that of the bytes that are stored.
    let eid2 = envelope_id(canon.as_slice());
    if eid2 != eid {
        return Err(AppError::Crypto("envelope id mismatch after canonicalization".to_owned()));
    }
    Ok(SealedFile { envelope: env, envelope_id: eid, canonical: canon })
}

} // verus!
