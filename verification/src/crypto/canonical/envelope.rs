//! The document envelope and the protocol that seals and opens it.
//!
//! A document is encrypted once under a fresh content key. The content
//! key is wrapped once per recipient, under a key derived from a KEM
//! shared secret. Identities are stored lowercased and compared without
//! regard to case.

use crate::crypto::canonical::canonicalize::{canonical_form, canonical_json};
use crate::crypto::canonical::codec::{base64url_bytes, base64url_decode, base64url_encode, base64url_text};
use crate::crypto::canonical::document::{CanonicalDocumentV1, CanonicalDocumentView};
use crate::crypto::canonical::hash::{content_address, envelope_id};
use crate::crypto::canonical::json::utf8;
use crate::crypto::canonical::kem::{
    decapsulation_of, mlkem_decapsulate_b64, mlkem_encapsulate_b64, usable_public_key, CIPHERTEXT_LEN,
};
use crate::crypto::canonical::metadata::{
    wrapped_key_views, EncryptionInfoV1, EncryptionInfoView, WrappedCekV1, WrappedCekView,
};
use crate::crypto::canonical::primitives::{
    aead_decrypt, aead_encrypt, hkdf_sha256, hkdf_sha256_okm, is_sealable, random_bytes, sealable_len,
    xchacha_opened, xchacha_sealed, KEY_LEN, NONCE_LEN,
};
use crate::error::EnvelopeError;
use crate::text::{lowercase_of, text_eq, to_lowercase};
use vstd::prelude::*;

verus! {

/// The context string under which wrap keys are derived.
pub const WRAP_CONTEXT: &'static str = "tidbit-cek-wrap-v1";

/// The tag of the KEM.
pub const KEM_TAG: &'static str = "mlkem768";

/// The tag of the payload cipher.
pub const PAYLOAD_ALG: &'static str = "xchacha20poly1305";

/// The tag of the way the content key is protected.
pub const CEK_WRAP_TAG: &'static str = "mlkem";

/// The envelope format version.
pub const ENVELOPE_VERSION: u16 = 1;

/// An encrypted document with everything needed to open it, except the
/// secret keys of its recipients.
#[derive(Debug, PartialEq, Eq)]
pub struct DocumentEnvelopeV1 {
    pub v: u16,
    pub owner: String,
    pub created_at: i64,
    pub doc: CanonicalDocumentV1,
    pub encryption: EncryptionInfoV1,
    pub ciphertext_b64: String,
}

/// The mathematical content of a [`DocumentEnvelopeV1`].
pub struct DocumentEnvelopeView {
    pub v: u16,
    pub owner: Seq<char>,
    pub created_at: i64,
    pub doc: CanonicalDocumentView,
    pub encryption: EncryptionInfoView,
    pub ciphertext_b64: Seq<char>,
}

impl View for DocumentEnvelopeV1 {
    type V = DocumentEnvelopeView;

    open spec fn view(&self) -> DocumentEnvelopeView {
        DocumentEnvelopeView {
            v: self.v,
            owner: self.owner@,
            created_at: self.created_at,
            doc: self.doc@,
            encryption: self.encryption@,
            ciphertext_b64: self.ciphertext_b64@,
        }
    }
}

impl Clone for DocumentEnvelopeV1 {
    fn clone(&self) -> (r: Self)
        ensures
            r@ == self@,
    {
        DocumentEnvelopeV1 {
            v: self.v,
            owner: self.owner.clone(),
            created_at: self.created_at,
            doc: self.doc.clone(),
            encryption: self.encryption.clone(),
            ciphertext_b64: self.ciphertext_b64.clone(),
        }
    }
}

/// One encapsulation event: who it is for, the KEM ciphertext, the shared
/// secret it carries, and the nonce to wrap the content key under.
#[derive(Debug)]
pub struct KeyEncapsulation {
    pub recipient: String,
    pub kem_ct_b64: String,
    pub shared_secret: Vec<u8>,
    pub wrap_nonce: Vec<u8>,
}

/// The mathematical content of a [`KeyEncapsulation`].
pub struct KeyEncapsulationView {
    pub recipient: Seq<char>,
    pub kem_ct_b64: Seq<char>,
    pub shared_secret: Seq<u8>,
    pub wrap_nonce: Seq<u8>,
}

impl View for KeyEncapsulation {
    type V = KeyEncapsulationView;

    open spec fn view(&self) -> KeyEncapsulationView {
        KeyEncapsulationView {
            recipient: self.recipient@,
            kem_ct_b64: self.kem_ct_b64@,
            shared_secret: self.shared_secret@,
            wrap_nonce: self.wrap_nonce@,
        }
    }
}

/// An encrypted payload: its nonce and its ciphertext, as text.
#[derive(Debug)]
pub struct SealedPayload {
    pub nonce_b64: String,
    pub ciphertext_b64: String,
}

/// A result over bytes, by the view of the bytes.
pub open spec fn bytes_result(r: Result<Vec<u8>, EnvelopeError>) -> Result<Seq<u8>, EnvelopeError> {
    match r {
        Ok(b) => Ok(b@),
        Err(e) => Err(e),
    }
}

/// The key that wraps the content key for the holder of `shared_secret`.
pub open spec fn wrap_key_of(shared_secret: Seq<u8>) -> Seq<u8> {
    hkdf_sha256_okm(shared_secret, utf8(WRAP_CONTEXT), KEY_LEN as nat)
}

/// The wrapped key that an encapsulation gives for a content key.
pub open spec fn wrapped_key_of(enc: KeyEncapsulationView, cek: Seq<u8>) -> WrappedCekView {
    WrappedCekView {
        kem: KEM_TAG@,
        recipient: lowercase_of(enc.recipient),
        kem_ct_b64: enc.kem_ct_b64,
        wrap_nonce_b64: base64url_text(enc.wrap_nonce),
        wrapped_cek_b64: base64url_text(xchacha_sealed(wrap_key_of(enc.shared_secret), enc.wrap_nonce, cek)),
    }
}

/// The content key that a wrapped key gives up to the holder of
/// `shared_secret`, or the reason it does not.
pub open spec fn unwrapped_key_of(k: WrappedCekView, shared_secret: Seq<u8>) -> Result<Seq<u8>, EnvelopeError> {
    match base64url_bytes(k.wrap_nonce_b64) {
        None => Err(EnvelopeError::EncodingError),
        Some(nonce) => if nonce.len() != NONCE_LEN {
            Err(EnvelopeError::EncodingError)
        } else {
            match base64url_bytes(k.wrapped_cek_b64) {
                None => Err(EnvelopeError::EncodingError),
                Some(wrapped) => match xchacha_opened(wrap_key_of(shared_secret), nonce, wrapped) {
                    None => Err(EnvelopeError::UnwrapFailed),
                    Some(cek) => if cek.len() != KEY_LEN {
                        Err(EnvelopeError::InvalidKeyMaterial)
                    } else {
                        Ok(cek)
                    },
                },
            }
        },
    }
}

/// The plaintext that a payload gives up under a content key, or the
/// reason it does not. A key that is not 32 bytes long is refused first.
pub open spec fn opened_payload(nonce_b64: Seq<char>, ciphertext_b64: Seq<char>, cek: Seq<u8>) -> Result<
    Seq<u8>,
    EnvelopeError,
> {
    if cek.len() != KEY_LEN {
        Err(EnvelopeError::InvalidKeyMaterial)
    } else {
        match base64url_bytes(nonce_b64) {
            None => Err(EnvelopeError::EncodingError),
            Some(nonce) => if nonce.len() != NONCE_LEN {
                Err(EnvelopeError::EncodingError)
            } else {
                match base64url_bytes(ciphertext_b64) {
                    None => Err(EnvelopeError::EncodingError),
                    Some(ct) => match xchacha_opened(cek, nonce, ct) {
                        None => Err(EnvelopeError::DecryptFailed),
                        Some(p) => Ok(p),
                    },
                }
            },
        }
    }
}

/// What the holder of `shared_secret` gets from an envelope through the
/// wrapped key `k`: the content key is unwrapped, then the payload opened.
pub open spec fn opened_with_secret(env: DocumentEnvelopeView, k: WrappedCekView, shared_secret: Seq<u8>) -> Result<
    Seq<u8>,
    EnvelopeError,
> {
    match unwrapped_key_of(k, shared_secret) {
        Err(e) => Err(e),
        Ok(cek) => opened_payload(env.encryption.nonce_b64, env.ciphertext_b64, cek),
    }
}

/// Whether the KEM ciphertext of `k` decodes to the fixed ciphertext
/// size, so that decapsulation does not refuse it for its length.
pub open spec fn passes_length_guard(k: WrappedCekView) -> bool {
    base64url_bytes(k.kem_ct_b64) matches Some(ct) && ct.len() == CIPHERTEXT_LEN
}

/// Whether every stored field that decryption reads through the
/// wrapped key `k` decodes, the KEM ciphertext and the nonces to the
/// lengths of their kinds.
pub open spec fn fields_decode(env: DocumentEnvelopeView, k: WrappedCekView) -> bool {
    &&& passes_length_guard(k)
    &&& base64url_bytes(k.wrap_nonce_b64) matches Some(n) && n.len() == NONCE_LEN
    &&& base64url_bytes(k.wrapped_cek_b64) is Some
    &&& base64url_bytes(env.encryption.nonce_b64) matches Some(m) && m.len() == NONCE_LEN
    &&& base64url_bytes(env.ciphertext_b64) is Some
}

/// Whether the envelope is sealed to some shared secret through the
/// wrapped key `k`: the holder of that secret gets `plaintext`.
pub open spec fn sealed_through(env: DocumentEnvelopeView, k: WrappedCekView, plaintext: Seq<u8>) -> bool {
    exists|shared: Seq<u8>| #[trigger]
        opened_with_secret(env, k, shared) == Ok::<Seq<u8>, EnvelopeError>(plaintext)
}

/// Whether a wrapped key is addressed to the identity whose lowercase
/// form is `folded`: its recipient is that form, or has that form as its
/// own lowercase form.
pub open spec fn addressed_to(k: WrappedCekView, folded: Seq<char>) -> bool {
    k.recipient == folded || lowercase_of(k.recipient) == folded
}

/// The index of the first wrapped key at or after `start` that is
/// addressed to `folded`.
pub open spec fn first_key_from(keys: Seq<WrappedCekView>, folded: Seq<char>, start: int) -> Option<int>
    decreases keys.len() - start,
{
    if start < 0 || start >= keys.len() {
        None
    } else if addressed_to(keys[start], folded) {
        Some(start)
    } else {
        first_key_from(keys, folded, start + 1)
    }
}

/// The index of the first wrapped key that is addressed to `folded`.
pub open spec fn first_key_for(keys: Seq<WrappedCekView>, folded: Seq<char>) -> Option<int> {
    first_key_from(keys, folded, 0)
}

/// What decryption returns for an identity given by its lowercase form
/// and a secret key: the first wrapped key addressed to the identity is
/// found, its KEM ciphertext decapsulated, the content key unwrapped and
/// the payload opened. The first step that fails names the error.
pub open spec fn decryption_as(env: DocumentEnvelopeView, folded: Seq<char>, sk_b64: Seq<char>) -> Result<
    Seq<u8>,
    EnvelopeError,
> {
    match first_key_for(env.encryption.wrapped_keys, folded) {
        None => Err(EnvelopeError::NotARecipient),
        Some(i) => {
            let k = env.encryption.wrapped_keys[i];
            match decapsulation_of(sk_b64, k.kem_ct_b64) {
                Err(e) => Err(e),
                Ok(shared) => opened_with_secret(env, k, shared),
            }
        },
    }
}

/// What decryption returns for a holder's identity, in any casing, and
/// secret key.
pub open spec fn decryption_of(env: DocumentEnvelopeView, identity: Seq<char>, sk_b64: Seq<char>) -> Result<
    Seq<u8>,
    EnvelopeError,
> {
    decryption_as(env, lowercase_of(identity), sk_b64)
}

/// The envelope without its wrapped key at index `j`.
pub open spec fn without_key(env: DocumentEnvelopeView, j: int) -> DocumentEnvelopeView {
    DocumentEnvelopeView {
        encryption: EncryptionInfoView { wrapped_keys: env.encryption.wrapped_keys.remove(j), ..env.encryption },
        ..env
    }
}

/// The first key found from `start` is the first index from `start` whose
/// key is addressed to the identity, and nothing is found only if none is.
pub proof fn lemma_first_key_from(keys: Seq<WrappedCekView>, folded: Seq<char>, start: int)
    requires
        0 <= start <= keys.len(),
    ensures
        match first_key_from(keys, folded, start) {
            Some(i) => {
                &&& start <= i < keys.len()
                &&& addressed_to(keys[i], folded)
                &&& forall|k: int| start <= k < i ==> !addressed_to(#[trigger] keys[k], folded)
            },
            None => forall|k: int| start <= k < keys.len() ==> !addressed_to(#[trigger] keys[k], folded),
        },
    decreases keys.len() - start,
{
    if start < keys.len() && !addressed_to(keys[start], folded) {
        lemma_first_key_from(keys, folded, start + 1);
    }
}

/// An index whose key is addressed to the identity, with none before it
/// that is, is the one that lookup finds.
pub proof fn lemma_first_key_is(keys: Seq<WrappedCekView>, folded: Seq<char>, i: int)
    requires
        0 <= i < keys.len(),
        addressed_to(keys[i], folded),
        forall|k: int| 0 <= k < i ==> !addressed_to(#[trigger] keys[k], folded),
    ensures
        first_key_for(keys, folded) == Some(i),
{
    lemma_first_key_from(keys, folded, 0);
}

/// A holder who is the recipient of an entry, and whose secret key
/// decapsulates that entry's KEM ciphertext to the shared secret the
/// entry was sealed to, decrypts the plaintext.
pub proof fn lemma_holder_recovers_plaintext(
    env: DocumentEnvelopeView,
    identity: Seq<char>,
    sk_b64: Seq<char>,
    i: int,
    shared_secret: Seq<u8>,
    plaintext: Seq<u8>,
)
    requires
        first_key_for(env.encryption.wrapped_keys, lowercase_of(identity)) == Some(i),
        decapsulation_of(sk_b64, env.encryption.wrapped_keys[i].kem_ct_b64) == Ok::<Seq<u8>, EnvelopeError>(
            shared_secret,
        ),
        opened_with_secret(env, env.encryption.wrapped_keys[i], shared_secret) == Ok::<Seq<u8>, EnvelopeError>(
            plaintext,
        ),
    ensures
        decryption_of(env, identity, sk_b64) == Ok::<Seq<u8>, EnvelopeError>(plaintext),
{
}

/// Where the stored fields still decode and the holder brings a
/// well-formed key, decryption fails closed: it returns a plaintext that
/// both ciphers authenticated, or it fails with an authentication
/// failure, or the authenticated content key has the wrong length.
pub proof fn lemma_decryption_fails_closed(
    env: DocumentEnvelopeView,
    identity: Seq<char>,
    sk_b64: Seq<char>,
    i: int,
)
    requires
        first_key_for(env.encryption.wrapped_keys, lowercase_of(identity)) == Some(i),
        fields_decode(env, env.encryption.wrapped_keys[i]),
        decapsulation_of(sk_b64, env.encryption.wrapped_keys[i].kem_ct_b64) is Ok,
    ensures
        match decryption_of(env, identity, sk_b64) {
            Ok(_) => true,
            Err(e) => e.is_authentication_failure() || e == EnvelopeError::InvalidKeyMaterial,
        },
{
}

/// An identity that no wrapped key is addressed to is refused as not a
/// recipient, whatever secret key it brings.
pub proof fn lemma_non_recipient_rejected(env: DocumentEnvelopeView, identity: Seq<char>, sk_b64: Seq<char>)
    requires
        forall|i: int|
            0 <= i < env.encryption.wrapped_keys.len() ==> !addressed_to(
                #[trigger] env.encryption.wrapped_keys[i],
                lowercase_of(identity),
            ),
    ensures
        decryption_of(env, identity, sk_b64) == Err::<Seq<u8>, EnvelopeError>(EnvelopeError::NotARecipient),
{
    lemma_first_key_from(env.encryption.wrapped_keys, lowercase_of(identity), 0);
}

/// Removing another recipient's wrapped key changes nothing for a holder:
/// decryption returns what it returned before.
pub proof fn lemma_removal_leaves_others(
    env: DocumentEnvelopeView,
    j: int,
    identity: Seq<char>,
    sk_b64: Seq<char>,
)
    requires
        0 <= j < env.encryption.wrapped_keys.len(),
        !addressed_to(env.encryption.wrapped_keys[j], lowercase_of(identity)),
    ensures
        decryption_of(without_key(env, j), identity, sk_b64) == decryption_of(env, identity, sk_b64),
{
    let keys = env.encryption.wrapped_keys;
    let rest = keys.remove(j);
    let recipient = lowercase_of(identity);
    lemma_first_key_from(keys, recipient, 0);
    match first_key_for(keys, recipient) {
        Some(i) => {
            let i2 = if i < j { i } else { i - 1 };
            assert(rest[i2] == keys[i]);
            assert forall|k: int| 0 <= k < i2 implies !addressed_to(#[trigger] rest[k], recipient) by {
                if k < j {
                    assert(rest[k] == keys[k]);
                } else {
                    assert(rest[k] == keys[k + 1]);
                }
            }
            lemma_first_key_is(rest, recipient, i2);
        },
        None => {
            assert forall|k: int| 0 <= k < rest.len() implies !addressed_to(#[trigger] rest[k], recipient) by {
                if k < j {
                    assert(rest[k] == keys[k]);
                } else {
                    assert(rest[k] == keys[k + 1]);
                }
            }
            lemma_first_key_from(rest, recipient, 0);
        },
    }
}

/// Whether a wrapped key is addressed to the identity whose lowercase
/// form is `folded`.
pub fn is_addressed_to(k: &WrappedCekV1, folded: &str) -> (b: bool)
    ensures
        b == addressed_to(k@, folded@),
{
    text_eq(k.recipient.as_str(), folded) || text_eq(to_lowercase(k.recipient.as_str()).as_str(), folded)
}

/// Finds the first wrapped key addressed to the identity whose lowercase
/// form is `folded`.
pub fn find_wrapped_key(keys: &[WrappedCekV1], folded: &str) -> (r: Option<usize>)
    ensures
        match r {
            Some(i) => first_key_for(wrapped_key_views(keys@), folded@) == Some(i as int) && i < keys@.len(),
            None => first_key_for(wrapped_key_views(keys@), folded@) is None,
        },
{
    let ghost views = wrapped_key_views(keys@);
    let mut i: usize = 0;
    while i < keys.len()
        invariant
            i <= keys.len(),
            views == wrapped_key_views(keys@),
            first_key_for(views, folded@) == first_key_from(views, folded@, i as int),
        decreases keys.len() - i,
    {
        if is_addressed_to(&keys[i], folded) {
            return Some(i);
        }
        i += 1;
    }
    None
}

/// Derives the key that wraps the content key from a KEM shared secret.
pub fn derive_wrap_key(shared_secret: &[u8]) -> (r: Result<Vec<u8>, EnvelopeError>)
    ensures
        r matches Ok(k) && k@ == wrap_key_of(shared_secret@) && k@.len() == KEY_LEN,
{
    match hkdf_sha256(shared_secret, WRAP_CONTEXT.as_bytes(), KEY_LEN) {
        Some(k) => Ok(k),
        None => Err(EnvelopeError::InternalCryptoFailure),
    }
}

/// Wraps a content key for one recipient under the key derived from the
/// encapsulation's shared secret.
///
/// Fails with `InvalidKeyMaterial` when the content key is not 32 bytes,
/// else with `EncodingError` when the nonce is not 24 bytes, and never
/// otherwise. The holder of the same shared secret unwraps the key again.
pub fn wrap_content_key(enc: &KeyEncapsulation, cek: &[u8]) -> (r: Result<WrappedCekV1, EnvelopeError>)
    ensures
        match r {
            Ok(w) => {
                &&& cek@.len() == KEY_LEN && enc@.wrap_nonce.len() == NONCE_LEN
                &&& w@ == wrapped_key_of(enc@, cek@)
                &&& unwrapped_key_of(w@, enc@.shared_secret) == Ok::<Seq<u8>, EnvelopeError>(cek@)
            },
            Err(e) => if cek@.len() != KEY_LEN {
                e == EnvelopeError::InvalidKeyMaterial
            } else {
                e == EnvelopeError::EncodingError && enc@.wrap_nonce.len() != NONCE_LEN
            },
        },
{
    if cek.len() != KEY_LEN {
        return Err(EnvelopeError::InvalidKeyMaterial);
    }
    if enc.wrap_nonce.len() != NONCE_LEN {
        return Err(EnvelopeError::EncodingError);
    }
    let wrap_key = match derive_wrap_key(enc.shared_secret.as_slice()) {
        Ok(k) => k,
        Err(e) => { return Err(e); },
    };
    let wrapped = match aead_encrypt(wrap_key.as_slice(), enc.wrap_nonce.as_slice(), cek) {
        Some(c) => c,
        None => { return Err(EnvelopeError::InternalCryptoFailure); },
    };
    Ok(
        WrappedCekV1 {
            kem: KEM_TAG.to_owned(),
            recipient: to_lowercase(enc.recipient.as_str()),
            kem_ct_b64: enc.kem_ct_b64.clone(),
            wrap_nonce_b64: base64url_encode(enc.wrap_nonce.as_slice()),
            wrapped_cek_b64: base64url_encode(wrapped.as_slice()),
        },
    )
}

/// Recovers the content key from a wrapped key with the shared secret.
pub fn unwrap_content_key(k: &WrappedCekV1, shared_secret: &[u8]) -> (r: Result<Vec<u8>, EnvelopeError>)
    ensures
        bytes_result(r) == unwrapped_key_of(k@, shared_secret@),
{
    let wrap_key = match derive_wrap_key(shared_secret) {
        Ok(key) => key,
        Err(e) => { return Err(e); },
    };
    let nonce = match base64url_decode(k.wrap_nonce_b64.as_str()) {
        Some(n) => n,
        None => { return Err(EnvelopeError::EncodingError); },
    };
    if nonce.len() != NONCE_LEN {
        return Err(EnvelopeError::EncodingError);
    }
    let wrapped = match base64url_decode(k.wrapped_cek_b64.as_str()) {
        Some(w) => w,
        None => { return Err(EnvelopeError::EncodingError); },
    };
    let cek = match aead_decrypt(wrap_key.as_slice(), nonce.as_slice(), wrapped.as_slice()) {
        Some(c) => c,
        None => { return Err(EnvelopeError::UnwrapFailed); },
    };
    if cek.len() != KEY_LEN {
        return Err(EnvelopeError::InvalidKeyMaterial);
    }
    Ok(cek)
}

/// Encrypts a payload under a content key and a nonce.
///
/// Fails with `InvalidKeyMaterial` when the key is not 32 bytes, else
/// with `EncodingError` when the nonce is not 24 bytes, else with
/// `InternalCryptoFailure` when the plaintext is too long for the cipher.
/// The same key opens the payload to the plaintext again.
pub fn seal_payload(plaintext: &[u8], cek: &[u8], nonce: &[u8]) -> (r: Result<SealedPayload, EnvelopeError>)
    ensures
        match r {
            Ok(p) => {
                &&& cek@.len() == KEY_LEN && nonce@.len() == NONCE_LEN && sealable_len(plaintext@.len())
                &&& p.nonce_b64@ == base64url_text(nonce@)
                &&& p.ciphertext_b64@ == base64url_text(xchacha_sealed(cek@, nonce@, plaintext@))
                &&& opened_payload(p.nonce_b64@, p.ciphertext_b64@, cek@) == Ok::<Seq<u8>, EnvelopeError>(
                    plaintext@,
                )
            },
            Err(e) => if cek@.len() != KEY_LEN {
                e == EnvelopeError::InvalidKeyMaterial
            } else if nonce@.len() != NONCE_LEN {
                e == EnvelopeError::EncodingError
            } else {
                e == EnvelopeError::InternalCryptoFailure && !sealable_len(plaintext@.len())
            },
        },
{
    if cek.len() != KEY_LEN {
        return Err(EnvelopeError::InvalidKeyMaterial);
    }
    if nonce.len() != NONCE_LEN {
        return Err(EnvelopeError::EncodingError);
    }
    let ciphertext = match aead_encrypt(cek, nonce, plaintext) {
        Some(c) => c,
        None => { return Err(EnvelopeError::InternalCryptoFailure); },
    };
    Ok(
        SealedPayload {
            nonce_b64: base64url_encode(nonce),
            ciphertext_b64: base64url_encode(ciphertext.as_slice()),
        },
    )
}

/// Decrypts a payload with a content key.
pub fn open_payload(nonce_b64: &str, ciphertext_b64: &str, cek: &[u8]) -> (r: Result<Vec<u8>, EnvelopeError>)
    ensures
        bytes_result(r) == opened_payload(nonce_b64@, ciphertext_b64@, cek@),
{
    if cek.len() != KEY_LEN {
        return Err(EnvelopeError::InvalidKeyMaterial);
    }
    let nonce = match base64url_decode(nonce_b64) {
        Some(n) => n,
        None => { return Err(EnvelopeError::EncodingError); },
    };
    if nonce.len() != NONCE_LEN {
        return Err(EnvelopeError::EncodingError);
    }
    let ciphertext = match base64url_decode(ciphertext_b64) {
        Some(c) => c,
        None => { return Err(EnvelopeError::EncodingError); },
    };
    match aead_decrypt(cek, nonce.as_slice(), ciphertext.as_slice()) {
        Some(p) => Ok(p),
        None => Err(EnvelopeError::DecryptFailed),
    }
}

/// The views of a list of encapsulations, in order.
pub open spec fn encapsulation_views(encs: Seq<KeyEncapsulation>) -> Seq<KeyEncapsulationView> {
    Seq::new(encs.len(), |i: int| encs[i]@)
}

/// The wrapped keys that a list of encapsulations gives for a content
/// key, in order.
pub open spec fn wrapped_keys_of(encs: Seq<KeyEncapsulationView>, cek: Seq<u8>) -> Seq<WrappedCekView> {
    Seq::new(encs.len(), |i: int| wrapped_key_of(encs[i], cek))
}

/// Why sealing refuses its material, if it does: a content key that is
/// not 32 bytes, then a payload nonce that is not 24 bytes, then a
/// plaintext too long for the cipher, then a wrap nonce that is not 24
/// bytes.
pub open spec fn sealing_refusal(
    plaintext_len: nat,
    cek: Seq<u8>,
    payload_nonce: Seq<u8>,
    encs: Seq<KeyEncapsulationView>,
) -> Option<EnvelopeError> {
    if cek.len() != KEY_LEN {
        Some(EnvelopeError::InvalidKeyMaterial)
    } else if payload_nonce.len() != NONCE_LEN {
        Some(EnvelopeError::EncodingError)
    } else if !sealable_len(plaintext_len) {
        Some(EnvelopeError::InternalCryptoFailure)
    } else if exists|i: int| 0 <= i < encs.len() && (#[trigger] encs[i]).wrap_nonce.len() != NONCE_LEN {
        Some(EnvelopeError::EncodingError)
    } else {
        None
    }
}

/// Wraps a content key once for each encapsulation, in order.
fn wrap_for_all(encs: &[KeyEncapsulation], cek: &[u8]) -> (r: Result<Vec<WrappedCekV1>, EnvelopeError>)
    requires
        cek@.len() == KEY_LEN,
    ensures
        match r {
            Ok(keys) => {
                &&& keys@.len() == encs@.len()
                &&& forall|i: int| 0 <= i < encs@.len() ==> (#[trigger] encs@[i])@.wrap_nonce.len() == NONCE_LEN
                &&& wrapped_key_views(keys@) == wrapped_keys_of(encapsulation_views(encs@), cek@)
                &&& forall|i: int|
                    0 <= i < encs@.len() ==> unwrapped_key_of((#[trigger] keys@[i])@, encs@[i]@.shared_secret) == Ok::<
                        Seq<u8>,
                        EnvelopeError,
                    >(cek@)
            },
            Err(e) => {
                &&& e == EnvelopeError::EncodingError
                &&& exists|i: int| 0 <= i < encs@.len() && (#[trigger] encs@[i])@.wrap_nonce.len() != NONCE_LEN
            },
        },
{
    let mut keys: Vec<WrappedCekV1> = Vec::new();
    let mut i: usize = 0;
    while i < encs.len()
        invariant
            i <= encs.len(),
            cek@.len() == KEY_LEN,
            keys@.len() == i,
            forall|j: int| 0 <= j < i ==> (#[trigger] encs@[j])@.wrap_nonce.len() == NONCE_LEN,
            forall|j: int| 0 <= j < i ==> (#[trigger] keys@[j])@ == wrapped_key_of(encs@[j]@, cek@),
            forall|j: int|
                0 <= j < i ==> unwrapped_key_of((#[trigger] keys@[j])@, encs@[j]@.shared_secret) == Ok::<
                    Seq<u8>,
                    EnvelopeError,
                >(cek@),
        decreases encs.len() - i,
    {
        let wrapped = match wrap_content_key(&encs[i], cek) {
            Ok(w) => w,
            Err(e) => {
                assert(encs@[i as int]@.wrap_nonce.len() != NONCE_LEN);
                return Err(e);
            },
        };
        keys.push(wrapped);
        i += 1;
    }
    assert(wrapped_key_views(keys@) =~= wrapped_keys_of(encapsulation_views(encs@), cek@));
    Ok(keys)
}

impl DocumentEnvelopeV1 {
    /// The envelope that sealing assembles from its parts.
    pub open spec fn assembled(
        owner_wallet: Seq<char>,
        created_at: i64,
        doc: CanonicalDocumentView,
        nonce_b64: Seq<char>,
        ciphertext_b64: Seq<char>,
        wrapped_keys: Seq<WrappedCekView>,
    ) -> DocumentEnvelopeView {
        DocumentEnvelopeView {
            v: ENVELOPE_VERSION,
            owner: lowercase_of(owner_wallet),
            created_at,
            doc,
            encryption: EncryptionInfoView {
                alg: PAYLOAD_ALG@,
                nonce_b64,
                cek_wrap: CEK_WRAP_TAG@,
                wrapped_keys,
            },
            ciphertext_b64,
        }
    }

    /// The identifier of an envelope: the content address of its
    /// canonical form. It is derived, never stored in the envelope.
    pub open spec fn id_of(env: DocumentEnvelopeView) -> Seq<char> {
        content_address(canonical_form(env))
    }

    /// Whether the owner is among the recipients, so that the owner can
    /// open the envelope.
    pub open spec fn owner_is_recipient(env: DocumentEnvelopeView) -> bool {
        first_key_for(env.encryption.wrapped_keys, lowercase_of(env.owner)) is Some
    }

    /// The envelope that sealing gives for a plaintext and the material
    /// it is sealed with: the content key, the payload nonce, and one
    /// encapsulation per recipient.
    pub open spec fn sealed(
        owner_wallet: Seq<char>,
        created_at: i64,
        doc: CanonicalDocumentView,
        plaintext: Seq<u8>,
        cek: Seq<u8>,
        payload_nonce: Seq<u8>,
        encs: Seq<KeyEncapsulationView>,
    ) -> DocumentEnvelopeView {
        Self::assembled(
            owner_wallet,
            created_at,
            doc,
            base64url_text(payload_nonce),
            base64url_text(xchacha_sealed(cek, payload_nonce, plaintext)),
            wrapped_keys_of(encs, cek),
        )
    }

    /// Puts an envelope together from an encrypted payload and the
    /// wrapped keys, and computes its identifier.
    pub fn assemble(
        owner_wallet: &str,
        created_at: i64,
        doc: CanonicalDocumentV1,
        payload: SealedPayload,
        wrapped_keys: Vec<WrappedCekV1>,
    ) -> (r: (Self, String))
        ensures
            r.0@ == Self::assembled(
                owner_wallet@,
                created_at,
                doc@,
                payload.nonce_b64@,
                payload.ciphertext_b64@,
                wrapped_key_views(wrapped_keys@),
            ),
            r.1@ == Self::id_of(r.0@),
    {
        let encryption = EncryptionInfoV1 {
            alg: PAYLOAD_ALG.to_owned(),
            nonce_b64: payload.nonce_b64,
            cek_wrap: CEK_WRAP_TAG.to_owned(),
            wrapped_keys,
        };
        let envelope = DocumentEnvelopeV1 {
            v: ENVELOPE_VERSION,
            owner: to_lowercase(owner_wallet),
            created_at,
            doc,
            encryption,
            ciphertext_b64: payload.ciphertext_b64,
        };
        let eid = envelope.compute_id();
        (envelope, eid)
    }

    /// Whether the envelope has the current version and a wrapped key
    /// for its owner.
    pub fn is_well_formed(&self) -> (ok: bool)
        ensures
            ok == (self@.v == ENVELOPE_VERSION && Self::owner_is_recipient(self@)),
    {
        let folded = to_lowercase(self.owner.as_str());
        self.v == ENVELOPE_VERSION && find_wrapped_key(self.encryption.wrapped_keys.as_slice(), folded.as_str()).is_some()
    }

    /// Recomputes the identifier from the envelope's canonical bytes.
    pub fn compute_id(&self) -> (id: String)
        ensures
            id@ == Self::id_of(self@),
    {
        let canon = canonical_json(self);
        envelope_id(canon.as_slice())
    }

    /// Seals a plaintext with given material: the payload is encrypted
    /// under the content key and the payload nonce, and the content key
    /// is wrapped once per encapsulation, under the key derived from its
    /// shared secret and under its wrap nonce.
    ///
    /// The result is a function of the arguments alone. Whoever holds the
    /// shared secret of an encapsulation gets the plaintext back through
    /// the wrapped key made from it.
    pub fn seal(
        owner_wallet: &str,
        created_at: i64,
        doc: CanonicalDocumentV1,
        plaintext: &[u8],
        cek: &[u8],
        payload_nonce: &[u8],
        encapsulations: &[KeyEncapsulation],
    ) -> (r: Result<(Self, String), EnvelopeError>)
        ensures
            match r {
                Ok((env, id)) => {
                    let encs = encapsulation_views(encapsulations@);
                    &&& sealing_refusal(plaintext@.len(), cek@, payload_nonce@, encs) is None
                    &&& env@ == Self::sealed(owner_wallet@, created_at, doc@, plaintext@, cek@, payload_nonce@, encs)
                    &&& id@ == Self::id_of(env@)
                    &&& forall|i: int|
                        0 <= i < encs.len() ==> opened_with_secret(
                            env@,
                            #[trigger] env@.encryption.wrapped_keys[i],
                            encs[i].shared_secret,
                        ) == Ok::<Seq<u8>, EnvelopeError>(plaintext@)
                },
                Err(e) => sealing_refusal(
                    plaintext@.len(),
                    cek@,
                    payload_nonce@,
                    encapsulation_views(encapsulations@),
                ) == Some(e),
            },
    {
        let payload = match seal_payload(plaintext, cek, payload_nonce) {
            Ok(p) => p,
            Err(e) => { return Err(e); },
        };
        let wrapped_keys = match wrap_for_all(encapsulations, cek) {
            Ok(k) => k,
            Err(e) => {
                proof {
                    let i = choose|i: int|
                        0 <= i < encapsulations@.len() && (#[trigger] encapsulations@[i])@.wrap_nonce.len()
                            != NONCE_LEN;
                    assert(encapsulation_views(encapsulations@)[i].wrap_nonce.len() != NONCE_LEN);
                }
                return Err(e);
            },
        };
        let ghost keys = wrapped_keys@;
        let (env, id) = Self::assemble(owner_wallet, created_at, doc, payload, wrapped_keys);
        proof {
            let encs = encapsulation_views(encapsulations@);
            assert forall|i: int| 0 <= i < encs.len() implies opened_with_secret(
                env@,
                #[trigger] env@.encryption.wrapped_keys[i],
                encs[i].shared_secret,
            ) == Ok::<Seq<u8>, EnvelopeError>(plaintext@) by {
                assert(env@.encryption.wrapped_keys[i] == keys[i]@);
            }
            assert(!exists|i: int| 0 <= i < encs.len() && (#[trigger] encs[i]).wrap_nonce.len() != NONCE_LEN) by {
                if exists|i: int| 0 <= i < encs.len() && (#[trigger] encs[i]).wrap_nonce.len() != NONCE_LEN {
                    let i = choose|i: int| 0 <= i < encs.len() && (#[trigger] encs[i]).wrap_nonce.len() != NONCE_LEN;
                    assert(encapsulations@[i]@.wrap_nonce.len() == NONCE_LEN);
                }
            }
        }
        Ok((env, id))
    }

    /// Creates an envelope that its owner can open.
    ///
    /// A fresh content key encrypts the payload; a fresh encapsulation to
    /// the owner's public key wraps the content key. Fails with
    /// `InternalCryptoFailure` when the plaintext is too long for the
    /// cipher, else with `InvalidKey` when the public key is unusable,
    /// and never otherwise.
    ///
    /// The envelope is sealed to the shared secret of the encapsulation:
    /// whoever holds that secret gets the plaintext through the one
    /// wrapped key.
    pub fn create_mlkem_owner(
        owner_wallet: String,
        owner_mlkem_pk_b64: &str,
        created_at: i64,
        doc: CanonicalDocumentV1,
        plaintext: &[u8],
    ) -> (r: Result<(Self, String), EnvelopeError>)
        ensures
            match r {
                Ok((env, id)) => {
                    &&& sealable_len(plaintext@.len()) && usable_public_key(owner_mlkem_pk_b64@)
                    &&& env@.v == ENVELOPE_VERSION
                    &&& env@.owner == lowercase_of(owner_wallet@)
                    &&& env@.created_at == created_at
                    &&& env@.doc == doc@
                    &&& env@.encryption.alg == PAYLOAD_ALG@
                    &&& env@.encryption.cek_wrap == CEK_WRAP_TAG@
                    &&& env@.encryption.wrapped_keys.len() == 1
                    &&& env@.encryption.wrapped_keys[0].kem == KEM_TAG@
                    &&& env@.encryption.wrapped_keys[0].recipient == lowercase_of(owner_wallet@)
                    &&& first_key_for(env@.encryption.wrapped_keys, lowercase_of(owner_wallet@)) == Some(0int)
                    &&& Self::owner_is_recipient(env@)
                    &&& id@ == Self::id_of(env@)
                    &&& passes_length_guard(env@.encryption.wrapped_keys[0])
                    &&& sealed_through(env@, env@.encryption.wrapped_keys[0], plaintext@)
                },
                Err(e) => if !sealable_len(plaintext@.len()) {
                    e == EnvelopeError::InternalCryptoFailure
                } else {
                    e == EnvelopeError::InvalidKey && !usable_public_key(owner_mlkem_pk_b64@)
                },
            },
    {
        let mut recipients: Vec<(String, String)> = Vec::new();
        recipients.push((owner_wallet, owner_mlkem_pk_b64.to_owned()));
        match Self::create_mlkem_recipients(recipients[0].0.clone(), recipients, created_at, doc, plaintext) {
            Ok((env, id)) => {
                proof {
                    let keys = env@.encryption.wrapped_keys;
                    assert(recipients@[0].1@ == owner_mlkem_pk_b64@);
                    assert(keys[0].recipient == lowercase_of(owner_wallet@));
                    lemma_first_key_is(keys, lowercase_of(owner_wallet@), 0);
                    lemma_first_key_is(keys, lowercase_of(env@.owner), 0);
                }
                Ok((env, id))
            },
            Err(e) => {
                proof {
                    if sealable_len(plaintext@.len()) {
                        let i = choose|i: int|
                            0 <= i < recipients@.len() && !usable_public_key((#[trigger] recipients@[i]).1@);
                        assert(recipients@[i].1@ == owner_mlkem_pk_b64@);
                    }
                }
                Err(e)
            },
        }
    }

    /// Creates an envelope that each of several recipients can open.
    ///
    /// The payload is encrypted once; the content key is wrapped once per
    /// `(identity, public key)` pair, in the order given. Fails with
    /// `InternalCryptoFailure` when the plaintext is too long for the
    /// cipher, else with `InvalidKey` when a public key is unusable, and
    /// never otherwise.
    ///
    /// Every wrapped key is sealed to the shared secret of its own
    /// encapsulation, and each leads to the same plaintext. Every
    /// recipient is found among the wrapped keys; of two entries for one
    /// identity the first is the one that is found.
    pub fn create_mlkem_recipients(
        owner_wallet: String,
        recipients: Vec<(String, String)>,
        created_at: i64,
        doc: CanonicalDocumentV1,
        plaintext: &[u8],
    ) -> (r: Result<(Self, String), EnvelopeError>)
        ensures
            match r {
                Ok((env, id)) => {
                    &&& sealable_len(plaintext@.len())
                    &&& forall|i: int| 0 <= i < recipients@.len() ==> usable_public_key((#[trigger] recipients@[i]).1@)
                    &&& env@.v == ENVELOPE_VERSION
                    &&& env@.owner == lowercase_of(owner_wallet@)
                    &&& env@.created_at == created_at
                    &&& env@.doc == doc@
                    &&& env@.encryption.alg == PAYLOAD_ALG@
                    &&& env@.encryption.cek_wrap == CEK_WRAP_TAG@
                    &&& env@.encryption.wrapped_keys.len() == recipients@.len()
                    &&& forall|i: int|
                        0 <= i < recipients@.len() ==> {
                            let k = #[trigger] env@.encryption.wrapped_keys[i];
                            &&& k.kem == KEM_TAG@
                            &&& k.recipient == lowercase_of(recipients@[i].0@)
                            &&& passes_length_guard(k)
                            &&& sealed_through(env@, k, plaintext@)
                        }
                    &&& forall|i: int|
                        0 <= i < recipients@.len() ==> first_key_for(
                            env@.encryption.wrapped_keys,
                            lowercase_of((#[trigger] recipients@[i]).0@),
                        ) is Some
                    &&& id@ == Self::id_of(env@)
                },
                Err(e) => if !sealable_len(plaintext@.len()) {
                    e == EnvelopeError::InternalCryptoFailure
                } else {
                    &&& e == EnvelopeError::InvalidKey
                    &&& exists|i: int| 0 <= i < recipients@.len() && !usable_public_key((#[trigger] recipients@[i]).1@)
                },
            },
    {
        // The payload is judged before any key is: a plaintext the cipher
        // cannot take is refused whatever the keys are.
        if !is_sealable(plaintext.len()) {
            return Err(EnvelopeError::InternalCryptoFailure);
        }
        let cek = random_bytes(KEY_LEN);
        let payload_nonce = random_bytes(NONCE_LEN);
        let mut encapsulations: Vec<KeyEncapsulation> = Vec::new();
        let mut i: usize = 0;
        while i < recipients.len()
            invariant
                i <= recipients.len(),
                encapsulations@.len() == i,
                sealable_len(plaintext@.len()),
                forall|j: int| 0 <= j < i ==> usable_public_key((#[trigger] recipients@[j]).1@),
                forall|j: int|
                    0 <= j < i ==> {
                        let enc = (#[trigger] encapsulations@[j])@;
                        &&& enc.recipient == recipients@[j].0@
                        &&& enc.wrap_nonce.len() == NONCE_LEN
                        &&& base64url_bytes(enc.kem_ct_b64) matches Some(ct) && ct.len() == CIPHERTEXT_LEN
                    },
            decreases recipients.len() - i,
        {
            let (kem_ct_b64, shared_secret) = match mlkem_encapsulate_b64(recipients[i].1.as_str()) {
                Ok(p) => p,
                Err(e) => {
                    assert(!usable_public_key(recipients@[i as int].1@));
                    return Err(e);
                },
            };
            encapsulations.push(
                KeyEncapsulation {
                    recipient: recipients[i].0.clone(),
                    kem_ct_b64,
                    shared_secret,
                    wrap_nonce: random_bytes(NONCE_LEN),
                },
            );
            i += 1;
        }
        let ghost encs = encapsulation_views(encapsulations@);
        proof {
            assert forall|j: int| 0 <= j < encs.len() implies (#[trigger] encs[j]).wrap_nonce.len() == NONCE_LEN by {
                assert(encapsulations@[j]@.wrap_nonce.len() == NONCE_LEN);
            }
        }
        let (env, id) = match Self::seal(
            owner_wallet.as_str(),
            created_at,
            doc,
            plaintext,
            cek.as_slice(),
            payload_nonce.as_slice(),
            encapsulations.as_slice(),
        ) {
            Ok(p) => p,
            Err(e) => { return Err(e); },
        };
        proof {
            let keys = env@.encryption.wrapped_keys;
            assert forall|j: int| 0 <= j < recipients@.len() implies {
                let k = #[trigger] keys[j];
                &&& k.kem == KEM_TAG@
                &&& k.recipient == lowercase_of(recipients@[j].0@)
                &&& passes_length_guard(k)
                &&& sealed_through(env@, k, plaintext@)
            } by {
                assert(keys[j] == wrapped_key_of(encs[j], cek@));
                assert(encs[j] == encapsulations@[j]@);
                assert(opened_with_secret(env@, keys[j], encs[j].shared_secret) == Ok::<Seq<u8>, EnvelopeError>(
                    plaintext@,
                ));
            }
            assert forall|j: int| 0 <= j < recipients@.len() implies first_key_for(
                keys,
                lowercase_of((#[trigger] recipients@[j]).0@),
            ) is Some by {
                let folded = lowercase_of(recipients@[j].0@);
                assert(addressed_to(keys[j], folded));
                lemma_first_key_from(keys, folded, 0);
            }
        }
        Ok((env, id))
    }

    /// Opens the envelope for a holder.
    ///
    /// The holder's identity is compared with the recipients without
    /// regard to case; with no entry for it the result is
    /// `NotARecipient`. Then the entry's KEM ciphertext is decapsulated,
    /// the content key unwrapped and the payload decrypted; the first
    /// step that fails names the error.
    pub fn decrypt_for_identity(&self, holder_identity: &str, holder_sk_b64: &str) -> (r: Result<
        Vec<u8>,
        EnvelopeError,
    >)
        ensures
            bytes_result(r) == decryption_of(self@, holder_identity@, holder_sk_b64@),
    {
        let folded = to_lowercase(holder_identity);
        let index = match find_wrapped_key(self.encryption.wrapped_keys.as_slice(), folded.as_str()) {
            Some(i) => i,
            None => { return Err(EnvelopeError::NotARecipient); },
        };
        let k = &self.encryption.wrapped_keys[index];
        let shared_secret = match mlkem_decapsulate_b64(holder_sk_b64, k.kem_ct_b64.as_str()) {
            Ok(s) => s,
            Err(e) => { return Err(e); },
        };
        let cek = match unwrap_content_key(k, shared_secret.as_slice()) {
            Ok(c) => c,
            Err(e) => { return Err(e); },
        };
        open_payload(self.encryption.nonce_b64.as_str(), self.ciphertext_b64.as_str(), cek.as_slice())
    }

    /// Opens the envelope for its owner.
    pub fn decrypt_for_owner_mlkem(&self, owner_mlkem_sk_b64: &str) -> (r: Result<Vec<u8>, EnvelopeError>)
        ensures
            bytes_result(r) == decryption_of(self@, self@.owner, owner_mlkem_sk_b64@),
    {
        self.decrypt_for_identity(self.owner.as_str(), owner_mlkem_sk_b64)
    }
}

} // verus!
