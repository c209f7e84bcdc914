//! How an envelope's payload was encrypted, and for whom its key was wrapped.

use vstd::prelude::*;

verus! {

/// The content key wrapped for one recipient.
#[derive(Debug, PartialEq, Eq)]
pub struct WrappedCekV1 {
    /// The KEM used, `"mlkem768"`.
    pub kem: String,
    /// The recipient's identity, lowercased.
    pub recipient: String,
    /// The KEM ciphertext.
    pub kem_ct_b64: String,
    /// The 24-byte nonce under which the content key was wrapped.
    pub wrap_nonce_b64: String,
    /// The wrapped content key.
    pub wrapped_cek_b64: String,
}

/// The mathematical content of a [`WrappedCekV1`].
pub struct WrappedCekView {
    pub kem: Seq<char>,
    pub recipient: Seq<char>,
    pub kem_ct_b64: Seq<char>,
    pub wrap_nonce_b64: Seq<char>,
    pub wrapped_cek_b64: Seq<char>,
}

impl View for WrappedCekV1 {
    type V = WrappedCekView;

    open spec fn view(&self) -> WrappedCekView {
        WrappedCekView {
            kem: self.kem@,
            recipient: self.recipient@,
            kem_ct_b64: self.kem_ct_b64@,
            wrap_nonce_b64: self.wrap_nonce_b64@,
            wrapped_cek_b64: self.wrapped_cek_b64@,
        }
    }
}

impl Clone for WrappedCekV1 {
    fn clone(&self) -> (r: Self)
        ensures
            r@ == self@,
    {
        WrappedCekV1 {
            kem: self.kem.clone(),
            recipient: self.recipient.clone(),
            kem_ct_b64: self.kem_ct_b64.clone(),
            wrap_nonce_b64: self.wrap_nonce_b64.clone(),
            wrapped_cek_b64: self.wrapped_cek_b64.clone(),
        }
    }
}

/// The views of a list of wrapped keys, in order.
pub open spec fn wrapped_key_views(keys: Seq<WrappedCekV1>) -> Seq<WrappedCekView> {
    Seq::new(keys.len(), |i: int| keys[i]@)
}

/// Copies a list of wrapped keys.
pub fn clone_wrapped_keys(keys: &[WrappedCekV1]) -> (r: Vec<WrappedCekV1>)
    ensures
        wrapped_key_views(r@) == wrapped_key_views(keys@),
{
    let mut out: Vec<WrappedCekV1> = Vec::new();
    let mut i: usize = 0;
    while i < keys.len()
        invariant
            i <= keys.len(),
            out@.len() == i,
            forall|k: int| 0 <= k < i ==> out@[k]@ == keys@[k]@,
        decreases keys.len() - i,
    {
        out.push(keys[i].clone());
        i += 1;
    }
    assert(wrapped_key_views(out@) =~= wrapped_key_views(keys@));
    out
}

/// The payload cipher, its nonce, and the wrapped keys.
#[derive(Debug, PartialEq, Eq)]
pub struct EncryptionInfoV1 {
    /// The payload cipher, `"xchacha20poly1305"`.
    pub alg: String,
    /// The 24-byte payload nonce.
    pub nonce_b64: String,
    /// How the content key is protected, `"mlkem"`.
    pub cek_wrap: String,
    /// One entry per recipient, in the order they were given.
    pub wrapped_keys: Vec<WrappedCekV1>,
}

/// The mathematical content of an [`EncryptionInfoV1`].
pub struct EncryptionInfoView {
    pub alg: Seq<char>,
    pub nonce_b64: Seq<char>,
    pub cek_wrap: Seq<char>,
    pub wrapped_keys: Seq<WrappedCekView>,
}

impl View for EncryptionInfoV1 {
    type V = EncryptionInfoView;

    open spec fn view(&self) -> EncryptionInfoView {
        EncryptionInfoView {
            alg: self.alg@,
            nonce_b64: self.nonce_b64@,
            cek_wrap: self.cek_wrap@,
            wrapped_keys: wrapped_key_views(self.wrapped_keys@),
        }
    }
}

impl Clone for EncryptionInfoV1 {
    fn clone(&self) -> (r: Self)
        ensures
            r@ == self@,
    {
        EncryptionInfoV1 {
            alg: self.alg.clone(),
            nonce_b64: self.nonce_b64.clone(),
            cek_wrap: self.cek_wrap.clone(),
            wrapped_keys: clone_wrapped_keys(self.wrapped_keys.as_slice()),
        }
    }
}

} // verus!
