//! The canonical form of an envelope: compact JSON, fields in declared
//! order, nothing between the tokens. It is the one input to the content
//! address.

use crate::crypto::canonical::document::{CanonicalDocumentV1, CanonicalDocumentView};
use crate::crypto::canonical::envelope::{DocumentEnvelopeV1, DocumentEnvelopeView};
use crate::crypto::canonical::json::{
    decimal, json_optional_text, json_text, push_decimal, push_json_optional_text, push_json_text,
    push_signed_decimal, push_utf8, signed_decimal, utf8,
};
use crate::crypto::canonical::metadata::{
    wrapped_key_views, EncryptionInfoV1, EncryptionInfoView, WrappedCekV1, WrappedCekView,
};
use vstd::prelude::*;

verus! {

/// The canonical form of a document description.
pub open spec fn document_form(d: CanonicalDocumentView) -> Seq<u8> {
    utf8("{\"logical_id\":") + json_text(d.logical_id)
        + utf8(",\"filename\":") + json_optional_text(d.filename)
        + utf8(",\"mime\":") + json_optional_text(d.mime)
        + utf8(",\"plaintext_sha3_256_hex\":") + json_text(d.plaintext_sha3_256_hex)
        + utf8(",\"size_bytes\":") + decimal(d.size_bytes as nat)
        + utf8("}")
}

/// The canonical form of one wrapped key.
pub open spec fn wrapped_key_form(k: WrappedCekView) -> Seq<u8> {
    utf8("{\"kem\":") + json_text(k.kem)
        + utf8(",\"recipient\":") + json_text(k.recipient)
        + utf8(",\"kem_ct_b64\":") + json_text(k.kem_ct_b64)
        + utf8(",\"wrap_nonce_b64\":") + json_text(k.wrap_nonce_b64)
        + utf8(",\"wrapped_cek_b64\":") + json_text(k.wrapped_cek_b64)
        + utf8("}")
}

/// The canonical forms of the wrapped keys in order, with a comma between
/// each two.
pub open spec fn wrapped_key_items(keys: Seq<WrappedCekView>) -> Seq<u8>
    decreases keys.len(),
{
    if keys.len() == 0 {
        Seq::<u8>::empty()
    } else if keys.len() == 1 {
        wrapped_key_form(keys[0])
    } else {
        wrapped_key_items(keys.drop_last()) + utf8(",") + wrapped_key_form(keys.last())
    }
}

/// The canonical form of the encryption details.
pub open spec fn encryption_form(e: EncryptionInfoView) -> Seq<u8> {
    utf8("{\"alg\":") + json_text(e.alg)
        + utf8(",\"nonce_b64\":") + json_text(e.nonce_b64)
        + utf8(",\"cek_wrap\":") + json_text(e.cek_wrap)
        + utf8(",\"wrapped_keys\":[") + wrapped_key_items(e.wrapped_keys)
        + utf8("]}")
}

/// The canonical form of an envelope.
#[verifier::opaque]
pub open spec fn canonical_form(e: DocumentEnvelopeView) -> Seq<u8> {
    utf8("{\"v\":") + decimal(e.v as nat)
        + utf8(",\"owner\":") + json_text(e.owner)
        + utf8(",\"created_at\":") + signed_decimal(e.created_at as int)
        + utf8(",\"doc\":") + document_form(e.doc)
        + utf8(",\"encryption\":") + encryption_form(e.encryption)
        + utf8(",\"ciphertext_b64\":") + json_text(e.ciphertext_b64)
        + utf8("}")
}

/// Envelopes with the same content have the same canonical form,
/// however they were put together.
pub proof fn lemma_canonical_form_stable(a: DocumentEnvelopeV1, b: DocumentEnvelopeV1)
    requires
        a@ == b@,
    ensures
        canonical_form(a@) == canonical_form(b@),
{
}

fn push_document(out: &mut Vec<u8>, d: &CanonicalDocumentV1)
    ensures
        final(out)@ == old(out)@ + document_form(d@),
{
    push_utf8(out, "{\"logical_id\":");
    push_json_text(out, d.logical_id.as_str());
    push_utf8(out, ",\"filename\":");
    push_json_optional_text(out, &d.filename);
    push_utf8(out, ",\"mime\":");
    push_json_optional_text(out, &d.mime);
    push_utf8(out, ",\"plaintext_sha3_256_hex\":");
    push_json_text(out, d.plaintext_sha3_256_hex.as_str());
    push_utf8(out, ",\"size_bytes\":");
    push_decimal(out, d.size_bytes);
    push_utf8(out, "}");
    assert(out@ =~= old(out)@ + document_form(d@));
}

fn push_wrapped_key(out: &mut Vec<u8>, k: &WrappedCekV1)
    ensures
        final(out)@ == old(out)@ + wrapped_key_form(k@),
{
    push_utf8(out, "{\"kem\":");
    push_json_text(out, k.kem.as_str());
    push_utf8(out, ",\"recipient\":");
    push_json_text(out, k.recipient.as_str());
    push_utf8(out, ",\"kem_ct_b64\":");
    push_json_text(out, k.kem_ct_b64.as_str());
    push_utf8(out, ",\"wrap_nonce_b64\":");
    push_json_text(out, k.wrap_nonce_b64.as_str());
    push_utf8(out, ",\"wrapped_cek_b64\":");
    push_json_text(out, k.wrapped_cek_b64.as_str());
    push_utf8(out, "}");
    assert(out@ =~= old(out)@ + wrapped_key_form(k@));
}

fn push_wrapped_keys(out: &mut Vec<u8>, keys: &[WrappedCekV1])
    ensures
        final(out)@ == old(out)@ + wrapped_key_items(wrapped_key_views(keys@)),
{
    let ghost views = wrapped_key_views(keys@);
    let mut i: usize = 0;
    assert(old(out)@ + wrapped_key_items(views.subrange(0, 0)) =~= old(out)@);
    while i < keys.len()
        invariant
            i <= keys.len(),
            views == wrapped_key_views(keys@),
            out@ == old(out)@ + wrapped_key_items(views.subrange(0, i as int)),
        decreases keys.len() - i,
    {
        if i > 0 {
            push_utf8(out, ",");
        }
        push_wrapped_key(out, &keys[i]);
        proof {
            let next = views.subrange(0, i as int + 1);
            assert(next.drop_last() =~= views.subrange(0, i as int));
            assert(next.last() == keys@[i as int]@);
            if i == 0 {
                assert(next[0] == keys@[0]@);
                assert(wrapped_key_items(views.subrange(0, 0)) =~= Seq::<u8>::empty());
            }
            assert(out@ =~= old(out)@ + wrapped_key_items(next));
        }
        i += 1;
    }
    assert(views.subrange(0, i as int) =~= views);
}

fn push_encryption(out: &mut Vec<u8>, e: &EncryptionInfoV1)
    ensures
        final(out)@ == old(out)@ + encryption_form(e@),
{
    push_utf8(out, "{\"alg\":");
    push_json_text(out, e.alg.as_str());
    push_utf8(out, ",\"nonce_b64\":");
    push_json_text(out, e.nonce_b64.as_str());
    push_utf8(out, ",\"cek_wrap\":");
    push_json_text(out, e.cek_wrap.as_str());
    push_utf8(out, ",\"wrapped_keys\":[");
    push_wrapped_keys(out, e.wrapped_keys.as_slice());
    push_utf8(out, "]}");
    assert(out@ =~= old(out)@ + encryption_form(e@));
}

/// Encodes an envelope in its canonical form. The bytes are a function of
/// the envelope's content alone: equal envelopes give equal bytes.
pub fn canonical_json(value: &DocumentEnvelopeV1) -> (bytes: Vec<u8>)
    ensures
        bytes@ == canonical_form(value@),
{
    let mut out: Vec<u8> = Vec::new();
    push_utf8(&mut out, "{\"v\":");
    push_decimal(&mut out, value.v as u64);
    push_utf8(&mut out, ",\"owner\":");
    push_json_text(&mut out, value.owner.as_str());
    push_utf8(&mut out, ",\"created_at\":");
    push_signed_decimal(&mut out, value.created_at);
    push_utf8(&mut out, ",\"doc\":");
    push_document(&mut out, &value.doc);
    push_utf8(&mut out, ",\"encryption\":");
    push_encryption(&mut out, &value.encryption);
    push_utf8(&mut out, ",\"ciphertext_b64\":");
    push_json_text(&mut out, value.ciphertext_b64.as_str());
    push_utf8(&mut out, "}");
    proof {
        reveal(canonical_form);
        assert(out@ =~= canonical_form(value@));
    }
    out
}

} // verus!
