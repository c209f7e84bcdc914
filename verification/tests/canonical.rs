use sha3::Digest;
use tidbit::crypto::canonical::canonicalize::canonical_json;
use tidbit::crypto::canonical::document::CanonicalDocumentV1;
use tidbit::crypto::canonical::envelope::DocumentEnvelopeV1;
use tidbit::crypto::canonical::hash::{envelope_id, matches_id};
use tidbit::crypto::canonical::json::{
    push_bytes, push_decimal, push_json_optional_text, push_json_text, push_signed_decimal, push_utf8,
};
use tidbit::crypto::canonical::metadata::{EncryptionInfoV1, WrappedCekV1};
use tidbit::pqc::sha3::sha3_256_bytes;

fn key(recipient: &str, ct: &str) -> WrappedCekV1 {
    WrappedCekV1 {
        kem: "mlkem768".to_string(),
        recipient: recipient.to_string(),
        kem_ct_b64: ct.to_string(),
        wrap_nonce_b64: "d24".to_string(),
        wrapped_cek_b64: "d2M".to_string(),
    }
}

fn sample(keys: Vec<WrappedCekV1>) -> DocumentEnvelopeV1 {
    DocumentEnvelopeV1 {
        v: 1,
        owner: "0xabc".to_string(),
        created_at: 1700000000,
        doc: CanonicalDocumentV1 {
            logical_id: "doc-1".to_string(),
            filename: Some("a.txt".to_string()),
            mime: None,
            plaintext_sha3_256_hex: "00".to_string(),
            size_bytes: 12,
        },
        encryption: EncryptionInfoV1 {
            alg: "xchacha20poly1305".to_string(),
            nonce_b64: "bm9uY2U".to_string(),
            cek_wrap: "mlkem".to_string(),
            wrapped_keys: keys,
        },
        ciphertext_b64: "Y2lwaGVy".to_string(),
    }
}

#[test]
fn canonical_form_of_a_known_envelope() {
    let env = sample(vec![key("0xabc", "Y3Q")]);
    let expected = "{\"v\":1,\"owner\":\"0xabc\",\"created_at\":1700000000,\"doc\":{\"logical_id\":\"doc-1\",\"filename\":\"a.txt\",\"mime\":null,\"plaintext_sha3_256_hex\":\"00\",\"size_bytes\":12},\"encryption\":{\"alg\":\"xchacha20poly1305\",\"nonce_b64\":\"bm9uY2U\",\"cek_wrap\":\"mlkem\",\"wrapped_keys\":[{\"kem\":\"mlkem768\",\"recipient\":\"0xabc\",\"kem_ct_b64\":\"Y3Q\",\"wrap_nonce_b64\":\"d24\",\"wrapped_cek_b64\":\"d2M\"}]},\"ciphertext_b64\":\"Y2lwaGVy\"}";
    assert_eq!(String::from_utf8(canonical_json(&env)).unwrap(), expected);
}

#[test]
fn canonical_form_separates_wrapped_keys_with_commas() {
    let none = String::from_utf8(canonical_json(&sample(vec![]))).unwrap();
    assert!(none.contains("\"wrapped_keys\":[]}"));
    let two = String::from_utf8(canonical_json(&sample(vec![key("a", "QQ"), key("b", "Qg")]))).unwrap();
    assert!(two.contains("\"wrapped_keys\":[{\"kem\":\"mlkem768\",\"recipient\":\"a\",\"kem_ct_b64\":\"QQ\",\"wrap_nonce_b64\":\"d24\",\"wrapped_cek_b64\":\"d2M\"},{\"kem\":\"mlkem768\",\"recipient\":\"b\",\"kem_ct_b64\":\"Qg\",\"wrap_nonce_b64\":\"d24\",\"wrapped_cek_b64\":\"d2M\"}]}"));
    let three = String::from_utf8(canonical_json(&sample(vec![key("a", "QQ"), key("b", "Qg"), key("c", "Qw")]))).unwrap();
    assert_eq!(three.matches("},{").count(), 2);
}

#[test]
fn canonical_form_has_no_whitespace_between_tokens() {
    let bytes = canonical_json(&sample(vec![key("0xabc", "Y3Q")]));
    assert!(!bytes.contains(&b' '));
    assert!(!bytes.contains(&b'\n'));
    assert!(!bytes.contains(&b'\t'));
}

#[test]
fn canonical_form_is_valid_json_with_the_fields_in_place() {
    let env = sample(vec![key("0xabc", "Y3Q")]);
    let value: serde_json::Value = serde_json::from_slice(&canonical_json(&env)).expect("valid json");
    assert_eq!(value["v"].as_u64(), Some(1));
    assert_eq!(value["owner"].as_str(), Some("0xabc"));
    assert_eq!(value["created_at"].as_i64(), Some(1700000000));
    assert_eq!(value["doc"]["logical_id"].as_str(), Some("doc-1"));
    assert_eq!(value["doc"]["filename"].as_str(), Some("a.txt"));
    assert!(value["doc"]["mime"].is_null());
    assert_eq!(value["doc"]["size_bytes"].as_u64(), Some(12));
    assert_eq!(value["encryption"]["alg"].as_str(), Some("xchacha20poly1305"));
    assert_eq!(value["encryption"]["cek_wrap"].as_str(), Some("mlkem"));
    assert_eq!(value["encryption"]["wrapped_keys"].as_array().map(|a| a.len()), Some(1));
    assert_eq!(value["encryption"]["wrapped_keys"][0]["recipient"].as_str(), Some("0xabc"));
    assert_eq!(value["ciphertext_b64"].as_str(), Some("Y2lwaGVy"));
}

#[test]
fn encoding_twice_gives_the_same_bytes() {
    let env = sample(vec![key("0xabc", "Y3Q")]);
    assert_eq!(canonical_json(&env), canonical_json(&env));
    assert_eq!(canonical_json(&env), canonical_json(&env.clone()));
}

#[test]
fn envelopes_built_in_another_order_encode_alike() {
    let first = sample(vec![key("0xabc", "Y3Q")]);
    // The same content, the parts made in the opposite order.
    let ciphertext_b64 = "Y2lwaGVy".to_string();
    let encryption = EncryptionInfoV1 {
        wrapped_keys: vec![key("0xabc", "Y3Q")],
        cek_wrap: "mlkem".to_string(),
        nonce_b64: "bm9uY2U".to_string(),
        alg: "xchacha20poly1305".to_string(),
    };
    let doc = CanonicalDocumentV1 {
        size_bytes: 12,
        plaintext_sha3_256_hex: "00".to_string(),
        mime: None,
        filename: Some("a.txt".to_string()),
        logical_id: "doc-1".to_string(),
    };
    let second = DocumentEnvelopeV1 { ciphertext_b64, encryption, doc, created_at: 1700000000, owner: "0xabc".to_string(), v: 1 };
    assert_eq!(canonical_json(&first), canonical_json(&second));
    assert_eq!(first.compute_id(), second.compute_id());
}

#[test]
fn a_changed_field_changes_bytes_and_id() {
    let env = sample(vec![key("0xabc", "Y3Q")]);
    let mut other = env.clone();
    other.created_at = 1700000001;
    assert_ne!(canonical_json(&env), canonical_json(&other));
    assert_ne!(env.compute_id(), other.compute_id());
}

#[test]
fn negative_and_extreme_numbers() {
    let mut env = sample(vec![]);
    env.created_at = -5;
    env.v = 65535;
    env.doc.size_bytes = u64::MAX;
    let text = String::from_utf8(canonical_json(&env)).unwrap();
    assert!(text.starts_with("{\"v\":65535,\"owner\":\"0xabc\",\"created_at\":-5,"));
    assert!(text.contains("\"size_bytes\":18446744073709551615}"));
    env.created_at = i64::MIN;
    let text = String::from_utf8(canonical_json(&env)).unwrap();
    assert!(text.contains("\"created_at\":-9223372036854775808,"));
    env.created_at = i64::MAX;
    let text = String::from_utf8(canonical_json(&env)).unwrap();
    assert!(text.contains("\"created_at\":9223372036854775807,"));
}

#[test]
fn decimal_spelling() {
    for n in [0u64, 1, 9, 10, 11, 99, 100, 101, 12345, 1000000, u64::MAX] {
        let mut out = Vec::new();
        push_decimal(&mut out, n);
        assert_eq!(String::from_utf8(out).unwrap(), n.to_string());
    }
    for n in [0i64, -1, 1, -10, 10, -1234567, i64::MIN, i64::MAX] {
        let mut out = Vec::new();
        push_signed_decimal(&mut out, n);
        assert_eq!(String::from_utf8(out).unwrap(), n.to_string());
    }
}

#[test]
fn pushing_appends_after_what_is_there() {
    let mut out = vec![b'x'];
    push_decimal(&mut out, 42);
    push_utf8(&mut out, "-é-");
    push_bytes(&mut out, &[0, 255]);
    assert_eq!(out, vec![b'x', b'4', b'2', b'-', 0xc3, 0xa9, b'-', 0, 255]);
}

#[test]
fn text_is_escaped_as_json() {
    let cases = [
        "",
        "plain",
        "quote\"inside",
        "back\\slash",
        "tab\there",
        "line\nfeed",
        "carriage\rreturn",
        "form\u{000c}feed",
        "back\u{0008}space",
        "nul\u{0000}",
        "unit\u{001f}sep",
        "del\u{007f}",
        "slash/",
        "émoji 🎉 and ü",
        "\u{0001}\u{0002}\u{000b}\u{000e}\u{0010}\u{001a}",
    ];
    for case in cases {
        let mut out = Vec::new();
        push_json_text(&mut out, case);
        assert_eq!(String::from_utf8(out).unwrap(), serde_json::to_string(case).unwrap());
    }
}

#[test]
fn known_escapes() {
    let mut out = Vec::new();
    push_json_text(&mut out, "a\"b\\c\n\u{0001}\u{001f}");
    assert_eq!(String::from_utf8(out).unwrap(), "\"a\\\"b\\\\c\\n\\u0001\\u001f\"");
}

#[test]
fn escaped_text_parses_back() {
    let mut env = sample(vec![]);
    env.owner = "we\"ird\\ \n owner \u{0007}".to_string();
    env.doc.filename = Some("tab\tname".to_string());
    let value: serde_json::Value = serde_json::from_slice(&canonical_json(&env)).expect("valid json");
    assert_eq!(value["owner"].as_str(), Some("we\"ird\\ \n owner \u{0007}"));
    assert_eq!(value["doc"]["filename"].as_str(), Some("tab\tname"));
}

#[test]
fn optional_text_is_text_or_null() {
    let mut out = Vec::new();
    push_json_optional_text(&mut out, &None);
    assert_eq!(out, b"null".to_vec());
    let mut out = Vec::new();
    push_json_optional_text(&mut out, &Some("null".to_string()));
    assert_eq!(out, b"\"null\"".to_vec());
}

#[test]
fn envelope_id_is_sha3_of_the_bytes_in_hex() {
    let bytes = canonical_json(&sample(vec![key("0xabc", "Y3Q")]));
    let id = envelope_id(&bytes);
    assert_eq!(id, hex::encode(sha3::Sha3_256::digest(&bytes)));
    assert_eq!(id.len(), 64);
    assert!(id.chars().all(|c| c.is_ascii_digit() || ('a'..='f').contains(&c)));
    assert_eq!(sample(vec![key("0xabc", "Y3Q")]).compute_id(), id);
}

#[test]
fn envelope_id_of_known_bytes() {
    assert_eq!(envelope_id(b""), "a7ffc6f8bf1ed76651c14756a061d662f580ff4de43b49fa82d80a4b80f8434a");
    assert_eq!(envelope_id(b"abc"), "3a985da74fe225b2045c172d6bd390bd855f086e3e9d525b46bfe24511431532");
}

#[test]
fn sha3_of_known_bytes() {
    assert_eq!(hex::encode(sha3_256_bytes(b"")), "a7ffc6f8bf1ed76651c14756a061d662f580ff4de43b49fa82d80a4b80f8434a");
    assert_eq!(hex::encode(sha3_256_bytes(b"abc")), "3a985da74fe225b2045c172d6bd390bd855f086e3e9d525b46bfe24511431532");
    assert_ne!(sha3_256_bytes(b"abc").to_vec(), b"abc".to_vec());
}

#[test]
fn stored_bytes_are_checked_against_the_id() {
    let bytes = canonical_json(&sample(vec![key("0xabc", "Y3Q")]));
    let id = envelope_id(&bytes);
    assert!(matches_id(&bytes, &id));
    let mut tampered = bytes.clone();
    tampered[5] ^= 1;
    assert!(!matches_id(&tampered, &id));
    assert!(!matches_id(&bytes, &id.to_uppercase()));
    assert!(!matches_id(&bytes, ""));
}

#[test]
fn document_describes_its_plaintext() {
    let doc = CanonicalDocumentV1::from_plaintext("id-1".to_string(), b"hello-tidbit", Some("f".to_string()), None);
    assert_eq!(doc.logical_id, "id-1");
    assert_eq!(doc.filename.as_deref(), Some("f"));
    assert_eq!(doc.mime, None);
    assert_eq!(doc.size_bytes, 12);
    assert_eq!(doc.plaintext_sha3_256_hex, hex::encode(sha3::Sha3_256::digest(b"hello-tidbit")));
    assert_eq!(doc.plaintext_sha3_256_hex.len(), 64);
    assert!(doc.matches_plaintext(b"hello-tidbit"));
    assert!(!doc.matches_plaintext(b"hello-tidbiT"));
    assert!(!doc.matches_plaintext(b"hello-tidbit "));
    assert!(!doc.matches_plaintext(b""));
}

#[test]
fn document_of_empty_plaintext() {
    let doc = CanonicalDocumentV1::from_plaintext(String::new(), b"", None, Some("text/plain".to_string()));
    assert_eq!(doc.size_bytes, 0);
    assert_eq!(doc.plaintext_sha3_256_hex, "a7ffc6f8bf1ed76651c14756a061d662f580ff4de43b49fa82d80a4b80f8434a");
    assert_eq!(doc.mime.as_deref(), Some("text/plain"));
    assert!(doc.matches_plaintext(b""));
    let copy = doc.clone();
    assert_eq!(copy, doc);
}
