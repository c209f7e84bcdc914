use aes_gcm::aead::Aead;
use aes_gcm::KeyInit;
use sha2::Digest;
use tidbit::arweave;
use tidbit::arweave::clients;
use tidbit::arweave::{AnchorStep, ArweaveAnchor};
use tidbit::config::AppConfig;
use tidbit::crypto::aes_gcm::{decrypt_aes_gcm, encrypt_aes_gcm};
use tidbit::crypto::keywrap::{unwrap_key_for_recipient, wrap_key_for_recipient};
use tidbit::error::{AppError, AppErrorKind};
use tidbit::identity::local_wallet::LocalWallet;
use tidbit::identity::wallet_verify::verify_pqc_with_pubkey;
use tidbit::pqc::{dilithium, kyber};
use tidbit::sanitizer::ipinfo::{ipinfo_endpoint, security_of, IpInfoResponse, IpInfoSecurity};
use tidbit::text::{bytes_equal, text_eq};

fn message_of(e: AppError) -> (AppErrorKind, String) {
    let kind = e.kind();
    let text = match e {
        AppError::BadRequest(m) => m,
        AppError::Forbidden(m) => m,
        AppError::Auth(m) => m,
        AppError::Internal(m) => m,
        AppError::Crypto(m) => m,
        AppError::Io(m) => m,
        AppError::SerdeJson(m) => m,
    };
    (kind, text)
}

#[test]
fn error_statuses() {
    assert_eq!(AppError::BadRequest("x".to_string()).status_code(), 400);
    assert_eq!(AppError::Forbidden("x".to_string()).status_code(), 403);
    assert_eq!(AppError::Auth("x".to_string()).status_code(), 401);
    assert_eq!(AppError::Internal("x".to_string()).status_code(), 500);
    assert_eq!(AppError::Crypto("x".to_string()).status_code(), 500);
    assert_eq!(AppError::Io("x".to_string()).status_code(), 500);
    assert_eq!(AppError::SerdeJson("x".to_string()).status_code(), 500);
    assert_eq!(AppError::Io("x".to_string()).kind(), AppErrorKind::Io);
    assert_eq!(AppError::SerdeJson("x".to_string()).kind(), AppErrorKind::SerdeJson);
    assert_eq!(AppError::Forbidden("x".to_string()).kind(), AppErrorKind::Forbidden);
}

#[test]
fn dilithium_signature_verifies() {
    let kp = dilithium::generate_keypair();
    assert_eq!(kp.public_key.len(), 1952);
    assert_eq!(kp.secret_key.len(), 4032);
    let signed = dilithium::sign(&kp.secret_key, b"message").expect("sign");
    assert_ne!(signed, b"message".to_vec());
    assert!(signed.len() > b"message".len());
    assert_eq!(dilithium::verify(&kp.public_key, b"message", &signed).unwrap(), true);
    assert_eq!(verify_pqc_with_pubkey(b"message", &signed, &kp.public_key).unwrap(), true);
    // Another message, a tampered signature, another key.
    assert_eq!(dilithium::verify(&kp.public_key, b"messagE", &signed).unwrap(), false);
    let mut tampered = signed.clone();
    tampered[10] ^= 1;
    assert_eq!(dilithium::verify(&kp.public_key, b"message", &tampered).unwrap(), false);
    let other = dilithium::generate_keypair();
    assert_eq!(dilithium::verify(&other.public_key, b"message", &signed).unwrap(), false);
    assert_eq!(verify_pqc_with_pubkey(b"message", &signed, &other.public_key).unwrap(), false);
    assert_eq!(dilithium::verify(&kp.public_key, b"message", b"").unwrap(), false);
    assert_eq!(dilithium::verify(&kp.public_key, b"", b"").unwrap(), false);
}

#[test]
fn dilithium_refuses_keys_of_wrong_length() {
    let kp = dilithium::generate_keypair();
    assert_eq!(
        message_of(dilithium::sign(&kp.secret_key[1..], b"m").unwrap_err()),
        (AppErrorKind::Internal, "Dilithium secret key decode failed".to_string())
    );
    assert_eq!(
        message_of(dilithium::sign(&kp.public_key, b"m").unwrap_err()),
        (AppErrorKind::Internal, "Dilithium secret key decode failed".to_string())
    );
    let signed = dilithium::sign(&kp.secret_key, b"m").unwrap();
    assert_eq!(
        message_of(dilithium::verify(&kp.public_key[1..], b"m", &signed).unwrap_err()),
        (AppErrorKind::Internal, "Dilithium public key decode failed".to_string())
    );
    assert_eq!(
        message_of(verify_pqc_with_pubkey(b"m", &signed, &[]).unwrap_err()),
        (AppErrorKind::Internal, "Dilithium public key decode failed".to_string())
    );
}

#[test]
fn bytes_are_compared_whole() {
    assert!(bytes_equal(b"", b""));
    assert!(bytes_equal(b"abc", b"abc"));
    assert!(!bytes_equal(b"abc", b"abd"));
    assert!(!bytes_equal(b"abc", b"ab"));
    assert!(!bytes_equal(b"ab", b"abc"));
    assert!(!bytes_equal(b"xbc", b"abc"));
    assert!(text_eq("", ""));
    assert!(text_eq("émoji 🎉", "émoji 🎉"));
    assert!(!text_eq("a", "A"));
    assert!(!text_eq("a", "a "));
    assert!(!text_eq("é", "e\u{301}"));
}

#[test]
fn kyber_keypair_lengths() {
    let kp = kyber::generate_keypair();
    assert_eq!(kp.public_key.len(), 1568);
    assert_eq!(kp.secret_key.len(), 3168);
    let other = kyber::generate_keypair();
    assert_ne!(kp.public_key, other.public_key);
}

#[test]
fn aes_gcm_round_trip() {
    let key = [3u8; 32];
    let (nonce, ciphertext) = encrypt_aes_gcm(&key, b"hello-tidbit").expect("encrypt");
    assert_eq!(nonce.len(), 12);
    assert_eq!(ciphertext.len(), 12 + 16);
    assert_ne!(ciphertext[..12].to_vec(), b"hello-tidbit".to_vec());
    let cipher = aes_gcm::Aes256Gcm::new((&key).into());
    assert_eq!(cipher.encrypt(aes_gcm::Nonce::from_slice(&nonce), &b"hello-tidbit"[..]).unwrap(), ciphertext);
    assert_eq!(decrypt_aes_gcm(&key, &nonce, &ciphertext).unwrap(), b"hello-tidbit".to_vec());

    let (nonce2, ciphertext2) = encrypt_aes_gcm(&key, b"hello-tidbit").unwrap();
    assert_ne!(nonce, nonce2);
    assert_ne!(ciphertext, ciphertext2);

    let (_, empty) = encrypt_aes_gcm(&key, b"").unwrap();
    assert_eq!(empty.len(), 16);
}

#[test]
fn aes_gcm_detects_tampering() {
    let key = [3u8; 32];
    let (nonce, ciphertext) = encrypt_aes_gcm(&key, b"hello-tidbit").unwrap();
    assert_eq!(
        message_of(decrypt_aes_gcm(&[4u8; 32], &nonce, &ciphertext).unwrap_err()),
        (AppErrorKind::Crypto, "AES-GCM decrypt error".to_string())
    );
    let mut tampered = ciphertext.clone();
    tampered[0] ^= 1;
    assert!(decrypt_aes_gcm(&key, &nonce, &tampered).is_err());
    let mut other_nonce = nonce.clone();
    other_nonce[0] ^= 1;
    assert!(decrypt_aes_gcm(&key, &other_nonce, &ciphertext).is_err());
    assert!(decrypt_aes_gcm(&key, &nonce, b"").is_err());
}

#[test]
fn key_wrapping_is_not_offered() {
    assert_eq!(
        message_of(wrap_key_for_recipient(b"pk", b"key").unwrap_err()),
        (AppErrorKind::Crypto, "Key wrapping not implemented yet".to_string())
    );
    assert_eq!(
        message_of(unwrap_key_for_recipient(b"sk", b"wrapped").unwrap_err()),
        (AppErrorKind::Crypto, "Key unwrapping not implemented yet".to_string())
    );
}

#[test]
fn local_wallet_identity() {
    let w = LocalWallet::generate("any passphrase");
    assert_eq!(w.id, "local-dev-wallet");
    assert_eq!(w.actor_id(), "local-dev-wallet");
    let mine = LocalWallet { id: "mine".to_string() };
    assert_eq!(mine.actor_id(), "mine");
    assert_eq!(mine.clone().id, "mine");
    assert_eq!(LocalWallet::actor_or_default(Some(&mine)), "mine");
    assert_eq!(LocalWallet::actor_or_default(None), "local-dev-wallet");
}

#[test]
fn anchoring_is_simulated_without_a_key() {
    let client = arweave::ArweaveClient::from_env(None, None);
    let payload = arweave::file_version_payload("abc123");
    assert_eq!(payload.kind, "file_version_hash");
    assert_eq!(payload.hash_hex, "abc123");
    assert_eq!(payload.label, None);
    match client.anchor_step(&payload) {
        AnchorStep::Simulated(tx) => assert_eq!(tx, "simulated-abc123"),
        other => panic!("expected a simulated anchor, got {:?}", other),
    }
    let payload = arweave::event_payload("ff");
    assert_eq!(payload.kind, "c2c_event_hash");
    let client = arweave::ArweaveClient::from_env(Some("https://example.org".to_string()), Some("k3y".to_string()));
    match client.anchor_step(&payload) {
        AnchorStep::Post { url, api_key } => {
            assert_eq!(url, "https://example.org/tx");
            assert_eq!(api_key, "k3y");
        }
        other => panic!("expected a post, got {:?}", other),
    }
    let client = arweave::ArweaveClient::from_env(None, Some("k".to_string()));
    match client.anchor_step(&payload) {
        AnchorStep::Post { url, .. } => assert_eq!(url, "https://node2.bundlr.network/tx"),
        other => panic!("expected a post, got {:?}", other),
    }
    assert_eq!(ArweaveAnchor { tx_id: "t".to_string() }.clone().tx_id, "t");
}

#[test]
fn anchor_answers() {
    assert_eq!(arweave::ArweaveClient::anchored_id(true, "200 OK: {}", Some("tx-1")).unwrap(), "tx-1");
    assert_eq!(
        message_of(arweave::ArweaveClient::anchored_id(false, "500: boom", Some("tx-1")).unwrap_err()),
        (AppErrorKind::Internal, "Arweave HTTP 500: boom".to_string())
    );
    assert_eq!(
        message_of(arweave::ArweaveClient::anchored_id(true, "200", Some("")).unwrap_err()),
        (AppErrorKind::Internal, "Arweave response missing `id`".to_string())
    );
    assert_eq!(
        message_of(arweave::ArweaveClient::anchored_id(true, "200", None).unwrap_err()),
        (AppErrorKind::Internal, "Arweave response missing `id`".to_string())
    );
}

#[test]
fn offline_client_records_a_version() {
    assert!(clients::ArweaveClient::dev_default(None).is_none());
    let client = clients::ArweaveClient::dev_default(Some("/home/alice".to_string())).expect("home");
    assert_eq!(client.gateway_base, "https://arweave.net");
    let record = client.upload_bytes_dev("doc-1", 3, b"hello-tidbit", "/tmp/f", "wallet-b64", Some("ev".to_string()), None, 1700000000);
    let sha = hex::encode(sha2::Sha256::digest(b"hello-tidbit"));
    assert_eq!(record.document_id, "doc-1");
    assert_eq!(record.version, 3);
    assert_eq!(record.created_at, 1700000000);
    assert_eq!(record.actor_wallet_b64, "wallet-b64");
    assert_eq!(record.file.sha256_hex, sha);
    assert_eq!(record.file.size_bytes, 12);
    assert_eq!(record.file.local_path, "/tmp/f");
    assert_eq!(record.file.mime_type, None);
    assert_eq!(record.c2c_event_id.as_deref(), Some("ev"));
    let location = record.arweave.expect("location");
    assert_eq!(location.tx_id, sha);
    assert_eq!(location.gateway_url, format!("https://arweave.net/{}", sha));
}

#[test]
fn sha256_in_hex() {
    assert_eq!(clients::sha256_hex(b""), "e3b0c44298fc1c149afbf4c8996fb92427ae41e4649b934ca495991b7852b855");
    assert_eq!(clients::sha256_hex(b"abc"), "ba7816bf8f01cfea414140de5dae2223b00361a396177a9cb410ff61f20015ad");
}

#[test]
fn record_file_names() {
    assert_eq!(clients::ArweaveClient::record_file_name("doc-1", 3), b"doc-1-v3.json".to_vec());
    assert_eq!(clients::ArweaveClient::record_file_name("", 0), b"-v0.json".to_vec());
    assert_eq!(clients::ArweaveClient::record_file_name("d", u64::MAX), b"d-v18446744073709551615.json".to_vec());
}

#[test]
fn configuration_defaults() {
    let c = AppConfig::default();
    assert_eq!(c.arweave_gateway, "https://arweave.net");
    assert_eq!(c.bundlr_url, "https://node1.bundlr.network");
    let loaded = AppConfig::load_or_default(None);
    assert_eq!(loaded.arweave_gateway, "https://arweave.net");
    assert_eq!(loaded.bundlr_url, "https://node1.bundlr.network");
    let stored = AppConfig { arweave_gateway: "g".to_string(), bundlr_url: "b".to_string() };
    let loaded = AppConfig::load_or_default(Some(stored.clone()));
    assert_eq!(loaded.arweave_gateway, "g");
    assert_eq!(loaded.bundlr_url, "b");
    assert_eq!(AppConfig::path(Some("/etc".to_string())), vec!["/etc", "tidbit", "config.toml"]);
    assert_eq!(AppConfig::path(None), vec![".", "tidbit", "config.toml"]);
}

#[test]
fn address_lookup() {
    assert_eq!(ipinfo_endpoint("1.2.3.4", "tok"), "https://ipinfo.io/1.2.3.4/security?token=tok");
    let known = IpInfoSecurity { vpn: Some(true), proxy: Some(false), tor: None };
    assert_eq!(security_of(IpInfoResponse { security: Some(known) }), known);
    assert_eq!(security_of(IpInfoResponse { security: None }), IpInfoSecurity { vpn: None, proxy: None, tor: None });
}
