use base64::engine::general_purpose::URL_SAFE_NO_PAD;
use base64::Engine;
use tidbit::cli::keys::mlkem;
use tidbit::crypto::canonical::document::CanonicalDocumentV1;
use tidbit::crypto::canonical::envelope::DocumentEnvelopeV1;
use tidbit::crypto::canonical::keystore::{
    envelope_dir, envelope_file_name, envelope_path, keys_root, load_mlkem_pk, load_or_create_mlkem_keypair,
    mlkem_key_path, push_component, tidbit_dir, wallet_key_dir, KeystoreStep, MlKemKeypairFile,
};
use tidbit::text::normalize_identity;

fn home() -> Option<String> {
    Some("/home/alice".to_string())
}

#[test]
fn identities_are_trimmed_and_lowercased() {
    assert_eq!(normalize_identity("  0xABC\n"), "0xabc");
    assert_eq!(normalize_identity("0xabc"), "0xabc");
    assert_eq!(normalize_identity("\t MiXeD Case \r\n"), "mixed case");
    assert_eq!(normalize_identity("   "), "");
    assert_eq!(normalize_identity(""), "");
    assert_eq!(normalize_identity("ÄÖ"), "äö");
}

#[test]
fn keystore_paths() {
    assert_eq!(tidbit_dir(home()), vec!["/home/alice", ".tidbit"]);
    assert_eq!(tidbit_dir(None), vec![".", ".tidbit"]);
    assert_eq!(keys_root(home()), vec!["/home/alice", ".tidbit", "keys"]);
    assert_eq!(keys_root(None), vec![".", ".tidbit", "keys"]);
    assert_eq!(wallet_key_dir(home(), " 0xABC ").unwrap(), vec!["/home/alice", ".tidbit", "keys", "0xabc"]);
    assert_eq!(
        mlkem_key_path(home(), "0xAbC").unwrap(),
        vec!["/home/alice", ".tidbit", "keys", "0xabc", "mlkem768.json"]
    );
    assert_eq!(mlkem_key_path(None, "w").unwrap(), vec![".", ".tidbit", "keys", "w", "mlkem768.json"]);
}

#[test]
fn empty_identity_has_no_key_path() {
    assert_eq!(wallet_key_dir(home(), "").unwrap_err(), "wallet is empty");
    assert_eq!(wallet_key_dir(home(), "  \t ").unwrap_err(), "wallet is empty");
    assert_eq!(mlkem_key_path(home(), " ").unwrap_err(), "wallet is empty");
    assert_eq!(load_or_create_mlkem_keypair("", None).unwrap_err(), "wallet is empty");
    assert_eq!(load_mlkem_pk("  ", None).unwrap_err(), "wallet is empty");
}

#[test]
fn path_components_are_appended() {
    let mut p = vec!["a".to_string()];
    push_component(&mut p, "b".to_string());
    push_component(&mut p, "".to_string());
    assert_eq!(p, vec!["a", "b", ""]);
}

#[test]
fn envelope_paths() {
    assert_eq!(envelope_file_name("abc123"), "abc123.json");
    assert_eq!(envelope_file_name(""), ".json");
    assert_eq!(envelope_dir(home()).unwrap(), vec!["/home/alice", ".tidbit", "envelopes"]);
    assert_eq!(envelope_dir(None).unwrap_err(), "Cannot resolve home dir");
    assert_eq!(envelope_path(home(), "abc123").unwrap(), vec!["/home/alice", ".tidbit", "envelopes", "abc123.json"]);
    assert_eq!(envelope_path(None, "abc123").unwrap_err(), "Cannot resolve home dir");
}

#[test]
fn first_use_creates_a_record() {
    let step = load_or_create_mlkem_keypair("  0xABCdef ", None).expect("create");
    let record = match step {
        KeystoreStep::Created(r) => r,
        KeystoreStep::Loaded(_) => panic!("nothing was stored"),
    };
    assert_eq!(record.wallet, "0xabcdef");
    assert_eq!(record.kem, "mlkem768");
    assert_eq!(URL_SAFE_NO_PAD.decode(&record.pk_b64).unwrap().len(), 1184);
    assert_eq!(URL_SAFE_NO_PAD.decode(&record.sk_b64).unwrap().len(), 2400);
}

#[test]
fn stored_record_is_returned_unchanged() {
    let stored = MlKemKeypairFile {
        wallet: "Not-Normalized".to_string(),
        kem: "other".to_string(),
        pk_b64: "pk".to_string(),
        sk_b64: "sk".to_string(),
    };
    let step = load_or_create_mlkem_keypair("someone", Some(stored.clone())).expect("load");
    match step {
        KeystoreStep::Loaded(r) => assert_eq!(r, stored),
        KeystoreStep::Created(_) => panic!("a record was stored"),
    }
    let step = load_or_create_mlkem_keypair("someone", Some(stored.clone())).unwrap();
    assert_eq!(step.record(), stored);
}

#[test]
fn second_use_keeps_the_first_keys() {
    let first = load_or_create_mlkem_keypair("w", None).unwrap().record();
    let second = load_or_create_mlkem_keypair("w", Some(first.clone())).unwrap().record();
    assert_eq!(first, second);
    let fresh = load_or_create_mlkem_keypair("w", None).unwrap().record();
    assert_ne!(fresh.pk_b64, first.pk_b64);
}

#[test]
fn public_key_of_an_identity() {
    let stored = MlKemKeypairFile { wallet: "w".to_string(), kem: "mlkem768".to_string(), pk_b64: "PK".to_string(), sk_b64: "SK".to_string() };
    let (pk, created) = load_mlkem_pk("w", Some(stored)).unwrap();
    assert_eq!(pk, "PK");
    assert_eq!(created, None);

    let (pk, created) = load_mlkem_pk(" W ", None).unwrap();
    let created = created.expect("a new record is handed out to be stored");
    assert_eq!(created.pk_b64, pk);
    assert_eq!(created.wallet, "w");
    assert_eq!(created.kem, "mlkem768");
    assert_eq!(URL_SAFE_NO_PAD.decode(&pk).unwrap().len(), 1184);
}

#[test]
fn keystore_keys_seal_and_open_an_envelope() {
    let record = load_or_create_mlkem_keypair("0xABC", None).unwrap().record();
    let doc = CanonicalDocumentV1::from_plaintext("d".to_string(), b"hello-tidbit", None, None);
    let (env, _) = DocumentEnvelopeV1::create_mlkem_owner("0xABC".to_string(), &record.pk_b64, 5, doc, b"hello-tidbit").unwrap();
    assert_eq!(env.owner, record.wallet);
    assert_eq!(env.decrypt_for_identity("0xABC", &record.sk_b64).unwrap(), b"hello-tidbit".to_vec());
}

#[test]
fn command_line_key_file() {
    assert_eq!(
        mlkem::key_path("/home/alice".to_string(), "Wallet"),
        vec!["/home/alice", ".tidbit/keys/mlkem", "Wallet.json"]
    );
    let (file, is_new) = mlkem::load_or_create_mlkem_keys("WALLET", None);
    assert!(is_new);
    assert_eq!(file.wallet, "wallet");
    assert_eq!(URL_SAFE_NO_PAD.decode(&file.pk_b64).unwrap().len(), 1184);
    let stored = mlkem::MlKemKeypairFile { wallet: "x".to_string(), pk_b64: "p".to_string(), sk_b64: "s".to_string() };
    let (file, is_new) = mlkem::load_or_create_mlkem_keys("WALLET", Some(stored));
    assert!(!is_new);
    assert_eq!(file.wallet, "x");
    assert_eq!(file.pk_b64, "p");
    assert_eq!(file.sk_b64, "s");
}
