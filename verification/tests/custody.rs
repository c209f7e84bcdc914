use tidbit::arweave::ArweaveAnchor;
use tidbit::c2c::event::{doc_event, new_doc_event};
use tidbit::c2c::filetrail::{file_version, load_history, next_version, record_file_version, FileAction, FileVersionRecord};
use tidbit::c2c::order::stable_order;
use tidbit::c2c::record::{record_sign_event, record_upload_event};
use tidbit::c2c::store::{event_path, events_dir, load_all_events};
use tidbit::c2c::types::{C2CEvent, C2CEventKind, EventPayload};
use tidbit::c2c::verify::verify_event;
use tidbit::error::AppError;

fn record(doc: &str, version: u64, hash: &str) -> FileVersionRecord {
    FileVersionRecord {
        id: format!("{}-{}", doc, version),
        logical_doc_id: doc.to_string(),
        version,
        action: FileAction::Uploaded,
        parent_hash: None,
        path: "/tmp/f".to_string(),
        sha256_hex: hash.to_string(),
        c2c_event_id: "ev".to_string(),
        arweave_tx_id: None,
        timestamp: 0,
    }
}

fn event(id: &str, timestamp: u64) -> C2CEvent {
    C2CEvent {
        id: id.to_string(),
        timestamp,
        actor_wallet: "actor".to_string(),
        kind: C2CEventKind::DocumentUploaded,
        payload: EventPayload { doc_hash: "h".to_string(), arweave_tx: None, metadata: None },
        signature_b64: None,
    }
}

fn bad_request(r: Result<(), AppError>) -> String {
    match r {
        Err(AppError::BadRequest(m)) => m,
        other => panic!("expected a bad request, got {:?}", other),
    }
}

#[test]
fn stable_order_sorts_by_key_and_keeps_ties() {
    assert_eq!(stable_order(&[]), Vec::<usize>::new());
    assert_eq!(stable_order(&[5]), vec![0]);
    assert_eq!(stable_order(&[3, 1, 2]), vec![1, 2, 0]);
    assert_eq!(stable_order(&[1, 2, 3]), vec![0, 1, 2]);
    assert_eq!(stable_order(&[3, 2, 1]), vec![2, 1, 0]);
    assert_eq!(stable_order(&[2, 1, 2, 1, 2]), vec![1, 3, 0, 2, 4]);
    assert_eq!(stable_order(&[7, 7, 7]), vec![0, 1, 2]);
    assert_eq!(stable_order(&[u64::MAX, 0, u64::MAX, 0]), vec![1, 3, 0, 2]);
}

#[test]
fn stable_order_agrees_with_a_stable_sort() {
    let keys: Vec<u64> = (0..200u64).map(|i| (i * 7919 + 13) % 17).collect();
    let mut expected: Vec<usize> = (0..keys.len()).collect();
    expected.sort_by_key(|&i| keys[i]);
    assert_eq!(stable_order(&keys), expected);
}

#[test]
fn first_version_has_no_parent() {
    assert_eq!(next_version(&[]), (1, None));
}

#[test]
fn next_version_follows_the_last() {
    let history = vec![record("d", 1, "h1"), record("d", 2, "h2")];
    assert_eq!(next_version(&history), (3, Some("h2".to_string())));
    let history = vec![record("d", 9, "h9"), record("d", 4, "h4")];
    assert_eq!(next_version(&history), (5, Some("h4".to_string())));
    let history = vec![record("d", u64::MAX, "last")];
    assert_eq!(next_version(&history), (u64::MAX, Some("last".to_string())));
}

#[test]
fn file_version_continues_the_history() {
    let history = vec![record("doc", 1, "h1")];
    let ev = event("event-7", 1);
    let anchor = ArweaveAnchor { tx_id: "tx-1".to_string() };
    let r = file_version(&history, "rec-id".to_string(), 1234, "doc", FileAction::Updated, "/data/f.bin", "h2", &ev, Some(&anchor));
    assert_eq!(r.id, "rec-id");
    assert_eq!(r.timestamp, 1234);
    assert_eq!(r.logical_doc_id, "doc");
    assert_eq!(r.version, 2);
    assert_eq!(r.action, FileAction::Updated);
    assert_eq!(r.parent_hash.as_deref(), Some("h1"));
    assert_eq!(r.path, "/data/f.bin");
    assert_eq!(r.sha256_hex, "h2");
    assert_eq!(r.c2c_event_id, "event-7");
    assert_eq!(r.arweave_tx_id.as_deref(), Some("tx-1"));

    let first = file_version(&[], "id".to_string(), -5, "doc", FileAction::Shared, "p", "h", &ev, None);
    assert_eq!(first.version, 1);
    assert_eq!(first.parent_hash, None);
    assert_eq!(first.arweave_tx_id, None);
    assert_eq!(first.timestamp, -5);
    assert_eq!(first.action, FileAction::Shared);
}

#[test]
fn recorded_file_version_gets_a_fresh_id_and_the_time() {
    let ev = event("event-7", 1);
    let a = record_file_version(&[], "doc", FileAction::Downloaded, "p", "h", &ev, None);
    let b = record_file_version(&[], "doc", FileAction::Downloaded, "p", "h", &ev, None);
    assert_eq!(a.id.len(), 36);
    assert_ne!(a.id, b.id);
    assert!(a.timestamp > 1_600_000_000);
    assert_eq!(a.version, 1);
    assert_eq!(a.action, FileAction::Downloaded);
    assert_eq!(a.c2c_event_id, "event-7");
}

#[test]
fn history_is_one_documents_records_by_version() {
    let records = vec![
        record("a", 3, "a3"),
        record("b", 1, "b1"),
        record("a", 1, "a1"),
        record("a", 2, "a2-first"),
        record("b", 2, "b2"),
        record("a", 2, "a2-second"),
    ];
    let hashes = |h: &Vec<FileVersionRecord>| h.iter().map(|r| r.sha256_hex.clone()).collect::<Vec<String>>();
    assert_eq!(hashes(&load_history(&records, "a")), vec!["a1", "a2-first", "a2-second", "a3"]);
    assert_eq!(hashes(&load_history(&records, "b")), vec!["b1", "b2"]);
    assert!(load_history(&records, "c").is_empty());
    assert!(load_history(&records, "A").is_empty());
    assert!(load_history(&[], "a").is_empty());
    let copy = records[0].clone();
    assert_eq!(copy.id, records[0].id);
    assert_eq!(copy.version, 3);
}

#[test]
fn history_continues_with_the_next_version() {
    let records = vec![record("a", 2, "a2"), record("a", 1, "a1"), record("b", 7, "b7")];
    let history = load_history(&records, "a");
    assert_eq!(next_version(&history), (3, Some("a2".to_string())));
}

#[test]
fn events_are_listed_most_recent_first() {
    let events = vec![event("e1", 10), event("e2", 30), event("e3", 20), event("e4", 30), event("e5", 10)];
    let ids: Vec<String> = load_all_events(&events).iter().map(|e| e.id.clone()).collect();
    // A stable sort by time, reversed: later ones of equal time come first.
    assert_eq!(ids, vec!["e4", "e2", "e3", "e5", "e1"]);
    assert!(load_all_events(&[]).is_empty());
    assert_eq!(load_all_events(&[event("only", 1)])[0].id, "only");
}

#[test]
fn event_paths() {
    assert_eq!(events_dir(Some("/h".to_string())), vec!["/h", ".tidbit", "c2c_events"]);
    assert_eq!(events_dir(None), vec![".", ".tidbit", "c2c_events"]);
    assert_eq!(event_path(Some("/h".to_string()), "abc"), vec!["/h", ".tidbit", "c2c_events", "abc.json"]);
    assert_eq!(event_path(None, ""), vec![".", ".tidbit", "c2c_events", ".json"]);
}

#[test]
fn event_for_a_document() {
    let ev = doc_event(
        "id-1".to_string(),
        1700000000,
        "0xabc".to_string(),
        C2CEventKind::DocumentSigned,
        "hash".to_string(),
        Some("tx".to_string()),
        Some("{\"k\":1}".to_string()),
    );
    assert_eq!(ev.id, "id-1");
    assert_eq!(ev.timestamp, 1700000000);
    assert_eq!(ev.actor_wallet, "0xabc");
    assert_eq!(ev.kind, C2CEventKind::DocumentSigned);
    assert_eq!(ev.payload.doc_hash, "hash");
    assert_eq!(ev.payload.arweave_tx.as_deref(), Some("tx"));
    assert_eq!(ev.payload.metadata.as_deref(), Some("{\"k\":1}"));
    assert_eq!(ev.signature_b64, None);
    let before_epoch = doc_event("i".to_string(), -1, "a".to_string(), C2CEventKind::DocumentUpdated, "h".to_string(), None, None);
    assert_eq!(before_epoch.timestamp, 0);
    let at_epoch = doc_event("i".to_string(), 0, "a".to_string(), C2CEventKind::DocumentDownloaded, "h".to_string(), None, None);
    assert_eq!(at_epoch.timestamp, 0);
    assert_eq!(at_epoch.kind, C2CEventKind::DocumentDownloaded);
}

#[test]
fn new_events_are_fresh_and_timed() {
    let a = new_doc_event("w".to_string(), C2CEventKind::DocumentUpdated, "h".to_string(), None, None);
    let b = new_doc_event("w".to_string(), C2CEventKind::DocumentUpdated, "h".to_string(), None, None);
    assert_eq!(a.id.len(), 36);
    assert_ne!(a.id, b.id);
    assert!(a.timestamp > 1_600_000_000);
    assert_eq!(a.kind, C2CEventKind::DocumentUpdated);

    let up = record_upload_event("w".to_string(), "h".to_string(), Some("tx".to_string()));
    assert_eq!(up.kind, C2CEventKind::DocumentUploaded);
    assert_eq!(up.actor_wallet, "w");
    assert_eq!(up.payload.doc_hash, "h");
    assert_eq!(up.payload.arweave_tx.as_deref(), Some("tx"));
    assert_eq!(up.payload.metadata, None);
    let signed = record_sign_event("w".to_string(), "h".to_string());
    assert_eq!(signed.kind, C2CEventKind::DocumentSigned);
    assert_eq!(signed.payload.arweave_tx, None);
    assert_eq!(signed.signature_b64, None);
}

#[test]
fn event_is_anchored_without_its_signature() {
    let mut ev = event("e", 5);
    ev.signature_b64 = Some("sig".to_string());
    ev.payload.arweave_tx = Some("tx".to_string());
    let bare = ev.without_signature();
    assert_eq!(bare.signature_b64, None);
    assert_eq!(bare.id, "e");
    assert_eq!(bare.timestamp, 5);
    assert_eq!(bare.actor_wallet, "actor");
    assert_eq!(bare.payload.arweave_tx.as_deref(), Some("tx"));
    assert_eq!(ev.signature_b64.as_deref(), Some("sig"));
}

#[test]
fn event_needs_an_actor_and_a_signature() {
    let mut ev = event("e", 5);
    assert_eq!(bad_request(verify_event(&ev)), "Event is missing signature");
    ev.signature_b64 = Some(String::new());
    assert!(verify_event(&ev).is_ok());
    ev.actor_wallet = "  \n".to_string();
    assert_eq!(bad_request(verify_event(&ev)), "Missing actor wallet identifier");
    ev.signature_b64 = None;
    assert_eq!(bad_request(verify_event(&ev)), "Missing actor wallet identifier");
    ev.actor_wallet = " a ".to_string();
    ev.signature_b64 = Some("sig".to_string());
    assert!(verify_event(&ev).is_ok());
}
