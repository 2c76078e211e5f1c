use e2ee_core::errors::CoreError;
use e2ee_core::ledger::RequestLedger;
use e2ee_core::requests::{AckResponse, OutgoingRequest};

fn upload_request(tag: &str) -> OutgoingRequest {
    OutgoingRequest::KeysUpload {
        device_keys: tag.to_string(),
        one_time_keys: String::new(),
        fallback_keys: String::new(),
    }
}

#[test]
fn enqueued_ids_are_fresh_and_drain_returns_all() {
    let mut l = RequestLedger::new();
    let a = l.enqueue(upload_request("a"));
    let b = l.enqueue(upload_request("b"));
    let c = l.enqueue(upload_request("c"));
    assert_ne!(a, b);
    assert_ne!(a, c);
    assert_ne!(b, c);
    assert_eq!(l.pending_count(), 3);
    let snapshot = l.drain_pending();
    assert_eq!(snapshot.len(), 3);
    assert_eq!(snapshot[0].id, a);
    assert_eq!(snapshot[1].id, b);
    assert_eq!(snapshot[2].id, c);
    // drain is a snapshot: the ledger itself is unchanged
    assert_eq!(l.pending_count(), 3);
}

#[test]
fn acknowledge_unknown_id_fails_and_changes_nothing() {
    let mut l = RequestLedger::new();
    let a = l.enqueue(upload_request("a"));
    let r = l.acknowledge(a + 17, &AckResponse::KeysUpload { one_time_key_counts: vec![] });
    assert_eq!(r.unwrap_err(), CoreError::UnknownRequest);
    assert_eq!(l.pending_count(), 1);
    let snapshot = l.drain_pending();
    assert_eq!(snapshot[0].id, a);
}

#[test]
fn acknowledge_with_wrong_shape_is_malformed() {
    let mut l = RequestLedger::new();
    let a = l.enqueue(upload_request("a"));
    let r = l.acknowledge(a, &AckResponse::ToDevice);
    assert_eq!(r.unwrap_err(), CoreError::MalformedResponse);
    assert_eq!(l.pending_count(), 1);
}

#[test]
fn acknowledge_removes_exactly_once() {
    let mut l = RequestLedger::new();
    let a = l.enqueue(upload_request("a"));
    let b = l.enqueue(upload_request("b"));
    let ok = l.acknowledge(a, &AckResponse::KeysUpload { one_time_key_counts: vec![] });
    assert!(ok.is_ok());
    assert_eq!(l.pending_count(), 1);
    assert_eq!(l.drain_pending()[0].id, b);
    // acknowledging the same identifier twice is a caller error
    let again = l.acknowledge(a, &AckResponse::KeysUpload { one_time_key_counts: vec![] });
    assert_eq!(again.unwrap_err(), CoreError::UnknownRequest);
}

#[test]
fn ids_are_not_reused_while_pending() {
    let mut l = RequestLedger::new();
    let mut seen = Vec::new();
    for i in 0..10 {
        let id = l.enqueue(upload_request(&format!("r{i}")));
        assert!(!seen.contains(&id));
        seen.push(id);
    }
    assert_eq!(l.pending_count(), 10);
}
