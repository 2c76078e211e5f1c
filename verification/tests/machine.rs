use e2ee_core::errors::CoreError;
use e2ee_core::ids::{DeviceId, FlowId, RoomId, UserId};
use e2ee_core::machine::{CryptoMachine, InboundEvent, SyncBatch};
use e2ee_core::requests::{
    AckResponse, AlgorithmSet, OutgoingRequest, QueriedDevice, RequestKind,
};
use e2ee_core::verification::{Emoji, RemoteEvent, SasPhase, VerificationPhase};

fn user(s: &str) -> UserId {
    UserId::parse(s.to_string()).unwrap()
}

fn device(s: &str) -> DeviceId {
    DeviceId::parse(s.to_string()).unwrap()
}

fn emoji_pair() -> Vec<Emoji> {
    vec![
        Emoji { symbol: "E1".to_string(), description: "first".to_string() },
        Emoji { symbol: "E2".to_string(), description: "second".to_string() },
    ]
}

#[test]
fn tokens_must_strictly_advance() {
    let mut m = CryptoMachine::new();
    let empty = |token| SyncBatch { token, events: vec![], changed_users: vec![], left_users: vec![] };
    m.receive_sync_changes(empty(5)).unwrap();
    // the same token again is a caller error, not silently ignored
    assert_eq!(m.receive_sync_changes(empty(5)).unwrap_err(), CoreError::Validation);
    assert_eq!(m.receive_sync_changes(empty(3)).unwrap_err(), CoreError::Validation);
    m.receive_sync_changes(empty(6)).unwrap();
}

#[test]
fn changed_device_lists_enqueue_one_query() {
    let mut m = CryptoMachine::new();
    m.receive_sync_changes(SyncBatch {
        token: 1,
        events: vec![],
        changed_users: vec![user("@a:x.org"), user("@b:x.org")],
        left_users: vec![],
    })
    .unwrap();
    let pending = m.outgoing_requests();
    assert_eq!(pending.len(), 1);
    match &pending[0].request {
        OutgoingRequest::KeysQuery { users, timeout_ms } => {
            assert_eq!(users.len(), 2);
            assert_eq!(users[0].as_str(), "@a:x.org");
            assert_eq!(users[1].as_str(), "@b:x.org");
            assert_eq!(*timeout_ms, 0);
        }
        other => panic!("expected a key query, got {:?}", other.kind()),
    }
}

#[test]
fn departed_users_lose_their_standing() {
    let mut m = CryptoMachine::new();
    m.update_watched_users(&vec![user("@a:x.org")]);
    let pending = m.outgoing_requests();
    m.acknowledge(
        pending[0].id,
        AckResponse::KeysQuery {
            devices: vec![QueriedDevice {
                user: user("@a:x.org"),
                device: device("DA"),
                algorithms: AlgorithmSet { signed_curve: true, curve: false },
            }],
            failed_users: vec![],
        },
    )
    .unwrap();
    assert!(m.get_missing_sessions(&vec![user("@a:x.org")]).is_some());
    m.receive_sync_changes(SyncBatch {
        token: 1,
        events: vec![],
        changed_users: vec![],
        left_users: vec![user("@a:x.org")],
    })
    .unwrap();
    // nothing is planned for a departed user any more
    assert!(m.get_missing_sessions(&vec![user("@a:x.org")]).is_none());
    // and watching them again enqueues a fresh query
    m.update_watched_users(&vec![user("@a:x.org")]);
    let kinds: Vec<RequestKind> = m.outgoing_requests().iter().map(|p| p.request.kind()).collect();
    assert!(kinds.iter().filter(|k| **k == RequestKind::KeysQuery).count() >= 1);
}

#[test]
fn watched_users_are_queried_once() {
    let mut m = CryptoMachine::new();
    m.update_watched_users(&vec![user("@a:x.org")]);
    assert_eq!(m.outgoing_requests().len(), 1);
    // already watched: no second query
    m.update_watched_users(&vec![user("@a:x.org")]);
    assert_eq!(m.outgoing_requests().len(), 1);
    m.update_watched_users(&vec![user("@a:x.org"), user("@b:x.org")]);
    let pending = m.outgoing_requests();
    assert_eq!(pending.len(), 2);
    match &pending[1].request {
        OutgoingRequest::KeysQuery { users, .. } => {
            assert_eq!(users.len(), 1);
            assert_eq!(users[0].as_str(), "@b:x.org");
        }
        _ => panic!("expected a key query"),
    }
}

#[test]
fn engine_requests_carry_their_kind() {
    let mut m = CryptoMachine::new();
    let id = m.enqueue_engine_request(OutgoingRequest::KeysUpload {
        device_keys: "dk".to_string(),
        one_time_keys: "otk".to_string(),
        fallback_keys: "fk".to_string(),
    });
    let id2 = m.enqueue_engine_request(OutgoingRequest::KeysBackup {
        version: "1".to_string(),
        payload: "rooms".to_string(),
    });
    assert_ne!(id, id2);
    let pending = m.outgoing_requests();
    assert_eq!(pending[0].request.kind(), RequestKind::KeysUpload);
    assert_eq!(pending[1].request.kind(), RequestKind::KeysBackup);
    assert_eq!(pending[0].request.keys_upload_device_keys().unwrap(), "dk");
    assert_eq!(pending[0].request.keys_backup_payload(), None);
    assert_eq!(pending[1].request.keys_backup_payload().unwrap(), "rooms");
    assert_eq!(pending[1].request.keys_backup_version().unwrap(), "1");
    // the upload acknowledgment feeds the engine's counters, not the planner
    m.acknowledge(
        id,
        AckResponse::KeysUpload {
            one_time_key_counts: vec![(e2ee_core::requests::KeyAlgorithm::SignedCurve25519, 50)],
        },
    )
    .unwrap();
    assert_eq!(m.outgoing_requests().len(), 1);
}

#[test]
fn device_verification_enqueues_the_first_hop() {
    let mut m = CryptoMachine::new();
    let created = m.request_device_verification(user("@bob:x.org"), device("BOBDEV"));
    assert!(created.verification_id().same_as(&FlowId::Local(0)));
    let pending = m.outgoing_requests();
    assert_eq!(pending.len(), 1);
    assert_eq!(pending[0].id, created.request_id());
    match &pending[0].request {
        OutgoingRequest::ToDevice { event_type, messages } => {
            assert_eq!(event_type, "m.key.verification.request");
            assert_eq!(messages.len(), 1);
            assert_eq!(messages[0].recipient.as_str(), "@bob:x.org");
            assert_eq!(messages[0].device.as_str(), "BOBDEV");
        }
        _ => panic!("expected a to-device request"),
    }
    // a second flow draws a fresh identifier
    let created2 = m.request_device_verification(user("@bob:x.org"), device("BOBDEV"));
    assert!(created2.verification_id().same_as(&FlowId::Local(1)));
}

#[test]
fn cancel_message_carries_the_reason_code() {
    let mut m = CryptoMachine::new();
    let _ = m.request_device_verification(user("@bob:x.org"), device("BOBDEV"));
    let f = FlowId::Local(0);
    let id = m.cancel_verification(&user("@bob:x.org"), &f).unwrap();
    let pending = m.outgoing_requests();
    let cancel = pending.iter().find(|p| p.id == id).unwrap();
    match &cancel.request {
        OutgoingRequest::ToDevice { event_type, messages } => {
            assert_eq!(event_type, "m.key.verification.cancel");
            assert_eq!(messages[0].content, "user");
        }
        _ => panic!("expected a to-device request"),
    }
}

/// The full handshake: `@u1:x.org` verifies device `D2` of `@u2:x.org`.
/// Side one drives its flow under a local identifier; side two sees the
/// inbound request under the wire transaction id.
#[test]
fn full_handshake_ends_done_on_both_sides_and_trusts_the_device() {
    let u1 = "@u1:x.org";
    let u2 = "@u2:x.org";
    let mut m1 = CryptoMachine::new();
    let mut m2 = CryptoMachine::new();

    // u1 requests verification of u2's device D2
    let created = m1.request_device_verification(user(u2), device("D2"));
    let f1 = FlowId::Local(0);
    assert!(created.verification_id().same_as(&f1));

    // u2's client sees the request in its sync stream
    let refs = m2
        .receive_sync_changes(SyncBatch {
            token: 1,
            events: vec![InboundEvent::VerificationRequest {
                sender: user(u1),
                transaction_id: "txn1".to_string(),
                device: Some(device("D1")),
            }],
            changed_users: vec![],
            left_users: vec![],
        })
        .unwrap();
    assert_eq!(refs.len(), 1);
    let f2 = FlowId::Remote("txn1".to_string());

    // the remote party responded: u1's flow moves on, and both sides accept
    m1.receive_verification_event(&user(u2), &f1, RemoteEvent::Responded).unwrap();
    m2.accept_verification(&user(u1), &f2).unwrap();
    m1.accept_verification(&user(u2), &f1).unwrap();

    // u2 starts the SAS exchange; u1 sees the start
    m2.start_sas(&user(u1), &f2).unwrap();
    m1.receive_verification_event(&user(u2), &f1, RemoteEvent::SasStarted).unwrap();

    // both sides see the acceptance and the completed key exchange
    m1.receive_verification_event(&user(u2), &f1, RemoteEvent::SasAccepted).unwrap();
    m2.receive_verification_event(&user(u1), &f2, RemoteEvent::SasAccepted).unwrap();
    m1.receive_verification_event(&user(u2), &f1, RemoteEvent::KeysExchanged(emoji_pair()))
        .unwrap();
    m2.receive_verification_event(&user(u1), &f2, RemoteEvent::KeysExchanged(emoji_pair()))
        .unwrap();

    // the artifacts agree
    let e1 = m1.sas_emoji(&user(u2), &f1).unwrap();
    let e2 = m2.sas_emoji(&user(u1), &f2).unwrap();
    assert_eq!(e1.len(), e2.len());
    assert_eq!(e1[0].symbol(), e2[0].symbol());

    // u2 confirms first: it waits for the remote confirmation
    let ids2 = m2.confirm_verification(&user(u1), &f2).unwrap();
    assert_eq!(ids2.len(), 1);
    assert_eq!(m2.sas_get_state(&user(u1), &f2), Some(SasPhase::Confirmed));

    // u1 learns of it, confirms, and completes at once
    m1.receive_verification_event(&user(u2), &f1, RemoteEvent::RemoteConfirmed).unwrap();
    let ids1 = m1.confirm_verification(&user(u2), &f1).unwrap();
    assert_eq!(ids1.len(), 2);
    assert_eq!(m1.verification_get_state(&user(u2), &f1), Some(VerificationPhase::Done));

    // u2 sees u1's confirmation and completes too
    m2.receive_verification_event(&user(u1), &f2, RemoteEvent::RemoteConfirmed).unwrap();
    assert_eq!(m2.verification_get_state(&user(u1), &f2), Some(VerificationPhase::Done));

    // a subsequent message from the verified device counts as verified
    assert!(m1.get_room_event_encryption_info(&user(u2), &device("D2")).is_verified());
    assert!(m2.get_room_event_encryption_info(&user(u1), &device("D1")).is_verified());
    // an unrelated device does not
    assert!(!m1.get_room_event_encryption_info(&user(u2), &device("OTHER")).is_verified());
}

#[test]
fn acknowledging_with_another_kinds_payload_is_malformed() {
    let mut m = CryptoMachine::new();
    let id = m.enqueue_engine_request(OutgoingRequest::SignatureUpload {
        signed_keys: "sk".to_string(),
    });
    let r = m.acknowledge(id, AckResponse::RoomMessage { event_id: "$e".to_string() });
    assert_eq!(r.unwrap_err(), CoreError::MalformedResponse);
    // the request is still pending and can be acknowledged properly
    m.acknowledge(id, AckResponse::SignatureUpload { failed_users: vec![] }).unwrap();
    assert!(m.outgoing_requests().is_empty());
}

#[test]
fn room_key_share_enqueues_one_to_device_request() {
    let mut m = CryptoMachine::new();
    m.update_watched_users(&vec![user("@a:x.org")]);
    let q = m.outgoing_requests();
    m.acknowledge(
        q[0].id,
        AckResponse::KeysQuery {
            devices: vec![QueriedDevice {
                user: user("@a:x.org"),
                device: device("DA"),
                algorithms: AlgorithmSet { signed_curve: true, curve: false },
            }],
            failed_users: vec![],
        },
    )
    .unwrap();
    let claim = m.get_missing_sessions(&vec![user("@a:x.org")]).unwrap();
    m.acknowledge(
        claim.id(),
        AckResponse::KeysClaim {
            claimed: vec![e2ee_core::requests::ClaimedKey {
                user: user("@a:x.org"),
                device: device("DA"),
            }],
            failed_users: vec![],
        },
    )
    .unwrap();
    let rm = RoomId::parse("!r:x.org".to_string()).unwrap();
    let payload = "sealed".to_string();
    let targets = m.share_room_key(&rm, &vec![user("@a:x.org")], &payload);
    assert_eq!(targets.len(), 1);
    let pending = m.outgoing_requests();
    let last = pending.last().unwrap();
    match &last.request {
        OutgoingRequest::ToDevice { event_type, messages } => {
            assert_eq!(event_type, "m.room.encrypted");
            assert_eq!(messages.len(), 1);
            assert_eq!(messages[0].recipient.as_str(), "@a:x.org");
            assert_eq!(messages[0].device.as_str(), "DA");
            assert_eq!(messages[0].content, "sealed");
        }
        _ => panic!("expected a to-device request"),
    }
}
