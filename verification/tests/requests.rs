use e2ee_core::ids::{DeviceId, RoomId, UserId};
use e2ee_core::requests::{
    best_algorithm, AlgorithmSet, ClaimEntry, KeyAlgorithm, OutgoingRequest, RequestKind,
    ToDeviceMessage,
};

fn user(s: &str) -> UserId {
    UserId::parse(s.to_string()).unwrap()
}

fn device(s: &str) -> DeviceId {
    DeviceId::parse(s.to_string()).unwrap()
}

#[test]
fn accessors_answer_only_on_their_own_kind() {
    let upload = OutgoingRequest::KeysUpload {
        device_keys: "dk".to_string(),
        one_time_keys: "otk".to_string(),
        fallback_keys: "fk".to_string(),
    };
    assert_eq!(upload.kind(), RequestKind::KeysUpload);
    assert_eq!(upload.keys_upload_device_keys().unwrap(), "dk");
    assert_eq!(upload.keys_upload_one_time_keys().unwrap(), "otk");
    assert_eq!(upload.keys_upload_fallback_keys().unwrap(), "fk");
    // the wrong variant is an explicit not-applicable, not a silent default
    assert!(upload.keys_query_users().is_none());
    assert!(upload.keys_query_timeout().is_none());
    assert!(upload.to_device_event_type().is_none());
    assert!(upload.room_msg_room_id().is_none());

    let query = OutgoingRequest::KeysQuery { users: vec![user("@a:x.org")], timeout_ms: 7 };
    assert_eq!(query.kind(), RequestKind::KeysQuery);
    assert_eq!(query.keys_query_timeout(), Some(7));
    assert_eq!(query.keys_query_users().unwrap()[0].as_str(), "@a:x.org");
    assert!(query.keys_upload_device_keys().is_none());

    let claim = OutgoingRequest::KeysClaim {
        claims: vec![ClaimEntry {
            user: user("@a:x.org"),
            device: device("D1"),
            algorithm: KeyAlgorithm::SignedCurve25519,
        }],
        claim_timeout_ms: Some(10_000),
    };
    assert_eq!(claim.kind(), RequestKind::KeysClaim);
    let entries = claim.keys_claim_one_time_keys().unwrap();
    assert_eq!(entries[0].device.as_str(), "D1");
    assert_eq!(entries[0].algorithm, KeyAlgorithm::SignedCurve25519);

    let td = OutgoingRequest::ToDevice {
        event_type: "m.room.encrypted".to_string(),
        messages: vec![ToDeviceMessage {
            recipient: user("@a:x.org"),
            device: device("D1"),
            content: "c".to_string(),
        }],
    };
    assert_eq!(td.kind(), RequestKind::ToDevice);
    assert_eq!(td.to_device_event_type().unwrap(), "m.room.encrypted");
    assert_eq!(td.to_device_messages().unwrap()[0].content, "c");

    let sig = OutgoingRequest::SignatureUpload { signed_keys: "sk".to_string() };
    assert_eq!(sig.kind(), RequestKind::SignatureUpload);
    assert_eq!(sig.upload_signature_signed_keys().unwrap(), "sk");

    let msg = OutgoingRequest::RoomMessage {
        room: RoomId::parse("!r:x.org".to_string()).unwrap(),
        event_type: "m.room.message".to_string(),
        content: "{}".to_string(),
    };
    assert_eq!(msg.kind(), RequestKind::RoomMessage);
    assert_eq!(msg.room_msg_room_id().unwrap().as_str(), "!r:x.org");
    assert_eq!(msg.room_msg_matrix_type().unwrap(), "m.room.message");
    assert_eq!(msg.room_msg_content().unwrap(), "{}");

    let backup = OutgoingRequest::KeysBackup { version: "2".to_string(), payload: "p".to_string() };
    assert_eq!(backup.kind(), RequestKind::KeysBackup);
    assert_eq!(backup.keys_backup_version().unwrap(), "2");
    assert_eq!(backup.keys_backup_payload().unwrap(), "p");
}

#[test]
fn best_algorithm_follows_the_fixed_preference() {
    assert_eq!(
        best_algorithm(AlgorithmSet { signed_curve: true, curve: true }),
        Some(KeyAlgorithm::SignedCurve25519)
    );
    assert_eq!(
        best_algorithm(AlgorithmSet { signed_curve: false, curve: true }),
        Some(KeyAlgorithm::Curve25519)
    );
    assert_eq!(best_algorithm(AlgorithmSet { signed_curve: false, curve: false }), None);
}
