use e2ee_core::errors::CoreError;
use e2ee_core::ids::{DeviceId, RoomId, UserId};
use e2ee_core::machine::CryptoMachine;
use e2ee_core::requests::{
    AckResponse, AlgorithmSet, ClaimedKey, KeyAlgorithm, OutgoingRequest, QueriedDevice,
};

fn user(s: &str) -> UserId {
    UserId::parse(s.to_string()).unwrap()
}

fn device(s: &str) -> DeviceId {
    DeviceId::parse(s.to_string()).unwrap()
}

fn room(s: &str) -> RoomId {
    RoomId::parse(s.to_string()).unwrap()
}

fn both() -> AlgorithmSet {
    AlgorithmSet { signed_curve: true, curve: true }
}

/// Introduces `entries` as known devices by answering a key query.
fn introduce(m: &mut CryptoMachine, entries: Vec<(UserId, DeviceId, AlgorithmSet)>) {
    let users: Vec<UserId> = entries
        .iter()
        .map(|(u, _, _)| UserId::parse(u.as_str().to_string()).unwrap())
        .collect();
    m.update_watched_users(&users);
    let pending = m.outgoing_requests();
    let query = pending
        .iter()
        .rev()
        .find(|p| matches!(p.request, OutgoingRequest::KeysQuery { .. }))
        .expect("a key query should be pending");
    let devices: Vec<QueriedDevice> = entries
        .into_iter()
        .map(|(u, d, a)| QueriedDevice { user: u, device: d, algorithms: a })
        .collect();
    m.acknowledge(query.id, AckResponse::KeysQuery { devices, failed_users: vec![] })
        .expect("query acknowledgment should succeed");
}

#[test]
fn missing_sessions_prefers_signed_algorithm() {
    let mut m = CryptoMachine::new();
    introduce(&mut m, vec![(user("@a:x.org"), device("D1"), both())]);
    let claim = m.get_missing_sessions(&vec![user("@a:x.org")]).expect("one claim");
    assert_eq!(claim.one_time_keys().len(), 1);
    assert_eq!(claim.one_time_keys()[0].algorithm, KeyAlgorithm::SignedCurve25519);
    assert_eq!(claim.one_time_keys()[0].user.as_str(), "@a:x.org");
    assert_eq!(claim.one_time_keys()[0].device.as_str(), "D1");
    assert_eq!(claim.timeout(), 0);
}

#[test]
fn planning_is_idempotent_without_intervening_acknowledgment() {
    let mut m = CryptoMachine::new();
    introduce(
        &mut m,
        vec![
            (user("@a:x.org"), device("D1"), both()),
            (user("@b:x.org"), device("D2"), AlgorithmSet { signed_curve: false, curve: true }),
        ],
    );
    let users = vec![user("@a:x.org"), user("@b:x.org")];
    let first = m.get_missing_sessions(&users).expect("first plan");
    let second = m.get_missing_sessions(&users).expect("second plan");
    assert_eq!(first.one_time_keys().len(), second.one_time_keys().len());
    for (a, b) in first.one_time_keys().iter().zip(second.one_time_keys().iter()) {
        assert!(a.user.same_as(&b.user));
        assert!(a.device.same_as(&b.device));
        assert_eq!(a.algorithm, b.algorithm);
    }
    // the two claim requests themselves have distinct identifiers
    assert_ne!(first.id(), second.id());
}

#[test]
fn claim_acknowledgment_settles_the_missing_session() {
    let mut m = CryptoMachine::new();
    introduce(&mut m, vec![(user("@u1:x.org"), device("D1"), both())]);
    let users = vec![user("@u1:x.org")];
    let claim = m.get_missing_sessions(&users).expect("claim for D1");
    assert_eq!(claim.one_time_keys().len(), 1);
    m.acknowledge(
        claim.id(),
        AckResponse::KeysClaim {
            claimed: vec![ClaimedKey { user: user("@u1:x.org"), device: device("D1") }],
            failed_users: vec![],
        },
    )
    .expect("claim acknowledgment should succeed");
    // the session now exists: nothing is pending for D1 any more
    assert!(m.get_missing_sessions(&users).is_none());
}

#[test]
fn unknown_users_have_no_missing_sessions() {
    let mut m = CryptoMachine::new();
    assert!(m.get_missing_sessions(&vec![user("@ghost:x.org")]).is_none());
}

#[test]
fn share_room_key_does_not_resend() {
    let mut m = CryptoMachine::new();
    let a = user("@a:x.org");
    let b = user("@b:x.org");
    introduce(
        &mut m,
        vec![(user("@a:x.org"), device("DA"), both()), (user("@b:x.org"), device("DB"), both())],
    );
    // sessions must exist before a room key can be shared
    let claim = m.get_missing_sessions(&vec![user("@a:x.org"), user("@b:x.org")]).unwrap();
    m.acknowledge(
        claim.id(),
        AckResponse::KeysClaim {
            claimed: vec![
                ClaimedKey { user: user("@a:x.org"), device: device("DA") },
                ClaimedKey { user: user("@b:x.org"), device: device("DB") },
            ],
            failed_users: vec![],
        },
    )
    .unwrap();
    let rm = room("!r:x.org");
    let payload = "sealed-group-key".to_string();
    let first = m.share_room_key(&rm, &vec![a, b], &payload);
    assert_eq!(first.len(), 2);
    // the first share is treated as delivered: sharing again for a subset
    // distributes nothing
    let second = m.share_room_key(&rm, &vec![user("@a:x.org")], &payload);
    assert!(second.is_empty());
}

#[test]
fn rotation_makes_every_device_due_again() {
    let mut m = CryptoMachine::new();
    introduce(&mut m, vec![(user("@a:x.org"), device("DA"), both())]);
    let claim = m.get_missing_sessions(&vec![user("@a:x.org")]).unwrap();
    m.acknowledge(
        claim.id(),
        AckResponse::KeysClaim {
            claimed: vec![ClaimedKey { user: user("@a:x.org"), device: device("DA") }],
            failed_users: vec![],
        },
    )
    .unwrap();
    let rm = room("!r:x.org");
    let payload = "sealed-group-key".to_string();
    assert_eq!(m.share_room_key(&rm, &vec![user("@a:x.org")], &payload).len(), 1);
    assert!(m.share_room_key(&rm, &vec![user("@a:x.org")], &payload).is_empty());
    m.rotate_room_key(&rm);
    assert_eq!(m.share_room_key(&rm, &vec![user("@a:x.org")], &payload).len(), 1);
}

#[test]
fn share_targets_only_devices_with_sessions() {
    let mut m = CryptoMachine::new();
    introduce(&mut m, vec![(user("@a:x.org"), device("DA"), both())]);
    // no session established yet: nothing to share to
    let rm = room("!r:x.org");
    let payload = "sealed-group-key".to_string();
    assert!(m.share_room_key(&rm, &vec![user("@a:x.org")], &payload).is_empty());
}
