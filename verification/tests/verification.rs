use e2ee_core::errors::CoreError;
use e2ee_core::ids::{DeviceId, FlowId, UserId};
use e2ee_core::machine::{CryptoMachine, InboundEvent, SyncBatch};
use e2ee_core::verification::{
    CancelReason, Emoji, RemoteEvent, SasPhase, VerificationPhase,
};

fn user(s: &str) -> UserId {
    UserId::parse(s.to_string()).unwrap()
}

fn device(s: &str) -> DeviceId {
    DeviceId::parse(s.to_string()).unwrap()
}

fn remote_flow(s: &str) -> FlowId {
    FlowId::Remote(s.to_string())
}

fn emoji_pair() -> Vec<Emoji> {
    vec![
        Emoji { symbol: "E1".to_string(), description: "first".to_string() },
        Emoji { symbol: "E2".to_string(), description: "second".to_string() },
    ]
}

/// A machine holding one inbound verification request from `@bob:x.org`
/// under transaction id `t1`.
fn with_inbound_request() -> CryptoMachine {
    let mut m = CryptoMachine::new();
    let refs = m
        .receive_sync_changes(SyncBatch {
            token: 1,
            events: vec![InboundEvent::VerificationRequest {
                sender: user("@bob:x.org"),
                transaction_id: "t1".to_string(),
                device: Some(device("BOBDEV")),
            }],
            changed_users: vec![],
            left_users: vec![],
        })
        .unwrap();
    assert_eq!(refs.len(), 1);
    assert_eq!(refs[0].remote_user_id(), "@bob:x.org");
    m
}

#[test]
fn absent_flow_polls_as_none() {
    let m = CryptoMachine::new();
    assert!(m.verification_get_state(&user("@bob:x.org"), &remote_flow("t1")).is_none());
    assert!(m.sas_get_state(&user("@bob:x.org"), &remote_flow("t1")).is_none());
}

#[test]
fn inbound_request_starts_in_requested() {
    let m = with_inbound_request();
    assert_eq!(
        m.verification_get_state(&user("@bob:x.org"), &remote_flow("t1")),
        Some(VerificationPhase::Requested)
    );
    // the inner machine has not transitioned: polling it is routine
    assert!(m.sas_get_state(&user("@bob:x.org"), &remote_flow("t1")).is_none());
}

#[test]
fn cancelled_flow_is_terminal() {
    let mut m = CryptoMachine::new();
    let created = m.request_device_verification(user("@bob:x.org"), device("BOBDEV"));
    let f = created.verification_id();
    let u = user("@bob:x.org");
    assert_eq!(m.verification_get_state(&u, f), Some(VerificationPhase::Created));
    let f = FlowId::Local(0);
    let id = m.cancel_verification(&u, &f).unwrap();
    let _ = id;
    assert_eq!(
        m.verification_get_state(&u, &f),
        Some(VerificationPhase::Cancelled(CancelReason::User))
    );
    // no further transition is possible
    assert_eq!(m.accept_verification(&u, &f).unwrap_err(), CoreError::InvalidTransition);
    assert_eq!(m.start_sas(&u, &f).unwrap_err(), CoreError::InvalidTransition);
    assert_eq!(m.cancel_verification(&u, &f).unwrap_err(), CoreError::InvalidTransition);
    assert_eq!(
        m.receive_verification_event(&u, &f, RemoteEvent::Responded).unwrap_err(),
        CoreError::InvalidTransition
    );
    assert_eq!(
        m.verification_get_state(&u, &f),
        Some(VerificationPhase::Cancelled(CancelReason::User))
    );
}

#[test]
fn accept_then_start_sas_walks_the_outer_machine() {
    let mut m = with_inbound_request();
    let u = user("@bob:x.org");
    let f = remote_flow("t1");
    m.accept_verification(&u, &f).unwrap();
    assert_eq!(m.verification_get_state(&u, &f), Some(VerificationPhase::Ready));
    m.start_sas(&u, &f).unwrap();
    assert_eq!(
        m.verification_get_state(&u, &f),
        Some(VerificationPhase::Transitioned(SasPhase::Started))
    );
    assert_eq!(m.sas_get_state(&u, &f), Some(SasPhase::Started));
    // a flow that has already transitioned cannot start again
    assert_eq!(m.start_sas(&u, &f).unwrap_err(), CoreError::InvalidTransition);
}

#[test]
fn emoji_only_at_keys_exchanged() {
    let mut m = with_inbound_request();
    let u = user("@bob:x.org");
    let f = remote_flow("t1");
    m.accept_verification(&u, &f).unwrap();
    m.start_sas(&u, &f).unwrap();
    // at Started the artifact is not derivable yet: loud failure, not an
    // empty list
    assert_eq!(m.sas_emoji(&u, &f).unwrap_err(), CoreError::InvalidTransition);
    m.receive_verification_event(&u, &f, RemoteEvent::SasAccepted).unwrap();
    assert_eq!(m.sas_emoji(&u, &f).unwrap_err(), CoreError::InvalidTransition);
    m.receive_verification_event(&u, &f, RemoteEvent::KeysExchanged(emoji_pair())).unwrap();
    assert_eq!(m.sas_get_state(&u, &f), Some(SasPhase::KeysExchanged));
    let shown = m.sas_emoji(&u, &f).unwrap();
    assert_eq!(shown.len(), 2);
    assert_eq!(shown[0].symbol(), "E1");
    assert_eq!(shown[0].description(), "first");
    assert_eq!(shown[1].symbol(), "E2");
    // an absent flow is the routine distinct case
    assert_eq!(
        m.sas_emoji(&u, &remote_flow("other")).unwrap_err(),
        CoreError::UnknownSession
    );
}

#[test]
fn confirm_before_keys_exchanged_is_invalid() {
    let mut m = with_inbound_request();
    let u = user("@bob:x.org");
    let f = remote_flow("t1");
    m.accept_verification(&u, &f).unwrap();
    m.start_sas(&u, &f).unwrap();
    assert_eq!(m.confirm_verification(&u, &f).unwrap_err(), CoreError::InvalidTransition);
}

#[test]
fn accept_sas_reenters_the_exchange() {
    let mut m = with_inbound_request();
    let u = user("@bob:x.org");
    let f = remote_flow("t1");
    m.accept_verification(&u, &f).unwrap();
    m.start_sas(&u, &f).unwrap();
    m.receive_verification_event(&u, &f, RemoteEvent::SasAccepted).unwrap();
    m.receive_verification_event(&u, &f, RemoteEvent::KeysExchanged(emoji_pair())).unwrap();
    m.accept_sas(&u, &f).unwrap();
    assert_eq!(m.sas_get_state(&u, &f), Some(SasPhase::Accepted));
}

#[test]
fn remote_cancellation_is_terminal_with_its_reason() {
    let mut m = with_inbound_request();
    let u = user("@bob:x.org");
    let f = remote_flow("t1");
    m.receive_verification_event(&u, &f, RemoteEvent::RemoteCancelled(CancelReason::Timeout))
        .unwrap();
    assert_eq!(
        m.verification_get_state(&u, &f),
        Some(VerificationPhase::Cancelled(CancelReason::Timeout))
    );
    assert_eq!(m.accept_verification(&u, &f).unwrap_err(), CoreError::InvalidTransition);
}

#[test]
fn cancel_reason_codes() {
    assert_eq!(CancelReason::User.code(), "user");
    assert_eq!(CancelReason::Mismatch.code(), "mismatch");
    assert_eq!(CancelReason::Timeout.code(), "timeout");
    assert_eq!(CancelReason::UnexpectedMessage.code(), "unexpected_message");
    assert_eq!(CancelReason::UnknownTransaction.code(), "unknown_transaction");
}

#[test]
fn operations_on_absent_flows_are_unknown() {
    let mut m = CryptoMachine::new();
    let u = user("@bob:x.org");
    let f = remote_flow("nope");
    assert_eq!(m.accept_verification(&u, &f).unwrap_err(), CoreError::UnknownSession);
    assert_eq!(m.start_sas(&u, &f).unwrap_err(), CoreError::UnknownSession);
    assert_eq!(m.accept_sas(&u, &f).unwrap_err(), CoreError::UnknownSession);
    assert_eq!(m.confirm_verification(&u, &f).unwrap_err(), CoreError::UnknownSession);
    assert_eq!(m.cancel_verification(&u, &f).unwrap_err(), CoreError::UnknownSession);
}

#[test]
fn seeing_the_same_inbound_request_again_does_not_reset_the_flow() {
    let mut m = with_inbound_request();
    let u = user("@bob:x.org");
    let f = remote_flow("t1");
    m.accept_verification(&u, &f).unwrap();
    assert_eq!(m.verification_get_state(&u, &f), Some(VerificationPhase::Ready));
    let refs = m
        .receive_sync_changes(SyncBatch {
            token: 2,
            events: vec![InboundEvent::VerificationRequest {
                sender: user("@bob:x.org"),
                transaction_id: "t1".to_string(),
                device: Some(device("BOBDEV")),
            }],
            changed_users: vec![],
            left_users: vec![],
        })
        .unwrap();
    assert_eq!(refs.len(), 1);
    // still Ready, not reset to Requested
    assert_eq!(m.verification_get_state(&u, &f), Some(VerificationPhase::Ready));
}

#[test]
fn request_user_verification_validates_the_event_id() {
    let mut m = CryptoMachine::new();
    let rm = e2ee_core::ids::RoomId::parse("!r:x.org".to_string()).unwrap();
    let content = "request-content".to_string();
    let bad = m.request_user_verification(user("@bob:x.org"), &rm, "no-sigil".to_string(), &content);
    assert_eq!(bad.unwrap_err(), CoreError::Validation);
    let ok = m
        .request_user_verification(user("@bob:x.org"), &rm, "$evt1".to_string(), &content)
        .unwrap();
    assert_eq!(ok.remote_user_id(), "@bob:x.org");
    assert_eq!(
        m.verification_get_state(&user("@bob:x.org"), &remote_flow("$evt1")),
        Some(VerificationPhase::Created)
    );
    // the same request event id cannot open a second flow
    let again =
        m.request_user_verification(user("@bob:x.org"), &rm, "$evt1".to_string(), &content);
    assert_eq!(again.unwrap_err(), CoreError::Validation);
}
