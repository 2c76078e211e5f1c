use e2ee_core::errors::CoreError;
use e2ee_core::ids::{DeviceId, FlowId, RoomId, UserId};

#[test]
fn user_id_accepts_well_formed() {
    let u = UserId::parse("@alice:example.org".to_string()).unwrap();
    assert_eq!(u.as_str(), "@alice:example.org");
}

#[test]
fn user_id_rejects_malformed() {
    assert_eq!(UserId::parse("alice".to_string()).unwrap_err(), CoreError::Validation);
    assert_eq!(UserId::parse("@a".to_string()).unwrap_err(), CoreError::Validation);
    assert_eq!(UserId::parse("".to_string()).unwrap_err(), CoreError::Validation);
    assert_eq!(UserId::parse("!room:example.org".to_string()).unwrap_err(), CoreError::Validation);
    // no separator at all
    assert_eq!(UserId::parse("@aliceexample".to_string()).unwrap_err(), CoreError::Validation);
}

#[test]
fn room_id_uses_its_own_sigil() {
    assert!(RoomId::parse("!room:example.org".to_string()).is_ok());
    assert_eq!(RoomId::parse("@alice:example.org".to_string()).unwrap_err(), CoreError::Validation);
}

#[test]
fn device_id_must_be_nonempty() {
    assert!(DeviceId::parse("DEVICE".to_string()).is_ok());
    assert_eq!(DeviceId::parse("".to_string()).unwrap_err(), CoreError::Validation);
}

#[test]
fn same_as_compares_contents() {
    let a = UserId::parse("@alice:example.org".to_string()).unwrap();
    let b = UserId::parse("@alice:example.org".to_string()).unwrap();
    let c = UserId::parse("@carol:example.org".to_string()).unwrap();
    assert!(a.same_as(&b));
    assert!(!a.same_as(&c));
}

#[test]
fn flow_ids_compare_by_kind_and_value() {
    let l0 = FlowId::Local(0);
    let l1 = FlowId::Local(1);
    let r0 = FlowId::Remote("t1".to_string());
    let r1 = FlowId::Remote("t1".to_string());
    assert!(l0.same_as(&FlowId::Local(0)));
    assert!(!l0.same_as(&l1));
    assert!(r0.same_as(&r1));
    // a local flow never collides with a remote transaction id
    assert!(!l0.same_as(&r0));
    assert_eq!(l0.local_value(), Some(0));
    assert_eq!(r0.local_value(), None);
    assert_eq!(r0.remote_value(), Some("t1"));
}
