use vstd::prelude::*;
use crate::ids::{DeviceId, RoomId, UserId};

verus! {

/// The one-time-key algorithms a claim may ask for.
#[derive(Clone, Copy, Debug, PartialEq, Eq, Structural)]
pub enum KeyAlgorithm {
    SignedCurve25519,
    Curve25519,
}

/// The fixed preference order over key algorithms: a signed key is always
/// preferred to an unsigned one.  `preferred(a, b)` says that `a` is at
/// least as good a choice as `b`.
pub open spec fn preferred(a: KeyAlgorithm, b: KeyAlgorithm) -> bool {
    match (a, b) {
        (KeyAlgorithm::SignedCurve25519, _) => true,
        (KeyAlgorithm::Curve25519, KeyAlgorithm::Curve25519) => true,
        _ => false,
    }
}

/// The set of one-time-key algorithms a device offers.
#[derive(Clone, Copy, Debug, PartialEq, Eq, Structural)]
pub struct AlgorithmSet {
    pub signed_curve: bool,
    pub curve: bool,
}

/// Does the set offer algorithm `a`?
pub open spec fn offered(s: AlgorithmSet, a: KeyAlgorithm) -> bool {
    match a {
        KeyAlgorithm::SignedCurve25519 => s.signed_curve,
        KeyAlgorithm::Curve25519 => s.curve,
    }
}

/// The most preferred algorithm among the offered ones, or nothing when
/// none is offered.  The choice depends only on which algorithms occur, so
/// planning with it is stable across calls.
pub open spec fn spec_best_algorithm(s: AlgorithmSet) -> Option<KeyAlgorithm> {
    if s.signed_curve {
        Some(KeyAlgorithm::SignedCurve25519)
    } else if s.curve {
        Some(KeyAlgorithm::Curve25519)
    } else {
        None
    }
}

/// Selects the most preferred offered algorithm.
pub fn best_algorithm(s: AlgorithmSet) -> (r: Option<KeyAlgorithm>)
    ensures
        r == spec_best_algorithm(s),
{
    if s.signed_curve {
        Some(KeyAlgorithm::SignedCurve25519)
    } else if s.curve {
        Some(KeyAlgorithm::Curve25519)
    } else {
        None
    }
}

/// The selected algorithm is offered and at least as preferred as every
/// other offered algorithm; nothing is selected only when nothing is
/// offered.
pub proof fn lemma_best_is_most_preferred(s: AlgorithmSet)
    ensures
        spec_best_algorithm(s) matches Some(a) ==> offered(s, a) && forall|b: KeyAlgorithm|
            offered(s, b) ==> preferred(a, b),
        spec_best_algorithm(s) is None ==> forall|b: KeyAlgorithm| !offered(s, b),
{
}

/// The seven kinds of outgoing protocol request.
#[derive(Clone, Copy, Debug, PartialEq, Eq, Structural)]
pub enum RequestKind {
    KeysUpload,
    KeysQuery,
    KeysClaim,
    ToDevice,
    SignatureUpload,
    RoomMessage,
    KeysBackup,
}

/// One device whose one-time key must be claimed, and with which algorithm.
#[derive(Debug)]
pub struct ClaimEntry {
    pub user: UserId,
    pub device: DeviceId,
    pub algorithm: KeyAlgorithm,
}

impl Clone for ClaimEntry {
    fn clone(&self) -> (r: Self)
        ensures
            r == *self,
    {
        ClaimEntry {
            user: self.user.clone(),
            device: self.device.clone(),
            algorithm: self.algorithm,
        }
    }
}

/// One addressed message inside a to-device request.  The content is an
/// opaque payload produced by the cryptographic engine.
#[derive(Debug)]
pub struct ToDeviceMessage {
    pub recipient: UserId,
    pub device: DeviceId,
    pub content: String,
}

impl Clone for ToDeviceMessage {
    fn clone(&self) -> (r: Self)
        ensures
            r == *self,
    {
        ToDeviceMessage {
            recipient: self.recipient.clone(),
            device: self.device.clone(),
            content: self.content.clone(),
        }
    }
}

/// An outgoing protocol request, as a tagged union over the seven kinds.
/// Key material itself is opaque to the core: it travels in `String`
/// payloads produced by the cryptographic engine.
#[derive(Debug)]
pub enum OutgoingRequest {
    KeysUpload { device_keys: String, one_time_keys: String, fallback_keys: String },
    KeysQuery { users: Vec<UserId>, timeout_ms: u64 },
    KeysClaim { claims: Vec<ClaimEntry>, claim_timeout_ms: Option<u64> },
    ToDevice { event_type: String, messages: Vec<ToDeviceMessage> },
    SignatureUpload { signed_keys: String },
    RoomMessage { room: RoomId, event_type: String, content: String },
    KeysBackup { version: String, payload: String },
}

/// The kind of a request.
pub open spec fn req_kind(r: OutgoingRequest) -> RequestKind {
    match r {
        OutgoingRequest::KeysUpload { .. } => RequestKind::KeysUpload,
        OutgoingRequest::KeysQuery { .. } => RequestKind::KeysQuery,
        OutgoingRequest::KeysClaim { .. } => RequestKind::KeysClaim,
        OutgoingRequest::ToDevice { .. } => RequestKind::ToDevice,
        OutgoingRequest::SignatureUpload { .. } => RequestKind::SignatureUpload,
        OutgoingRequest::RoomMessage { .. } => RequestKind::RoomMessage,
        OutgoingRequest::KeysBackup { .. } => RequestKind::KeysBackup,
    }
}

/// Equality of requests up to the contents of their payloads: same kind and
/// field-for-field equal values.
pub open spec fn req_equiv(a: OutgoingRequest, b: OutgoingRequest) -> bool {
    match (a, b) {
        (
            OutgoingRequest::KeysUpload { device_keys: dk1, one_time_keys: ot1, fallback_keys: fb1 },
            OutgoingRequest::KeysUpload { device_keys: dk2, one_time_keys: ot2, fallback_keys: fb2 },
        ) => dk1@ == dk2@ && ot1@ == ot2@ && fb1@ == fb2@,
        (
            OutgoingRequest::KeysQuery { users: u1, timeout_ms: t1 },
            OutgoingRequest::KeysQuery { users: u2, timeout_ms: t2 },
        ) => u1@ == u2@ && t1 == t2,
        (
            OutgoingRequest::KeysClaim { claims: c1, claim_timeout_ms: t1 },
            OutgoingRequest::KeysClaim { claims: c2, claim_timeout_ms: t2 },
        ) => c1@ == c2@ && t1 == t2,
        (
            OutgoingRequest::ToDevice { event_type: e1, messages: m1 },
            OutgoingRequest::ToDevice { event_type: e2, messages: m2 },
        ) => e1@ == e2@ && m1@ == m2@,
        (
            OutgoingRequest::SignatureUpload { signed_keys: s1 },
            OutgoingRequest::SignatureUpload { signed_keys: s2 },
        ) => s1@ == s2@,
        (
            OutgoingRequest::RoomMessage { room: r1, event_type: e1, content: c1 },
            OutgoingRequest::RoomMessage { room: r2, event_type: e2, content: c2 },
        ) => r1 == r2 && e1@ == e2@ && c1@ == c2@,
        (
            OutgoingRequest::KeysBackup { version: v1, payload: p1 },
            OutgoingRequest::KeysBackup { version: v2, payload: p2 },
        ) => v1@ == v2@ && p1@ == p2@,
        _ => false,
    }
}

/// Duplicates a user list element for element.
pub fn clone_users(v: &Vec<UserId>) -> (r: Vec<UserId>)
    ensures
        r@ == v@,
{
    let mut r: Vec<UserId> = Vec::new();
    let mut i: usize = 0;
    while i < v.len()
        invariant
            i <= v@.len(),
            r@ == v@.subrange(0, i as int),
        decreases v@.len() - i,
    {
        r.push(v[i].clone());
        i = i + 1;
    }
    proof {
        assert(r@ =~= v@);
    }
    r
}

/// Duplicates a claim list element for element.
pub fn clone_claims(v: &Vec<ClaimEntry>) -> (r: Vec<ClaimEntry>)
    ensures
        r@ == v@,
{
    let mut r: Vec<ClaimEntry> = Vec::new();
    let mut i: usize = 0;
    while i < v.len()
        invariant
            i <= v@.len(),
            r@ == v@.subrange(0, i as int),
        decreases v@.len() - i,
    {
        r.push(v[i].clone());
        i = i + 1;
    }
    proof {
        assert(r@ =~= v@);
    }
    r
}

/// Duplicates a message list element for element.
pub fn clone_messages(v: &Vec<ToDeviceMessage>) -> (r: Vec<ToDeviceMessage>)
    ensures
        r@ == v@,
{
    let mut r: Vec<ToDeviceMessage> = Vec::new();
    let mut i: usize = 0;
    while i < v.len()
        invariant
            i <= v@.len(),
            r@ == v@.subrange(0, i as int),
        decreases v@.len() - i,
    {
        r.push(v[i].clone());
        i = i + 1;
    }
    proof {
        assert(r@ =~= v@);
    }
    r
}

impl Clone for OutgoingRequest {
    fn clone(&self) -> (r: Self)
        ensures
            req_equiv(r, *self),
    {
        match self {
            OutgoingRequest::KeysUpload { device_keys, one_time_keys, fallback_keys } => (
                OutgoingRequest::KeysUpload {
                    device_keys: device_keys.clone(),
                    one_time_keys: one_time_keys.clone(),
                    fallback_keys: fallback_keys.clone(),
                }
            ),
            OutgoingRequest::KeysQuery { users, timeout_ms } => (
                OutgoingRequest::KeysQuery { users: clone_users(users), timeout_ms: *timeout_ms }
            ),
            OutgoingRequest::KeysClaim { claims, claim_timeout_ms } => (
                OutgoingRequest::KeysClaim { claims: clone_claims(claims), claim_timeout_ms: *claim_timeout_ms }
            ),
            OutgoingRequest::ToDevice { event_type, messages } => (
                OutgoingRequest::ToDevice {
                    event_type: event_type.clone(),
                    messages: clone_messages(messages),
                }
            ),
            OutgoingRequest::SignatureUpload { signed_keys } => (
                OutgoingRequest::SignatureUpload { signed_keys: signed_keys.clone() }
            ),
            OutgoingRequest::RoomMessage { room, event_type, content } => (
                OutgoingRequest::RoomMessage {
                    room: room.clone(),
                    event_type: event_type.clone(),
                    content: content.clone(),
                }
            ),
            OutgoingRequest::KeysBackup { version, payload } => (
                OutgoingRequest::KeysBackup {
                    version: version.clone(),
                    payload: payload.clone(),
                }
            ),
        }
    }
}

impl OutgoingRequest {

    /// The serialized device keys of a keys-upload request; not applicable
    /// to any other kind.
    pub fn keys_upload_device_keys(&self) -> (r: Option<&String>)
        ensures
            (match *self {
                OutgoingRequest::KeysUpload { .. } => r is Some,
                _ => r is None,
            }),
            *self matches OutgoingRequest::KeysUpload { device_keys, .. } ==> (r matches Some(s)
                && s@ == device_keys@),
    {
        match self {
            OutgoingRequest::KeysUpload { device_keys, .. } => Some(device_keys),
            _ => None,
        }
    }

    /// The serialized one-time keys of a keys-upload request.
    pub fn keys_upload_one_time_keys(&self) -> (r: Option<&String>)
        ensures
            (match *self {
                OutgoingRequest::KeysUpload { .. } => r is Some,
                _ => r is None,
            }),
            *self matches OutgoingRequest::KeysUpload { one_time_keys, .. } ==> (r matches Some(s)
                && s@ == one_time_keys@),
    {
        match self {
            OutgoingRequest::KeysUpload { one_time_keys, .. } => Some(one_time_keys),
            _ => None,
        }
    }

    /// The serialized fallback keys of a keys-upload request.
    pub fn keys_upload_fallback_keys(&self) -> (r: Option<&String>)
        ensures
            (match *self {
                OutgoingRequest::KeysUpload { .. } => r is Some,
                _ => r is None,
            }),
            *self matches OutgoingRequest::KeysUpload { fallback_keys, .. } ==> (r matches Some(s)
                && s@ == fallback_keys@),
    {
        match self {
            OutgoingRequest::KeysUpload { fallback_keys, .. } => Some(fallback_keys),
            _ => None,
        }
    }

    /// The users whose device keys a keys-query request asks for.
    pub fn keys_query_users(&self) -> (r: Option<&Vec<UserId>>)
        ensures
            (match *self {
                OutgoingRequest::KeysQuery { .. } => r is Some,
                _ => r is None,
            }),
            *self matches OutgoingRequest::KeysQuery { users, .. } ==> (r matches Some(v) && v@
                == users@),
    {
        match self {
            OutgoingRequest::KeysQuery { users, .. } => Some(users),
            _ => None,
        }
    }

    /// The timeout of a keys-query request, in milliseconds.
    pub fn keys_query_timeout(&self) -> (r: Option<u64>)
        ensures
            r == (match *self {
                OutgoingRequest::KeysQuery { timeout_ms, .. } => Some(timeout_ms),
                _ => None::<u64>,
            }),
    {
        match self {
            OutgoingRequest::KeysQuery { timeout_ms, .. } => Some(*timeout_ms),
            _ => None,
        }
    }

    /// Which one-time key a keys-claim request claims for which device.
    pub fn keys_claim_one_time_keys(&self) -> (r: Option<&Vec<ClaimEntry>>)
        ensures
            (match *self {
                OutgoingRequest::KeysClaim { .. } => r is Some,
                _ => r is None,
            }),
            *self matches OutgoingRequest::KeysClaim { claims, .. } ==> (r matches Some(v) && v@
                == claims@),
    {
        match self {
            OutgoingRequest::KeysClaim { claims, .. } => Some(claims),
            _ => None,
        }
    }

    /// The event type of a to-device request.
    pub fn to_device_event_type(&self) -> (r: Option<&String>)
        ensures
            (match *self {
                OutgoingRequest::ToDevice { .. } => r is Some,
                _ => r is None,
            }),
            *self matches OutgoingRequest::ToDevice { event_type, .. } ==> (r matches Some(s)
                && s@ == event_type@),
    {
        match self {
            OutgoingRequest::ToDevice { event_type, .. } => Some(event_type),
            _ => None,
        }
    }

    /// The addressed messages of a to-device request.
    pub fn to_device_messages(&self) -> (r: Option<&Vec<ToDeviceMessage>>)
        ensures
            (match *self {
                OutgoingRequest::ToDevice { .. } => r is Some,
                _ => r is None,
            }),
            *self matches OutgoingRequest::ToDevice { messages, .. } ==> (r matches Some(v) && v@
                == messages@),
    {
        match self {
            OutgoingRequest::ToDevice { messages, .. } => Some(messages),
            _ => None,
        }
    }

    /// The serialized signed keys of a signature-upload request.
    pub fn upload_signature_signed_keys(&self) -> (r: Option<&String>)
        ensures
            (match *self {
                OutgoingRequest::SignatureUpload { .. } => r is Some,
                _ => r is None,
            }),
            *self matches OutgoingRequest::SignatureUpload { signed_keys } ==> (r matches Some(s)
                && s@ == signed_keys@),
    {
        match self {
            OutgoingRequest::SignatureUpload { signed_keys } => Some(signed_keys),
            _ => None,
        }
    }

    /// The room of a room-message request.
    pub fn room_msg_room_id(&self) -> (r: Option<&RoomId>)
        ensures
            (match *self {
                OutgoingRequest::RoomMessage { .. } => r is Some,
                _ => r is None,
            }),
            *self matches OutgoingRequest::RoomMessage { room, .. } ==> (r matches Some(x) && x
                == &room),
    {
        match self {
            OutgoingRequest::RoomMessage { room, .. } => Some(room),
            _ => None,
        }
    }

    /// The event type of a room-message request.
    pub fn room_msg_matrix_type(&self) -> (r: Option<&String>)
        ensures
            (match *self {
                OutgoingRequest::RoomMessage { .. } => r is Some,
                _ => r is None,
            }),
            *self matches OutgoingRequest::RoomMessage { event_type, .. } ==> (r matches Some(s)
                && s@ == event_type@),
    {
        match self {
            OutgoingRequest::RoomMessage { event_type, .. } => Some(event_type),
            _ => None,
        }
    }

    /// The serialized content of a room-message request.
    pub fn room_msg_content(&self) -> (r: Option<&String>)
        ensures
            (match *self {
                OutgoingRequest::RoomMessage { .. } => r is Some,
                _ => r is None,
            }),
            *self matches OutgoingRequest::RoomMessage { content, .. } ==> (r matches Some(s)
                && s@ == content@),
    {
        match self {
            OutgoingRequest::RoomMessage { content, .. } => Some(content),
            _ => None,
        }
    }

    /// The backup version a key-backup request writes to.
    pub fn keys_backup_version(&self) -> (r: Option<&String>)
        ensures
            (match *self {
                OutgoingRequest::KeysBackup { .. } => r is Some,
                _ => r is None,
            }),
            *self matches OutgoingRequest::KeysBackup { version, .. } ==> (r matches Some(s)
                && s@ == version@),
    {
        match self {
            OutgoingRequest::KeysBackup { version, .. } => Some(version),
            _ => None,
        }
    }

    /// The serialized payload of a key-backup request.
    pub fn keys_backup_payload(&self) -> (r: Option<&String>)
        ensures
            (match *self {
                OutgoingRequest::KeysBackup { .. } => r is Some,
                _ => r is None,
            }),
            *self matches OutgoingRequest::KeysBackup { payload, .. } ==> (r matches Some(s)
                && s@ == payload@),
    {
        match self {
            OutgoingRequest::KeysBackup { payload, .. } => Some(payload),
            _ => None,
        }
    }

    /// The kind tag of this request.
    pub fn kind(&self) -> (r: RequestKind)
        ensures
            r == req_kind(*self),
    {
        match self {
            OutgoingRequest::KeysUpload { .. } => RequestKind::KeysUpload,
            OutgoingRequest::KeysQuery { .. } => RequestKind::KeysQuery,
            OutgoingRequest::KeysClaim { .. } => RequestKind::KeysClaim,
            OutgoingRequest::ToDevice { .. } => RequestKind::ToDevice,
            OutgoingRequest::SignatureUpload { .. } => RequestKind::SignatureUpload,
            OutgoingRequest::RoomMessage { .. } => RequestKind::RoomMessage,
            OutgoingRequest::KeysBackup { .. } => RequestKind::KeysBackup,
        }
    }
}

/// One device returned by a key query: who it belongs to and which one-time
/// key algorithms it offers.
#[derive(Debug)]
pub struct QueriedDevice {
    pub user: UserId,
    pub device: DeviceId,
    pub algorithms: AlgorithmSet,
}

impl Clone for QueriedDevice {
    fn clone(&self) -> (r: Self)
        ensures
            r == *self,
    {
        QueriedDevice {
            user: self.user.clone(),
            device: self.device.clone(),
            algorithms: self.algorithms,
        }
    }
}

/// One successfully claimed one-time key.
#[derive(Debug)]
pub struct ClaimedKey {
    pub user: UserId,
    pub device: DeviceId,
}

impl Clone for ClaimedKey {
    fn clone(&self) -> (r: Self)
        ensures
            r == *self,
    {
        ClaimedKey { user: self.user.clone(), device: self.device.clone() }
    }
}

/// The typed acknowledgment payloads, one shape per request kind.  The
/// network boundary decodes a wire response into the shape of the request
/// kind it answers; handing `acknowledge` a payload of another shape is a
/// decoding mismatch.
#[derive(Debug)]
pub enum AckResponse {
    KeysUpload { one_time_key_counts: Vec<(KeyAlgorithm, u64)> },
    KeysQuery { devices: Vec<QueriedDevice>, failed_users: Vec<UserId> },
    KeysClaim { claimed: Vec<ClaimedKey>, failed_users: Vec<UserId> },
    ToDevice,
    SignatureUpload { failed_users: Vec<UserId> },
    RoomMessage { event_id: String },
    KeysBackup { etag: String, count: u64 },
}

/// The request kind a response payload answers.
pub open spec fn resp_kind(r: AckResponse) -> RequestKind {
    match r {
        AckResponse::KeysUpload { .. } => RequestKind::KeysUpload,
        AckResponse::KeysQuery { .. } => RequestKind::KeysQuery,
        AckResponse::KeysClaim { .. } => RequestKind::KeysClaim,
        AckResponse::ToDevice => RequestKind::ToDevice,
        AckResponse::SignatureUpload { .. } => RequestKind::SignatureUpload,
        AckResponse::RoomMessage { .. } => RequestKind::RoomMessage,
        AckResponse::KeysBackup { .. } => RequestKind::KeysBackup,
    }
}

impl AckResponse {
    /// The kind tag of this response payload.
    pub fn kind(&self) -> (r: RequestKind)
        ensures
            r == resp_kind(*self),
    {
        match self {
            AckResponse::KeysUpload { .. } => RequestKind::KeysUpload,
            AckResponse::KeysQuery { .. } => RequestKind::KeysQuery,
            AckResponse::KeysClaim { .. } => RequestKind::KeysClaim,
            AckResponse::ToDevice => RequestKind::ToDevice,
            AckResponse::SignatureUpload { .. } => RequestKind::SignatureUpload,
            AckResponse::RoomMessage { .. } => RequestKind::RoomMessage,
            AckResponse::KeysBackup { .. } => RequestKind::KeysBackup,
        }
    }
}

} // verus!
