use vstd::prelude::*;
use vstd::string::StringExecFns;
use crate::directory::{
    epoch_of, has_room, spec_add_watched, spec_clear_user, spec_fresh_watched, spec_is_verified,
    spec_mark_verified, spec_missing_plan, spec_record_device, spec_set_session, spec_share_plan,
    spec_users_without, DeviceRecord, RoomMeta, SessionDirectory, SharedRecord,
};
use crate::errors::CoreError;
use crate::ids::{check_event_id, valid_event_id, DeviceId, FlowId, RoomId, UserId};
use crate::ledger::{contains_id, PendingRequest, RequestLedger};
use crate::requests::{
    clone_claims, req_kind, resp_kind, AckResponse, ClaimEntry, ClaimedKey, OutgoingRequest,
    QueriedDevice, ToDeviceMessage,
};
use crate::verification::{
    emoji_view, flow_idx, has_flow, spec_create_remote, spec_phase_of, step_accept,
    step_accept_sas, step_cancel, step_confirm, step_remote, step_start_sas, CancelReason, Emoji,
    RemoteEvent, SasPhase, VerificationManager, VerificationPhase, VerificationSession,
};

verus! {

/// Folding a key-query acknowledgment into the device records, one queried
/// device at a time.
pub open spec fn spec_apply_queried(devs: Seq<DeviceRecord>, qs: Seq<QueriedDevice>) -> Seq<
    DeviceRecord,
>
    decreases qs.len(),
{
    if qs.len() == 0 {
        devs
    } else {
        spec_record_device(spec_apply_queried(devs, qs.drop_last()), qs.last())
    }
}

/// Folding a key-claim acknowledgment into the device records: every
/// successfully claimed device gains a session.
pub open spec fn spec_apply_claimed(devs: Seq<DeviceRecord>, cs: Seq<ClaimedKey>) -> Seq<
    DeviceRecord,
>
    decreases cs.len(),
{
    if cs.len() == 0 {
        devs
    } else {
        let prev = spec_apply_claimed(devs, cs.drop_last());
        spec_set_session(prev, cs.last().user@, cs.last().device@)
    }
}

/// What an acknowledgment does to the device records, by response kind.
/// Only key queries and key claims move the planner's model; every other
/// kind is pure engine bookkeeping outside this core.
pub open spec fn spec_apply_ack(devs: Seq<DeviceRecord>, resp: AckResponse) -> Seq<DeviceRecord> {
    match resp {
        AckResponse::KeysQuery { devices: qs, .. } => spec_apply_queried(devs, qs@),
        AckResponse::KeysClaim { claimed, .. } => spec_apply_claimed(devs, claimed@),
        _ => devs,
    }
}


/// One inbound to-device event, already decrypted and validated by the
/// cryptographic engine at the boundary.
pub enum InboundEvent {
    /// A verification request from `sender`, under the remote party's own
    /// transaction id.
    VerificationRequest { sender: UserId, transaction_id: String, device: Option<DeviceId> },
    /// Any other to-device event: the engine has consumed it for session
    /// bootstrapping; the core does not act on it.
    Other { event_type: String },
}

/// A handle to one verification flow.
#[derive(Debug)]
pub struct SessionRef {
    pub user: UserId,
    pub flow: FlowId,
}

impl SessionRef {
    pub fn remote_user_id(&self) -> (r: &str)
        ensures
            r@ == self.user@,
    {
        self.user.as_str()
    }

    pub fn verification_id(&self) -> (r: &FlowId)
        ensures
            r == &self.flow,
    {
        &self.flow
    }
}

impl Clone for SessionRef {
    fn clone(&self) -> (r: Self)
        ensures
            r == *self,
    {
        SessionRef { user: self.user.clone(), flow: self.flow.clone() }
    }
}

/// One batch of sync changes, under a strictly advancing continuation
/// token.  One-time-key counters and the raw event payloads stay with the
/// engine at the boundary; the core receives only what it acts on.
pub struct SyncBatch {
    pub token: u64,
    pub events: Vec<InboundEvent>,
    pub changed_users: Vec<UserId>,
    pub left_users: Vec<UserId>,
}

/// Clearing every departed user out of the device records, in batch order.
pub open spec fn spec_clear_left(devs: Seq<DeviceRecord>, left: Seq<UserId>) -> Seq<DeviceRecord>
    decreases left.len(),
{
    if left.len() == 0 {
        devs
    } else {
        spec_clear_user(spec_clear_left(devs, left.drop_last()), left.last()@)
    }
}

/// Unwatching every departed user, in batch order.
pub open spec fn spec_unwatch_left(w: Seq<UserId>, left: Seq<UserId>) -> Seq<UserId>
    decreases left.len(),
{
    if left.len() == 0 {
        w
    } else {
        spec_users_without(spec_unwatch_left(w, left.drop_last()), left.last()@)
    }
}

/// Resolving the verification requests of a batch into flows, in event
/// order; other events leave the flows alone.
pub open spec fn spec_absorb_events(ss: Seq<VerificationSession>, evs: Seq<InboundEvent>) -> Seq<
    VerificationSession,
>
    decreases evs.len(),
{
    if evs.len() == 0 {
        ss
    } else {
        let prev = spec_absorb_events(ss, evs.drop_last());
        match evs.last() {
            InboundEvent::VerificationRequest { sender, transaction_id, device } => (
                spec_create_remote(prev, sender, FlowId::Remote(transaction_id), device)
            ),
            InboundEvent::Other { .. } => prev,
        }
    }
}

/// The handles surfaced for the verification requests of a batch, in
/// event order.
pub open spec fn spec_event_refs(evs: Seq<InboundEvent>) -> Seq<SessionRef>
    decreases evs.len(),
{
    if evs.len() == 0 {
        Seq::empty()
    } else {
        let prev = spec_event_refs(evs.drop_last());
        match evs.last() {
            InboundEvent::VerificationRequest { sender, transaction_id, .. } => prev.push(
                (SessionRef { user: sender, flow: FlowId::Remote(transaction_id) }),
            ),
            InboundEvent::Other { .. } => prev,
        }
    }
}

/// One to-device message per share target, each carrying the engine's key
/// payload (the engine re-encrypts it per device at the boundary).
pub open spec fn spec_share_messages(plan: Seq<SharedRecord>, content: String) -> Seq<
    ToDeviceMessage,
> {
    Seq::new(
        plan.len(),
        |i: int|
            ToDeviceMessage { recipient: plan[i].user, device: plan[i].device, content },
    )
}

/// Duplicates an optional device id.
fn clone_opt_device(d: &Option<DeviceId>) -> (r: Option<DeviceId>)
    ensures
        r == *d,
{
    match d {
        Some(x) => Some(x.clone()),
        None => None,
    }
}

/// The engine-facing description of one consolidated key-claim request.
pub struct KeysClaimRequest {
    pub id: u64,
    pub claim_timeout_ms: Option<u64>,
    pub claims: Vec<ClaimEntry>,
}

impl KeysClaimRequest {
    pub fn id(&self) -> (r: u64)
        ensures
            r == self.id,
    {
        self.id
    }

    /// The timeout in milliseconds, zero when none was set.
    pub fn timeout(&self) -> (r: u64)
        ensures
            r == (match self.claim_timeout_ms {
                Some(t) => t,
                None => 0u64,
            }),
    {
        match self.claim_timeout_ms {
            Some(t) => t,
            None => 0,
        }
    }

    /// Which one-time key must be claimed for which device.
    pub fn one_time_keys(&self) -> (r: &Vec<ClaimEntry>)
        ensures
            r == &self.claims,
    {
        &self.claims
    }
}


/// The outcome of creating a device verification flow: the flow handle
/// and the identifier of the first outgoing request.
pub struct CreatedSession {
    pub flow: FlowId,
    pub request_id: u64,
}

impl CreatedSession {
    pub fn verification_id(&self) -> (r: &FlowId)
        ensures
            r == &self.flow,
    {
        &self.flow
    }

    pub fn request_id(&self) -> (r: u64)
        ensures
            r == self.request_id,
    {
        self.request_id
    }
}

/// The verdict attached to a decrypted room event: whether the sending
/// device was interactively verified at decryption time.  Derived,
/// read-only.
pub struct EncryptionInfo {
    pub verified: bool,
}

impl EncryptionInfo {
    pub fn is_verified(&self) -> (r: bool)
        ensures
            r == self.verified,
    {
        self.verified
    }
}

/// The orchestration core: the request ledger, the planner's directory,
/// the verification flows, and the last sync continuation token.
///
/// All mutating calls must be externally serialized by the caller; no
/// operation here blocks, and none is retried internally.
pub struct CryptoMachine {
    ledger: RequestLedger,
    directory: SessionDirectory,
    verifications: VerificationManager,
    last_token: Option<u64>,
}

impl CryptoMachine {
    pub closed spec fn pending(&self) -> Seq<PendingRequest> {
        self.ledger@
    }

    pub closed spec fn ledger_next(&self) -> u64 {
        self.ledger.spec_next()
    }

    pub closed spec fn devices(&self) -> Seq<DeviceRecord> {
        self.directory.dev_seq()
    }

    pub closed spec fn rooms(&self) -> Seq<RoomMeta> {
        self.directory.room_seq()
    }

    pub closed spec fn shared(&self) -> Seq<SharedRecord> {
        self.directory.shared_seq()
    }

    pub closed spec fn watched(&self) -> Seq<UserId> {
        self.directory.watched_seq()
    }

    pub closed spec fn flows(&self) -> Seq<VerificationSession> {
        self.verifications.flows()
    }

    pub closed spec fn next_local(&self) -> u64 {
        self.verifications.spec_next_local()
    }

    pub closed spec fn token(&self) -> Option<u64> {
        self.last_token
    }

    pub closed spec fn wf(&self) -> bool {
        self.ledger.wf() && self.directory.wf() && self.verifications.wf()
    }

    /// A fresh core: nothing pending, nothing known, nothing in flight.
    pub fn new() -> (m: CryptoMachine)
        ensures
            m.wf(),
            m.pending() == Seq::<PendingRequest>::empty(),
            m.ledger_next() == 0,
            m.devices() == Seq::<DeviceRecord>::empty(),
            m.rooms() == Seq::<RoomMeta>::empty(),
            m.shared() == Seq::<SharedRecord>::empty(),
            m.watched() == Seq::<UserId>::empty(),
            m.flows() == Seq::<VerificationSession>::empty(),
            m.next_local() == 0,
            m.token() is None,
    {
        CryptoMachine {
            ledger: RequestLedger::new(),
            directory: SessionDirectory::new(),
            verifications: VerificationManager::new(),
            last_token: None,
        }
    }


    /// The identifier the ledger will assign next; callers may check it
    /// against the counter limit before enqueueing.
    pub fn next_request_id(&self) -> (r: u64)
        ensures
            r == self.ledger_next(),
    {
        self.ledger.next_id_value()
    }

    /// The counter the next locally created flow will draw from.
    pub fn next_local_flow(&self) -> (r: u64)
        ensures
            r == self.next_local(),
    {
        self.verifications.next_local_value()
    }

    /// Enqueues a request the cryptographic engine produced on its own
    /// (a keys upload, a backup, a signature upload) and returns its
    /// fresh identifier.
    pub fn enqueue_engine_request(&mut self, request: OutgoingRequest) -> (id: u64)
        requires
            old(self).wf(),
            old(self).ledger_next() < u64::MAX,
        ensures
            final(self).wf(),
            id == old(self).ledger_next(),
            final(self).ledger_next() == id + 1,
            final(self).pending() == old(self).pending().push((PendingRequest { id, request })),
            forall|i: int| 0 <= i < old(self).pending().len() ==> #[trigger] old(
                self,
            ).pending()[i].id != id,
            final(self).devices() == old(self).devices(),
            final(self).rooms() == old(self).rooms(),
            final(self).shared() == old(self).shared(),
            final(self).watched() == old(self).watched(),
            final(self).flows() == old(self).flows(),
            final(self).next_local() == old(self).next_local(),
            final(self).token() == old(self).token(),
    {
        self.ledger.enqueue(request)
    }

    /// A snapshot of everything pending, in enqueue order; the core is not
    /// changed.  The transport drains this, sends each request, and
    /// reports the outcomes through `acknowledge`.
    pub fn outgoing_requests(&self) -> (r: Vec<PendingRequest>)
        ensures
            r@.len() == self.pending().len(),
            forall|i: int|
                0 <= i < self.pending().len() ==> #[trigger] r@[i].id == self.pending()[i].id
                    && crate::requests::req_equiv(r@[i].request, self.pending()[i].request),
    {
        self.ledger.drain_pending()
    }

    /// Records the network's answer to the request pending under `id` and
    /// forwards its content to the planner's model.
    ///
    /// An unknown identifier is refused; a payload of the wrong shape for
    /// the request's kind is refused as malformed; in both cases nothing
    /// at all changes.  On success the request leaves the pending set,
    /// exactly once per identifier; a key-query answer introduces or
    /// refreshes device records, a key-claim answer marks sessions
    /// established, and every other kind leaves the planner's model
    /// untouched.
    pub fn acknowledge(&mut self, id: u64, response: AckResponse) -> (r: Result<(), CoreError>)
        requires
            old(self).wf(),
        ensures
            final(self).wf(),
            final(self).ledger_next() == old(self).ledger_next(),
            final(self).rooms() == old(self).rooms(),
            final(self).shared() == old(self).shared(),
            final(self).watched() == old(self).watched(),
            final(self).flows() == old(self).flows(),
            final(self).next_local() == old(self).next_local(),
            final(self).token() == old(self).token(),
            !contains_id(old(self).pending(), id) ==> r == Err::<(), CoreError>(
                CoreError::UnknownRequest,
            ) && final(self).pending() == old(self).pending() && final(self).devices() == old(
                self,
            ).devices(),
            contains_id(old(self).pending(), id) ==> ({
                let i = choose|i: int|
                    0 <= i < old(self).pending().len() && #[trigger] old(self).pending()[i].id
                        == id;
                if resp_kind(response) == req_kind(old(self).pending()[i].request) {
                    &&& r == Ok::<(), CoreError>(())
                    &&& final(self).pending() == old(self).pending().remove(i)
                    &&& final(self).devices() == spec_apply_ack(old(self).devices(), response)
                } else {
                    &&& r == Err::<(), CoreError>(CoreError::MalformedResponse)
                    &&& final(self).pending() == old(self).pending()
                    &&& final(self).devices() == old(self).devices()
                }
            }),
    {
        match self.ledger.acknowledge(id, &response) {
            Err(e) => Err(e),
            Ok(_removed) => {
                match response {
                    AckResponse::KeysQuery { devices: qs, failed_users: _ } => {
                        let ghost devs0 = self.directory.dev_seq();
                        let ghost led1 = self.ledger;
                        let ghost ver1 = self.verifications;
                        let ghost tok1 = self.last_token;
                        let mut i: usize = 0;
                        while i < qs.len()
                            invariant
                                self.ledger == led1,
                                self.verifications == ver1,
                                self.last_token == tok1,
                                self.directory.wf(),
                                i <= qs@.len(),
                                self.directory.dev_seq() == spec_apply_queried(
                                    devs0,
                                    qs@.subrange(0, i as int),
                                ),
                                self.directory.room_seq() == old(self).rooms(),
                                self.directory.shared_seq() == old(self).shared(),
                                self.directory.watched_seq() == old(self).watched(),
                            decreases qs@.len() - i,
                        {
                            proof {
                                assert(qs@.subrange(0, i + 1).drop_last() =~= qs@.subrange(
                                    0,
                                    i as int,
                                ));
                                assert(qs@.subrange(0, i + 1).last() == qs@[i as int]);
                            }
                            self.directory.record_device(qs[i].clone());
                            i = i + 1;
                        }
                        proof {
                            assert(qs@.subrange(0, qs@.len() as int) =~= qs@);
                        }
                        Ok(())
                    },
                    AckResponse::KeysClaim { claimed, failed_users: _ } => {
                        let ghost devs0 = self.directory.dev_seq();
                        let ghost led1 = self.ledger;
                        let ghost ver1 = self.verifications;
                        let ghost tok1 = self.last_token;
                        let mut i: usize = 0;
                        while i < claimed.len()
                            invariant
                                self.ledger == led1,
                                self.verifications == ver1,
                                self.last_token == tok1,
                                self.directory.wf(),
                                i <= claimed@.len(),
                                self.directory.dev_seq() == spec_apply_claimed(
                                    devs0,
                                    claimed@.subrange(0, i as int),
                                ),
                                self.directory.room_seq() == old(self).rooms(),
                                self.directory.shared_seq() == old(self).shared(),
                                self.directory.watched_seq() == old(self).watched(),
                            decreases claimed@.len() - i,
                        {
                            proof {
                                assert(claimed@.subrange(0, i + 1).drop_last() =~= claimed@
                                    .subrange(0, i as int));
                                assert(claimed@.subrange(0, i + 1).last() == claimed@[i as int]);
                            }
                            self.directory.set_session(&claimed[i].user, &claimed[i].device);
                            i = i + 1;
                        }
                        proof {
                            assert(claimed@.subrange(0, claimed@.len() as int) =~= claimed@);
                        }
                        Ok(())
                    },
                    _ => Ok(()),
                }
            },
        }
    }

    /// Plans the one-time-key claims needed to establish the missing
    /// sessions of `users`: one consolidated request covering every known
    /// device of a listed user that lacks a session, each under its most
    /// preferred algorithm.  Nothing is returned, and nothing enqueued,
    /// when no session is missing.
    ///
    /// The planner's model is read, never written, so planning again with
    /// the same users returns the same device set until some key-query or
    /// key-claim acknowledgment (or sync change) moves the model.
    /// Mutating calls must be externally serialized: concurrent
    /// overlapping claims would race one-time keys.
    pub fn get_missing_sessions(&mut self, users: &Vec<UserId>) -> (r: Option<KeysClaimRequest>)
        requires
            old(self).wf(),
            old(self).ledger_next() < u64::MAX,
        ensures
            final(self).wf(),
            final(self).devices() == old(self).devices(),
            final(self).rooms() == old(self).rooms(),
            final(self).shared() == old(self).shared(),
            final(self).watched() == old(self).watched(),
            final(self).flows() == old(self).flows(),
            final(self).next_local() == old(self).next_local(),
            final(self).token() == old(self).token(),
            spec_missing_plan(old(self).devices(), users@).len() == 0 ==> r is None && final(self).pending() == old(self).pending() && final(self).ledger_next() == old(
                self,
            ).ledger_next(),
            spec_missing_plan(old(self).devices(), users@).len() > 0 ==> ({
                let plan = spec_missing_plan(old(self).devices(), users@);
                &&& r matches Some(k) && k.id == old(self).ledger_next() && k.claims@ == plan
                    && k.claim_timeout_ms is None
                &&& final(self).ledger_next() == old(self).ledger_next() + 1
                &&& final(self).pending().len() == old(self).pending().len() + 1
                &&& final(self).pending().drop_last() == old(self).pending()
                &&& final(self).pending().last().id == old(self).ledger_next()
                &&& final(self).pending().last().request matches OutgoingRequest::KeysClaim {
                    claims,
                    claim_timeout_ms,
                } && claims@ == plan && claim_timeout_ms is None
            }),
    {
        let plan = self.directory.get_missing(users);
        if plan.len() == 0 {
            None
        } else {
            let claims = clone_claims(&plan);
            let id = self.ledger.enqueue(
                OutgoingRequest::KeysClaim { claims: plan, claim_timeout_ms: None },
            );
            proof {
                assert(self.ledger@.drop_last() =~= old(self).pending());
            }
            Some(KeysClaimRequest { id, claim_timeout_ms: None, claims })
        }
    }


    /// Distributes the current group-session key of `room` (creating the
    /// group session when absent) to every device of `users` that holds a
    /// session and has not received this epoch's key, and returns exactly
    /// those targets.  One to-device request carrying `key_payload` is
    /// enqueued for them; nothing is enqueued, and nothing returned, when
    /// every such device already holds the key — no redundant resend.
    pub fn share_room_key(&mut self, room: &RoomId, users: &Vec<UserId>, key_payload: &String)
        -> (r: Vec<SharedRecord>)
        requires
            old(self).wf(),
            old(self).ledger_next() < u64::MAX,
        ensures
            final(self).wf(),
            final(self).devices() == old(self).devices(),
            final(self).watched() == old(self).watched(),
            final(self).flows() == old(self).flows(),
            final(self).next_local() == old(self).next_local(),
            final(self).token() == old(self).token(),
            has_room(final(self).rooms(), room@),
            has_room(old(self).rooms(), room@) ==> final(self).rooms() == old(self).rooms(),
            !has_room(old(self).rooms(), room@) ==> final(self).rooms() == old(self).rooms().push(
                (RoomMeta { room: *room, epoch: 1 }),
            ),
            ({
                let e = if has_room(old(self).rooms(), room@) {
                    epoch_of(old(self).rooms(), room@)
                } else {
                    1u64
                };
                &&& r@ == spec_share_plan(old(self).devices(), users@, old(self).shared(), *room, e)
                &&& final(self).shared() == old(self).shared() + r@
            }),
            r@.len() == 0 ==> final(self).pending() == old(self).pending() && final(self).ledger_next() == old(self).ledger_next(),
            r@.len() > 0 ==> ({
                &&& final(self).ledger_next() == old(self).ledger_next() + 1
                &&& final(self).pending().len() == old(self).pending().len() + 1
                &&& final(self).pending().drop_last() == old(self).pending()
                &&& final(self).pending().last().id == old(self).ledger_next()
                &&& final(self).pending().last().request matches OutgoingRequest::ToDevice {
                    event_type,
                    messages,
                } && event_type@ == "m.room.encrypted"@ && messages@ == spec_share_messages(
                    r@,
                    *key_payload,
                )
            }),
    {
        let targets = self.directory.share(room, users);
        if targets.len() == 0 {
            return targets;
        }
        let mut msgs: Vec<ToDeviceMessage> = Vec::new();
        let mut i: usize = 0;
        while i < targets.len()
            invariant
                i <= targets@.len(),
                msgs@.len() == i,
                forall|j: int|
                    0 <= j < i ==> #[trigger] msgs@[j] == spec_share_messages(
                        targets@,
                        *key_payload,
                    )[j],
            decreases targets@.len() - i,
        {
            msgs.push(
                ToDeviceMessage {
                    recipient: targets[i].user.clone(),
                    device: targets[i].device.clone(),
                    content: key_payload.clone(),
                },
            );
            i = i + 1;
        }
        proof {
            assert(msgs@ =~= spec_share_messages(targets@, *key_payload));
        }
        let _id = self.ledger.enqueue(
            OutgoingRequest::ToDevice {
                event_type: String::from_str("m.room.encrypted"),
                messages: msgs,
            },
        );
        proof {
            assert(self.ledger@.drop_last() =~= old(self).pending());
        }
        targets
    }

    /// Rotates the group session of `room`: the next share distributes the
    /// new epoch's key to every device again.
    pub fn rotate_room_key(&mut self, room: &RoomId)
        requires
            old(self).wf(),
        ensures
            final(self).wf(),
            final(self).pending() == old(self).pending(),
            final(self).ledger_next() == old(self).ledger_next(),
            final(self).devices() == old(self).devices(),
            final(self).shared() == old(self).shared(),
            final(self).watched() == old(self).watched(),
            final(self).flows() == old(self).flows(),
            final(self).next_local() == old(self).next_local(),
            final(self).token() == old(self).token(),
            has_room(final(self).rooms(), room@),
            !has_room(old(self).rooms(), room@) ==> final(self).rooms() == old(self).rooms().push(
                (RoomMeta { room: *room, epoch: 1 }),
            ),
            has_room(old(self).rooms(), room@) ==> ({
                let i = crate::directory::room_idx(old(self).rooms(), room@);
                let e0 = old(self).rooms()[i].epoch;
                let e1: u64 = if e0 < u64::MAX {
                    (e0 + 1) as u64
                } else {
                    e0
                };
                final(self).rooms() == old(self).rooms().update(
                    i,
                    (RoomMeta { room: old(self).rooms()[i].room, epoch: e1 }),
                )
            }),
    {
        self.directory.rotate_room(room);
    }

    /// Starts watching `users` for device-list changes and enqueues one
    /// key query for exactly the users that were not watched before;
    /// nothing is enqueued when every listed user is already watched.
    pub fn update_watched_users(&mut self, users: &Vec<UserId>)
        requires
            old(self).wf(),
            old(self).ledger_next() < u64::MAX,
        ensures
            final(self).wf(),
            final(self).devices() == old(self).devices(),
            final(self).rooms() == old(self).rooms(),
            final(self).shared() == old(self).shared(),
            final(self).flows() == old(self).flows(),
            final(self).next_local() == old(self).next_local(),
            final(self).token() == old(self).token(),
            final(self).watched() == spec_add_watched(old(self).watched(), users@),
            spec_fresh_watched(old(self).watched(), users@).len() == 0 ==> final(self).pending()
                == old(self).pending() && final(self).ledger_next() == old(self).ledger_next(),
            spec_fresh_watched(old(self).watched(), users@).len() > 0 ==> ({
                &&& final(self).ledger_next() == old(self).ledger_next() + 1
                &&& final(self).pending().len() == old(self).pending().len() + 1
                &&& final(self).pending().drop_last() == old(self).pending()
                &&& final(self).pending().last().id == old(self).ledger_next()
                &&& final(self).pending().last().request matches OutgoingRequest::KeysQuery {
                    users: qu,
                    timeout_ms,
                } && qu@ == spec_fresh_watched(old(self).watched(), users@) && timeout_ms == 0
            }),
    {
        let fresh = self.directory.add_watched(users);
        if fresh.len() > 0 {
            let _id = self.ledger.enqueue(
                OutgoingRequest::KeysQuery { users: fresh, timeout_ms: 0 },
            );
            proof {
                assert(self.ledger@.drop_last() =~= old(self).pending());
            }
        }
    }

    /// Consumes one batch of sync changes.
    ///
    /// The continuation token must strictly advance: a duplicate or
    /// out-of-order token is a caller error, rejected with a validation
    /// error and no change at all — the same batch is never absorbed
    /// twice.  Otherwise: departed users are cleared and unwatched, one
    /// key query is enqueued when any device lists changed, and each
    /// inbound verification request is resolved to a flow (created in
    /// `Requested` when new) and surfaced to the caller.
    pub fn receive_sync_changes(&mut self, batch: SyncBatch) -> (r: Result<
        Vec<SessionRef>,
        CoreError,
    >)
        requires
            old(self).wf(),
            old(self).ledger_next() < u64::MAX,
        ensures
            final(self).wf(),
            (match old(self).token() {
                Some(t) => batch.token <= t,
                None => false,
            }) ==> ({
                &&& r == Err::<Vec<SessionRef>, CoreError>(CoreError::Validation)
                &&& final(self).pending() == old(self).pending()
                &&& final(self).ledger_next() == old(self).ledger_next()
                &&& final(self).devices() == old(self).devices()
                &&& final(self).rooms() == old(self).rooms()
                &&& final(self).shared() == old(self).shared()
                &&& final(self).watched() == old(self).watched()
                &&& final(self).flows() == old(self).flows()
                &&& final(self).next_local() == old(self).next_local()
                &&& final(self).token() == old(self).token()
            }),
            (match old(self).token() {
                Some(t) => batch.token > t,
                None => true,
            }) ==> ({
                &&& final(self).token() == Some(batch.token)
                &&& final(self).devices() == spec_clear_left(
                    old(self).devices(),
                    batch.left_users@,
                )
                &&& final(self).watched() == spec_unwatch_left(
                    old(self).watched(),
                    batch.left_users@,
                )
                &&& final(self).rooms() == old(self).rooms()
                &&& final(self).shared() == old(self).shared()
                &&& final(self).flows() == spec_absorb_events(old(self).flows(), batch.events@)
                &&& final(self).next_local() == old(self).next_local()
                &&& r matches Ok(v) && v@ == spec_event_refs(batch.events@)
                &&& batch.changed_users@.len() == 0 ==> final(self).pending() == old(
                    self,
                ).pending() && final(self).ledger_next() == old(self).ledger_next()
                &&& batch.changed_users@.len() > 0 ==> ({
                    &&& final(self).ledger_next() == old(self).ledger_next() + 1
                    &&& final(self).pending().len() == old(self).pending().len() + 1
                    &&& final(self).pending().drop_last() == old(self).pending()
                    &&& final(self).pending().last().id == old(self).ledger_next()
                    &&& final(self).pending().last().request matches OutgoingRequest::KeysQuery {
                        users: qu,
                        timeout_ms,
                    } && qu@ == batch.changed_users@ && timeout_ms == 0
                })
            }),
    {
        if let Some(t) = self.last_token {
            if batch.token <= t {
                return Err(CoreError::Validation);
            }
        }
        let SyncBatch { token, events, changed_users, left_users } = batch;
        self.last_token = Some(token);
        let ghost led0 = self.ledger;
        let ghost ver0 = self.verifications;
        let ghost tok1 = self.last_token;
        let ghost devs0 = self.directory.dev_seq();
        let ghost w0 = self.directory.watched_seq();
        let mut i: usize = 0;
        while i < left_users.len()
            invariant
                i <= left_users@.len(),
                self.ledger == led0,
                self.verifications == ver0,
                self.last_token == tok1,
                self.directory.wf(),
                self.directory.dev_seq() == spec_clear_left(
                    devs0,
                    left_users@.subrange(0, i as int),
                ),
                self.directory.watched_seq() == spec_unwatch_left(
                    w0,
                    left_users@.subrange(0, i as int),
                ),
                self.directory.room_seq() == old(self).rooms(),
                self.directory.shared_seq() == old(self).shared(),
            decreases left_users@.len() - i,
        {
            proof {
                assert(left_users@.subrange(0, i + 1).drop_last() =~= left_users@.subrange(
                    0,
                    i as int,
                ));
                assert(left_users@.subrange(0, i + 1).last() == left_users@[i as int]);
            }
            self.directory.clear_user(&left_users[i]);
            i = i + 1;
        }
        proof {
            assert(left_users@.subrange(0, left_users@.len() as int) =~= left_users@);
        }
        let ghost changed0 = changed_users@;
        if changed_users.len() > 0 {
            let _id = self.ledger.enqueue(
                OutgoingRequest::KeysQuery { users: changed_users, timeout_ms: 0 },
            );
            proof {
                assert(self.ledger@.drop_last() =~= old(self).pending());
            }
        }
        let ghost led1 = self.ledger;
        let ghost dir1 = self.directory;
        let ghost flows0 = self.verifications.flows();
        let mut refs: Vec<SessionRef> = Vec::new();
        let mut k: usize = 0;
        while k < events.len()
            invariant
                k <= events@.len(),
                self.ledger == led1,
                self.directory == dir1,
                self.last_token == tok1,
                self.verifications.wf(),
                self.verifications.spec_next_local() == ver0.spec_next_local(),
                self.verifications.flows() == spec_absorb_events(
                    flows0,
                    events@.subrange(0, k as int),
                ),
                refs@ == spec_event_refs(events@.subrange(0, k as int)),
            decreases events@.len() - k,
        {
            proof {
                assert(events@.subrange(0, k + 1).drop_last() =~= events@.subrange(0, k as int));
                assert(events@.subrange(0, k + 1).last() == events@[k as int]);
            }
            match &events[k] {
                InboundEvent::VerificationRequest { sender, transaction_id, device } => {
                    let d2 = clone_opt_device(device);
                    self.verifications.create_remote(
                        sender.clone(),
                        FlowId::Remote(transaction_id.clone()),
                        d2,
                    );
                    refs.push(
                        SessionRef {
                            user: sender.clone(),
                            flow: FlowId::Remote(transaction_id.clone()),
                        },
                    );
                },
                InboundEvent::Other { .. } => {},
            }
            k = k + 1;
        }
        proof {
            assert(events@.subrange(0, events@.len() as int) =~= events@);
        }
        Ok(refs)
    }


    /// Creates a verification flow for one device of `user` and enqueues
    /// its first hop, a to-device verification request; creation and
    /// first-hop emission are atomic from the caller's point of view.
    pub fn request_device_verification(&mut self, user: UserId, device: DeviceId) -> (r:
        CreatedSession)
        requires
            old(self).wf(),
            old(self).ledger_next() < u64::MAX,
            old(self).next_local() < u64::MAX,
        ensures
            final(self).wf(),
            final(self).devices() == old(self).devices(),
            final(self).rooms() == old(self).rooms(),
            final(self).shared() == old(self).shared(),
            final(self).watched() == old(self).watched(),
            final(self).token() == old(self).token(),
            r.flow == FlowId::Local(old(self).next_local()),
            r.request_id == old(self).ledger_next(),
            final(self).next_local() == old(self).next_local() + 1,
            final(self).flows() == old(self).flows().push(
                (VerificationSession {
                    other_user: user,
                    other_device: Some(device),
                    flow: FlowId::Local(old(self).next_local()),
                    phase: VerificationPhase::Created,
                    remote_confirmed: false,
                    emoji: None,
                }),
            ),
            final(self).ledger_next() == old(self).ledger_next() + 1,
            final(self).pending().len() == old(self).pending().len() + 1,
            final(self).pending().drop_last() == old(self).pending(),
            final(self).pending().last().id == old(self).ledger_next(),
            final(self).pending().last().request matches OutgoingRequest::ToDevice {
                event_type,
                messages,
            } && event_type@ == "m.key.verification.request"@ && messages@.len() == 1
                && messages@[0].recipient == user && messages@[0].device == device
                && messages@[0].content@ == Seq::<char>::empty(),
    {
        let u2 = user.clone();
        let d2 = device.clone();
        let f = self.verifications.create_local(user, Some(device));
        let f2 = f.clone();
        let mut msgs: Vec<ToDeviceMessage> = Vec::new();
        msgs.push(ToDeviceMessage { recipient: u2, device: d2, content: String::new() });
        let id = self.ledger.enqueue(
            OutgoingRequest::ToDevice {
                event_type: String::from_str("m.key.verification.request"),
                messages: msgs,
            },
        );
        proof {
            assert(self.ledger@.drop_last() =~= old(self).pending());
        }
        CreatedSession { flow: f2, request_id: id }
    }

    /// Creates an in-room verification flow towards `user`, keyed by the
    /// identifier of the request event, and enqueues the room message
    /// carrying `content` (produced by the engine).  A malformed event id,
    /// or one already in use, is rejected with nothing changed.
    pub fn request_user_verification(
        &mut self,
        user: UserId,
        room: &RoomId,
        event_id: String,
        content: &String,
    ) -> (r: Result<SessionRef, CoreError>)
        requires
            old(self).wf(),
            old(self).ledger_next() < u64::MAX,
        ensures
            final(self).wf(),
            final(self).devices() == old(self).devices(),
            final(self).rooms() == old(self).rooms(),
            final(self).shared() == old(self).shared(),
            final(self).watched() == old(self).watched(),
            final(self).token() == old(self).token(),
            final(self).next_local() == old(self).next_local(),
            !valid_event_id(event_id@) ==> r == Err::<SessionRef, CoreError>(CoreError::Validation)
                && final(self).flows() == old(self).flows() && final(self).pending() == old(
                self,
            ).pending() && final(self).ledger_next() == old(self).ledger_next(),
            valid_event_id(event_id@) && has_flow(
                old(self).flows(),
                user@,
                FlowId::Remote(event_id),
            ) ==> r == Err::<SessionRef, CoreError>(CoreError::Validation) && final(self).flows()
                == old(self).flows() && final(self).pending() == old(self).pending() && final(self).ledger_next() == old(self).ledger_next(),
            valid_event_id(event_id@) && !has_flow(
                old(self).flows(),
                user@,
                FlowId::Remote(event_id),
            ) ==> ({
                &&& r matches Ok(h) && h.user == user && h.flow == FlowId::Remote(event_id)
                &&& final(self).flows() == old(self).flows().push(
                    (VerificationSession {
                        other_user: user,
                        other_device: None,
                        flow: FlowId::Remote(event_id),
                        phase: VerificationPhase::Created,
                        remote_confirmed: false,
                        emoji: None,
                    }),
                )
                &&& final(self).ledger_next() == old(self).ledger_next() + 1
                &&& final(self).pending().len() == old(self).pending().len() + 1
                &&& final(self).pending().drop_last() == old(self).pending()
                &&& final(self).pending().last().id == old(self).ledger_next()
                &&& final(self).pending().last().request matches OutgoingRequest::RoomMessage {
                    room: rm,
                    event_type,
                    content: c,
                } && rm == *room && event_type@ == "m.room.message"@ && c == *content
            }),
    {
        if !check_event_id(event_id.as_str()) {
            return Err(CoreError::Validation);
        }
        let u2 = user.clone();
        let f = FlowId::Remote(event_id);
        let f2 = f.clone();
        match self.verifications.create_in_room(user, f) {
            Err(e) => Err(e),
            Ok(()) => {
                let _id = self.ledger.enqueue(
                    OutgoingRequest::RoomMessage {
                        room: room.clone(),
                        event_type: String::from_str("m.room.message"),
                        content: content.clone(),
                    },
                );
                proof {
                    assert(self.ledger@.drop_last() =~= old(self).pending());
                }
                Ok(SessionRef { user: u2, flow: f2 })
            },
        }
    }

    /// Accepts the verification request of `(u, f)` and enqueues the
    /// ready message for the remote party.  An absent flow is unknown, a
    /// phase that does not admit accepting is an invalid transition; in
    /// both cases nothing changes.
    pub fn accept_verification(&mut self, u: &UserId, f: &FlowId) -> (r: Result<u64, CoreError>)
        requires
            old(self).wf(),
            old(self).ledger_next() < u64::MAX,
        ensures
            final(self).wf(),
            final(self).devices() == old(self).devices(),
            final(self).rooms() == old(self).rooms(),
            final(self).shared() == old(self).shared(),
            final(self).watched() == old(self).watched(),
            final(self).token() == old(self).token(),
            final(self).next_local() == old(self).next_local(),
            !has_flow(old(self).flows(), u@, *f) ==> r == Err::<u64, CoreError>(
                CoreError::UnknownSession,
            ) && final(self).flows() == old(self).flows() && final(self).pending() == old(
                self,
            ).pending() && final(self).ledger_next() == old(self).ledger_next(),
            has_flow(old(self).flows(), u@, *f) ==> ({
                let i = flow_idx(old(self).flows(), u@, *f);
                let s = old(self).flows()[i];
                match step_accept(s.phase) {
                    Some(np) => ({
                        &&& r == Ok::<u64, CoreError>(old(self).ledger_next())
                        &&& final(self).flows() == old(self).flows().update(
                            i,
                            (VerificationSession { phase: np, ..s }),
                        )
                        &&& final(self).ledger_next() == old(self).ledger_next() + 1
                        &&& final(self).pending().len() == old(self).pending().len() + 1
                        &&& final(self).pending().drop_last() == old(self).pending()
                        &&& final(self).pending().last().id == old(self).ledger_next()
                        &&& final(self).pending().last().request matches OutgoingRequest::ToDevice {
                            event_type,
                            messages,
                        } && event_type@ == "m.key.verification.ready"@ && messages@.len() == 1
                            && messages@[0].recipient == s.other_user && (match s.other_device {
                            Some(d) => messages@[0].device == d,
                            None => messages@[0].device@ == "*"@,
                        }) && messages@[0].content@ == Seq::<char>::empty()
                    }),
                    None => r == Err::<u64, CoreError>(CoreError::InvalidTransition) && final(self).flows() == old(self).flows() && final(self).pending() == old(self).pending()
                        && final(self).ledger_next() == old(self).ledger_next(),
                }
            }),
    {
        match self.verifications.session_parties(u, f) {
            None => Err(CoreError::UnknownSession),
            Some((ou, od)) => {
                match self.verifications.accept(u, f) {
                    Err(e) => Err(e),
                    Ok(_np) => {
                        let dev = match od {
                            Some(d) => d,
                            None => DeviceId::wildcard(),
                        };
                        let mut msgs: Vec<ToDeviceMessage> = Vec::new();
                        msgs.push(
                            ToDeviceMessage { recipient: ou, device: dev, content: String::new() },
                        );
                        let id = self.ledger.enqueue(
                            OutgoingRequest::ToDevice {
                                event_type: String::from_str("m.key.verification.ready"),
                                messages: msgs,
                            },
                        );
                        proof {
                            assert(self.ledger@.drop_last() =~= old(self).pending());
                        }
                        Ok(id)
                    },
                }
            },
        }
    }


    /// Starts the SAS exchange on `(u, f)` and enqueues the start message;\n    /// admitted only from `Ready` — a flow that has already transitioned\n    /// cannot start again.
    pub fn start_sas(&mut self, u: &UserId, f: &FlowId) -> (r: Result<u64, CoreError>)
        requires
            old(self).wf(),
            old(self).ledger_next() < u64::MAX,
        ensures
            final(self).wf(),
            final(self).devices() == old(self).devices(),
            final(self).rooms() == old(self).rooms(),
            final(self).shared() == old(self).shared(),
            final(self).watched() == old(self).watched(),
            final(self).token() == old(self).token(),
            final(self).next_local() == old(self).next_local(),
            !has_flow(old(self).flows(), u@, *f) ==> r == Err::<u64, CoreError>(
                CoreError::UnknownSession,
            ) && final(self).flows() == old(self).flows() && final(self).pending() == old(self).pending() && final(self).ledger_next() == old(self).ledger_next(),
            has_flow(old(self).flows(), u@, *f) ==> ({
                let i = flow_idx(old(self).flows(), u@, *f);
                let s = old(self).flows()[i];
                match step_start_sas(s.phase) {
                    Some(np) => ({
                        &&& r == Ok::<u64, CoreError>(old(self).ledger_next())
                        &&& final(self).flows() == old(self).flows().update(
                            i,
                            (VerificationSession { phase: np, ..s }),
                        )
                        &&& final(self).ledger_next() == old(self).ledger_next() + 1
                        &&& final(self).pending().len() == old(self).pending().len() + 1
                        &&& final(self).pending().drop_last() == old(self).pending()
                        &&& final(self).pending().last().id == old(self).ledger_next()
                        &&& final(self).pending().last().request matches OutgoingRequest::ToDevice {
                            event_type,
                            messages,
                        } && event_type@ == "m.key.verification.start"@ && messages@.len() == 1
                            && messages@[0].recipient == s.other_user && (match s.other_device {
                            Some(d) => messages@[0].device == d,
                            None => messages@[0].device@ == "*"@,
                        }) && messages@[0].content@ == Seq::<char>::empty()
                    }),
                    None => r == Err::<u64, CoreError>(CoreError::InvalidTransition)
                        && final(self).flows() == old(self).flows() && final(self).pending() == old(self).pending()
                        && final(self).ledger_next() == old(self).ledger_next(),
                }
            }),
    {
        match self.verifications.session_parties(u, f) {
            None => Err(CoreError::UnknownSession),
            Some((ou, od)) => {
                match self.verifications.start_sas(u, f) {
                    Err(e) => Err(e),
                    Ok(_np) => {
                        let dev = match od {
                            Some(d) => d,
                            None => DeviceId::wildcard(),
                        };
                        let mut msgs: Vec<ToDeviceMessage> = Vec::new();
                        msgs.push(
                            ToDeviceMessage { recipient: ou, device: dev, content: String::new() },
                        );
                        let id = self.ledger.enqueue(
                            OutgoingRequest::ToDevice {
                                event_type: String::from_str("m.key.verification.start"),
                                messages: msgs,
                            },
                        );
                        proof {
                            assert(self.ledger@.drop_last() =~= old(self).pending());
                        }
                        Ok(id)
                    },
                }
            },
        }
    }

    /// Accepts an inbound SAS start on `(u, f)` and enqueues the accept\n    /// message; see `step_accept_sas` for when this is admitted.
    pub fn accept_sas(&mut self, u: &UserId, f: &FlowId) -> (r: Result<u64, CoreError>)
        requires
            old(self).wf(),
            old(self).ledger_next() < u64::MAX,
        ensures
            final(self).wf(),
            final(self).devices() == old(self).devices(),
            final(self).rooms() == old(self).rooms(),
            final(self).shared() == old(self).shared(),
            final(self).watched() == old(self).watched(),
            final(self).token() == old(self).token(),
            final(self).next_local() == old(self).next_local(),
            !has_flow(old(self).flows(), u@, *f) ==> r == Err::<u64, CoreError>(
                CoreError::UnknownSession,
            ) && final(self).flows() == old(self).flows() && final(self).pending() == old(self).pending() && final(self).ledger_next() == old(self).ledger_next(),
            has_flow(old(self).flows(), u@, *f) ==> ({
                let i = flow_idx(old(self).flows(), u@, *f);
                let s = old(self).flows()[i];
                match step_accept_sas(s.phase) {
                    Some(np) => ({
                        &&& r == Ok::<u64, CoreError>(old(self).ledger_next())
                        &&& final(self).flows() == old(self).flows().update(
                            i,
                            (VerificationSession { phase: np, ..s }),
                        )
                        &&& final(self).ledger_next() == old(self).ledger_next() + 1
                        &&& final(self).pending().len() == old(self).pending().len() + 1
                        &&& final(self).pending().drop_last() == old(self).pending()
                        &&& final(self).pending().last().id == old(self).ledger_next()
                        &&& final(self).pending().last().request matches OutgoingRequest::ToDevice {
                            event_type,
                            messages,
                        } && event_type@ == "m.key.verification.accept"@ && messages@.len() == 1
                            && messages@[0].recipient == s.other_user && (match s.other_device {
                            Some(d) => messages@[0].device == d,
                            None => messages@[0].device@ == "*"@,
                        }) && messages@[0].content@ == Seq::<char>::empty()
                    }),
                    None => r == Err::<u64, CoreError>(CoreError::InvalidTransition)
                        && final(self).flows() == old(self).flows() && final(self).pending() == old(self).pending()
                        && final(self).ledger_next() == old(self).ledger_next(),
                }
            }),
    {
        match self.verifications.session_parties(u, f) {
            None => Err(CoreError::UnknownSession),
            Some((ou, od)) => {
                match self.verifications.accept_sas(u, f) {
                    Err(e) => Err(e),
                    Ok(_np) => {
                        let dev = match od {
                            Some(d) => d,
                            None => DeviceId::wildcard(),
                        };
                        let mut msgs: Vec<ToDeviceMessage> = Vec::new();
                        msgs.push(
                            ToDeviceMessage { recipient: ou, device: dev, content: String::new() },
                        );
                        let id = self.ledger.enqueue(
                            OutgoingRequest::ToDevice {
                                event_type: String::from_str("m.key.verification.accept"),
                                messages: msgs,
                            },
                        );
                        proof {
                            assert(self.ledger@.drop_last() =~= old(self).pending());
                        }
                        Ok(id)
                    },
                }
            },
        }
    }

    /// Confirms the short authentication string on `(u, f)`: enqueues the
    /// MAC message, and, when the remote party had already confirmed,
    /// completes the flow — the done message is enqueued too and the
    /// remote device counts as verified from here on.  The identifiers of
    /// everything enqueued are returned, in order.
    pub fn confirm_verification(&mut self, u: &UserId, f: &FlowId) -> (r: Result<
        Vec<u64>,
        CoreError,
    >)
        requires
            old(self).wf(),
            old(self).ledger_next() < u64::MAX - 1,
        ensures
            final(self).wf(),
            final(self).rooms() == old(self).rooms(),
            final(self).shared() == old(self).shared(),
            final(self).watched() == old(self).watched(),
            final(self).token() == old(self).token(),
            final(self).next_local() == old(self).next_local(),
            !has_flow(old(self).flows(), u@, *f) ==> r == Err::<Vec<u64>, CoreError>(
                CoreError::UnknownSession,
            ) && final(self).flows() == old(self).flows() && final(self).pending() == old(self).pending() && final(self).ledger_next() == old(self).ledger_next() && final(self).devices() == old(self).devices(),
            has_flow(old(self).flows(), u@, *f) ==> ({
                let i = flow_idx(old(self).flows(), u@, *f);
                let s = old(self).flows()[i];
                match step_confirm(s.phase, s.remote_confirmed) {
                    Some(np) => ({
                        &&& final(self).flows() == old(self).flows().update(
                            i,
                            (VerificationSession { phase: np, ..s }),
                        )
                        &&& np == VerificationPhase::Done ==> ({
                            &&& (match s.other_device {
                                Some(d) => final(self).devices() == spec_mark_verified(
                                    old(self).devices(),
                                    s.other_user,
                                    d,
                                ),
                                None => final(self).devices() == old(self).devices(),
                            })
                            &&& final(self).ledger_next() == old(self).ledger_next() + 2
                            &&& final(self).pending().len() == old(self).pending().len() + 2
                            &&& final(self).pending().subrange(
                                0,
                                old(self).pending().len() as int,
                            ) == old(self).pending()
                            &&& r matches Ok(ids) && ids@.len() == 2 && ids@[0] == old(self).ledger_next() && ids@[1] == old(self).ledger_next() + 1
                            &&& final(self).pending()[old(self).pending().len() as int].request matches OutgoingRequest::ToDevice {
                                event_type,
                                messages,
                            } && event_type@ == "m.key.verification.mac"@ && messages@.len() == 1
                                && messages@[0].recipient == s.other_user
                            &&& final(self).pending().last().request matches OutgoingRequest::ToDevice {
                                event_type,
                                messages,
                            } && event_type@ == "m.key.verification.done"@ && messages@.len() == 1
                                && messages@[0].recipient == s.other_user
                        })
                        &&& np != VerificationPhase::Done ==> ({
                            &&& final(self).devices() == old(self).devices()
                            &&& final(self).ledger_next() == old(self).ledger_next() + 1
                            &&& final(self).pending().len() == old(self).pending().len() + 1
                            &&& final(self).pending().drop_last() == old(self).pending()
                            &&& r matches Ok(ids) && ids@.len() == 1 && ids@[0] == old(self).ledger_next()
                            &&& final(self).pending().last().request matches OutgoingRequest::ToDevice {
                                event_type,
                                messages,
                            } && event_type@ == "m.key.verification.mac"@ && messages@.len() == 1
                                && messages@[0].recipient == s.other_user
                        })
                    }),
                    None => r == Err::<Vec<u64>, CoreError>(CoreError::InvalidTransition)
                        && final(self).flows() == old(self).flows() && final(self).pending() == old(self).pending()
                        && final(self).ledger_next() == old(self).ledger_next() && final(self).devices() == old(self).devices(),
                }
            }),
    {
        match self.verifications.session_parties(u, f) {
            None => Err(CoreError::UnknownSession),
            Some((ou, od)) => {
                match self.verifications.confirm(u, f) {
                    Err(e) => Err(e),
                    Ok(np) => {
                        let done = match np {
                            VerificationPhase::Done => true,
                            _ => false,
                        };
                        let ou2 = ou.clone();
                        let dev = match &od {
                            Some(d) => d.clone(),
                            None => DeviceId::wildcard(),
                        };
                        let mut msgs: Vec<ToDeviceMessage> = Vec::new();
                        msgs.push(
                            ToDeviceMessage { recipient: ou, device: dev, content: String::new() },
                        );
                        let mac_id = self.ledger.enqueue(
                            OutgoingRequest::ToDevice {
                                event_type: String::from_str("m.key.verification.mac"),
                                messages: msgs,
                            },
                        );
                        proof {
                            assert(self.ledger@.drop_last() =~= old(self).pending());
                        }
                        let mut ids: Vec<u64> = Vec::new();
                        ids.push(mac_id);
                        if done {
                            let ghost pend1 = self.ledger@;
                            let dev2 = match &od {
                                Some(d) => d.clone(),
                                None => DeviceId::wildcard(),
                            };
                            let ou3 = ou2.clone();
                            let mut msgs2: Vec<ToDeviceMessage> = Vec::new();
                            msgs2.push(
                                ToDeviceMessage {
                                    recipient: ou3,
                                    device: dev2,
                                    content: String::new(),
                                },
                            );
                            let done_id = self.ledger.enqueue(
                                OutgoingRequest::ToDevice {
                                    event_type: String::from_str("m.key.verification.done"),
                                    messages: msgs2,
                                },
                            );
                            proof {
                                assert(self.ledger@.drop_last() =~= pend1);
                                assert(self.ledger@.subrange(0, old(self).pending().len() as int)
                                    =~= old(self).pending());
                            }
                            ids.push(done_id);
                            match &od {
                                Some(d) => {
                                    self.directory.mark_verified(&ou2, d);
                                },
                                None => {},
                            }
                        }
                        Ok(ids)
                    },
                }
            },
        }
    }

    /// Cancels `(u, f)` unilaterally and enqueues the cancel message,
    /// whose content carries the reason code `user`.  Terminal flows are
    /// never resurrected: cancelling one is an invalid transition.
    pub fn cancel_verification(&mut self, u: &UserId, f: &FlowId) -> (r: Result<u64, CoreError>)
        requires
            old(self).wf(),
            old(self).ledger_next() < u64::MAX,
        ensures
            final(self).wf(),
            final(self).devices() == old(self).devices(),
            final(self).rooms() == old(self).rooms(),
            final(self).shared() == old(self).shared(),
            final(self).watched() == old(self).watched(),
            final(self).token() == old(self).token(),
            final(self).next_local() == old(self).next_local(),
            !has_flow(old(self).flows(), u@, *f) ==> r == Err::<u64, CoreError>(
                CoreError::UnknownSession,
            ) && final(self).flows() == old(self).flows() && final(self).pending() == old(self).pending() && final(self).ledger_next() == old(self).ledger_next(),
            has_flow(old(self).flows(), u@, *f) ==> ({
                let i = flow_idx(old(self).flows(), u@, *f);
                let s = old(self).flows()[i];
                match step_cancel(s.phase, CancelReason::User) {
                    Some(np) => ({
                        &&& r == Ok::<u64, CoreError>(old(self).ledger_next())
                        &&& np == VerificationPhase::Cancelled(CancelReason::User)
                        &&& final(self).flows() == old(self).flows().update(
                            i,
                            (VerificationSession { phase: np, ..s }),
                        )
                        &&& final(self).ledger_next() == old(self).ledger_next() + 1
                        &&& final(self).pending().len() == old(self).pending().len() + 1
                        &&& final(self).pending().drop_last() == old(self).pending()
                        &&& final(self).pending().last().id == old(self).ledger_next()
                        &&& final(self).pending().last().request matches OutgoingRequest::ToDevice {
                            event_type,
                            messages,
                        } && event_type@ == "m.key.verification.cancel"@ && messages@.len() == 1
                            && messages@[0].recipient == s.other_user && messages@[0].content@
                            == "user"@
                    }),
                    None => r == Err::<u64, CoreError>(CoreError::InvalidTransition)
                        && final(self).flows() == old(self).flows() && final(self).pending() == old(self).pending()
                        && final(self).ledger_next() == old(self).ledger_next(),
                }
            }),
    {
        match self.verifications.session_parties(u, f) {
            None => Err(CoreError::UnknownSession),
            Some((ou, od)) => {
                match self.verifications.cancel(u, f, CancelReason::User) {
                    Err(e) => Err(e),
                    Ok(_np) => {
                        let dev = match od {
                            Some(d) => d,
                            None => DeviceId::wildcard(),
                        };
                        let code = CancelReason::User.code();
                        let mut msgs: Vec<ToDeviceMessage> = Vec::new();
                        msgs.push(
                            ToDeviceMessage {
                                recipient: ou,
                                device: dev,
                                content: String::from_str(code),
                            },
                        );
                        let id = self.ledger.enqueue(
                            OutgoingRequest::ToDevice {
                                event_type: String::from_str("m.key.verification.cancel"),
                                messages: msgs,
                            },
                        );
                        proof {
                            assert(self.ledger@.drop_last() =~= old(self).pending());
                        }
                        Ok(id)
                    },
                }
            },
        }
    }

    /// Applies one remote verification event to `(u, f)`.  When the event
    /// completes the flow, the remote device counts as verified from here
    /// on.  Nothing is enqueued: replies, if any, are driven by the local
    /// party's own calls.
    pub fn receive_verification_event(&mut self, u: &UserId, f: &FlowId, ev: RemoteEvent) -> (r:
        Result<VerificationPhase, CoreError>)
        requires
            old(self).wf(),
        ensures
            final(self).wf(),
            final(self).pending() == old(self).pending(),
            final(self).ledger_next() == old(self).ledger_next(),
            final(self).rooms() == old(self).rooms(),
            final(self).shared() == old(self).shared(),
            final(self).watched() == old(self).watched(),
            final(self).token() == old(self).token(),
            final(self).next_local() == old(self).next_local(),
            !has_flow(old(self).flows(), u@, *f) ==> r == Err::<VerificationPhase, CoreError>(
                CoreError::UnknownSession,
            ) && final(self).flows() == old(self).flows() && final(self).devices() == old(self).devices(),
            has_flow(old(self).flows(), u@, *f) ==> ({
                let i = flow_idx(old(self).flows(), u@, *f);
                let s = old(self).flows()[i];
                match step_remote(s.phase, s.remote_confirmed, ev) {
                    Some(np) => ({
                        &&& r == Ok::<VerificationPhase, CoreError>(np.0)
                        &&& final(self).flows() == old(self).flows().update(
                            i,
                            (VerificationSession {
                                phase: np.0,
                                remote_confirmed: np.1,
                                emoji: (match ev {
                                    RemoteEvent::KeysExchanged(em) => Some(em),
                                    _ => s.emoji,
                                }),
                                ..s
                            }),
                        )
                        &&& np.0 == VerificationPhase::Done ==> (match s.other_device {
                            Some(d) => final(self).devices() == spec_mark_verified(
                                old(self).devices(),
                                s.other_user,
                                d,
                            ),
                            None => final(self).devices() == old(self).devices(),
                        })
                        &&& np.0 != VerificationPhase::Done ==> final(self).devices() == old(self).devices()
                    }),
                    None => r == Err::<VerificationPhase, CoreError>(CoreError::InvalidTransition)
                        && final(self).flows() == old(self).flows() && final(self).devices() == old(self).devices(),
                }
            }),
    {
        match self.verifications.session_parties(u, f) {
            None => Err(CoreError::UnknownSession),
            Some((ou, od)) => {
                match self.verifications.process_remote(u, f, ev) {
                    Err(e) => Err(e),
                    Ok(np) => {
                        let done = match np {
                            VerificationPhase::Done => true,
                            _ => false,
                        };
                        if done {
                            match &od {
                                Some(d) => {
                                    self.directory.mark_verified(&ou, d);
                                },
                                None => {},
                            }
                        }
                        Ok(np)
                    },
                }
            },
        }
    }

    /// The outer phase of `(u, f)`, or nothing for an absent flow —
    /// polling absence is routine, not an error.
    pub fn verification_get_state(&self, u: &UserId, f: &FlowId) -> (r: Option<VerificationPhase>)
        requires
            self.wf(),
        ensures
            r == spec_phase_of(self.flows(), u@, *f),
    {
        self.verifications.get_phase(u, f)
    }

    /// The inner SAS phase of `(u, f)`, or nothing when the flow is
    /// absent or has not transitioned to a SAS exchange — both are
    /// routine while polling.
    pub fn sas_get_state(&self, u: &UserId, f: &FlowId) -> (r: Option<SasPhase>)
        requires
            self.wf(),
        ensures
            r == (match spec_phase_of(self.flows(), u@, *f) {
                Some(VerificationPhase::Transitioned(sp)) => Some(sp),
                _ => None::<SasPhase>,
            }),
    {
        match self.verifications.get_phase(u, f) {
            Some(VerificationPhase::Transitioned(sp)) => Some(sp),
            _ => None,
        }
    }

    /// The ordered comparison artifact of `(u, f)`: exactly the emoji the
    /// engine derived at key exchange.  It may be requested only while
    /// the flow stands at `Transitioned(KeysExchanged)`; at any other
    /// phase this fails loudly instead of returning an empty list.
    pub fn sas_emoji(&self, u: &UserId, f: &FlowId) -> (r: Result<Vec<Emoji>, CoreError>)
        requires
            self.wf(),
        ensures
            !has_flow(self.flows(), u@, *f) ==> r == Err::<Vec<Emoji>, CoreError>(
                CoreError::UnknownSession,
            ),
            has_flow(self.flows(), u@, *f) ==> ({
                let s = self.flows()[flow_idx(self.flows(), u@, *f)];
                if s.phase == VerificationPhase::Transitioned(SasPhase::KeysExchanged) {
                    r matches Ok(v) && v@ == emoji_view(s)
                } else {
                    r == Err::<Vec<Emoji>, CoreError>(CoreError::InvalidTransition)
                }
            }),
    {
        self.verifications.sas_emoji(u, f)
    }

    /// The verification verdict for a message from `(sender, device)`:
    /// verified exactly when some completed handshake verified that
    /// device and no departure cleared it since.
    pub fn get_room_event_encryption_info(&self, sender: &UserId, device: &DeviceId) -> (r:
        EncryptionInfo)
        requires
            self.wf(),
        ensures
            r.verified == spec_is_verified(self.devices(), sender@, device@),
    {
        EncryptionInfo { verified: self.directory.is_verified(sender, device) }
    }

    /// Idempotent planning: the claim plan is a function of the device
    /// records alone, and neither planning itself nor an acknowledgment
    /// of any kind but a key query or key claim moves those records; two
    /// plans over the same records for the same users name the same
    /// devices.
    pub proof fn lemma_planning_idempotent(
        devs1: Seq<DeviceRecord>,
        devs2: Seq<DeviceRecord>,
        users: Seq<UserId>,
        resp: AckResponse,
    )
        requires
            devs2 == spec_apply_ack(devs1, resp),
            !(resp is KeysQuery),
            !(resp is KeysClaim),
        ensures
            spec_missing_plan(devs2, users) == spec_missing_plan(devs1, users),
    {
    }
}

} // verus!
