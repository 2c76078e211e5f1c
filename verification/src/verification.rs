use vstd::prelude::*;
use crate::errors::CoreError;
use crate::ids::{flow_eq, DeviceId, FlowId, UserId};

verus! {

/// Why a verification flow ended in `Cancelled`.
#[derive(Clone, Copy, Debug, PartialEq, Eq, Structural)]
pub enum CancelReason {
    User,
    Mismatch,
    Timeout,
    UnexpectedMessage,
    UnknownTransaction,
}

/// The wire code of a cancellation reason.
pub open spec fn spec_reason_code(c: CancelReason) -> Seq<char> {
    match c {
        CancelReason::User => "user"@,
        CancelReason::Mismatch => "mismatch"@,
        CancelReason::Timeout => "timeout"@,
        CancelReason::UnexpectedMessage => "unexpected_message"@,
        CancelReason::UnknownTransaction => "unknown_transaction"@,
    }
}

impl CancelReason {
    pub fn code(&self) -> (r: &'static str)
        ensures
            r@ == spec_reason_code(*self),
    {
        match self {
            CancelReason::User => "user",
            CancelReason::Mismatch => "mismatch",
            CancelReason::Timeout => "timeout",
            CancelReason::UnexpectedMessage => "unexpected_message",
            CancelReason::UnknownTransaction => "unknown_transaction",
        }
    }
}

/// The inner phases of the SAS exchange.
#[derive(Clone, Copy, Debug, PartialEq, Eq, Structural)]
pub enum SasPhase {
    Started,
    Accepted,
    KeysExchanged,
    Confirmed,
    Done,
    Cancelled(CancelReason),
}

/// The outer phases of a verification flow.  `Transitioned` is the only
/// phase carrying a live SAS sub-machine.
#[derive(Clone, Copy, Debug, PartialEq, Eq, Structural)]
pub enum VerificationPhase {
    Created,
    Requested,
    Ready,
    Transitioned(SasPhase),
    Done,
    Cancelled(CancelReason),
}

/// A terminal phase is never left again.
pub open spec fn phase_terminal(p: VerificationPhase) -> bool {
    p is Done || p is Cancelled
}

/// One symbol of the human-readable comparison artifact, with its spoken
/// description.
#[derive(Debug)]
pub struct Emoji {
    pub symbol: String,
    pub description: String,
}

impl Emoji {
    pub fn symbol(&self) -> (r: &str)
        ensures
            r@ == self.symbol@,
    {
        self.symbol.as_str()
    }

    pub fn description(&self) -> (r: &str)
        ensures
            r@ == self.description@,
    {
        self.description.as_str()
    }
}

impl Clone for Emoji {
    fn clone(&self) -> (r: Self)
        ensures
            r == *self,
    {
        Emoji { symbol: self.symbol.clone(), description: self.description.clone() }
    }
}

/// Accepting a verification request: allowed while the request is open,
/// and leaves the flow ready to start.
pub open spec fn step_accept(p: VerificationPhase) -> Option<VerificationPhase> {
    match p {
        VerificationPhase::Requested => Some(VerificationPhase::Ready),
        VerificationPhase::Ready => Some(VerificationPhase::Ready),
        _ => None,
    }
}

/// Starting the SAS exchange: only from `Ready`; a flow that has already
/// transitioned cannot start again.
pub open spec fn step_start_sas(p: VerificationPhase) -> Option<VerificationPhase> {
    match p {
        VerificationPhase::Ready => Some(VerificationPhase::Transitioned(SasPhase::Started)),
        _ => None,
    }
}

/// Accepting an inbound SAS start: allowed once the keys of the exchange
/// are on the table, and re-enters the exchange.
pub open spec fn step_accept_sas(p: VerificationPhase) -> Option<VerificationPhase> {
    match p {
        VerificationPhase::Transitioned(SasPhase::KeysExchanged) => Some(
            VerificationPhase::Transitioned(SasPhase::Accepted),
        ),
        _ => None,
    }
}

/// Confirming the short authentication string: only from `KeysExchanged`;
/// when the remote party has already confirmed, the flow completes at
/// once, otherwise it waits in `Confirmed`.
pub open spec fn step_confirm(p: VerificationPhase, remote_confirmed: bool) -> Option<
    VerificationPhase,
> {
    match p {
        VerificationPhase::Transitioned(SasPhase::KeysExchanged) => Some(
            if remote_confirmed {
                VerificationPhase::Done
            } else {
                VerificationPhase::Transitioned(SasPhase::Confirmed)
            },
        ),
        _ => None,
    }
}

/// Cancelling: allowed from every non-terminal phase, with the given
/// reason; a terminal flow is never resurrected.
pub open spec fn step_cancel(p: VerificationPhase, reason: CancelReason) -> Option<
    VerificationPhase,
> {
    if phase_terminal(p) {
        None
    } else {
        Some(VerificationPhase::Cancelled(reason))
    }
}

/// What the remote party (through the sync feed) can do to a flow.
pub enum RemoteEvent {
    /// The remote party answered our verification request.
    Responded,
    /// The remote party started the SAS exchange.
    SasStarted,
    /// The remote party accepted our SAS start.
    SasAccepted,
    /// The key exchange completed; the engine derived the comparison
    /// artifact.
    KeysExchanged(Vec<Emoji>),
    /// The remote party confirmed the short authentication string.
    RemoteConfirmed,
    /// The remote party cancelled, or the caller translates a timeout or a
    /// mismatch into a cancellation.
    RemoteCancelled(CancelReason),
}

/// The transition a remote event causes on `(phase, remote_confirmed)`;
/// nothing when the event does not fit the phase.
pub open spec fn step_remote(p: VerificationPhase, rc: bool, ev: RemoteEvent) -> Option<
    (VerificationPhase, bool),
> {
    match ev {
        RemoteEvent::Responded => match p {
            VerificationPhase::Created => Some((VerificationPhase::Requested, rc)),
            _ => None,
        },
        RemoteEvent::SasStarted => match p {
            VerificationPhase::Ready => Some(
                (VerificationPhase::Transitioned(SasPhase::Started), rc),
            ),
            _ => None,
        },
        RemoteEvent::SasAccepted => match p {
            VerificationPhase::Transitioned(SasPhase::Started) => Some(
                (VerificationPhase::Transitioned(SasPhase::Accepted), rc),
            ),
            _ => None,
        },
        RemoteEvent::KeysExchanged(_) => match p {
            VerificationPhase::Transitioned(SasPhase::Accepted) => Some(
                (VerificationPhase::Transitioned(SasPhase::KeysExchanged), rc),
            ),
            _ => None,
        },
        RemoteEvent::RemoteConfirmed => match p {
            VerificationPhase::Transitioned(SasPhase::KeysExchanged) => Some(
                (VerificationPhase::Transitioned(SasPhase::KeysExchanged), true),
            ),
            VerificationPhase::Transitioned(SasPhase::Confirmed) => Some(
                (VerificationPhase::Done, true),
            ),
            _ => None,
        },
        RemoteEvent::RemoteCancelled(r) => if phase_terminal(p) {
            None
        } else {
            Some((VerificationPhase::Cancelled(r), rc))
        },
    }
}

/// A terminal flow admits no transition at all: not by the local party,
/// not by the remote one.
pub proof fn lemma_terminal_is_stuck(p: VerificationPhase)
    requires
        phase_terminal(p),
    ensures
        step_accept(p) is None,
        step_start_sas(p) is None,
        step_accept_sas(p) is None,
        forall|rc: bool| step_confirm(p, rc) is None,
        forall|r: CancelReason| step_cancel(p, r) is None,
        forall|rc: bool, ev: RemoteEvent| step_remote(p, rc, ev) is None,
{
}

/// One live verification flow with the remote party.  The comparison
/// artifact is present exactly once the engine reported a completed key
/// exchange.
pub struct VerificationSession {
    pub other_user: UserId,
    pub other_device: Option<DeviceId>,
    pub flow: FlowId,
    pub phase: VerificationPhase,
    pub remote_confirmed: bool,
    pub emoji: Option<Vec<Emoji>>,
}

/// The comparison artifact of a flow, as a sequence; empty until the key
/// exchange completed.
pub open spec fn emoji_view(s: VerificationSession) -> Seq<Emoji> {
    match s.emoji {
        Some(em) => em@,
        None => Seq::empty(),
    }
}

/// Does the manager hold a flow under `(u, f)`?
pub open spec fn has_flow(ss: Seq<VerificationSession>, u: Seq<char>, f: FlowId) -> bool {
    exists|i: int|
        0 <= i < ss.len() && #[trigger] ss[i].other_user@ == u && flow_eq(#[trigger] ss[i].flow, f)
}

/// The position of the flow under `(u, f)`; meaningful only when
/// `has_flow` holds and the sessions are unique by key.
pub open spec fn flow_idx(ss: Seq<VerificationSession>, u: Seq<char>, f: FlowId) -> int {
    choose|i: int|
        0 <= i < ss.len() && #[trigger] ss[i].other_user@ == u && flow_eq(#[trigger] ss[i].flow, f)
}

/// No two sessions share the key (remote user, flow id).
pub open spec fn flows_unique(ss: Seq<VerificationSession>) -> bool {
    forall|i: int, j: int|
        #![trigger ss[i], ss[j]]
        0 <= i < j < ss.len() ==> !(ss[i].other_user@ == ss[j].other_user@ && flow_eq(
            ss[i].flow,
            ss[j].flow,
        ))
}

/// The phase of the flow under `(u, f)`, or nothing: polling an absent
/// flow is routine, not an error.
pub open spec fn spec_phase_of(ss: Seq<VerificationSession>, u: Seq<char>, f: FlowId) -> Option<
    VerificationPhase,
> {
    if has_flow(ss, u, f) {
        Some(ss[flow_idx(ss, u, f)].phase)
    } else {
        None
    }
}

/// Resolving an inbound verification request: an existing flow under the
/// key is kept exactly as it is, a new one starts in `Requested`.
pub open spec fn spec_create_remote(
    ss: Seq<VerificationSession>,
    other_user: UserId,
    flow: FlowId,
    other_device: Option<DeviceId>,
) -> Seq<VerificationSession> {
    if has_flow(ss, other_user@, flow) {
        ss
    } else {
        ss.push(
            (VerificationSession {
                other_user,
                other_device,
                flow,
                phase: VerificationPhase::Requested,
                remote_confirmed: false,
                emoji: None,
            }),
        )
    }
}

/// The owner of the verification flows, keyed by (remote user,
/// flow id).  Locally created flows draw their identifiers from a counter
/// and can never collide with a remote transaction id.
pub struct VerificationManager {
    sessions: Vec<VerificationSession>,
    next_local: u64,
}

impl VerificationManager {
    pub closed spec fn flows(&self) -> Seq<VerificationSession> {
        self.sessions@
    }

    pub closed spec fn spec_next_local(&self) -> u64 {
        self.next_local
    }

    pub closed spec fn wf(&self) -> bool {
        &&& flows_unique(self.sessions@)
        &&& forall|i: int|
            0 <= i < self.sessions@.len() ==> (#[trigger] self.sessions@[i].flow matches
            FlowId::Local(n) ==> n < self.next_local)
    }

    pub fn new() -> (m: VerificationManager)
        ensures
            m.wf(),
            m.flows() == Seq::<VerificationSession>::empty(),
            m.spec_next_local() == 0,
    {
        VerificationManager { sessions: Vec::new(), next_local: 0 }
    }

    pub fn next_local_value(&self) -> (r: u64)
        ensures
            r == self.spec_next_local(),
    {
        self.next_local
    }

    /// The position of the flow under `(u, f)`, if any.
    fn find(&self, u: &UserId, f: &FlowId) -> (r: Option<usize>)
        ensures
            r matches Some(i) ==> 0 <= i < self.flows().len() && self.flows()[i as int].other_user@
                == u@ && flow_eq(self.flows()[i as int].flow, *f),
            r is None ==> !has_flow(self.flows(), u@, *f),
    {
        let mut i: usize = 0;
        while i < self.sessions.len()
            invariant
                i <= self.sessions@.len(),
                forall|j: int|
                    0 <= j < i ==> !(#[trigger] self.sessions@[j].other_user@ == u@ && flow_eq(
                        self.sessions@[j].flow,
                        *f,
                    )),
            decreases self.sessions@.len() - i,
        {
            if self.sessions[i].other_user.same_as(u) && self.sessions[i].flow.same_as(f) {
                return Some(i);
            }
            i = i + 1;
        }
        None
    }

    /// With unique keys, the chosen index for a key is the index of any
    /// session carrying that key.
    proof fn lemma_flow_idx_is(ss: Seq<VerificationSession>, u: Seq<char>, f: FlowId, i: int)
        requires
            flows_unique(ss),
            0 <= i < ss.len(),
            ss[i].other_user@ == u,
            flow_eq(ss[i].flow, f),
        ensures
            has_flow(ss, u, f),
            flow_idx(ss, u, f) == i,
    {
        assert(has_flow(ss, u, f));
        let k = flow_idx(ss, u, f);
        if k < i {
            assert(!(ss[k].other_user@ == ss[i].other_user@ && flow_eq(ss[k].flow, ss[i].flow)));
        }
        if i < k {
            assert(!(ss[i].other_user@ == ss[k].other_user@ && flow_eq(ss[i].flow, ss[k].flow)));
        }
    }

    /// Creates a locally requested flow in `Created` and returns its fresh
    /// flow identifier, which collides with no existing flow of any user.
    pub fn create_local(&mut self, other_user: UserId, other_device: Option<DeviceId>) -> (f:
        FlowId)
        requires
            old(self).wf(),
            old(self).spec_next_local() < u64::MAX,
        ensures
            final(self).wf(),
            f == FlowId::Local(old(self).spec_next_local()),
            final(self).spec_next_local() == old(self).spec_next_local() + 1,
            !has_flow(old(self).flows(), other_user@, f),
            final(self).flows() == old(self).flows().push(
                (VerificationSession {
                    other_user,
                    other_device,
                    flow: f,
                    phase: VerificationPhase::Created,
                    remote_confirmed: false,
                    emoji: None,
                }),
            ),
    {
        let n = self.next_local;
        self.next_local = n + 1;
        let f = FlowId::Local(n);
        self.sessions.push(
            VerificationSession {
                other_user,
                other_device,
                flow: FlowId::Local(n),
                phase: VerificationPhase::Created,
                remote_confirmed: false,
                emoji: None,
            },
        );
        f
    }

    /// Resolves the flow under `(other_user, flow)`, creating it in
    /// `Requested` when it is new: an inbound verification request names
    /// its own transaction id, and seeing it again must not reset the
    /// flow.
    pub fn create_remote(&mut self, other_user: UserId, flow: FlowId, other_device: Option<
        DeviceId,
    >)
        requires
            old(self).wf(),
            flow is Remote,
        ensures
            final(self).wf(),
            final(self).spec_next_local() == old(self).spec_next_local(),
            has_flow(final(self).flows(), other_user@, flow),
            final(self).flows() == spec_create_remote(
                old(self).flows(),
                other_user,
                flow,
                other_device,
            ),
    {
        match self.find(&other_user, &flow) {
            Some(i) => {
                proof {
                    Self::lemma_flow_idx_is(self.sessions@, other_user@, flow, i as int);
                }
            },
            None => {
                self.sessions.push(
                    VerificationSession {
                        other_user,
                        other_device,
                        flow,
                        phase: VerificationPhase::Requested,
                        remote_confirmed: false,
                        emoji: None,
                    },
                );
                proof {
                    assert(self.sessions@.drop_last() =~= old(self).sessions@);
                    let n = self.sessions@.len() - 1;
                    assert(self.sessions@[n].other_user@ == self.sessions@.last().other_user@);
                    assert(flow_eq(self.sessions@[n].flow, self.sessions@.last().flow));
                    assert forall|a: int, b: int|
                        #![trigger self.sessions@[a], self.sessions@[b]]
                        0 <= a < b < self.sessions@.len() implies !(self.sessions@[a].other_user@
                        == self.sessions@[b].other_user@ && flow_eq(
                        self.sessions@[a].flow,
                        self.sessions@[b].flow,
                    )) by {
                        if b < n {
                            assert(self.sessions@[a] == old(self).sessions@[a]);
                            assert(self.sessions@[b] == old(self).sessions@[b]);
                        } else {
                            assert(self.sessions@[a] == old(self).sessions@[a]);
                            assert(!(old(self).sessions@[a].other_user@ == other_user@ && flow_eq(
                                old(self).sessions@[a].flow,
                                flow,
                            )));
                        }
                    }
                }
            },
        }
    }

    /// The phase of a flow, or nothing for an absent flow.
    pub fn get_phase(&self, u: &UserId, f: &FlowId) -> (r: Option<VerificationPhase>)
        requires
            self.wf(),
        ensures
            r == spec_phase_of(self.flows(), u@, *f),
    {
        match self.find(u, f) {
            Some(i) => {
                proof {
                    Self::lemma_flow_idx_is(self.sessions@, u@, *f, i as int);
                }
                Some(self.sessions[i].phase)
            },
            None => None,
        }
    }

    /// Accepts the verification request of `(u, f)` and reports the new
    /// phase.  An absent flow is unknown; a flow whose phase does not
    /// admit accepting is an invalid transition; in both cases nothing
    /// changes.
    pub fn accept(&mut self, u: &UserId, f: &FlowId) -> (r: Result<VerificationPhase, CoreError>)
        requires
            old(self).wf(),
        ensures
            final(self).wf(),
            final(self).spec_next_local() == old(self).spec_next_local(),
            !has_flow(old(self).flows(), u@, *f) ==> r == Err::<VerificationPhase, CoreError>(
                CoreError::UnknownSession,
            ) && final(self).flows() == old(self).flows(),
            has_flow(old(self).flows(), u@, *f) ==> ({
                let i = flow_idx(old(self).flows(), u@, *f);
                let s = old(self).flows()[i];
                match step_accept(s.phase) {
                    Some(np) => r == Ok::<VerificationPhase, CoreError>(np) && final(self).flows()
                        == old(self).flows().update(
                        i,
                        (VerificationSession { phase: np, ..s }),
                    ),
                    None => r == Err::<VerificationPhase, CoreError>(CoreError::InvalidTransition)
                        && final(self).flows() == old(self).flows(),
                }
            }),
    {
        match self.find(u, f) {
            None => Err(CoreError::UnknownSession),
            Some(i) => {
                proof {
                    Self::lemma_flow_idx_is(self.sessions@, u@, *f, i as int);
                }
                let np = match self.sessions[i].phase {
                    VerificationPhase::Requested => VerificationPhase::Ready,
                    VerificationPhase::Ready => VerificationPhase::Ready,
                    _ => { return Err(CoreError::InvalidTransition) },
                };
                self.sessions[i].phase = np;
                Ok(np)
            },
        }
    }

    /// Starts the SAS exchange on `(u, f)` and reports the new phase; see
    /// `step_start_sas` for when this is admitted.
    pub fn start_sas(&mut self, u: &UserId, f: &FlowId) -> (r: Result<
        VerificationPhase,
        CoreError,
    >)
        requires
            old(self).wf(),
        ensures
            final(self).wf(),
            final(self).spec_next_local() == old(self).spec_next_local(),
            !has_flow(old(self).flows(), u@, *f) ==> r == Err::<VerificationPhase, CoreError>(
                CoreError::UnknownSession,
            ) && final(self).flows() == old(self).flows(),
            has_flow(old(self).flows(), u@, *f) ==> ({
                let i = flow_idx(old(self).flows(), u@, *f);
                let s = old(self).flows()[i];
                match step_start_sas(s.phase) {
                    Some(np) => r == Ok::<VerificationPhase, CoreError>(np) && final(self).flows()
                        == old(self).flows().update(
                        i,
                        (VerificationSession { phase: np, ..s }),
                    ),
                    None => r == Err::<VerificationPhase, CoreError>(CoreError::InvalidTransition)
                        && final(self).flows() == old(self).flows(),
                }
            }),
    {
        match self.find(u, f) {
            None => Err(CoreError::UnknownSession),
            Some(i) => {
                proof {
                    Self::lemma_flow_idx_is(self.sessions@, u@, *f, i as int);
                }
                let np = match self.sessions[i].phase {
                    VerificationPhase::Ready => VerificationPhase::Transitioned(SasPhase::Started),
                    _ => { return Err(CoreError::InvalidTransition) },
                };
                self.sessions[i].phase = np;
                Ok(np)
            },
        }
    }

    /// Accepts an inbound SAS start on `(u, f)` and reports the new phase;
    /// see `step_accept_sas` for when this is admitted.
    pub fn accept_sas(&mut self, u: &UserId, f: &FlowId) -> (r: Result<
        VerificationPhase,
        CoreError,
    >)
        requires
            old(self).wf(),
        ensures
            final(self).wf(),
            final(self).spec_next_local() == old(self).spec_next_local(),
            !has_flow(old(self).flows(), u@, *f) ==> r == Err::<VerificationPhase, CoreError>(
                CoreError::UnknownSession,
            ) && final(self).flows() == old(self).flows(),
            has_flow(old(self).flows(), u@, *f) ==> ({
                let i = flow_idx(old(self).flows(), u@, *f);
                let s = old(self).flows()[i];
                match step_accept_sas(s.phase) {
                    Some(np) => r == Ok::<VerificationPhase, CoreError>(np) && final(self).flows()
                        == old(self).flows().update(
                        i,
                        (VerificationSession { phase: np, ..s }),
                    ),
                    None => r == Err::<VerificationPhase, CoreError>(CoreError::InvalidTransition)
                        && final(self).flows() == old(self).flows(),
                }
            }),
    {
        match self.find(u, f) {
            None => Err(CoreError::UnknownSession),
            Some(i) => {
                proof {
                    Self::lemma_flow_idx_is(self.sessions@, u@, *f, i as int);
                }
                let np = match self.sessions[i].phase {
                    VerificationPhase::Transitioned(SasPhase::KeysExchanged) => (
                        VerificationPhase::Transitioned(SasPhase::Accepted)
                    ),
                    _ => { return Err(CoreError::InvalidTransition) },
                };
                self.sessions[i].phase = np;
                Ok(np)
            },
        }
    }

    /// Confirms the short authentication string on `(u, f)` and reports
    /// the new phase; when the remote party has already confirmed, the
    /// flow completes.  See `step_confirm`.
    pub fn confirm(&mut self, u: &UserId, f: &FlowId) -> (r: Result<VerificationPhase, CoreError>)
        requires
            old(self).wf(),
        ensures
            final(self).wf(),
            final(self).spec_next_local() == old(self).spec_next_local(),
            !has_flow(old(self).flows(), u@, *f) ==> r == Err::<VerificationPhase, CoreError>(
                CoreError::UnknownSession,
            ) && final(self).flows() == old(self).flows(),
            has_flow(old(self).flows(), u@, *f) ==> ({
                let i = flow_idx(old(self).flows(), u@, *f);
                let s = old(self).flows()[i];
                match step_confirm(s.phase, s.remote_confirmed) {
                    Some(np) => r == Ok::<VerificationPhase, CoreError>(np) && final(self).flows()
                        == old(self).flows().update(
                        i,
                        (VerificationSession { phase: np, ..s }),
                    ),
                    None => r == Err::<VerificationPhase, CoreError>(CoreError::InvalidTransition)
                        && final(self).flows() == old(self).flows(),
                }
            }),
    {
        match self.find(u, f) {
            None => Err(CoreError::UnknownSession),
            Some(i) => {
                proof {
                    Self::lemma_flow_idx_is(self.sessions@, u@, *f, i as int);
                }
                let np = match self.sessions[i].phase {
                    VerificationPhase::Transitioned(SasPhase::KeysExchanged) => {
                        if self.sessions[i].remote_confirmed {
                            VerificationPhase::Done
                        } else {
                            VerificationPhase::Transitioned(SasPhase::Confirmed)
                        }
                    },
                    _ => { return Err(CoreError::InvalidTransition) },
                };
                self.sessions[i].phase = np;
                Ok(np)
            },
        }
    }

    /// Cancels `(u, f)` with the given reason and reports the new phase;
    /// admitted from every non-terminal phase, and terminal thereafter.
    pub fn cancel(&mut self, u: &UserId, f: &FlowId, reason: CancelReason) -> (r: Result<
        VerificationPhase,
        CoreError,
    >)
        requires
            old(self).wf(),
        ensures
            final(self).wf(),
            final(self).spec_next_local() == old(self).spec_next_local(),
            !has_flow(old(self).flows(), u@, *f) ==> r == Err::<VerificationPhase, CoreError>(
                CoreError::UnknownSession,
            ) && final(self).flows() == old(self).flows(),
            has_flow(old(self).flows(), u@, *f) ==> ({
                let i = flow_idx(old(self).flows(), u@, *f);
                let s = old(self).flows()[i];
                match step_cancel(s.phase, reason) {
                    Some(np) => r == Ok::<VerificationPhase, CoreError>(np) && final(self).flows()
                        == old(self).flows().update(
                        i,
                        (VerificationSession { phase: np, ..s }),
                    ),
                    None => r == Err::<VerificationPhase, CoreError>(CoreError::InvalidTransition)
                        && final(self).flows() == old(self).flows(),
                }
            }),
    {
        match self.find(u, f) {
            None => Err(CoreError::UnknownSession),
            Some(i) => {
                proof {
                    Self::lemma_flow_idx_is(self.sessions@, u@, *f, i as int);
                }
                let terminal = match self.sessions[i].phase {
                    VerificationPhase::Done => true,
                    VerificationPhase::Cancelled(_) => true,
                    _ => false,
                };
                if terminal {
                    return Err(CoreError::InvalidTransition);
                }
                let np = VerificationPhase::Cancelled(reason);
                self.sessions[i].phase = np;
                Ok(np)
            },
        }
    }

    /// Applies a remote event to `(u, f)` and reports the new phase; see
    /// `step_remote`.  The comparison artifact of a completed key exchange
    /// is stored on the flow.
    pub fn process_remote(&mut self, u: &UserId, f: &FlowId, ev: RemoteEvent) -> (r: Result<
        VerificationPhase,
        CoreError,
    >)
        requires
            old(self).wf(),
        ensures
            final(self).wf(),
            final(self).spec_next_local() == old(self).spec_next_local(),
            !has_flow(old(self).flows(), u@, *f) ==> r == Err::<VerificationPhase, CoreError>(
                CoreError::UnknownSession,
            ) && final(self).flows() == old(self).flows(),
            has_flow(old(self).flows(), u@, *f) ==> ({
                let i = flow_idx(old(self).flows(), u@, *f);
                let s = old(self).flows()[i];
                match step_remote(s.phase, s.remote_confirmed, ev) {
                    Some(np) => r == Ok::<VerificationPhase, CoreError>(np.0)
                        && final(self).flows() == old(self).flows().update(
                        i,
                        (VerificationSession {
                            phase: np.0,
                            remote_confirmed: np.1,
                            emoji: (match ev {
                                RemoteEvent::KeysExchanged(em) => Some(em),
                                _ => s.emoji,
                            }),
                            ..s
                        }),
                    ),
                    None => r == Err::<VerificationPhase, CoreError>(CoreError::InvalidTransition)
                        && final(self).flows() == old(self).flows(),
                }
            }),
    {
        match self.find(u, f) {
            None => Err(CoreError::UnknownSession),
            Some(i) => {
                proof {
                    Self::lemma_flow_idx_is(self.sessions@, u@, *f, i as int);
                }
                let p = self.sessions[i].phase;
                let rc = self.sessions[i].remote_confirmed;
                match ev {
                    RemoteEvent::Responded => {
                        match p {
                            VerificationPhase::Created => {
                                self.sessions[i].phase = VerificationPhase::Requested;
                                Ok(VerificationPhase::Requested)
                            },
                            _ => Err(CoreError::InvalidTransition),
                        }
                    },
                    RemoteEvent::SasStarted => {
                        match p {
                            VerificationPhase::Ready => {
                                let np = VerificationPhase::Transitioned(SasPhase::Started);
                                self.sessions[i].phase = np;
                                Ok(np)
                            },
                            _ => Err(CoreError::InvalidTransition),
                        }
                    },
                    RemoteEvent::SasAccepted => {
                        match p {
                            VerificationPhase::Transitioned(SasPhase::Started) => {
                                let np = VerificationPhase::Transitioned(SasPhase::Accepted);
                                self.sessions[i].phase = np;
                                Ok(np)
                            },
                            _ => Err(CoreError::InvalidTransition),
                        }
                    },
                    RemoteEvent::KeysExchanged(em) => {
                        match p {
                            VerificationPhase::Transitioned(SasPhase::Accepted) => {
                                let np = VerificationPhase::Transitioned(SasPhase::KeysExchanged);
                                self.sessions[i].phase = np;
                                self.sessions[i].emoji = Some(em);
                                Ok(np)
                            },
                            _ => Err(CoreError::InvalidTransition),
                        }
                    },
                    RemoteEvent::RemoteConfirmed => {
                        match p {
                            VerificationPhase::Transitioned(SasPhase::KeysExchanged) => {
                                self.sessions[i].remote_confirmed = true;
                                Ok(VerificationPhase::Transitioned(SasPhase::KeysExchanged))
                            },
                            VerificationPhase::Transitioned(SasPhase::Confirmed) => {
                                self.sessions[i].phase = VerificationPhase::Done;
                                self.sessions[i].remote_confirmed = true;
                                Ok(VerificationPhase::Done)
                            },
                            _ => Err(CoreError::InvalidTransition),
                        }
                    },
                    RemoteEvent::RemoteCancelled(reason) => {
                        let terminal = match p {
                            VerificationPhase::Done => true,
                            VerificationPhase::Cancelled(_) => true,
                            _ => false,
                        };
                        if terminal {
                            Err(CoreError::InvalidTransition)
                        } else {
                            let np = VerificationPhase::Cancelled(reason);
                            self.sessions[i].phase = np;
                            Ok(np)
                        }
                    },
                }
            },
        }
    }


    /// The remote party and device of the flow under `(u, f)`, if the
    /// flow exists.
    pub fn session_parties(&self, u: &UserId, f: &FlowId) -> (r: Option<(UserId, Option<DeviceId>)>)
        requires
            self.wf(),
        ensures
            !has_flow(self.flows(), u@, *f) ==> r is None,
            has_flow(self.flows(), u@, *f) ==> ({
                let s = self.flows()[flow_idx(self.flows(), u@, *f)];
                r matches Some(p) && p.0 == s.other_user && p.1 == s.other_device
            }),
    {
        match self.find(u, f) {
            None => None,
            Some(i) => {
                proof {
                    Self::lemma_flow_idx_is(self.sessions@, u@, *f, i as int);
                }
                let d = match &self.sessions[i].other_device {
                    Some(dev) => Some(dev.clone()),
                    None => None,
                };
                Some((self.sessions[i].other_user.clone(), d))
            },
        }
    }

    /// Creates an in-room flow in `Created`, keyed by the request event's
    /// own identifier.  An identifier already in use is rejected, since an
    /// in-room request event is sent exactly once.
    pub fn create_in_room(&mut self, other_user: UserId, flow: FlowId) -> (r: Result<
        (),
        CoreError,
    >)
        requires
            old(self).wf(),
            flow is Remote,
        ensures
            final(self).wf(),
            final(self).spec_next_local() == old(self).spec_next_local(),
            has_flow(old(self).flows(), other_user@, flow) ==> r == Err::<(), CoreError>(
                CoreError::Validation,
            ) && final(self).flows() == old(self).flows(),
            !has_flow(old(self).flows(), other_user@, flow) ==> r == Ok::<(), CoreError>(())
                && final(self).flows() == old(self).flows().push(
                (VerificationSession {
                    other_user,
                    other_device: None,
                    flow,
                    phase: VerificationPhase::Created,
                    remote_confirmed: false,
                    emoji: None,
                }),
            ),
    {
        match self.find(&other_user, &flow) {
            Some(i) => {
                proof {
                    Self::lemma_flow_idx_is(self.sessions@, other_user@, flow, i as int);
                }
                Err(CoreError::Validation)
            },
            None => {
                self.sessions.push(
                    VerificationSession {
                        other_user,
                        other_device: None,
                        flow,
                        phase: VerificationPhase::Created,
                        remote_confirmed: false,
                        emoji: None,
                    },
                );
                Ok(())
            },
        }
    }

    /// The ordered comparison artifact of `(u, f)`.  It may be requested
    /// exactly while the flow stands at `Transitioned(KeysExchanged)`:
    /// an absent flow is unknown, any other phase is an invalid
    /// transition, and no empty list is ever returned silently.
    pub fn sas_emoji(&self, u: &UserId, f: &FlowId) -> (r: Result<Vec<Emoji>, CoreError>)
        requires
            self.wf(),
        ensures
            !has_flow(self.flows(), u@, *f) ==> r == Err::<Vec<Emoji>, CoreError>(
                CoreError::UnknownSession,
            ),
            has_flow(self.flows(), u@, *f) ==> ({
                let s = self.flows()[flow_idx(self.flows(), u@, *f)];
                if s.phase == VerificationPhase::Transitioned(SasPhase::KeysExchanged) {
                    r matches Ok(v) && v@ == emoji_view(s)
                } else {
                    r == Err::<Vec<Emoji>, CoreError>(CoreError::InvalidTransition)
                }
            }),
    {
        match self.find(u, f) {
            None => Err(CoreError::UnknownSession),
            Some(i) => {
                proof {
                    Self::lemma_flow_idx_is(self.sessions@, u@, *f, i as int);
                }
                match self.sessions[i].phase {
                    VerificationPhase::Transitioned(SasPhase::KeysExchanged) => {
                        match &self.sessions[i].emoji {
                            None => Ok(Vec::new()),
                            Some(stored) => {
                                let mut v: Vec<Emoji> = Vec::new();
                                let mut k: usize = 0;
                                while k < stored.len()
                                    invariant
                                        k <= stored@.len(),
                                        v@ == stored@.subrange(0, k as int),
                                    decreases stored@.len() - k,
                                {
                                    v.push(stored[k].clone());
                                    proof {
                                        assert(v@ =~= stored@.subrange(0, k + 1));
                                    }
                                    k = k + 1;
                                }
                                proof {
                                    assert(v@ =~= stored@);
                                }
                                Ok(v)
                            },
                        }
                    },
                    _ => Err(CoreError::InvalidTransition),
                }
            },
        }
    }
}

} // verus!
