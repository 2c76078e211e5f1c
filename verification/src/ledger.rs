use vstd::prelude::*;
use crate::errors::CoreError;
use crate::requests::{req_equiv, req_kind, resp_kind, AckResponse, OutgoingRequest};

verus! {

/// One not-yet-acknowledged outgoing request, under the identifier the
/// ledger assigned to it at creation time.
pub struct PendingRequest {
    pub id: u64,
    pub request: OutgoingRequest,
}

impl Clone for PendingRequest {
    fn clone(&self) -> (r: Self)
        ensures
            r.id == self.id,
            req_equiv(r.request, self.request),
    {
        PendingRequest { id: self.id, request: self.request.clone() }
    }
}

/// Does the pending set hold an entry under `id`?
pub open spec fn contains_id(s: Seq<PendingRequest>, id: u64) -> bool {
    exists|i: int| 0 <= i < s.len() && #[trigger] s[i].id == id
}

/// The ledger of all pending outgoing requests.  A request lives here from
/// its creation until exactly one acknowledgment is recorded for its
/// identifier; identifiers are assigned from a counter and never collide
/// with a still-pending one.
pub struct RequestLedger {
    next_id: u64,
    entries: Vec<PendingRequest>,
}

impl View for RequestLedger {
    type V = Seq<PendingRequest>;

    closed spec fn view(&self) -> Seq<PendingRequest> {
        self.entries@
    }
}

impl RequestLedger {
    /// The identifier the next enqueued request will receive.
    pub closed spec fn spec_next(&self) -> u64 {
        self.next_id
    }

    /// Identifiers grow strictly along the pending sequence and stay below
    /// the counter, so they are pairwise distinct and never reassigned.
    pub closed spec fn wf(&self) -> bool {
        &&& forall|i: int, j: int|
            0 <= i < j < self.entries@.len() ==> #[trigger] self.entries@[i].id
                < #[trigger] self.entries@[j].id
        &&& forall|i: int|
            0 <= i < self.entries@.len() ==> #[trigger] self.entries@[i].id < self.next_id
    }

    /// A fresh ledger: nothing pending, identifiers starting at zero.
    pub fn new() -> (l: RequestLedger)
        ensures
            l.wf(),
            l@ == Seq::<PendingRequest>::empty(),
            l.spec_next() == 0,
    {
        RequestLedger { next_id: 0, entries: Vec::new() }
    }

    pub fn pending_count(&self) -> (r: usize)
        ensures
            r == self@.len(),
    {
        self.entries.len()
    }

    pub fn next_id_value(&self) -> (r: u64)
        ensures
            r == self.spec_next(),
    {
        self.next_id
    }

    /// Inserts a new pending request and returns its identifier, which
    /// differs from every identifier still pending.
    pub fn enqueue(&mut self, request: OutgoingRequest) -> (id: u64)
        requires
            old(self).wf(),
            old(self).spec_next() < u64::MAX,
        ensures
            final(self).wf(),
            id == old(self).spec_next(),
            final(self).spec_next() == id + 1,
            final(self)@ == old(self)@.push((PendingRequest { id, request })),
            forall|i: int| 0 <= i < old(self)@.len() ==> #[trigger] old(self)@[i].id != id,
    {
        let id = self.next_id;
        self.next_id = self.next_id + 1;
        self.entries.push(PendingRequest { id, request });
        id
    }

    /// A snapshot of everything currently pending, in enqueue order.  The
    /// ledger itself is not changed.
    pub fn drain_pending(&self) -> (r: Vec<PendingRequest>)
        ensures
            r@.len() == self@.len(),
            forall|i: int|
                0 <= i < self@.len() ==> #[trigger] r@[i].id == self@[i].id && req_equiv(
                    r@[i].request,
                    self@[i].request,
                ),
    {
        let mut r: Vec<PendingRequest> = Vec::new();
        let mut i: usize = 0;
        while i < self.entries.len()
            invariant
                i <= self.entries@.len(),
                r@.len() == i,
                forall|j: int|
                    0 <= j < i ==> #[trigger] r@[j].id == self.entries@[j].id && req_equiv(
                        r@[j].request,
                        self.entries@[j].request,
                    ),
            decreases self.entries@.len() - i,
        {
            r.push(self.entries[i].clone());
            i = i + 1;
        }
        r
    }

    /// The position of `id` in the pending sequence, if it is pending.
    fn find(&self, id: u64) -> (r: Option<usize>)
        ensures
            r matches Some(i) ==> 0 <= i < self@.len() && self@[i as int].id == id,
            r is None ==> !contains_id(self@, id),
    {
        let mut i: usize = 0;
        while i < self.entries.len()
            invariant
                i <= self.entries@.len(),
                forall|j: int| 0 <= j < i ==> #[trigger] self.entries@[j].id != id,
            decreases self.entries@.len() - i,
        {
            if self.entries[i].id == id {
                return Some(i);
            }
            i = i + 1;
        }
        None
    }

    /// Removes the request pending under `id` and hands it back so the
    /// caller can forward `(id, response)` to the cryptographic engine.
    ///
    /// An identifier that is not pending is refused as unknown; a response
    /// payload whose shape does not match the request's kind is refused as
    /// malformed.  In both cases the pending set is left exactly as it was.
    pub fn acknowledge(&mut self, id: u64, response: &AckResponse) -> (r: Result<
        OutgoingRequest,
        CoreError,
    >)
        requires
            old(self).wf(),
        ensures
            final(self).wf(),
            final(self).spec_next() == old(self).spec_next(),
            !contains_id(old(self)@, id) ==> r == Err::<OutgoingRequest, CoreError>(
                CoreError::UnknownRequest,
            ) && final(self)@ == old(self)@,
            contains_id(old(self)@, id) ==> ({
                let i = choose|i: int| 0 <= i < old(self)@.len() && #[trigger] old(self)@[i].id == id;
                if resp_kind(*response) == req_kind(old(self)@[i].request) {
                    &&& r matches Ok(req) && req == old(self)@[i].request
                    &&& final(self)@ == old(self)@.remove(i)
                } else {
                    &&& r == Err::<OutgoingRequest, CoreError>(CoreError::MalformedResponse)
                    &&& final(self)@ == old(self)@
                }
            }),
    {
        match self.find(id) {
            None => Err(CoreError::UnknownRequest),
            Some(i) => {
                proof {
                    let k = choose|k: int|
                        0 <= k < self.entries@.len() && #[trigger] self.entries@[k].id == id;
                    if k < i as int {
                        assert(self.entries@[k].id < self.entries@[i as int].id);
                    }
                    if (i as int) < k {
                        assert(self.entries@[i as int].id < self.entries@[k].id);
                    }
                    assert(k == i as int);
                }
                let matches_kind = match (&self.entries[i].request, response) {
                    (OutgoingRequest::KeysUpload { .. }, AckResponse::KeysUpload { .. }) => true,
                    (OutgoingRequest::KeysQuery { .. }, AckResponse::KeysQuery { .. }) => true,
                    (OutgoingRequest::KeysClaim { .. }, AckResponse::KeysClaim { .. }) => true,
                    (OutgoingRequest::ToDevice { .. }, AckResponse::ToDevice) => true,
                    (
                        OutgoingRequest::SignatureUpload { .. },
                        AckResponse::SignatureUpload { .. },
                    ) => true,
                    (OutgoingRequest::RoomMessage { .. }, AckResponse::RoomMessage { .. }) => true,
                    (OutgoingRequest::KeysBackup { .. }, AckResponse::KeysBackup { .. }) => true,
                    _ => false,
                };
                if matches_kind {
                    let req = self.entries.remove(i);
                    Ok(req.request)
                } else {
                    Err(CoreError::MalformedResponse)
                }
            },
        }
    }

    /// Every pending identifier occurs exactly once: no identifier is
    /// reused while it is still pending.
    pub proof fn lemma_pending_ids_distinct(&self)
        requires
            self.wf(),
        ensures
            forall|i: int, j: int|
                0 <= i < j < self@.len() ==> #[trigger] self@[i].id != #[trigger] self@[j].id,
    {
    }
}

} // verus!
