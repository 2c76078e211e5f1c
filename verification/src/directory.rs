use vstd::prelude::*;
use crate::ids::{DeviceId, RoomId, UserId};
use crate::requests::{best_algorithm, spec_best_algorithm, AlgorithmSet, ClaimEntry, QueriedDevice};

verus! {

/// What the planner knows of one remote device: who owns it, which one-time
/// key algorithms it offers, whether a one-to-one session with it is
/// established, and whether it has been interactively verified.
pub struct DeviceRecord {
    pub user: UserId,
    pub device: DeviceId,
    pub algorithms: AlgorithmSet,
    pub has_session: bool,
    pub verified: bool,
}

impl Clone for DeviceRecord {
    fn clone(&self) -> (r: Self)
        ensures
            r == *self,
    {
        DeviceRecord {
            user: self.user.clone(),
            device: self.device.clone(),
            algorithms: self.algorithms,
            has_session: self.has_session,
            verified: self.verified,
        }
    }
}

/// One room with a live group session, at its current key epoch.
pub struct RoomMeta {
    pub room: RoomId,
    pub epoch: u64,
}

/// The fact that one device has received the group-session key of one room
/// at one epoch.
pub struct SharedRecord {
    pub room: RoomId,
    pub user: UserId,
    pub device: DeviceId,
    pub epoch: u64,
}

impl Clone for SharedRecord {
    fn clone(&self) -> (r: Self)
        ensures
            r == *self,
    {
        SharedRecord {
            room: self.room.clone(),
            user: self.user.clone(),
            device: self.device.clone(),
            epoch: self.epoch,
        }
    }
}

/// Is the user with view `u` one of `users`?
pub open spec fn user_in(users: Seq<UserId>, u: Seq<char>) -> bool {
    exists|i: int| 0 <= i < users.len() && #[trigger] users[i]@ == u
}

/// Is a device with key `(u, d)` on record?
pub open spec fn has_device(devs: Seq<DeviceRecord>, u: Seq<char>, d: Seq<char>) -> bool {
    exists|i: int|
        0 <= i < devs.len() && #[trigger] devs[i].user@ == u && #[trigger] devs[i].device@ == d
}

/// The position of the device with key `(u, d)`; meaningful only when
/// `has_device` holds and the records are unique by key.
pub open spec fn dev_idx(devs: Seq<DeviceRecord>, u: Seq<char>, d: Seq<char>) -> int {
    choose|i: int|
        0 <= i < devs.len() && #[trigger] devs[i].user@ == u && #[trigger] devs[i].device@ == d
}

/// No two records name the same (user, device) pair.
pub open spec fn devices_unique(devs: Seq<DeviceRecord>) -> bool {
    forall|i: int, j: int|
        #![trigger devs[i], devs[j]]
        0 <= i < j < devs.len() ==> !(devs[i].user@ == devs[j].user@ && devs[i].device@
            == devs[j].device@)
}

/// Is a room with view `r` on record?
pub open spec fn has_room(rooms: Seq<RoomMeta>, r: Seq<char>) -> bool {
    exists|i: int| 0 <= i < rooms.len() && #[trigger] rooms[i].room@ == r
}

/// The position of room `r`; meaningful only when `has_room` holds and the
/// rooms are unique.
pub open spec fn room_idx(rooms: Seq<RoomMeta>, r: Seq<char>) -> int {
    choose|i: int| 0 <= i < rooms.len() && #[trigger] rooms[i].room@ == r
}

/// The current key epoch of room `r`; meaningful only when `has_room`
/// holds.
pub open spec fn epoch_of(rooms: Seq<RoomMeta>, r: Seq<char>) -> u64 {
    rooms[room_idx(rooms, r)].epoch
}

/// No two records name the same room.
pub open spec fn rooms_unique(rooms: Seq<RoomMeta>) -> bool {
    forall|i: int, j: int|
        #![trigger rooms[i], rooms[j]]
        0 <= i < j < rooms.len() ==> rooms[i].room@ != rooms[j].room@
}

/// Has device `(u, d)` received the key of `room` at epoch `e`?
pub open spec fn spec_is_shared(
    shared: Seq<SharedRecord>,
    room: Seq<char>,
    u: Seq<char>,
    d: Seq<char>,
    e: u64,
) -> bool {
    exists|i: int|
        0 <= i < shared.len() && #[trigger] shared[i].room@ == room && #[trigger] shared[i].user@
            == u && shared[i].device@ == d && shared[i].epoch == e
}

/// A device the planner must still claim a one-time key for: no session
/// yet, and at least one algorithm to claim with.
pub open spec fn device_missing(r: DeviceRecord) -> bool {
    !r.has_session && spec_best_algorithm(r.algorithms) is Some
}

/// The consolidated claim plan for `users`: one entry per known device of a
/// listed user that lacks a session, each with the most preferred offered
/// algorithm, in record order.
pub open spec fn spec_missing_plan(devs: Seq<DeviceRecord>, users: Seq<UserId>) -> Seq<ClaimEntry>
    decreases devs.len(),
{
    if devs.len() == 0 {
        Seq::empty()
    } else {
        let rest = spec_missing_plan(devs.drop_last(), users);
        let r = devs.last();
        if user_in(users, r.user@) && !r.has_session {
            match spec_best_algorithm(r.algorithms) {
                Some(a) => rest.push((ClaimEntry { user: r.user, device: r.device, algorithm: a })),
                None => rest,
            }
        } else {
            rest
        }
    }
}

/// The share plan for one room at epoch `e`: one entry per known device of
/// a listed user that has a session and has not yet received this epoch's
/// key, in record order.
pub open spec fn spec_share_plan(
    devs: Seq<DeviceRecord>,
    users: Seq<UserId>,
    shared: Seq<SharedRecord>,
    rm: RoomId,
    e: u64,
) -> Seq<SharedRecord>
    decreases devs.len(),
{
    if devs.len() == 0 {
        Seq::empty()
    } else {
        let rest = spec_share_plan(devs.drop_last(), users, shared, rm, e);
        let r = devs.last();
        if user_in(users, r.user@) && r.has_session && !spec_is_shared(
            shared,
            rm@,
            r.user@,
            r.device@,
            e,
        ) {
            rest.push((SharedRecord { room: rm, user: r.user, device: r.device, epoch: e }))
        } else {
            rest
        }
    }
}

/// Recording a queried device: refresh the algorithms of an existing record
/// (its session and verification standing are kept), or append a fresh
/// record with no session and no verification.
pub open spec fn spec_record_device(devs: Seq<DeviceRecord>, q: QueriedDevice) -> Seq<
    DeviceRecord,
> {
    if has_device(devs, q.user@, q.device@) {
        let i = dev_idx(devs, q.user@, q.device@);
        devs.update(
            i,
            (DeviceRecord {
                user: devs[i].user,
                device: devs[i].device,
                algorithms: q.algorithms,
                has_session: devs[i].has_session,
                verified: devs[i].verified,
            }),
        )
    } else {
        devs.push(
            (DeviceRecord {
                user: q.user,
                device: q.device,
                algorithms: q.algorithms,
                has_session: false,
                verified: false,
            }),
        )
    }
}

/// Marking a session established for `(u, d)`; unknown devices are left for
/// a later query to introduce.
pub open spec fn spec_set_session(devs: Seq<DeviceRecord>, u: Seq<char>, d: Seq<char>) -> Seq<
    DeviceRecord,
> {
    if has_device(devs, u, d) {
        let i = dev_idx(devs, u, d);
        devs.update(
            i,
            (DeviceRecord {
                user: devs[i].user,
                device: devs[i].device,
                algorithms: devs[i].algorithms,
                has_session: true,
                verified: devs[i].verified,
            }),
        )
    } else {
        devs
    }
}

/// Marking `(u, d)` interactively verified, introducing a bare record when
/// the device is not yet known.
pub open spec fn spec_mark_verified(devs: Seq<DeviceRecord>, u: UserId, d: DeviceId) -> Seq<
    DeviceRecord,
> {
    if has_device(devs, u@, d@) {
        let i = dev_idx(devs, u@, d@);
        devs.update(
            i,
            (DeviceRecord {
                user: devs[i].user,
                device: devs[i].device,
                algorithms: devs[i].algorithms,
                has_session: devs[i].has_session,
                verified: true,
            }),
        )
    } else {
        devs.push(
            (DeviceRecord {
                user: u,
                device: d,
                algorithms: AlgorithmSet { signed_curve: false, curve: false },
                has_session: false,
                verified: true,
            }),
        )
    }
}

/// Is `(u, d)` verified?
pub open spec fn spec_is_verified(devs: Seq<DeviceRecord>, u: Seq<char>, d: Seq<char>) -> bool {
    exists|i: int|
        0 <= i < devs.len() && #[trigger] devs[i].user@ == u && #[trigger] devs[i].device@ == d
            && devs[i].verified
}

/// Clearing a departed user: each of their records loses its algorithms,
/// session and verification standing, so nothing is planned for them and
/// nothing remains trusted; records of other users are untouched.
pub open spec fn spec_clear_user(devs: Seq<DeviceRecord>, u: Seq<char>) -> Seq<DeviceRecord> {
    Seq::new(
        devs.len(),
        |i: int|
            if devs[i].user@ == u {
                DeviceRecord {
                    user: devs[i].user,
                    device: devs[i].device,
                    algorithms: AlgorithmSet { signed_curve: false, curve: false },
                    has_session: false,
                    verified: false,
                }
            } else {
                devs[i]
            },
    )
}

/// The watched set after adding `users`, keeping first occurrences only.
pub open spec fn spec_add_watched(watched: Seq<UserId>, users: Seq<UserId>) -> Seq<UserId>
    decreases users.len(),
{
    if users.len() == 0 {
        watched
    } else {
        let t = spec_add_watched(watched, users.drop_last());
        if user_in(t, users.last()@) {
            t
        } else {
            t.push(users.last())
        }
    }
}

/// The members of `users` that were not yet watched, in order of first
/// occurrence.
pub open spec fn spec_fresh_watched(watched: Seq<UserId>, users: Seq<UserId>) -> Seq<UserId>
    decreases users.len(),
{
    if users.len() == 0 {
        Seq::empty()
    } else {
        let f = spec_fresh_watched(watched, users.drop_last());
        if user_in(spec_add_watched(watched, users.drop_last()), users.last()@) {
            f
        } else {
            f.push(users.last())
        }
    }
}

/// The watched set with user `u` removed.
pub open spec fn spec_users_without(list: Seq<UserId>, u: Seq<char>) -> Seq<UserId>
    decreases list.len(),
{
    if list.len() == 0 {
        Seq::empty()
    } else {
        let rest = spec_users_without(list.drop_last(), u);
        if list.last()@ == u {
            rest
        } else {
            rest.push(list.last())
        }
    }
}


/// A sharing fact holds in any extension of the shared set.
pub proof fn lemma_shared_grows(
    s1: Seq<SharedRecord>,
    s2: Seq<SharedRecord>,
    room: Seq<char>,
    u: Seq<char>,
    d: Seq<char>,
    e: u64,
)
    requires
        spec_is_shared(s1, room, u, d, e),
    ensures
        spec_is_shared(s1 + s2, room, u, d, e),
{
    let i = choose|i: int|
        0 <= i < s1.len() && #[trigger] s1[i].room@ == room && #[trigger] s1[i].user@ == u
            && s1[i].device@ == d && s1[i].epoch == e;
    assert((s1 + s2)[i] == s1[i]);
}

/// A sharing fact of the appended part holds in the whole.
pub proof fn lemma_shared_in_suffix(
    s1: Seq<SharedRecord>,
    s2: Seq<SharedRecord>,
    room: Seq<char>,
    u: Seq<char>,
    d: Seq<char>,
    e: u64,
)
    requires
        spec_is_shared(s2, room, u, d, e),
    ensures
        spec_is_shared(s1 + s2, room, u, d, e),
{
    let i = choose|i: int|
        0 <= i < s2.len() && #[trigger] s2[i].room@ == room && #[trigger] s2[i].user@ == u
            && s2[i].device@ == d && s2[i].epoch == e;
    assert((s1 + s2)[s1.len() + i] == s2[i]);
}

/// Every device that qualifies for a share plan comes out shared by that
/// plan.
pub proof fn lemma_plan_covers(
    devs: Seq<DeviceRecord>,
    users: Seq<UserId>,
    shared: Seq<SharedRecord>,
    rm: RoomId,
    e: u64,
    i: int,
)
    requires
        0 <= i < devs.len(),
        user_in(users, devs[i].user@),
        devs[i].has_session,
        !spec_is_shared(shared, rm@, devs[i].user@, devs[i].device@, e),
    ensures
        spec_is_shared(
            spec_share_plan(devs, users, shared, rm, e),
            rm@,
            devs[i].user@,
            devs[i].device@,
            e,
        ),
    decreases devs.len(),
{
    let plan = spec_share_plan(devs, users, shared, rm, e);
    let rest = spec_share_plan(devs.drop_last(), users, shared, rm, e);
    if i == devs.len() - 1 {
        assert(devs.last() == devs[i]);
        assert(plan == rest.push(
            (SharedRecord { room: rm, user: devs[i].user, device: devs[i].device, epoch: e }),
        ));
        assert(plan[plan.len() - 1].room@ == rm@ && plan[plan.len() - 1].user@ == devs[i].user@
            && plan[plan.len() - 1].device@ == devs[i].device@ && plan[plan.len() - 1].epoch == e);
    } else {
        assert(devs.drop_last()[i] == devs[i]);
        lemma_plan_covers(devs.drop_last(), users, shared, rm, e, i);
        let k = choose|k: int|
            0 <= k < rest.len() && #[trigger] rest[k].room@ == rm@ && #[trigger] rest[k].user@
                == devs[i].user@ && rest[k].device@ == devs[i].device@ && rest[k].epoch == e;
        assert(plan[k] == rest[k]);
    }
}

/// When every qualifying device already holds the key, the plan is empty.
pub proof fn lemma_plan_empty_when_covered(
    devs: Seq<DeviceRecord>,
    users: Seq<UserId>,
    shared: Seq<SharedRecord>,
    rm: RoomId,
    e: u64,
)
    requires
        forall|i: int|
            0 <= i < devs.len() && user_in(users, #[trigger] devs[i].user@) && devs[i].has_session
                ==> spec_is_shared(shared, rm@, devs[i].user@, devs[i].device@, e),
    ensures
        spec_share_plan(devs, users, shared, rm, e) == Seq::<SharedRecord>::empty(),
    decreases devs.len(),
{
    if devs.len() > 0 {
        assert(forall|i: int|
            0 <= i < devs.drop_last().len() ==> #[trigger] devs.drop_last()[i] == devs[i]);
        lemma_plan_empty_when_covered(devs.drop_last(), users, shared, rm, e);
        assert(devs.last() == devs[devs.len() - 1]);
    }
}

/// No redundant resend: once a share plan for `users1` is on record, a
/// second share of the same room and epoch for users among `users1` plans
/// nothing.
pub proof fn lemma_no_redundant_reshare(
    devs: Seq<DeviceRecord>,
    users1: Seq<UserId>,
    users2: Seq<UserId>,
    shared: Seq<SharedRecord>,
    rm: RoomId,
    e: u64,
)
    requires
        forall|i: int| 0 <= i < users2.len() ==> user_in(users1, #[trigger] users2[i]@),
    ensures
        spec_share_plan(
            devs,
            users2,
            shared + spec_share_plan(devs, users1, shared, rm, e),
            rm,
            e,
        ) == Seq::<SharedRecord>::empty(),
{
    let plan1 = spec_share_plan(devs, users1, shared, rm, e);
    let combined = shared + plan1;
    assert forall|i: int|
        0 <= i < devs.len() && user_in(users2, #[trigger] devs[i].user@)
            && devs[i].has_session implies spec_is_shared(
        combined,
        rm@,
        devs[i].user@,
        devs[i].device@,
        e,
    ) by {
        let j = choose|j: int| 0 <= j < users2.len() && #[trigger] users2[j]@ == devs[i].user@;
        assert(user_in(users1, users2[j]@));
        if spec_is_shared(shared, rm@, devs[i].user@, devs[i].device@, e) {
            lemma_shared_grows(shared, plan1, rm@, devs[i].user@, devs[i].device@, e);
        } else {
            lemma_plan_covers(devs, users1, shared, rm, e, i);
            lemma_shared_in_suffix(shared, plan1, rm@, devs[i].user@, devs[i].device@, e);
        }
    }
    lemma_plan_empty_when_covered(devs, users2, combined, rm, e);
}

/// The planner's model of the remote world: the devices it knows, the rooms
/// with a live group session, which devices have received which room key
/// epoch, and which users are watched for key queries.
///
/// The cryptographic engine owns the key material itself; this directory
/// only mirrors the facts the planner needs, fed exclusively by
/// acknowledgments and sync changes.
pub struct SessionDirectory {
    devices: Vec<DeviceRecord>,
    rooms: Vec<RoomMeta>,
    shared: Vec<SharedRecord>,
    watched: Vec<UserId>,
}

impl SessionDirectory {
    pub closed spec fn dev_seq(&self) -> Seq<DeviceRecord> {
        self.devices@
    }

    pub closed spec fn room_seq(&self) -> Seq<RoomMeta> {
        self.rooms@
    }

    pub closed spec fn shared_seq(&self) -> Seq<SharedRecord> {
        self.shared@
    }

    pub closed spec fn watched_seq(&self) -> Seq<UserId> {
        self.watched@
    }

    pub closed spec fn wf(&self) -> bool {
        devices_unique(self.devices@) && rooms_unique(self.rooms@)
    }

    pub fn new() -> (d: SessionDirectory)
        ensures
            d.wf(),
            d.dev_seq() == Seq::<DeviceRecord>::empty(),
            d.room_seq() == Seq::<RoomMeta>::empty(),
            d.shared_seq() == Seq::<SharedRecord>::empty(),
            d.watched_seq() == Seq::<UserId>::empty(),
    {
        SessionDirectory {
            devices: Vec::new(),
            rooms: Vec::new(),
            shared: Vec::new(),
            watched: Vec::new(),
        }
    }

    /// The position of the record for `(u, d)`, if any.
    fn find_device(&self, u: &UserId, d: &DeviceId) -> (r: Option<usize>)
        ensures
            r matches Some(i) ==> 0 <= i < self.dev_seq().len() && self.dev_seq()[i as int].user@
                == u@ && self.dev_seq()[i as int].device@ == d@,
            r is None ==> !has_device(self.dev_seq(), u@, d@),
    {
        let mut i: usize = 0;
        while i < self.devices.len()
            invariant
                i <= self.devices@.len(),
                forall|j: int|
                    0 <= j < i ==> !(#[trigger] self.devices@[j].user@ == u@
                        && self.devices@[j].device@ == d@),
            decreases self.devices@.len() - i,
        {
            if self.devices[i].user.same_as(u) && self.devices[i].device.same_as(d) {
                return Some(i);
            }
            i = i + 1;
        }
        None
    }

    /// With unique records, the chosen index for a key is the index of any
    /// record carrying that key.
    proof fn lemma_dev_idx_is(devs: Seq<DeviceRecord>, u: Seq<char>, d: Seq<char>, i: int)
        requires
            devices_unique(devs),
            0 <= i < devs.len(),
            devs[i].user@ == u,
            devs[i].device@ == d,
        ensures
            has_device(devs, u, d),
            dev_idx(devs, u, d) == i,
    {
        assert(has_device(devs, u, d));
        let k = dev_idx(devs, u, d);
        if k < i {
            assert(!(devs[k].user@ == devs[i].user@ && devs[k].device@ == devs[i].device@));
        }
        if i < k {
            assert(!(devs[i].user@ == devs[k].user@ && devs[i].device@ == devs[k].device@));
        }
    }

    /// Records what a key query reported of one device.
    pub fn record_device(&mut self, q: QueriedDevice)
        requires
            old(self).wf(),
        ensures
            final(self).wf(),
            final(self).dev_seq() == spec_record_device(old(self).dev_seq(), q),
            final(self).room_seq() == old(self).room_seq(),
            final(self).shared_seq() == old(self).shared_seq(),
            final(self).watched_seq() == old(self).watched_seq(),
    {
        match self.find_device(&q.user, &q.device) {
            Some(i) => {
                proof {
                    Self::lemma_dev_idx_is(self.devices@, q.user@, q.device@, i as int);
                }
                self.devices[i].algorithms = q.algorithms;
            },
            None => {
                self.devices.push(
                    DeviceRecord {
                        user: q.user,
                        device: q.device,
                        algorithms: q.algorithms,
                        has_session: false,
                        verified: false,
                    },
                );
            },
        }
    }

    /// Marks a one-to-one session with `(u, d)` established.
    pub fn set_session(&mut self, u: &UserId, d: &DeviceId)
        requires
            old(self).wf(),
        ensures
            final(self).wf(),
            final(self).dev_seq() == spec_set_session(old(self).dev_seq(), u@, d@),
            final(self).room_seq() == old(self).room_seq(),
            final(self).shared_seq() == old(self).shared_seq(),
            final(self).watched_seq() == old(self).watched_seq(),
    {
        match self.find_device(u, d) {
            Some(i) => {
                proof {
                    Self::lemma_dev_idx_is(self.devices@, u@, d@, i as int);
                }
                self.devices[i].has_session = true;
            },
            None => {},
        }
    }

    /// Marks `(u, d)` interactively verified.
    pub fn mark_verified(&mut self, u: &UserId, d: &DeviceId)
        requires
            old(self).wf(),
        ensures
            final(self).wf(),
            final(self).dev_seq() == spec_mark_verified(old(self).dev_seq(), *u, *d),
            final(self).room_seq() == old(self).room_seq(),
            final(self).shared_seq() == old(self).shared_seq(),
            final(self).watched_seq() == old(self).watched_seq(),
    {
        match self.find_device(u, d) {
            Some(i) => {
                proof {
                    Self::lemma_dev_idx_is(self.devices@, u@, d@, i as int);
                }
                self.devices[i].verified = true;
            },
            None => {
                self.devices.push(
                    DeviceRecord {
                        user: u.clone(),
                        device: d.clone(),
                        algorithms: AlgorithmSet { signed_curve: false, curve: false },
                        has_session: false,
                        verified: true,
                    },
                );
            },
        }
    }

    /// Whether `(u, d)` was verified at some completed handshake.
    pub fn is_verified(&self, u: &UserId, d: &DeviceId) -> (r: bool)
        requires
            self.wf(),
        ensures
            r == spec_is_verified(self.dev_seq(), u@, d@),
    {
        match self.find_device(u, d) {
            Some(i) => {
                proof {
                    Self::lemma_dev_idx_is(self.devices@, u@, d@, i as int);
                    if !self.devices@[i as int].verified {
                        assert forall|k: int|
                            0 <= k < self.devices@.len() && #[trigger] self.devices@[k].user@ == u@
                                && #[trigger] self.devices@[k].device@
                                == d@ implies !self.devices@[k].verified by {
                            Self::lemma_dev_idx_is(self.devices@, u@, d@, k);
                        }
                    }
                }
                self.devices[i].verified
            },
            None => false,
        }
    }

    /// Clears every record of a departed user and stops tracking them.
    pub fn clear_user(&mut self, u: &UserId)
        requires
            old(self).wf(),
        ensures
            final(self).wf(),
            final(self).dev_seq() == spec_clear_user(old(self).dev_seq(), u@),
            final(self).watched_seq() == spec_users_without(old(self).watched_seq(), u@),
            final(self).room_seq() == old(self).room_seq(),
            final(self).shared_seq() == old(self).shared_seq(),
    {
        let ghost devs0 = self.devices@;
        let mut i: usize = 0;
        while i < self.devices.len()
            invariant
                old(self).wf(),
                i <= self.devices@.len(),
                self.devices@.len() == devs0.len(),
                self.rooms@ == old(self).room_seq(),
                self.shared@ == old(self).shared_seq(),
                self.watched@ == old(self).watched_seq(),
                forall|j: int| 0 <= j < i ==> self.devices@[j] == spec_clear_user(devs0, u@)[j],
                forall|j: int| i <= j < devs0.len() ==> self.devices@[j] == devs0[j],
            decreases self.devices@.len() - i,
        {
            if self.devices[i].user.same_as(u) {
                let cleared = DeviceRecord {
                    user: self.devices[i].user.clone(),
                    device: self.devices[i].device.clone(),
                    algorithms: AlgorithmSet { signed_curve: false, curve: false },
                    has_session: false,
                    verified: false,
                };
                self.devices[i] = cleared;
            }
            i = i + 1;
        }
        proof {
            assert(self.devices@ =~= spec_clear_user(devs0, u@));
            assert forall|a: int, b: int|
                #![trigger self.devices@[a], self.devices@[b]]
                0 <= a < b < self.devices@.len() implies !(self.devices@[a].user@
                == self.devices@[b].user@ && self.devices@[a].device@
                == self.devices@[b].device@) by {
                assert(devs0[a].user@ == self.devices@[a].user@);
                assert(devs0[b].user@ == self.devices@[b].user@);
                assert(devs0[a].device@ == self.devices@[a].device@);
                assert(devs0[b].device@ == self.devices@[b].device@);
            }
        }
        let mut kept: Vec<UserId> = Vec::new();
        let mut k: usize = 0;
        while k < self.watched.len()
            invariant
                k <= self.watched@.len(),
                kept@ == spec_users_without(self.watched@.subrange(0, k as int), u@),
            decreases self.watched@.len() - k,
        {
            proof {
                assert(self.watched@.subrange(0, k + 1).drop_last() =~= self.watched@.subrange(
                    0,
                    k as int,
                ));
                assert(self.watched@.subrange(0, k + 1).last() == self.watched@[k as int]);
            }
            if !self.watched[k].same_as(u) {
                kept.push(self.watched[k].clone());
            }
            k = k + 1;
        }
        proof {
            assert(self.watched@.subrange(0, self.watched@.len() as int) =~= self.watched@);
        }
        self.watched = kept;
    }

    /// Whether `u` is watched for key queries.
    pub fn is_watched(&self, u: &UserId) -> (r: bool)
        ensures
            r == user_in(self.watched_seq(), u@),
    {
        let mut i: usize = 0;
        while i < self.watched.len()
            invariant
                i <= self.watched@.len(),
                forall|j: int| 0 <= j < i ==> #[trigger] self.watched@[j]@ != u@,
            decreases self.watched@.len() - i,
        {
            if self.watched[i].same_as(u) {
                return true;
            }
            i = i + 1;
        }
        false
    }

    /// Starts tracking `users`; returns those that were not watched before,
    /// in order of first occurrence, so a key query can be planned for
    /// exactly them.
    pub fn add_watched(&mut self, users: &Vec<UserId>) -> (fresh: Vec<UserId>)
        requires
            old(self).wf(),
        ensures
            final(self).wf(),
            final(self).watched_seq() == spec_add_watched(old(self).watched_seq(), users@),
            fresh@ == spec_fresh_watched(old(self).watched_seq(), users@),
            final(self).dev_seq() == old(self).dev_seq(),
            final(self).room_seq() == old(self).room_seq(),
            final(self).shared_seq() == old(self).shared_seq(),
    {
        let ghost t0 = self.watched@;
        let mut fresh: Vec<UserId> = Vec::new();
        let mut i: usize = 0;
        while i < users.len()
            invariant
                old(self).wf(),
                i <= users@.len(),
                self.devices@ == old(self).dev_seq(),
                self.rooms@ == old(self).room_seq(),
                self.shared@ == old(self).shared_seq(),
                self.watched@ == spec_add_watched(t0, users@.subrange(0, i as int)),
                fresh@ == spec_fresh_watched(t0, users@.subrange(0, i as int)),
            decreases users@.len() - i,
        {
            proof {
                assert(users@.subrange(0, i + 1).drop_last() =~= users@.subrange(0, i as int));
                assert(users@.subrange(0, i + 1).last() == users@[i as int]);
            }
            if !self.is_watched(&users[i]) {
                self.watched.push(users[i].clone());
                fresh.push(users[i].clone());
            }
            i = i + 1;
        }
        proof {
            assert(users@.subrange(0, users@.len() as int) =~= users@);
        }
        fresh
    }

    /// The position of the record for room `r`, if any.
    fn find_room(&self, r: &RoomId) -> (res: Option<usize>)
        ensures
            res matches Some(i) ==> 0 <= i < self.room_seq().len() && self.room_seq()[i as int].room@
                == r@,
            res is None ==> !has_room(self.room_seq(), r@),
    {
        let mut i: usize = 0;
        while i < self.rooms.len()
            invariant
                i <= self.rooms@.len(),
                forall|j: int| 0 <= j < i ==> #[trigger] self.rooms@[j].room@ != r@,
            decreases self.rooms@.len() - i,
        {
            if self.rooms[i].room.same_as(r) {
                return Some(i);
            }
            i = i + 1;
        }
        None
    }

    /// With unique rooms, the chosen index for a room is the index of any
    /// record carrying it.
    proof fn lemma_room_idx_is(rooms: Seq<RoomMeta>, r: Seq<char>, i: int)
        requires
            rooms_unique(rooms),
            0 <= i < rooms.len(),
            rooms[i].room@ == r,
        ensures
            has_room(rooms, r),
            room_idx(rooms, r) == i,
    {
        assert(has_room(rooms, r));
        let k = room_idx(rooms, r);
        if k < i {
            assert(rooms[k].room@ != rooms[i].room@);
        }
        if i < k {
            assert(rooms[i].room@ != rooms[k].room@);
        }
    }

    /// Ensures a group session exists for `room` and returns its current
    /// epoch; a fresh room starts at epoch one.
    pub fn ensure_room(&mut self, room: &RoomId) -> (e: u64)
        requires
            old(self).wf(),
        ensures
            final(self).wf(),
            final(self).dev_seq() == old(self).dev_seq(),
            final(self).shared_seq() == old(self).shared_seq(),
            final(self).watched_seq() == old(self).watched_seq(),
            has_room(final(self).room_seq(), room@),
            e == epoch_of(final(self).room_seq(), room@),
            has_room(old(self).room_seq(), room@) ==> final(self).room_seq() == old(
                self,
            ).room_seq() && e == epoch_of(old(self).room_seq(), room@),
            !has_room(old(self).room_seq(), room@) ==> final(self).room_seq() == old(
                self,
            ).room_seq().push((RoomMeta { room: *room, epoch: 1 })) && e == 1,
    {
        match self.find_room(room) {
            Some(i) => {
                proof {
                    Self::lemma_room_idx_is(self.rooms@, room@, i as int);
                }
                self.rooms[i].epoch
            },
            None => {
                self.rooms.push(RoomMeta { room: room.clone(), epoch: 1 });
                proof {
                    Self::lemma_room_idx_is(self.rooms@, room@, self.rooms@.len() - 1);
                }
                1
            },
        }
    }

    /// Rotates the group session of `room`: a fresh room starts at epoch
    /// one, an existing one moves to the next epoch (the counter saturates
    /// at its limit).  After a rotation every device counts as not yet
    /// holding the current key.
    pub fn rotate_room(&mut self, room: &RoomId)
        requires
            old(self).wf(),
        ensures
            final(self).wf(),
            final(self).dev_seq() == old(self).dev_seq(),
            final(self).shared_seq() == old(self).shared_seq(),
            final(self).watched_seq() == old(self).watched_seq(),
            has_room(final(self).room_seq(), room@),
            !has_room(old(self).room_seq(), room@) ==> final(self).room_seq() == old(
                self,
            ).room_seq().push((RoomMeta { room: *room, epoch: 1 })),
            has_room(old(self).room_seq(), room@) ==> ({
                let i = room_idx(old(self).room_seq(), room@);
                let e0 = old(self).room_seq()[i].epoch;
                let e1: u64 = if e0 < u64::MAX {
                    (e0 + 1) as u64
                } else {
                    e0
                };
                final(self).room_seq() == old(self).room_seq().update(
                    i,
                    (RoomMeta { room: old(self).room_seq()[i].room, epoch: e1 }),
                )
            }),
    {
        match self.find_room(room) {
            Some(i) => {
                proof {
                    Self::lemma_room_idx_is(self.rooms@, room@, i as int);
                }
                let e0 = self.rooms[i].epoch;
                if e0 < u64::MAX {
                    self.rooms[i].epoch = e0 + 1;
                }
                proof {
                    Self::lemma_room_idx_is(self.rooms@, room@, i as int);
                }
            },
            None => {
                self.rooms.push(RoomMeta { room: room.clone(), epoch: 1 });
                proof {
                    Self::lemma_room_idx_is(self.rooms@, room@, self.rooms@.len() - 1);
                }
            },
        }
    }

    /// Decides whether a user of `users` owns the record.
    fn users_contain(users: &Vec<UserId>, u: &UserId) -> (r: bool)
        ensures
            r == user_in(users@, u@),
    {
        let mut i: usize = 0;
        while i < users.len()
            invariant
                i <= users@.len(),
                forall|j: int| 0 <= j < i ==> #[trigger] users@[j]@ != u@,
            decreases users@.len() - i,
        {
            if users[i].same_as(u) {
                return true;
            }
            i = i + 1;
        }
        false
    }

    /// Decides `spec_is_shared` for one device.
    fn is_shared(&self, room: &RoomId, u: &UserId, d: &DeviceId, e: u64) -> (r: bool)
        ensures
            r == spec_is_shared(self.shared_seq(), room@, u@, d@, e),
    {
        let mut i: usize = 0;
        while i < self.shared.len()
            invariant
                i <= self.shared@.len(),
                forall|j: int|
                    0 <= j < i ==> !(#[trigger] self.shared@[j].room@ == room@
                        && self.shared@[j].user@ == u@ && self.shared@[j].device@ == d@
                        && self.shared@[j].epoch == e),
            decreases self.shared@.len() - i,
        {
            if self.shared[i].room.same_as(room) && self.shared[i].user.same_as(u)
                && self.shared[i].device.same_as(d) && self.shared[i].epoch == e {
                return true;
            }
            i = i + 1;
        }
        false
    }

    /// The consolidated one-time-key claim plan for `users`.  The directory
    /// is read, never changed: planning is idempotent until some
    /// acknowledgment or sync change moves the model.
    pub fn get_missing(&self, users: &Vec<UserId>) -> (r: Vec<ClaimEntry>)
        ensures
            r@ == spec_missing_plan(self.dev_seq(), users@),
    {
        let mut r: Vec<ClaimEntry> = Vec::new();
        let mut i: usize = 0;
        while i < self.devices.len()
            invariant
                i <= self.devices@.len(),
                r@ == spec_missing_plan(self.devices@.subrange(0, i as int), users@),
            decreases self.devices@.len() - i,
        {
            proof {
                assert(self.devices@.subrange(0, i + 1).drop_last() =~= self.devices@.subrange(
                    0,
                    i as int,
                ));
                assert(self.devices@.subrange(0, i + 1).last() == self.devices@[i as int]);
            }
            if Self::users_contain(users, &self.devices[i].user) && !self.devices[i].has_session {
                match best_algorithm(self.devices[i].algorithms) {
                    Some(a) => {
                        r.push(
                            ClaimEntry {
                                user: self.devices[i].user.clone(),
                                device: self.devices[i].device.clone(),
                                algorithm: a,
                            },
                        );
                    },
                    None => {},
                }
            }
            i = i + 1;
        }
        proof {
            assert(self.devices@.subrange(0, self.devices@.len() as int) =~= self.devices@);
        }
        r
    }

    /// The share plan for `room` at epoch `e`, against the current shared
    /// set.
    fn compute_share_plan(&self, room: &RoomId, users: &Vec<UserId>, e: u64) -> (r: Vec<
        SharedRecord,
    >)
        ensures
            r@ == spec_share_plan(self.dev_seq(), users@, self.shared_seq(), *room, e),
    {
        let mut r: Vec<SharedRecord> = Vec::new();
        let mut i: usize = 0;
        while i < self.devices.len()
            invariant
                i <= self.devices@.len(),
                r@ == spec_share_plan(
                    self.devices@.subrange(0, i as int),
                    users@,
                    self.shared@,
                    *room,
                    e,
                ),
            decreases self.devices@.len() - i,
        {
            proof {
                assert(self.devices@.subrange(0, i + 1).drop_last() =~= self.devices@.subrange(
                    0,
                    i as int,
                ));
                assert(self.devices@.subrange(0, i + 1).last() == self.devices@[i as int]);
            }
            if Self::users_contain(users, &self.devices[i].user) && self.devices[i].has_session
                && !self.is_shared(room, &self.devices[i].user, &self.devices[i].device, e) {
                r.push(
                    SharedRecord {
                        room: room.clone(),
                        user: self.devices[i].user.clone(),
                        device: self.devices[i].device.clone(),
                        epoch: e,
                    },
                );
            }
            i = i + 1;
        }
        proof {
            assert(self.devices@.subrange(0, self.devices@.len() as int) =~= self.devices@);
        }
        r
    }

    /// Distributes the current group-session key of `room` to every device
    /// of `users` that holds a session and has not received this epoch's
    /// key yet; those devices are then on record as holding it, so an
    /// immediate second share for the same users distributes nothing.
    pub fn share(&mut self, room: &RoomId, users: &Vec<UserId>) -> (r: Vec<SharedRecord>)
        requires
            old(self).wf(),
        ensures
            final(self).wf(),
            final(self).dev_seq() == old(self).dev_seq(),
            final(self).watched_seq() == old(self).watched_seq(),
            has_room(final(self).room_seq(), room@),
            ({
                let e = if has_room(old(self).room_seq(), room@) {
                    epoch_of(old(self).room_seq(), room@)
                } else {
                    1u64
                };
                &&& r@ == spec_share_plan(old(self).dev_seq(), users@, old(self).shared_seq(), *room, e)
                &&& final(self).shared_seq() == old(self).shared_seq() + r@
            }),
            has_room(old(self).room_seq(), room@) ==> final(self).room_seq() == old(
                self,
            ).room_seq(),
            !has_room(old(self).room_seq(), room@) ==> final(self).room_seq() == old(
                self,
            ).room_seq().push((RoomMeta { room: *room, epoch: 1 })),
    {
        let e = self.ensure_room(room);
        let plan = self.compute_share_plan(room, users, e);
        let ghost shared0 = self.shared@;
        let ghost devs1 = self.devices@;
        let ghost rooms1 = self.rooms@;
        let ghost watched1 = self.watched@;
        proof {
            assert(shared0 + plan@.subrange(0, 0) =~= shared0);
        }
        let mut k: usize = 0;
        while k < plan.len()
            invariant
                k <= plan@.len(),
                self.shared@ == shared0 + plan@.subrange(0, k as int),
                self.devices@ == devs1,
                self.rooms@ == rooms1,
                self.watched@ == watched1,
            decreases plan@.len() - k,
        {
            self.shared.push(plan[k].clone());
            proof {
                assert(shared0 + plan@.subrange(0, k + 1) =~= (shared0 + plan@.subrange(
                    0,
                    k as int,
                )).push(plan@[k as int]));
            }
            k = k + 1;
        }
        proof {
            assert(plan@.subrange(0, plan@.len() as int) =~= plan@);
        }
        plan
    }
}

} // verus!
