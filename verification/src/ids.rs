use vstd::prelude::*;
use vstd::string::{StrSliceExecFns, StringExecFns};
use crate::errors::CoreError;

verus! {

/// A sigil-prefixed identifier `<sigil>local:domain`: it starts with the
/// sigil and some `:` stands far enough in that at least one character lies
/// between it and the sigil, and at least one follows it.
pub open spec fn valid_sigil_id(s: Seq<char>, sigil: char) -> bool {
    &&& s.len() >= 4
    &&& s[0] == sigil
    &&& exists|i: int| 2 <= i && i + 2 <= s.len() && #[trigger] s[i] == ':'
}

/// A user identifier: `@local:domain`.
pub open spec fn valid_user_id(s: Seq<char>) -> bool {
    valid_sigil_id(s, '@')
}

/// A room identifier: `!opaque:domain`.
pub open spec fn valid_room_id(s: Seq<char>) -> bool {
    valid_sigil_id(s, '!')
}

/// A device identifier: any non-empty string.
pub open spec fn valid_device_id(s: Seq<char>) -> bool {
    s.len() >= 1
}

/// An event identifier: `$` followed by at least one character.
pub open spec fn valid_event_id(s: Seq<char>) -> bool {
    s.len() >= 2 && s[0] == '$'
}

/// Decides `valid_sigil_id` by scanning every position a separator may
/// legally occupy.
fn check_sigil_id(s: &str, sigil: char) -> (r: bool)
    ensures
        r == valid_sigil_id(s@, sigil),
{
    let n = s.unicode_len();
    if n < 4 {
        return false;
    }
    if s.get_char(0) != sigil {
        return false;
    }
    let mut i: usize = 2;
    while i <= n - 2
        invariant
            4 <= n,
            n == s@.len(),
            s@[0] == sigil,
            2 <= i,
            forall|j: int| 2 <= j < i ==> s@[j] != ':',
        decreases n - i,
    {
        if s.get_char(i) == ':' {
            return true;
        }
        i = i + 1;
    }
    false
}

/// Decides `valid_event_id`.
pub fn check_event_id(s: &str) -> (r: bool)
    ensures
        r == valid_event_id(s@),
{
    s.unicode_len() >= 2 && s.get_char(0) == '$'
}

/// The remote party's user identifier.
#[derive(Debug)]
pub struct UserId {
    text: String,
}

impl View for UserId {
    type V = Seq<char>;

    closed spec fn view(&self) -> Seq<char> {
        self.text@
    }
}

impl UserId {
    /// Accepts exactly the well-formed user identifiers; a malformed one is
    /// rejected with a validation error.
    pub fn parse(s: String) -> (r: Result<UserId, CoreError>)
        ensures
            valid_user_id(s@) ==> (r matches Ok(u) && u@ == s@),
            !valid_user_id(s@) ==> r == Err::<UserId, CoreError>(CoreError::Validation),
    {
        if check_sigil_id(s.as_str(), '@') {
            Ok(UserId { text: s })
        } else {
            Err(CoreError::Validation)
        }
    }

    pub fn as_str(&self) -> (r: &str)
        ensures
            r@ == self@,
    {
        self.text.as_str()
    }

    pub fn same_as(&self, other: &UserId) -> (r: bool)
        ensures
            r == (self@ == other@),
    {
        self.text == other.text
    }
}

impl Clone for UserId {
    fn clone(&self) -> (r: Self)
        ensures
            r == *self,
    {
        UserId { text: self.text.clone() }
    }
}

/// A room identifier.
#[derive(Debug)]
pub struct RoomId {
    text: String,
}

impl View for RoomId {
    type V = Seq<char>;

    closed spec fn view(&self) -> Seq<char> {
        self.text@
    }
}

impl RoomId {
    /// Accepts exactly the well-formed room identifiers.
    pub fn parse(s: String) -> (r: Result<RoomId, CoreError>)
        ensures
            valid_room_id(s@) ==> (r matches Ok(u) && u@ == s@),
            !valid_room_id(s@) ==> r == Err::<RoomId, CoreError>(CoreError::Validation),
    {
        if check_sigil_id(s.as_str(), '!') {
            Ok(RoomId { text: s })
        } else {
            Err(CoreError::Validation)
        }
    }

    pub fn as_str(&self) -> (r: &str)
        ensures
            r@ == self@,
    {
        self.text.as_str()
    }

    pub fn same_as(&self, other: &RoomId) -> (r: bool)
        ensures
            r == (self@ == other@),
    {
        self.text == other.text
    }
}

impl Clone for RoomId {
    fn clone(&self) -> (r: Self)
        ensures
            r == *self,
    {
        RoomId { text: self.text.clone() }
    }
}

/// A device identifier of the remote party.
#[derive(Debug)]
pub struct DeviceId {
    text: String,
}

impl View for DeviceId {
    type V = Seq<char>;

    closed spec fn view(&self) -> Seq<char> {
        self.text@
    }
}

impl DeviceId {
    /// Accepts exactly the non-empty device identifiers.
    pub fn parse(s: String) -> (r: Result<DeviceId, CoreError>)
        ensures
            valid_device_id(s@) ==> (r matches Ok(u) && u@ == s@),
            !valid_device_id(s@) ==> r == Err::<DeviceId, CoreError>(CoreError::Validation),
    {
        if s.as_str().unicode_len() >= 1 {
            Ok(DeviceId { text: s })
        } else {
            Err(CoreError::Validation)
        }
    }

    /// The wildcard device identifier addressing all devices of a user.
    pub fn wildcard() -> (d: DeviceId)
        ensures
            d@ == "*"@,
    {
        DeviceId { text: String::from_str("*") }
    }

    pub fn as_str(&self) -> (r: &str)
        ensures
            r@ == self@,
    {
        self.text.as_str()
    }

    pub fn same_as(&self, other: &DeviceId) -> (r: bool)
        ensures
            r == (self@ == other@),
    {
        self.text == other.text
    }
}

impl Clone for DeviceId {
    fn clone(&self) -> (r: Self)
        ensures
            r == *self,
    {
        DeviceId { text: self.text.clone() }
    }
}

/// The flow identifier of a verification session.
///
/// A locally created flow carries a counter value that the manager
/// guarantees fresh; a remotely created flow carries the transaction id (or
/// in-room request event id) exactly as the remote party sent it.  The two
/// never collide, so a locally assigned identifier can never be captured by
/// a remote transaction.  Rendering a `Local` value as a wire string is the
/// boundary's concern.
#[derive(Debug)]
pub enum FlowId {
    Local(u64),
    Remote(String),
}

/// Equality of flow identifiers up to the contents of a remote transaction
/// id.
pub open spec fn flow_eq(a: FlowId, b: FlowId) -> bool {
    match (a, b) {
        (FlowId::Local(x), FlowId::Local(y)) => x == y,
        (FlowId::Remote(s), FlowId::Remote(t)) => s@ == t@,
        _ => false,
    }
}

impl FlowId {
    pub fn same_as(&self, other: &FlowId) -> (r: bool)
        ensures
            r == flow_eq(*self, *other),
    {
        match (self, other) {
            (FlowId::Local(x), FlowId::Local(y)) => *x == *y,
            (FlowId::Remote(s), FlowId::Remote(t)) => *s == *t,
            _ => false,
        }
    }

    /// The counter value of a locally assigned flow, if this is one.
    pub fn local_value(&self) -> (r: Option<u64>)
        ensures
            r == (match *self {
                FlowId::Local(n) => Some(n),
                FlowId::Remote(_) => None::<u64>,
            }),
    {
        match self {
            FlowId::Local(n) => Some(*n),
            FlowId::Remote(_) => None,
        }
    }

    /// The remote transaction id, if this flow was created remotely.
    pub fn remote_value(&self) -> (r: Option<&str>)
        ensures
            *self matches FlowId::Remote(t) ==> (r matches Some(s) && s@ == t@),
            *self matches FlowId::Local(_) ==> r is None,
    {
        match self {
            FlowId::Local(_) => None,
            FlowId::Remote(s) => Some(s.as_str()),
        }
    }
}

impl Clone for FlowId {
    fn clone(&self) -> (r: Self)
        ensures
            r == *self,
    {
        match self {
            FlowId::Local(n) => FlowId::Local(*n),
            FlowId::Remote(s) => FlowId::Remote(s.clone()),
        }
    }
}

} // verus!
