use vstd::prelude::*;

verus! {

/// The error taxonomy of the core.
///
/// Every fallible operation reports exactly one of these; none of them is
/// retried internally, and no operation leaves the core partially mutated
/// when it fails.
#[derive(Clone, Copy, Debug, PartialEq, Eq, Structural)]
pub enum CoreError {
    /// A malformed identifier, or a sync continuation token that does not
    /// strictly advance.  Fatal to the single call; no state is corrupted.
    Validation,
    /// `acknowledge` named a request identifier that is not pending.
    UnknownRequest,
    /// No verification session exists for the given (user, flow id) key
    /// where one is required.  Plain state queries report absence with
    /// `None` instead, since polling an absent session is routine.
    UnknownSession,
    /// A verification or SAS operation was invoked in a state that does not
    /// admit it.  This is a caller programming error and fails loudly.
    InvalidTransition,
    /// An acknowledgment payload whose shape does not match the kind of the
    /// request being acknowledged.
    MalformedResponse,
    /// The cryptographic engine reported a failure; propagated verbatim by
    /// the surrounding glue, never swallowed by the core.
    Engine,
}

} // verus!
