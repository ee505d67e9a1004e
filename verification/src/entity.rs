use vstd::prelude::*;

verus! {

/// A single requirement within a call to action: the amount that must be
/// pledged before the need counts as met, an optional informational cap,
/// and whether only an admin may declare the need met.
#[derive(Clone, Debug, PartialEq)]
pub struct Need {
    pub min_necessary: u64,
    pub max_possible: Option<u64>,
    pub requires_admin_approval: bool,
    pub description: String,
}

/// The root entity of a collective effort: an ordered list of needs,
/// the set of participants allowed to approve admin-gated needs, and an
/// optional expiration time. Identified by the id of its original
/// publication; the current value is found through the version resolver.
#[derive(Clone, Debug, PartialEq)]
pub struct CallToAction {
    pub parent_call_to_action_hash: Option<usize>,
    pub admins: Vec<u64>,
    pub expiration_time: Option<i64>,
    pub needs: Vec<Need>,
}

/// A pledge of `amount` by one participant toward one need (by index) of
/// one call to action. Immutable once published.
#[derive(Clone, Debug, PartialEq)]
pub struct Commitment {
    pub call_to_action_hash: usize,
    pub amount: u64,
    pub comment: Option<String>,
    pub need_index: u32,
}

/// A derived assertion that one need of a call to action has received
/// enough live, non-cancelled commitments, listing the commitments that
/// jointly meet the threshold.
#[derive(Clone, Debug, PartialEq)]
pub struct Satisfaction {
    pub call_to_action_hash: usize,
    pub need_index: u32,
    pub commitments_hashes: Vec<usize>,
}

/// A derived assertion that every need of a call to action with a positive
/// threshold has a live satisfaction.
#[derive(Clone, Debug, PartialEq)]
pub struct Assembly {
    pub call_to_action_hash: usize,
    pub satisfactions_hashes: Vec<usize>,
}

/// The closed set of record kinds the engine reacts to.
#[derive(Clone, Debug, PartialEq)]
pub enum EntryTypes {
    CallToAction(CallToAction),
    Commitment(Commitment),
    Satisfaction(Satisfaction),
    Assembly(Assembly),
}

/// The kinds of directed graph edges kept in the store.
#[derive(Clone, Copy, Debug, PartialEq, Eq, Structural)]
pub enum LinkTypes {
    CallToActionToCallToActions,
    CallToActionToCommitments,
    CallToActionToSatisfactions,
    CommitmentToSatisfactions,
    CallToActionToAssemblies,
    SatisfactionToAssemblies,
}

/// What can go wrong during one derivation attempt. Every variant is
/// recoverable: the dispatcher catches and reports, never propagates.
#[derive(Clone, Copy, Debug, PartialEq, Eq, Structural)]
pub enum EngineError {
    /// A referenced record, or its live revision, cannot be resolved.
    NotFound,
    /// A resolved record is not of the expected kind, or points outside
    /// the data it refers to.
    MalformedRecord,
    /// The re-entrant publish through a creation entry point was refused.
    RemoteCallFailure,
    /// An aggregate sum does not fit in the numeric type.
    NumericOverflow,
}

/// Why a record or edge is refused by validation.
#[derive(Clone, Copy, Debug, PartialEq, Eq, Structural)]
pub enum RejectReason {
    /// A record that the validated record depends on does not exist.
    MissingDependency,
    /// A referenced record exists but has the wrong kind.
    WrongRecordKind,
    /// A need index points outside the call to action's list of needs.
    NeedIndexOutOfRange,
    /// The author is not allowed to publish this record.
    Unauthorized,
    /// Records of this kind cannot be updated.
    Immutable,
    /// Records or edges of this kind cannot be deleted.
    Undeletable,
}

/// The verdict of a validation routine.
#[derive(Clone, Copy, Debug, PartialEq, Eq, Structural)]
pub enum ValidateCallbackResult {
    Valid,
    Invalid(RejectReason),
}

} // verus!
