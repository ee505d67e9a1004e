use vstd::prelude::*;

use crate::entity::Assembly;
use crate::entity::CallToAction;
use crate::entity::Commitment;
use crate::entity::EntryTypes;
use crate::entity::LinkTypes;
use crate::entity::RejectReason;
use crate::entity::Satisfaction;
use crate::entity::ValidateCallbackResult;
use crate::aggregate::lemma_live_revision_props;
use crate::store::RecordStore;
use crate::store::live_content;
use crate::store::original_author;

verus! {

/// Whether the record published under `id` exists and is a call to action.
pub open spec fn record_is_call_to_action(s: RecordStore, id: usize) -> bool {
    id < s.records@.len() && s.records@[id as int].content is CallToAction
}

/// Whether the record published under `id` exists and is a commitment.
pub open spec fn record_is_commitment(s: RecordStore, id: usize) -> bool {
    id < s.records@.len() && s.records@[id as int].content is Commitment
}

/// Whether the record published under `id` exists and is a satisfaction.
pub open spec fn record_is_satisfaction(s: RecordStore, id: usize) -> bool {
    id < s.records@.len() && s.records@[id as int].content is Satisfaction
}

/// The verdict on a reference that must lead to an existing record of the
/// expected kind.
pub open spec fn spec_dependency_check(s: RecordStore, id: usize, ok: bool) -> ValidateCallbackResult {
    if id >= s.records@.len() {
        ValidateCallbackResult::Invalid(RejectReason::MissingDependency)
    } else if !ok {
        ValidateCallbackResult::Invalid(RejectReason::WrongRecordKind)
    } else {
        ValidateCallbackResult::Valid
    }
}

/// The verdict on a list of references that must all lead to existing
/// commitment records, failing at the first that does not.
pub open spec fn spec_commitments_check(s: RecordStore, ids: Seq<usize>) -> ValidateCallbackResult
    decreases ids.len(),
{
    if ids.len() == 0 {
        ValidateCallbackResult::Valid
    } else if ids[0] >= s.records@.len() {
        ValidateCallbackResult::Invalid(RejectReason::MissingDependency)
    } else if !(s.records@[ids[0] as int].content is Commitment) {
        ValidateCallbackResult::Invalid(RejectReason::WrongRecordKind)
    } else {
        spec_commitments_check(s, ids.drop_first())
    }
}

/// Whether `author` may publish a satisfaction for an admin-gated need
/// of the call to action referenced by `call_to_action_hash`: the author
/// must stand in the admin set of the call to action's live revision, or
/// be the author of the chain's original publication. The admin set is
/// read from the live revision because an amendment may change it; the
/// fallback author is the original publisher, never an amender.
pub open spec fn admin_gate_permits(s: RecordStore, author: u64, call_to_action_hash: usize) -> bool {
    ||| author == original_author(s, call_to_action_hash)
    ||| match live_content(s, call_to_action_hash) {
        Some(EntryTypes::CallToAction(live)) => live.admins@.contains(author),
        _ => false,
    }
}

/// The verdict on a new satisfaction: its call to action must exist and be
/// one, the need index must point into that call to action's needs, an
/// admin-gated need admits only the live revision's admins or the chain's
/// original publisher, and every referenced commitment must exist and be
/// one.
pub open spec fn spec_validate_create_satisfaction(
    s: RecordStore,
    author: u64,
    sat: Satisfaction,
) -> ValidateCallbackResult {
    if sat.call_to_action_hash >= s.records@.len() {
        ValidateCallbackResult::Invalid(RejectReason::MissingDependency)
    } else {
        match s.records@[sat.call_to_action_hash as int].content {
            EntryTypes::CallToAction(cta) => {
                if sat.need_index >= cta.needs@.len() {
                    ValidateCallbackResult::Invalid(RejectReason::NeedIndexOutOfRange)
                } else if cta.needs@[sat.need_index as int].requires_admin_approval
                    && !admin_gate_permits(s, author, sat.call_to_action_hash) {
                    ValidateCallbackResult::Invalid(RejectReason::Unauthorized)
                } else {
                    spec_commitments_check(s, sat.commitments_hashes@)
                }
            },
            _ => ValidateCallbackResult::Invalid(RejectReason::WrongRecordKind),
        }
    }
}

/// A passing commitments check means every listed id leads to an
/// existing commitment record.
pub proof fn lemma_commitments_check_valid(s: RecordStore, ids: Seq<usize>)
    requires
        spec_commitments_check(s, ids) is Valid,
    ensures
        forall|k: int| 0 <= k < ids.len() ==> record_is_commitment(s, #[trigger] ids[k]),
    decreases ids.len(),
{
    if ids.len() > 0 {
        lemma_commitments_check_valid(s, ids.drop_first());
        assert forall|k: int| 0 <= k < ids.len() implies record_is_commitment(
            s,
            #[trigger] ids[k],
        ) by {
            if k > 0 {
                assert(ids.drop_first()[k - 1] == ids[k]);
            }
        }
    }
}

/// A passing satisfactions check means every listed id leads to an
/// existing satisfaction record.
pub proof fn lemma_satisfactions_check_valid(s: RecordStore, ids: Seq<usize>)
    requires
        spec_satisfactions_check(s, ids) is Valid,
    ensures
        forall|k: int| 0 <= k < ids.len() ==> record_is_satisfaction(s, #[trigger] ids[k]),
    decreases ids.len(),
{
    if ids.len() > 0 {
        lemma_satisfactions_check_valid(s, ids.drop_first());
        assert forall|k: int| 0 <= k < ids.len() implies record_is_satisfaction(
            s,
            #[trigger] ids[k],
        ) by {
            if k > 0 {
                assert(ids.drop_first()[k - 1] == ids[k]);
            }
        }
    }
}

/// Check one reference: the record must exist and be a call to action.
fn check_call_to_action_dependency(store: &RecordStore, id: usize) -> (r: ValidateCallbackResult)
    ensures
        r == spec_dependency_check(*store, id, record_is_call_to_action(*store, id)),
{
    match store.get_record(id) {
        None => ValidateCallbackResult::Invalid(RejectReason::MissingDependency),
        Some(entry) => match &entry.content {
            EntryTypes::CallToAction(_) => ValidateCallbackResult::Valid,
            _ => ValidateCallbackResult::Invalid(RejectReason::WrongRecordKind),
        },
    }
}

/// Check one reference: the record must exist and be a commitment.
fn check_commitment_dependency(store: &RecordStore, id: usize) -> (r: ValidateCallbackResult)
    ensures
        r == spec_dependency_check(*store, id, record_is_commitment(*store, id)),
{
    match store.get_record(id) {
        None => ValidateCallbackResult::Invalid(RejectReason::MissingDependency),
        Some(entry) => match &entry.content {
            EntryTypes::Commitment(_) => ValidateCallbackResult::Valid,
            _ => ValidateCallbackResult::Invalid(RejectReason::WrongRecordKind),
        },
    }
}

/// Check one reference: the record must exist and be a satisfaction.
fn check_satisfaction_dependency(store: &RecordStore, id: usize) -> (r: ValidateCallbackResult)
    ensures
        r == spec_dependency_check(*store, id, record_is_satisfaction(*store, id)),
{
    match store.get_record(id) {
        None => ValidateCallbackResult::Invalid(RejectReason::MissingDependency),
        Some(entry) => match &entry.content {
            EntryTypes::Satisfaction(_) => ValidateCallbackResult::Valid,
            _ => ValidateCallbackResult::Invalid(RejectReason::WrongRecordKind),
        },
    }
}

/// A new call to action is valid when its parent, if named, exists and is
/// a call to action.
pub fn validate_create_call_to_action(store: &RecordStore, call_to_action: &CallToAction) -> (r:
    ValidateCallbackResult)
    ensures
        r == (match call_to_action.parent_call_to_action_hash {
            Some(p) => spec_dependency_check(*store, p, record_is_call_to_action(*store, p)),
            None => ValidateCallbackResult::Valid,
        }),
{
    match call_to_action.parent_call_to_action_hash {
        Some(p) => check_call_to_action_dependency(store, p),
        None => ValidateCallbackResult::Valid,
    }
}

/// Updating a call to action is always allowed.
pub fn validate_update_call_to_action(
    _call_to_action: &CallToAction,
    _original_call_to_action: &CallToAction,
) -> (r: ValidateCallbackResult)
    ensures
        r == ValidateCallbackResult::Valid,
{
    ValidateCallbackResult::Valid
}

/// Deleting a call to action is always allowed.
pub fn validate_delete_call_to_action(_original_call_to_action: &CallToAction) -> (r:
    ValidateCallbackResult)
    ensures
        r == ValidateCallbackResult::Valid,
{
    ValidateCallbackResult::Valid
}

/// An amendment edge is valid when both ends exist and are calls to action.
pub fn validate_create_link_call_to_action_to_call_to_actions(
    store: &RecordStore,
    base_address: usize,
    target_address: usize,
) -> (r: ValidateCallbackResult)
    ensures
        r == (if !(spec_dependency_check(
            *store,
            base_address,
            record_is_call_to_action(*store, base_address),
        ) is Valid) {
            spec_dependency_check(
                *store,
                base_address,
                record_is_call_to_action(*store, base_address),
            )
        } else {
            spec_dependency_check(
                *store,
                target_address,
                record_is_call_to_action(*store, target_address),
            )
        }),
{
    let base = check_call_to_action_dependency(store, base_address);
    match base {
        ValidateCallbackResult::Valid => check_call_to_action_dependency(store, target_address),
        _ => base,
    }
}

/// Amendment edges cannot be deleted.
pub fn validate_delete_link_call_to_action_to_call_to_actions() -> (r: ValidateCallbackResult)
    ensures
        r == ValidateCallbackResult::Invalid(RejectReason::Undeletable),
{
    ValidateCallbackResult::Invalid(RejectReason::Undeletable)
}

/// A new commitment is valid when its call to action exists and is one.
pub fn validate_create_commitment(store: &RecordStore, commitment: &Commitment) -> (r:
    ValidateCallbackResult)
    ensures
        r == spec_dependency_check(
            *store,
            commitment.call_to_action_hash,
            record_is_call_to_action(*store, commitment.call_to_action_hash),
        ),
{
    check_call_to_action_dependency(store, commitment.call_to_action_hash)
}

/// Commitments cannot be updated.
pub fn validate_update_commitment(
    _commitment: &Commitment,
    _original_commitment: &Commitment,
) -> (r: ValidateCallbackResult)
    ensures
        r == ValidateCallbackResult::Invalid(RejectReason::Immutable),
{
    ValidateCallbackResult::Invalid(RejectReason::Immutable)
}

/// Commitments cannot be deleted.
pub fn validate_delete_commitment(_original_commitment: &Commitment) -> (r: ValidateCallbackResult)
    ensures
        r == ValidateCallbackResult::Invalid(RejectReason::Undeletable),
{
    ValidateCallbackResult::Invalid(RejectReason::Undeletable)
}

/// A commitment edge is valid when its base is a call to action and its
/// target a commitment.
pub fn validate_create_link_call_to_action_to_commitments(
    store: &RecordStore,
    base_address: usize,
    target_address: usize,
) -> (r: ValidateCallbackResult)
    ensures
        r == (if !(spec_dependency_check(
            *store,
            base_address,
            record_is_call_to_action(*store, base_address),
        ) is Valid) {
            spec_dependency_check(
                *store,
                base_address,
                record_is_call_to_action(*store, base_address),
            )
        } else {
            spec_dependency_check(
                *store,
                target_address,
                record_is_commitment(*store, target_address),
            )
        }),
{
    let base = check_call_to_action_dependency(store, base_address);
    match base {
        ValidateCallbackResult::Valid => check_commitment_dependency(store, target_address),
        _ => base,
    }
}

/// Commitment edges cannot be deleted.
pub fn validate_delete_link_call_to_action_to_commitments() -> (r: ValidateCallbackResult)
    ensures
        r == ValidateCallbackResult::Invalid(RejectReason::Undeletable),
{
    ValidateCallbackResult::Invalid(RejectReason::Undeletable)
}

/// Whether `x` occurs among the listed participants.
fn contains_participant(ids: &Vec<u64>, x: u64) -> (b: bool)
    ensures
        b == ids@.contains(x),
{
    let mut i: usize = 0;
    while i < ids.len()
        invariant
            i <= ids@.len(),
            forall|k: int| 0 <= k < i ==> ids@[k] != x,
        decreases ids@.len() - i,
    {
        if ids[i] == x {
            return true;
        }
        i = i + 1;
    }
    false
}

/// A new satisfaction is valid per `spec_validate_create_satisfaction`:
/// existing call to action, need index in range, admin gate respected,
/// every referenced commitment existing.
pub fn validate_create_satisfaction(store: &RecordStore, author: u64, satisfaction: &Satisfaction)
    -> (r: ValidateCallbackResult)
    requires
        store.wf(),
    ensures
        r == spec_validate_create_satisfaction(*store, author, *satisfaction),
{
    let cta_entry = match store.get_record(satisfaction.call_to_action_hash) {
        None => {
            return ValidateCallbackResult::Invalid(RejectReason::MissingDependency);
        },
        Some(entry) => entry,
    };
    let cta = match &cta_entry.content {
        EntryTypes::CallToAction(cta) => cta,
        _ => {
            return ValidateCallbackResult::Invalid(RejectReason::WrongRecordKind);
        },
    };
    if satisfaction.need_index as usize >= cta.needs.len() {
        return ValidateCallbackResult::Invalid(RejectReason::NeedIndexOutOfRange);
    }
    if cta.needs[satisfaction.need_index as usize].requires_admin_approval {
        let mut permitted = author
            == store.resolve_original_author(satisfaction.call_to_action_hash);
        if !permitted {
            match store.resolve_latest(satisfaction.call_to_action_hash) {
                None => (),
                Some(l) => {
                    proof {
                        lemma_live_revision_props(*store, satisfaction.call_to_action_hash);
                    }
                    match &store.records[l].content {
                        EntryTypes::CallToAction(live) => {
                            permitted = contains_participant(&live.admins, author);
                        },
                        _ => (),
                    }
                },
            }
        }
        if !permitted {
            return ValidateCallbackResult::Invalid(RejectReason::Unauthorized);
        }
    }
    let ids = &satisfaction.commitments_hashes;
    proof {
        assert(ids@.skip(0) =~= ids@);
    }
    let mut i: usize = 0;
    while i < ids.len()
        invariant
            i <= ids@.len(),
            spec_commitments_check(*store, ids@.skip(i as int)) == spec_commitments_check(
                *store,
                ids@,
            ),
        decreases ids@.len() - i,
    {
        proof {
            assert(ids@.skip(i as int)[0] == ids@[i as int]);
            assert(ids@.skip(i as int).drop_first() =~= ids@.skip(i as int + 1));
        }
        match check_commitment_dependency(store, ids[i]) {
            ValidateCallbackResult::Valid => (),
            bad => {
                return bad;
            },
        }
        i = i + 1;
    }
    assert(ids@.skip(ids@.len() as int) =~= Seq::<usize>::empty());
    ValidateCallbackResult::Valid
}

/// Correcting a satisfaction by update is always allowed.
pub fn validate_update_satisfaction(
    _satisfaction: &Satisfaction,
    _original_satisfaction: &Satisfaction,
) -> (r: ValidateCallbackResult)
    ensures
        r == ValidateCallbackResult::Valid,
{
    ValidateCallbackResult::Valid
}

/// Deleting a satisfaction is allowed: a satisfaction may be corrected
/// by update or withdrawn by tombstone, though a widely replicated
/// tombstone is irreversible.
pub fn validate_delete_satisfaction(_original_satisfaction: &Satisfaction) -> (r:
    ValidateCallbackResult)
    ensures
        r == ValidateCallbackResult::Valid,
{
    ValidateCallbackResult::Valid
}

/// A satisfaction edge is valid when its base is a call to action and its
/// target a satisfaction.
pub fn validate_create_link_call_to_action_to_satisfactions(
    store: &RecordStore,
    base_address: usize,
    target_address: usize,
) -> (r: ValidateCallbackResult)
    ensures
        r == (if !(spec_dependency_check(
            *store,
            base_address,
            record_is_call_to_action(*store, base_address),
        ) is Valid) {
            spec_dependency_check(
                *store,
                base_address,
                record_is_call_to_action(*store, base_address),
            )
        } else {
            spec_dependency_check(
                *store,
                target_address,
                record_is_satisfaction(*store, target_address),
            )
        }),
{
    let base = check_call_to_action_dependency(store, base_address);
    match base {
        ValidateCallbackResult::Valid => check_satisfaction_dependency(store, target_address),
        _ => base,
    }
}

/// Deleting a satisfaction edge is allowed: withdrawing a satisfaction
/// takes down exactly these edges, so the withdrawal must validate.
pub fn validate_delete_link_call_to_action_to_satisfactions() -> (r: ValidateCallbackResult)
    ensures
        r == ValidateCallbackResult::Valid,
{
    ValidateCallbackResult::Valid
}

/// An edge from a counted commitment to its satisfaction is valid when
/// the base is a commitment and the target a satisfaction.
pub fn validate_create_link_commitment_to_satisfactions(
    store: &RecordStore,
    base_address: usize,
    target_address: usize,
) -> (r: ValidateCallbackResult)
    ensures
        r == (if !(spec_dependency_check(
            *store,
            base_address,
            record_is_commitment(*store, base_address),
        ) is Valid) {
            spec_dependency_check(*store, base_address, record_is_commitment(*store, base_address))
        } else {
            spec_dependency_check(
                *store,
                target_address,
                record_is_satisfaction(*store, target_address),
            )
        }),
{
    let base = check_commitment_dependency(store, base_address);
    match base {
        ValidateCallbackResult::Valid => check_satisfaction_dependency(store, target_address),
        _ => base,
    }
}

/// Deleting a commitment-to-satisfaction edge is allowed, for the same
/// reason: the engine's own withdrawal path produces these deletions.
pub fn validate_delete_link_commitment_to_satisfactions() -> (r: ValidateCallbackResult)
    ensures
        r == ValidateCallbackResult::Valid,
{
    ValidateCallbackResult::Valid
}

/// The verdict on a list of references that must all lead to existing
/// satisfaction records, failing at the first that does not.
pub open spec fn spec_satisfactions_check(s: RecordStore, ids: Seq<usize>) -> ValidateCallbackResult
    decreases ids.len(),
{
    if ids.len() == 0 {
        ValidateCallbackResult::Valid
    } else if ids[0] >= s.records@.len() {
        ValidateCallbackResult::Invalid(RejectReason::MissingDependency)
    } else if !(s.records@[ids[0] as int].content is Satisfaction) {
        ValidateCallbackResult::Invalid(RejectReason::WrongRecordKind)
    } else {
        spec_satisfactions_check(s, ids.drop_first())
    }
}

/// A new assembly is valid when its call to action exists and is one, and
/// every referenced satisfaction exists and is one.
pub fn validate_create_assembly(store: &RecordStore, assembly: &Assembly) -> (r:
    ValidateCallbackResult)
    ensures
        r == (if !(spec_dependency_check(
            *store,
            assembly.call_to_action_hash,
            record_is_call_to_action(*store, assembly.call_to_action_hash),
        ) is Valid) {
            spec_dependency_check(
                *store,
                assembly.call_to_action_hash,
                record_is_call_to_action(*store, assembly.call_to_action_hash),
            )
        } else {
            spec_satisfactions_check(*store, assembly.satisfactions_hashes@)
        }),
{
    match check_call_to_action_dependency(store, assembly.call_to_action_hash) {
        ValidateCallbackResult::Valid => (),
        bad => {
            return bad;
        },
    }
    let ids = &assembly.satisfactions_hashes;
    proof {
        assert(ids@.skip(0) =~= ids@);
    }
    let mut i: usize = 0;
    while i < ids.len()
        invariant
            i <= ids@.len(),
            spec_satisfactions_check(*store, ids@.skip(i as int)) == spec_satisfactions_check(
                *store,
                ids@,
            ),
        decreases ids@.len() - i,
    {
        proof {
            assert(ids@.skip(i as int)[0] == ids@[i as int]);
            assert(ids@.skip(i as int).drop_first() =~= ids@.skip(i as int + 1));
        }
        match check_satisfaction_dependency(store, ids[i]) {
            ValidateCallbackResult::Valid => (),
            bad => {
                return bad;
            },
        }
        i = i + 1;
    }
    assert(ids@.skip(ids@.len() as int) =~= Seq::<usize>::empty());
    ValidateCallbackResult::Valid
}

/// Assemblies cannot be updated.
pub fn validate_update_assembly(_assembly: &Assembly, _original_assembly: &Assembly) -> (r:
    ValidateCallbackResult)
    ensures
        r == ValidateCallbackResult::Invalid(RejectReason::Immutable),
{
    ValidateCallbackResult::Invalid(RejectReason::Immutable)
}

/// Assemblies cannot be deleted.
pub fn validate_delete_assembly(_original_assembly: &Assembly) -> (r: ValidateCallbackResult)
    ensures
        r == ValidateCallbackResult::Invalid(RejectReason::Undeletable),
{
    ValidateCallbackResult::Invalid(RejectReason::Undeletable)
}

/// An assembly edge is valid when its base is a call to action and its
/// target an assembly.
pub fn validate_create_link_call_to_action_to_assemblies(
    store: &RecordStore,
    base_address: usize,
    target_address: usize,
) -> (r: ValidateCallbackResult)
    ensures
        r == (if !(spec_dependency_check(
            *store,
            base_address,
            record_is_call_to_action(*store, base_address),
        ) is Valid) {
            spec_dependency_check(
                *store,
                base_address,
                record_is_call_to_action(*store, base_address),
            )
        } else {
            spec_dependency_check(
                *store,
                target_address,
                target_address < store.records@.len() && store.records@[target_address as int].content is Assembly,
            )
        }),
{
    let base = check_call_to_action_dependency(store, base_address);
    match base {
        ValidateCallbackResult::Valid => match store.get_record(target_address) {
            None => ValidateCallbackResult::Invalid(RejectReason::MissingDependency),
            Some(entry) => match &entry.content {
                EntryTypes::Assembly(_) => ValidateCallbackResult::Valid,
                _ => ValidateCallbackResult::Invalid(RejectReason::WrongRecordKind),
            },
        },
        _ => base,
    }
}

/// Assembly edges cannot be deleted.
pub fn validate_delete_link_call_to_action_to_assemblies() -> (r: ValidateCallbackResult)
    ensures
        r == ValidateCallbackResult::Invalid(RejectReason::Undeletable),
{
    ValidateCallbackResult::Invalid(RejectReason::Undeletable)
}

/// A gathered-satisfaction edge is valid when its base is a satisfaction
/// and its target an assembly.
pub fn validate_create_link_satisfaction_to_assemblies(
    store: &RecordStore,
    base_address: usize,
    target_address: usize,
) -> (r: ValidateCallbackResult)
    ensures
        r == (if !(spec_dependency_check(
            *store,
            base_address,
            record_is_satisfaction(*store, base_address),
        ) is Valid) {
            spec_dependency_check(
                *store,
                base_address,
                record_is_satisfaction(*store, base_address),
            )
        } else {
            spec_dependency_check(
                *store,
                target_address,
                target_address < store.records@.len() && store.records@[target_address as int].content is Assembly,
            )
        }),
{
    let base = check_satisfaction_dependency(store, base_address);
    match base {
        ValidateCallbackResult::Valid => match store.get_record(target_address) {
            None => ValidateCallbackResult::Invalid(RejectReason::MissingDependency),
            Some(entry) => match &entry.content {
                EntryTypes::Assembly(_) => ValidateCallbackResult::Valid,
                _ => ValidateCallbackResult::Invalid(RejectReason::WrongRecordKind),
            },
        },
        _ => base,
    }
}

/// Gathered-satisfaction edges cannot be deleted.
pub fn validate_delete_link_satisfaction_to_assemblies() -> (r: ValidateCallbackResult)
    ensures
        r == ValidateCallbackResult::Invalid(RejectReason::Undeletable),
{
    ValidateCallbackResult::Invalid(RejectReason::Undeletable)
}

/// One operation on the shared store, as handed to validation: a new or
/// updated entry, a registered update or delete, or an edge mutation.
#[derive(Clone, Debug, PartialEq)]
pub enum Op {
    StoreEntry { author: u64, entry: EntryTypes },
    RegisterUpdate { entry: EntryTypes, original_entry: EntryTypes },
    RegisterDelete { original_entry: EntryTypes },
    RegisterCreateLink { link_type: LinkTypes, base_address: usize, target_address: usize },
    RegisterDeleteLink { link_type: LinkTypes },
    StoreRecord,
    RegisterAgentActivity,
}

/// The verdict on a stored entry, by kind.
pub open spec fn spec_validate_store_entry(s: RecordStore, author: u64, entry: EntryTypes) -> ValidateCallbackResult {
    match entry {
        EntryTypes::CallToAction(cta) => match cta.parent_call_to_action_hash {
            Some(p) => spec_dependency_check(s, p, record_is_call_to_action(s, p)),
            None => ValidateCallbackResult::Valid,
        },
        EntryTypes::Commitment(c) => spec_dependency_check(
            s,
            c.call_to_action_hash,
            record_is_call_to_action(s, c.call_to_action_hash),
        ),
        EntryTypes::Satisfaction(sat) => spec_validate_create_satisfaction(s, author, sat),
        EntryTypes::Assembly(assembly) => crate::assembly::spec_validate_create_assembly(
            s,
            assembly,
        ),
    }
}

/// The verdict on a registered update: the two revisions must be of the
/// same kind, and that kind must permit updates.
pub open spec fn spec_validate_register_update(
    entry: EntryTypes,
    original_entry: EntryTypes,
) -> ValidateCallbackResult {
    match (entry, original_entry) {
        (EntryTypes::CallToAction(_), EntryTypes::CallToAction(_)) => ValidateCallbackResult::Valid,
        (EntryTypes::Commitment(_), EntryTypes::Commitment(_)) => ValidateCallbackResult::Invalid(
            RejectReason::Immutable,
        ),
        (EntryTypes::Satisfaction(_), EntryTypes::Satisfaction(_)) => ValidateCallbackResult::Valid,
        (EntryTypes::Assembly(_), EntryTypes::Assembly(_)) => ValidateCallbackResult::Invalid(
            RejectReason::Immutable,
        ),
        _ => ValidateCallbackResult::Invalid(RejectReason::WrongRecordKind),
    }
}

/// The verdict on a registered delete, by the kind of the tombstoned
/// record: calls to action may be withdrawn and satisfactions corrected,
/// while commitments and assemblies stay.
pub open spec fn spec_validate_register_delete(original_entry: EntryTypes) -> ValidateCallbackResult {
    match original_entry {
        EntryTypes::CallToAction(_) => ValidateCallbackResult::Valid,
        EntryTypes::Commitment(_) => ValidateCallbackResult::Invalid(RejectReason::Undeletable),
        EntryTypes::Satisfaction(_) => ValidateCallbackResult::Valid,
        EntryTypes::Assembly(_) => ValidateCallbackResult::Invalid(RejectReason::Undeletable),
    }
}

/// The verdict on a new edge, by its kind: each edge kind fixes what its
/// base and target must be.
pub open spec fn spec_validate_register_create_link(
    s: RecordStore,
    link_type: LinkTypes,
    base_address: usize,
    target_address: usize,
) -> ValidateCallbackResult {
    match link_type {
        LinkTypes::CallToActionToCallToActions => if !(spec_dependency_check(
            s,
            base_address,
            record_is_call_to_action(s, base_address),
        ) is Valid) {
            spec_dependency_check(s, base_address, record_is_call_to_action(s, base_address))
        } else {
            spec_dependency_check(s, target_address, record_is_call_to_action(s, target_address))
        },
        LinkTypes::CallToActionToCommitments => if !(spec_dependency_check(
            s,
            base_address,
            record_is_call_to_action(s, base_address),
        ) is Valid) {
            spec_dependency_check(s, base_address, record_is_call_to_action(s, base_address))
        } else {
            spec_dependency_check(s, target_address, record_is_commitment(s, target_address))
        },
        LinkTypes::CallToActionToSatisfactions => if !(spec_dependency_check(
            s,
            base_address,
            record_is_call_to_action(s, base_address),
        ) is Valid) {
            spec_dependency_check(s, base_address, record_is_call_to_action(s, base_address))
        } else {
            spec_dependency_check(s, target_address, record_is_satisfaction(s, target_address))
        },
        LinkTypes::CommitmentToSatisfactions => if !(spec_dependency_check(
            s,
            base_address,
            record_is_commitment(s, base_address),
        ) is Valid) {
            spec_dependency_check(s, base_address, record_is_commitment(s, base_address))
        } else {
            spec_dependency_check(s, target_address, record_is_satisfaction(s, target_address))
        },
        LinkTypes::CallToActionToAssemblies => if !(spec_dependency_check(
            s,
            base_address,
            record_is_call_to_action(s, base_address),
        ) is Valid) {
            spec_dependency_check(s, base_address, record_is_call_to_action(s, base_address))
        } else {
            spec_dependency_check(
                s,
                target_address,
                target_address < s.records@.len() && s.records@[target_address as int].content is Assembly,
            )
        },
        LinkTypes::SatisfactionToAssemblies => if !(spec_dependency_check(
            s,
            base_address,
            record_is_satisfaction(s, base_address),
        ) is Valid) {
            spec_dependency_check(s, base_address, record_is_satisfaction(s, base_address))
        } else {
            spec_dependency_check(
                s,
                target_address,
                target_address < s.records@.len() && s.records@[target_address as int].content is Assembly,
            )
        },
    }
}

/// The whole validation callback as one total function over operations:
/// what every honest participant holds every observed operation to.
pub open spec fn spec_validate(s: RecordStore, op: Op) -> ValidateCallbackResult {
    match op {
        Op::StoreEntry { author, entry } => spec_validate_store_entry(s, author, entry),
        Op::RegisterUpdate { entry, original_entry } => spec_validate_register_update(
            entry,
            original_entry,
        ),
        Op::RegisterDelete { original_entry } => spec_validate_register_delete(original_entry),
        Op::RegisterCreateLink { link_type, base_address, target_address } => spec_validate_register_create_link(
            s,
            link_type,
            base_address,
            target_address,
        ),
        Op::RegisterDeleteLink { link_type } => match link_type {
            LinkTypes::CallToActionToSatisfactions => ValidateCallbackResult::Valid,
            LinkTypes::CommitmentToSatisfactions => ValidateCallbackResult::Valid,
            _ => ValidateCallbackResult::Invalid(RejectReason::Undeletable),
        },
        Op::StoreRecord => ValidateCallbackResult::Valid,
        Op::RegisterAgentActivity => ValidateCallbackResult::Valid,
    }
}

/// Validate one observed operation: dispatch on its shape and kind to
/// the specific rule, a total match with no other effect.
pub fn validate(store: &RecordStore, op: &Op) -> (r: ValidateCallbackResult)
    requires
        store.wf(),
    ensures
        r == spec_validate(*store, *op),
{
    match op {
        Op::StoreEntry { author, entry } => match entry {
            EntryTypes::CallToAction(cta) => validate_create_call_to_action(store, cta),
            EntryTypes::Commitment(c) => validate_create_commitment(store, c),
            EntryTypes::Satisfaction(sat) => validate_create_satisfaction(store, *author, sat),
            EntryTypes::Assembly(assembly) => validate_create_assembly(store, assembly),
        },
        Op::RegisterUpdate { entry, original_entry } => match (entry, original_entry) {
            (EntryTypes::CallToAction(cta), EntryTypes::CallToAction(original)) => {
                validate_update_call_to_action(cta, original)
            },
            (EntryTypes::Commitment(c), EntryTypes::Commitment(original)) => {
                validate_update_commitment(c, original)
            },
            (EntryTypes::Satisfaction(sat), EntryTypes::Satisfaction(original)) => {
                validate_update_satisfaction(sat, original)
            },
            (EntryTypes::Assembly(assembly), EntryTypes::Assembly(original)) => {
                validate_update_assembly(assembly, original)
            },
            _ => ValidateCallbackResult::Invalid(RejectReason::WrongRecordKind),
        },
        Op::RegisterDelete { original_entry } => match original_entry {
            EntryTypes::CallToAction(cta) => validate_delete_call_to_action(cta),
            EntryTypes::Commitment(c) => validate_delete_commitment(c),
            EntryTypes::Satisfaction(sat) => validate_delete_satisfaction(sat),
            EntryTypes::Assembly(assembly) => validate_delete_assembly(assembly),
        },
        Op::RegisterCreateLink { link_type, base_address, target_address } => match link_type {
            LinkTypes::CallToActionToCallToActions => {
                validate_create_link_call_to_action_to_call_to_actions(
                    store,
                    *base_address,
                    *target_address,
                )
            },
            LinkTypes::CallToActionToCommitments => {
                validate_create_link_call_to_action_to_commitments(
                    store,
                    *base_address,
                    *target_address,
                )
            },
            LinkTypes::CallToActionToSatisfactions => {
                validate_create_link_call_to_action_to_satisfactions(
                    store,
                    *base_address,
                    *target_address,
                )
            },
            LinkTypes::CommitmentToSatisfactions => {
                validate_create_link_commitment_to_satisfactions(
                    store,
                    *base_address,
                    *target_address,
                )
            },
            LinkTypes::CallToActionToAssemblies => {
                validate_create_link_call_to_action_to_assemblies(
                    store,
                    *base_address,
                    *target_address,
                )
            },
            LinkTypes::SatisfactionToAssemblies => {
                validate_create_link_satisfaction_to_assemblies(
                    store,
                    *base_address,
                    *target_address,
                )
            },
        },
        Op::RegisterDeleteLink { link_type } => match link_type {
            LinkTypes::CallToActionToCallToActions => {
                validate_delete_link_call_to_action_to_call_to_actions()
            },
            LinkTypes::CallToActionToCommitments => {
                validate_delete_link_call_to_action_to_commitments()
            },
            LinkTypes::CallToActionToSatisfactions => {
                validate_delete_link_call_to_action_to_satisfactions()
            },
            LinkTypes::CommitmentToSatisfactions => {
                validate_delete_link_commitment_to_satisfactions()
            },
            LinkTypes::CallToActionToAssemblies => {
                validate_delete_link_call_to_action_to_assemblies()
            },
            LinkTypes::SatisfactionToAssemblies => validate_delete_link_satisfaction_to_assemblies(
            ),
        },
        Op::StoreRecord => ValidateCallbackResult::Valid,
        Op::RegisterAgentActivity => ValidateCallbackResult::Valid,
    }
}

/// The genesis self-check: nothing to refuse at join time.
pub fn genesis_self_check() -> (r: ValidateCallbackResult)
    ensures
        r == ValidateCallbackResult::Valid,
{
    ValidateCallbackResult::Valid
}

/// Agents are admitted without a membrane condition.
pub fn validate_agent_joining(_agent: u64) -> (r: ValidateCallbackResult)
    ensures
        r == ValidateCallbackResult::Valid,
{
    ValidateCallbackResult::Valid
}

} // verus!
