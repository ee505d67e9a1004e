use vstd::prelude::*;

use crate::entity::CallToAction;
use crate::entity::EntryTypes;
use crate::entity::LinkTypes;
use crate::entity::RejectReason;
use crate::entity::ValidateCallbackResult;
use crate::store::Edge;
use crate::store::RecordOrigin;
use crate::store::RecordStore;
use crate::store::appended_record;
use crate::store::edge_targets;
use crate::store::live_revision;
use crate::store::tombstoned_record;
use crate::store::updated_record;
use crate::validate::record_is_call_to_action;
use crate::validate::spec_dependency_check;
use crate::validate::spec_validate_register_update;
use crate::validate::validate_create_call_to_action;

verus! {

/// Publish a new call to action through the validated creation path: the
/// record is appended, and an amendment edge from the parent is added
/// where a parent is named. Refused with the validation verdict where the
/// named parent does not exist or is not a call to action.
pub fn create_call_to_action(store: &mut RecordStore, call_to_action: CallToAction, author: u64)
    -> (r: Result<usize, RejectReason>)
    requires
        old(store).wf(),
    ensures
        final(store).wf(),
        match (match call_to_action.parent_call_to_action_hash {
            Some(p) => spec_dependency_check(
                *old(store),
                p,
                record_is_call_to_action(*old(store), p),
            ),
            None => ValidateCallbackResult::Valid,
        }) {
            ValidateCallbackResult::Valid => r matches Ok(id) && appended_record(
                *old(store),
                *final(store),
                id,
                EntryTypes::CallToAction(call_to_action),
                author,
                RecordOrigin::Create,
            ) && (match call_to_action.parent_call_to_action_hash {
                Some(p) => final(store).edges@ == old(store).edges@.push(
                    (Edge {
                        base: p,
                        target: id,
                        link_type: LinkTypes::CallToActionToCallToActions,
                        deleted: false,
                    }),
                ),
                None => final(store).edges@ == old(store).edges@,
            }),
            ValidateCallbackResult::Invalid(reason) => r == Err::<usize, RejectReason>(reason)
                && *final(store) == *old(store),
        },
{
    match validate_create_call_to_action(store, &call_to_action) {
        ValidateCallbackResult::Valid => (),
        ValidateCallbackResult::Invalid(reason) => {
            return Err(reason);
        },
    }
    let parent = call_to_action.parent_call_to_action_hash;
    let id = store.put_record(EntryTypes::CallToAction(call_to_action), author, RecordOrigin::Create);
    match parent {
        Some(p) => store.create_edge(p, id, LinkTypes::CallToActionToCallToActions),
        None => (),
    }
    Ok(id)
}

/// The live revision of the call to action first published under the
/// given id, through the version resolver.
pub fn get_latest_call_to_action(store: &RecordStore, call_to_action_hash: usize) -> (r: Option<
    usize,
>)
    requires
        store.wf(),
    ensures
        r == live_revision(*store, call_to_action_hash),
{
    store.resolve_latest(call_to_action_hash)
}

/// The two pieces an update needs: which record to supersede, and the new
/// value.
#[derive(Clone, Debug, PartialEq)]
pub struct UpdateCallToActionInput {
    pub previous_call_to_action_hash: usize,
    pub updated_call_to_action: CallToAction,
}

/// Publish an updated revision of a call to action, superseding the named
/// previous revision. Refused where the previous revision does not exist
/// or is not a call to action, per the register-update rule.
pub fn update_call_to_action(store: &mut RecordStore, input: UpdateCallToActionInput, author: u64)
    -> (r: Result<usize, RejectReason>)
    requires
        old(store).wf(),
    ensures
        final(store).wf(),
        input.previous_call_to_action_hash < old(store).records@.len() ==> (
        match spec_validate_register_update(
            EntryTypes::CallToAction(input.updated_call_to_action),
            old(store).records@[input.previous_call_to_action_hash as int].content,
        ) {
            ValidateCallbackResult::Valid => r matches Ok(id) && updated_record(
                *old(store),
                *final(store),
                input.previous_call_to_action_hash,
                id,
                EntryTypes::CallToAction(input.updated_call_to_action),
                author,
            ) && final(store).edges@ == old(store).edges@,
            ValidateCallbackResult::Invalid(reason) => r == Err::<usize, RejectReason>(reason)
                && *final(store) == *old(store),
        }),
        input.previous_call_to_action_hash >= old(store).records@.len() ==> r == Err::<
            usize,
            RejectReason,
        >(RejectReason::MissingDependency) && *final(store) == *old(store),
{
    if input.previous_call_to_action_hash >= store.records.len() {
        return Err(RejectReason::MissingDependency);
    }
    match &store.records[input.previous_call_to_action_hash].content {
        EntryTypes::CallToAction(_) => (),
        _ => {
            return Err(RejectReason::WrongRecordKind);
        },
    }
    let id = store.update_record(
        input.previous_call_to_action_hash,
        EntryTypes::CallToAction(input.updated_call_to_action),
        author,
    );
    Ok(id)
}

/// Place a tombstone on the original revision of a call to action,
/// killing its whole update chain for every resolver. Refused where the
/// record does not exist.
pub fn delete_call_to_action(
    store: &mut RecordStore,
    original_call_to_action_hash: usize,
    mark: u64,
) -> (r: Result<(), RejectReason>)
    requires
        old(store).wf(),
    ensures
        final(store).wf(),
        original_call_to_action_hash < old(store).records@.len() ==> r is Ok && tombstoned_record(
            *old(store),
            *final(store),
            original_call_to_action_hash,
            mark,
        ) && final(store).edges@ == old(store).edges@,
        original_call_to_action_hash >= old(store).records@.len() ==> r == Err::<
            (),
            RejectReason,
        >(RejectReason::MissingDependency) && *final(store) == *old(store),
{
    if original_call_to_action_hash >= store.records.len() {
        return Err(RejectReason::MissingDependency);
    }
    store.add_tombstone(original_call_to_action_hash, mark);
    Ok(())
}

/// The ids of the amendments linked under a call to action.
pub fn get_call_to_actions_for_call_to_action(store: &RecordStore, call_to_action_hash: usize)
    -> (r: Vec<usize>)
    ensures
        r@ == edge_targets(
            *store,
            call_to_action_hash,
            LinkTypes::CallToActionToCallToActions,
        ),
{
    store.get_edges(call_to_action_hash, LinkTypes::CallToActionToCallToActions)
}

} // verus!
