use vstd::prelude::*;

use crate::entity::Commitment;
use crate::entity::EntryTypes;
use crate::entity::LinkTypes;
use crate::entity::RejectReason;
use crate::entity::ValidateCallbackResult;
use crate::store::Edge;
use crate::store::RecordEntry;
use crate::store::RecordOrigin;
use crate::store::RecordStore;
use crate::store::appended_record;
use crate::store::edge_targets;
use crate::validate::record_is_call_to_action;
use crate::validate::spec_dependency_check;
use crate::validate::validate_create_commitment;

verus! {

/// Publish a new commitment through the validated creation path: the
/// record is appended and linked under its call to action. Refused with
/// the validation verdict where the call to action does not exist or is
/// not one.
pub fn create_commitment(store: &mut RecordStore, commitment: Commitment, author: u64) -> (r:
    Result<usize, RejectReason>)
    requires
        old(store).wf(),
    ensures
        final(store).wf(),
        match spec_dependency_check(
            *old(store),
            commitment.call_to_action_hash,
            record_is_call_to_action(*old(store), commitment.call_to_action_hash),
        ) {
            ValidateCallbackResult::Valid => r matches Ok(id) && appended_record(
                *old(store),
                *final(store),
                id,
                EntryTypes::Commitment(commitment),
                author,
                RecordOrigin::Create,
            ) && final(store).edges@ == old(store).edges@.push(
                (Edge {
                    base: commitment.call_to_action_hash,
                    target: id,
                    link_type: LinkTypes::CallToActionToCommitments,
                    deleted: false,
                }),
            ),
            ValidateCallbackResult::Invalid(reason) => r == Err::<usize, RejectReason>(reason)
                && *final(store) == *old(store),
        },
{
    match validate_create_commitment(store, &commitment) {
        ValidateCallbackResult::Valid => (),
        ValidateCallbackResult::Invalid(reason) => {
            return Err(reason);
        },
    }
    let base = commitment.call_to_action_hash;
    let id = store.put_record(EntryTypes::Commitment(commitment), author, RecordOrigin::Create);
    store.create_edge(base, id, LinkTypes::CallToActionToCommitments);
    Ok(id)
}

/// The record first published under the given id, if any. Commitments
/// are immutable, so no resolution is involved.
pub fn get_commitment(store: &RecordStore, commitment_hash: usize) -> (r: Option<&RecordEntry>)
    ensures
        match r {
            Some(entry) => commitment_hash < store.records@.len() && *entry == store.records@[
                commitment_hash as int
            ],
            None => commitment_hash >= store.records@.len(),
        },
{
    store.get_record(commitment_hash)
}

/// The ids of the commitments linked under a call to action.
pub fn get_commitments_for_call_to_action(store: &RecordStore, call_to_action_hash: usize) -> (r:
    Vec<usize>)
    ensures
        r@ == edge_targets(*store, call_to_action_hash, LinkTypes::CallToActionToCommitments),
{
    store.get_edges(call_to_action_hash, LinkTypes::CallToActionToCommitments)
}

} // verus!
