use vstd::prelude::*;

use crate::entity::EngineError;
use crate::entity::EntryTypes;
use crate::entity::LinkTypes;
use crate::entity::RejectReason;
use crate::entity::Satisfaction;
use crate::entity::ValidateCallbackResult;
use crate::store::Edge;
use crate::store::RecordOrigin;
use crate::store::RecordStore;
use crate::store::appended_record;
use crate::store::copy_ids;
use crate::store::copy_marks;
use crate::store::edge_targets;
use crate::store::live_content;
use crate::store::live_revision;
use crate::store::updated_record;
use crate::aggregate::contains_id;
use crate::aggregate::lemma_live_revision_props;
use crate::validate::lemma_commitments_check_valid;
use crate::validate::spec_validate_create_satisfaction;
use crate::validate::spec_validate_register_update;
use crate::validate::validate_create_satisfaction;

verus! {

/// The edges a new satisfaction brings with it: one under its call to
/// action, and one under each commitment it counts.
pub open spec fn satisfaction_edges(sat: Satisfaction, id: usize) -> Seq<Edge> {
    seq![
        (Edge {
            base: sat.call_to_action_hash,
            target: id,
            link_type: LinkTypes::CallToActionToSatisfactions,
            deleted: false,
        }),
    ] + sat.commitments_hashes@.map_values(
        |c: usize|
            (Edge {
                base: c,
                target: id,
                link_type: LinkTypes::CommitmentToSatisfactions,
                deleted: false,
            }),
    )
}

/// Publish a new satisfaction through the validated creation path: the
/// record is appended and linked under its call to action and under each
/// commitment it counts. Refused with the validation verdict where
/// validation fails.
pub fn create_satisfaction(store: &mut RecordStore, satisfaction: Satisfaction, author: u64) -> (r:
    Result<usize, RejectReason>)
    requires
        old(store).wf(),
    ensures
        final(store).wf(),
        match spec_validate_create_satisfaction(*old(store), author, satisfaction) {
            ValidateCallbackResult::Valid => r matches Ok(id) && appended_record(
                *old(store),
                *final(store),
                id,
                EntryTypes::Satisfaction(satisfaction),
                author,
                RecordOrigin::Create,
            ) && final(store).edges@ == old(store).edges@ + satisfaction_edges(satisfaction, id),
            ValidateCallbackResult::Invalid(reason) => r == Err::<usize, RejectReason>(reason)
                && *final(store) == *old(store),
        },
{
    match validate_create_satisfaction(store, author, &satisfaction) {
        ValidateCallbackResult::Valid => (),
        ValidateCallbackResult::Invalid(reason) => {
            return Err(reason);
        },
    }
    proof {
        lemma_commitments_check_valid(*store, satisfaction.commitments_hashes@);
    }
    let cta_hash = satisfaction.call_to_action_hash;
    let chs = copy_ids(&satisfaction.commitments_hashes);
    let id = store.put_record(EntryTypes::Satisfaction(satisfaction), author, RecordOrigin::Create);
    store.create_edge(cta_hash, id, LinkTypes::CallToActionToSatisfactions);
    let ghost mid = *store;
    let mut i: usize = 0;
    while i < chs.len()
        invariant
            i <= chs@.len(),
            store.wf(),
            store.records@ == mid.records@,
            store.edges@ == mid.edges@ + chs@.take(i as int).map_values(
                |c: usize|
                    (Edge {
                        base: c,
                        target: id,
                        link_type: LinkTypes::CommitmentToSatisfactions,
                        deleted: false,
                    }),
            ),
        decreases chs@.len() - i,
    {
        proof {
            assert(chs@.take(0).map_values(
                |c: usize|
                    (Edge {
                        base: c,
                        target: id,
                        link_type: LinkTypes::CommitmentToSatisfactions,
                        deleted: false,
                    }),
            ) =~= Seq::<Edge>::empty());
            assert(chs@.take(i + 1).map_values(
                |c: usize|
                    (Edge {
                        base: c,
                        target: id,
                        link_type: LinkTypes::CommitmentToSatisfactions,
                        deleted: false,
                    }),
            ) =~= chs@.take(i as int).map_values(
                |c: usize|
                    (Edge {
                        base: c,
                        target: id,
                        link_type: LinkTypes::CommitmentToSatisfactions,
                        deleted: false,
                    }),
            ).push(
                (Edge {
                    base: chs@[i as int],
                    target: id,
                    link_type: LinkTypes::CommitmentToSatisfactions,
                    deleted: false,
                }),
            ));
        }
        store.create_edge(chs[i], id, LinkTypes::CommitmentToSatisfactions);
        i = i + 1;
    }
    proof {
        assert(chs@.take(chs@.len() as int) =~= chs@);
        assert(store.edges@ =~= old(store).edges@ + satisfaction_edges(satisfaction, id));
    }
    Ok(id)
}

/// The live revision of the satisfaction first published under the given
/// id, through the version resolver.
pub fn get_latest_satisfaction(store: &RecordStore, satisfaction_hash: usize) -> (r: Option<usize>)
    requires
        store.wf(),
    ensures
        r == live_revision(*store, satisfaction_hash),
{
    store.resolve_latest(satisfaction_hash)
}

/// The two pieces an update needs: which record to supersede, and the new
/// value.
#[derive(Clone, Debug, PartialEq)]
pub struct UpdateSatisfactionInput {
    pub previous_satisfaction_hash: usize,
    pub updated_satisfaction: Satisfaction,
}

/// Publish an updated revision of a satisfaction, superseding the named
/// previous revision. Refused where the previous revision does not exist
/// or is not a satisfaction, per the register-update rule.
pub fn update_satisfaction(store: &mut RecordStore, input: UpdateSatisfactionInput, author: u64)
    -> (r: Result<usize, RejectReason>)
    requires
        old(store).wf(),
    ensures
        final(store).wf(),
        input.previous_satisfaction_hash < old(store).records@.len() ==> (
        match spec_validate_register_update(
            EntryTypes::Satisfaction(input.updated_satisfaction),
            old(store).records@[input.previous_satisfaction_hash as int].content,
        ) {
            ValidateCallbackResult::Valid => r matches Ok(id) && updated_record(
                *old(store),
                *final(store),
                input.previous_satisfaction_hash,
                id,
                EntryTypes::Satisfaction(input.updated_satisfaction),
                author,
            ) && final(store).edges@ == old(store).edges@,
            ValidateCallbackResult::Invalid(reason) => r == Err::<usize, RejectReason>(reason)
                && *final(store) == *old(store),
        }),
        input.previous_satisfaction_hash >= old(store).records@.len() ==> r == Err::<
            usize,
            RejectReason,
        >(RejectReason::MissingDependency) && *final(store) == *old(store),
{
    if input.previous_satisfaction_hash >= store.records.len() {
        return Err(RejectReason::MissingDependency);
    }
    match &store.records[input.previous_satisfaction_hash].content {
        EntryTypes::Satisfaction(_) => (),
        _ => {
            return Err(RejectReason::WrongRecordKind);
        },
    }
    let id = store.update_record(
        input.previous_satisfaction_hash,
        EntryTypes::Satisfaction(input.updated_satisfaction),
        author,
    );
    Ok(id)
}

/// Whether withdrawing the satisfaction under `h` marks this edge: the
/// edge points at `h` from the satisfaction's call to action or from one
/// of its counted commitments.
pub open spec fn withdrawn_edge(e: Edge, h: usize, cta: usize, chs: Seq<usize>) -> bool {
    e.target == h && ((e.base == cta && e.link_type == LinkTypes::CallToActionToSatisfactions) || (
    chs.contains(e.base) && e.link_type == LinkTypes::CommitmentToSatisfactions))
}

/// Withdraw a satisfaction: mark as deleted every edge pointing at it
/// from its call to action and from its counted commitments. The record
/// itself stays; only the edges disappear from lookups.
pub fn delete_satisfaction(store: &mut RecordStore, original_satisfaction_hash: usize) -> (r:
    Result<(), EngineError>)
    requires
        old(store).wf(),
    ensures
        final(store).wf(),
        match live_content(*old(store), original_satisfaction_hash) {
            Some(EntryTypes::Satisfaction(sat)) => r is Ok && final(store).records@ == old(
                store,
            ).records@ && final(store).edges@.len() == old(store).edges@.len() && forall|k: int|
                0 <= k < old(store).edges@.len() ==> {
                    let oe = old(store).edges@[k];
                    let ne = #[trigger] final(store).edges@[k];
                    ne.base == oe.base && ne.target == oe.target && ne.link_type == oe.link_type
                        && ne.deleted == (oe.deleted || withdrawn_edge(
                        oe,
                        original_satisfaction_hash,
                        sat.call_to_action_hash,
                        sat.commitments_hashes@,
                    ))
                },
            Some(_) => r == Err::<(), EngineError>(EngineError::MalformedRecord) && *final(store)
                == *old(store),
            None => r == Err::<(), EngineError>(EngineError::NotFound) && *final(store) == *old(
                store,
            ),
        },
{
    let l = match store.resolve_latest(original_satisfaction_hash) {
        None => {
            return Err(EngineError::NotFound);
        },
        Some(l) => l,
    };
    proof {
        lemma_live_revision_props(*store, original_satisfaction_hash);
    }
    let (cta_hash, chs) = match &store.records[l].content {
        EntryTypes::Satisfaction(s) => (s.call_to_action_hash, copy_ids(&s.commitments_hashes)),
        _ => {
            return Err(EngineError::MalformedRecord);
        },
    };
    let mut k: usize = 0;
    while k < store.edges.len()
        invariant
            k <= store.edges@.len(),
            store.wf(),
            store.records@ == old(store).records@,
            store.edges@.len() == old(store).edges@.len(),
            forall|j: int| k <= j < old(store).edges@.len() ==> store.edges@[j] == old(store).edges@[j],
            forall|j: int|
                0 <= j < k ==> {
                    let oe = old(store).edges@[j];
                    let ne = #[trigger] store.edges@[j];
                    ne.base == oe.base && ne.target == oe.target && ne.link_type == oe.link_type
                        && ne.deleted == (oe.deleted || withdrawn_edge(
                        oe,
                        original_satisfaction_hash,
                        cta_hash,
                        chs@,
                    ))
                },
        decreases store.edges@.len() - k,
    {
        let e = store.edges[k];
        let withdraw = e.target == original_satisfaction_hash && ((e.base == cta_hash
            && e.link_type == LinkTypes::CallToActionToSatisfactions) || (e.link_type
            == LinkTypes::CommitmentToSatisfactions && contains_id(&chs, e.base)));
        if withdraw {
            store.edges[k] = Edge { base: e.base, target: e.target, link_type: e.link_type, deleted: true };
        }
        k = k + 1;
    }
    Ok(())
}

/// The ids of the satisfactions linked under a call to action.
pub fn get_satisfactions_for_call_to_action(store: &RecordStore, call_to_action_hash: usize) -> (r:
    Vec<usize>)
    ensures
        r@ == edge_targets(*store, call_to_action_hash, LinkTypes::CallToActionToSatisfactions),
{
    store.get_edges(call_to_action_hash, LinkTypes::CallToActionToSatisfactions)
}

/// The ids of the satisfactions linked under a commitment they count.
pub fn get_satisfactions_for_commitment(store: &RecordStore, commitment_hash: usize) -> (r: Vec<
    usize,
>)
    ensures
        r@ == edge_targets(*store, commitment_hash, LinkTypes::CommitmentToSatisfactions),
{
    store.get_edges(commitment_hash, LinkTypes::CommitmentToSatisfactions)
}

/// The tombstone marks recorded against the satisfaction first published
/// under the given id.
pub fn get_satisfaction_deletes(store: &RecordStore, original_satisfaction_hash: usize) -> (r:
    Result<Vec<u64>, EngineError>)
    ensures
        match r {
            Ok(marks) => original_satisfaction_hash < store.records@.len() && marks@
                == store.records@[original_satisfaction_hash as int].deletes@,
            Err(e) => e == EngineError::NotFound && original_satisfaction_hash
                >= store.records@.len(),
        },
{
    if original_satisfaction_hash >= store.records.len() {
        return Err(EngineError::NotFound);
    }
    Ok(copy_marks(&store.records[original_satisfaction_hash].deletes))
}

} // verus!
