use vstd::prelude::*;

use crate::aggregate::aggregate_commitments;
use crate::aggregate::committed_total;
use crate::aggregate::first_occurrence_dedup;
use crate::aggregate::lemma_live_revision_props;
use crate::aggregate::surviving_candidates;
use crate::assembly::assembly_edges;
use crate::assembly::create_assembly;
use crate::assembly::spec_validate_create_assembly;
use crate::entity::Assembly;
use crate::entity::Commitment;
use crate::entity::EngineError;
use crate::entity::EntryTypes;
use crate::entity::LinkTypes;
use crate::entity::Need;
use crate::entity::Satisfaction;
use crate::entity::ValidateCallbackResult;
use crate::satisfaction::create_satisfaction;
use crate::satisfaction::satisfaction_edges;
use crate::store::RecordStore;
use crate::store::RecordOrigin;
use crate::store::appended_record;
use crate::store::edge_targets;
use crate::store::live_content;
use crate::store::live_revision;
use crate::validate::spec_validate_create_satisfaction;

verus! {

/// Whether `id` leads to a live satisfaction claiming the need at
/// `need_index`.
pub open spec fn is_live_satisfaction_for(s: RecordStore, id: usize, need_index: int) -> bool {
    match live_content(s, id) {
        Some(EntryTypes::Satisfaction(sat)) => sat.need_index as int == need_index,
        _ => false,
    }
}

/// Whether some satisfaction linked under the call to action is live and
/// claims the need at `need_index`: the idempotent short-circuit of the
/// need satisfaction trigger.
pub open spec fn need_has_live_satisfaction(
    s: RecordStore,
    call_to_action_hash: usize,
    need_index: int,
) -> bool {
    exists|k: int|
        0 <= k < edge_targets(s, call_to_action_hash, LinkTypes::CallToActionToSatisfactions).len()
            && is_live_satisfaction_for(
            s,
            edge_targets(s, call_to_action_hash, LinkTypes::CallToActionToSatisfactions)[k],
            need_index,
        )
}

/// What the need satisfaction trigger decides on observing a new
/// commitment, carried out as a pure function of the snapshot:
/// `Ok(Some((l, ids)))` says to publish a satisfaction referencing the
/// live call to action revision `l` and the surviving commitment ids.
pub open spec fn need_trigger_decision(
    s: RecordStore,
    cancelled: Seq<usize>,
    commitment_hash: usize,
    commitment: Commitment,
) -> Result<Option<(usize, Seq<usize>)>, EngineError> {
    match live_revision(s, commitment.call_to_action_hash) {
        None => Err(EngineError::NotFound),
        Some(l) => match s.records@[l as int].content {
            EntryTypes::CallToAction(cta) => {
                if commitment.need_index >= cta.needs@.len() {
                    Err(EngineError::MalformedRecord)
                } else if cta.needs@[commitment.need_index as int].requires_admin_approval {
                    Ok(None)
                } else if need_has_live_satisfaction(
                    s,
                    commitment.call_to_action_hash,
                    commitment.need_index as int,
                ) {
                    Ok(None)
                } else if committed_total(
                    s,
                    cancelled,
                    commitment.call_to_action_hash,
                    commitment.need_index,
                    Some(commitment_hash),
                ) > u64::MAX {
                    Err(EngineError::NumericOverflow)
                } else if cta.needs@[commitment.need_index as int].min_necessary > 0
                    && committed_total(
                    s,
                    cancelled,
                    commitment.call_to_action_hash,
                    commitment.need_index,
                    Some(commitment_hash),
                ) >= cta.needs@[commitment.need_index as int].min_necessary {
                    Ok(
                        Some(
                            (
                                l,
                                surviving_candidates(
                                    s,
                                    cancelled,
                                    commitment.call_to_action_hash,
                                    commitment.need_index,
                                    Some(commitment_hash),
                                ),
                            ),
                        ),
                    )
                } else {
                    Ok(None)
                }
            },
            _ => Err(EngineError::MalformedRecord),
        },
    }
}

/// Whether `id` leads to a live satisfaction record, whatever need it
/// claims.
pub open spec fn is_live_satisfaction(s: RecordStore, id: usize) -> bool {
    match live_content(s, id) {
        Some(EntryTypes::Satisfaction(_)) => true,
        _ => false,
    }
}

/// The subsequence of `cands` that leads to live satisfaction records.
pub open spec fn live_satisfaction_filter(s: RecordStore, cands: Seq<usize>) -> Seq<usize>
    decreases cands.len(),
{
    if cands.len() == 0 {
        Seq::empty()
    } else {
        let prev = live_satisfaction_filter(s, cands.drop_last());
        if is_live_satisfaction(s, cands.last()) {
            prev.push(cands.last())
        } else {
            prev
        }
    }
}

/// The satisfaction ids the assembly completion trigger considers: those
/// linked under the call to action, with the triggering satisfaction
/// (which may not be linked yet) unioned in, duplicates collapsed.
pub open spec fn assembly_candidates(
    s: RecordStore,
    call_to_action_hash: usize,
    extra_satisfaction: usize,
) -> Seq<usize> {
    first_occurrence_dedup(
        edge_targets(s, call_to_action_hash, LinkTypes::CallToActionToSatisfactions).push(
            extra_satisfaction,
        ),
    )
}

/// Whether every need with a positive threshold has, among `sats`, a
/// live satisfaction claiming it. Needs with a zero threshold are
/// vacuously met and never block completion.
pub open spec fn all_needs_satisfied(s: RecordStore, needs: Seq<Need>, sats: Seq<usize>) -> bool {
    forall|i: int|
        0 <= i < needs.len() && needs[i].min_necessary > 0 ==> exists|k: int|
            0 <= k < sats.len() && is_live_satisfaction_for(s, sats[k], i)
}

/// What the assembly completion trigger decides on observing a new
/// satisfaction: `Ok(Some((l, ids)))` says to publish an assembly
/// referencing the live call to action revision `l` and the live
/// satisfaction ids.
pub open spec fn assembly_trigger_decision(
    s: RecordStore,
    satisfaction_hash: usize,
    satisfaction: Satisfaction,
) -> Result<Option<(usize, Seq<usize>)>, EngineError> {
    match live_revision(s, satisfaction.call_to_action_hash) {
        None => Err(EngineError::NotFound),
        Some(l) => match s.records@[l as int].content {
            EntryTypes::CallToAction(cta) => {
                let live = live_satisfaction_filter(
                    s,
                    assembly_candidates(s, satisfaction.call_to_action_hash, satisfaction_hash),
                );
                if all_needs_satisfied(s, cta.needs@, live) {
                    Ok(Some((l, live)))
                } else {
                    Ok(None)
                }
            },
            _ => Err(EngineError::MalformedRecord),
        },
    }
}

/// Whether `id` leads to a live satisfaction claiming `need_index`.
fn is_live_satisfaction_claiming(store: &RecordStore, id: usize, need_index: u32) -> (b: bool)
    requires
        store.wf(),
    ensures
        b == is_live_satisfaction_for(*store, id, need_index as int),
{
    match store.resolve_latest(id) {
        None => false,
        Some(l) => {
            proof {
                lemma_live_revision_props(*store, id);
            }
            match &store.records[l].content {
                EntryTypes::Satisfaction(sat) => sat.need_index == need_index,
                _ => false,
            }
        },
    }
}

/// Whether a live satisfaction for this need is already linked under the
/// call to action.
fn need_already_satisfied(store: &RecordStore, call_to_action_hash: usize, need_index: u32) -> (b:
    bool)
    requires
        store.wf(),
    ensures
        b == need_has_live_satisfaction(*store, call_to_action_hash, need_index as int),
{
    let targets = store.get_edges(call_to_action_hash, LinkTypes::CallToActionToSatisfactions);
    let mut k: usize = 0;
    while k < targets.len()
        invariant
            k <= targets@.len(),
            forall|j: int|
                0 <= j < k ==> !is_live_satisfaction_for(
                    *store,
                    targets@[j],
                    need_index as int,
                ),
        decreases targets@.len() - k,
    {
        if is_live_satisfaction_claiming(store, targets[k], need_index) {
            return true;
        }
        k = k + 1;
    }
    false
}

/// The need satisfaction trigger, one new commitment observed: resolve
/// the call to action, stop on admin-gated needs and on needs already
/// satisfied, aggregate, and where the threshold is met hand back the
/// satisfaction to publish. Pure: the caller publishes.
pub fn check_if_need_is_satisfied_with_new_commitment(
    store: &RecordStore,
    cancelled: &Vec<usize>,
    commitment_hash: usize,
    commitment: &Commitment,
) -> (r: Result<Option<Satisfaction>, EngineError>)
    requires
        store.wf(),
    ensures
        match need_trigger_decision(*store, cancelled@, commitment_hash, *commitment) {
            Err(e) => r matches Err(e2) && e2 == e,
            Ok(None) => r matches Ok(None),
            Ok(Some(d)) => r matches Ok(Some(sat)) && sat.call_to_action_hash == d.0
                && sat.need_index == commitment.need_index && sat.commitments_hashes@ == d.1,
        },
{
    let l = match store.resolve_latest(commitment.call_to_action_hash) {
        None => {
            return Err(EngineError::NotFound);
        },
        Some(l) => l,
    };
    proof {
        lemma_live_revision_props(*store, commitment.call_to_action_hash);
    }
    let cta = match &store.records[l].content {
        EntryTypes::CallToAction(cta) => cta,
        _ => {
            return Err(EngineError::MalformedRecord);
        },
    };
    if commitment.need_index as usize >= cta.needs.len() {
        return Err(EngineError::MalformedRecord);
    }
    if cta.needs[commitment.need_index as usize].requires_admin_approval {
        return Ok(None);
    }
    if need_already_satisfied(store, commitment.call_to_action_hash, commitment.need_index) {
        return Ok(None);
    }
    let (total, survivors) = match aggregate_commitments(
        store,
        cancelled,
        commitment.call_to_action_hash,
        commitment.need_index,
        Some(commitment_hash),
    ) {
        Ok(p) => p,
        Err(e) => {
            return Err(e);
        },
    };
    let min_necessary = cta.needs[commitment.need_index as usize].min_necessary;
    if min_necessary > 0 && total >= min_necessary {
        Ok(
            Some(
                Satisfaction {
                    call_to_action_hash: l,
                    need_index: commitment.need_index,
                    commitments_hashes: survivors,
                },
            ),
        )
    } else {
        Ok(None)
    }
}

/// Whether some id in `sats` leads to a live satisfaction claiming the
/// need at `idx`.
fn some_live_satisfaction_claims(store: &RecordStore, sats: &Vec<usize>, idx: usize) -> (b: bool)
    requires
        store.wf(),
    ensures
        b == exists|k: int|
            0 <= k < sats@.len() && is_live_satisfaction_for(*store, sats@[k], idx as int),
{
    let mut k: usize = 0;
    while k < sats.len()
        invariant
            k <= sats@.len(),
            forall|j: int| 0 <= j < k ==> !is_live_satisfaction_for(*store, sats@[j], idx as int),
        decreases sats@.len() - k,
    {
        let id = sats[k];
        match store.resolve_latest(id) {
            None => (),
            Some(l) => {
                proof {
                    lemma_live_revision_props(*store, id);
                }
                match &store.records[l].content {
                    EntryTypes::Satisfaction(sat) => {
                        if sat.need_index as usize == idx {
                            return true;
                        }
                    },
                    _ => (),
                }
            },
        }
        k = k + 1;
    }
    false
}

/// The assembly completion trigger, one new satisfaction observed:
/// resolve the call to action, gather the live satisfactions linked
/// under it together with the new one, and where every need with a
/// positive threshold is claimed hand back the assembly to publish.
/// Pure: the caller publishes.
pub fn check_if_call_to_action_is_fulfilled(
    store: &RecordStore,
    satisfaction_hash: usize,
    satisfaction: &Satisfaction,
) -> (r: Result<Option<Assembly>, EngineError>)
    requires
        store.wf(),
    ensures
        match assembly_trigger_decision(*store, satisfaction_hash, *satisfaction) {
            Err(e) => r matches Err(e2) && e2 == e,
            Ok(None) => r matches Ok(None),
            Ok(Some(d)) => r matches Ok(Some(assembly_value)) && assembly_value.call_to_action_hash == d.0
                && assembly_value.satisfactions_hashes@ == d.1,
        },
{
    let l = match store.resolve_latest(satisfaction.call_to_action_hash) {
        None => {
            return Err(EngineError::NotFound);
        },
        Some(l) => l,
    };
    proof {
        lemma_live_revision_props(*store, satisfaction.call_to_action_hash);
    }
    let cta = match &store.records[l].content {
        EntryTypes::CallToAction(cta) => cta,
        _ => {
            return Err(EngineError::MalformedRecord);
        },
    };
    let mut linked = store.get_edges(
        satisfaction.call_to_action_hash,
        LinkTypes::CallToActionToSatisfactions,
    );
    linked.push(satisfaction_hash);
    let cands = crate::aggregate::dedup_ids(&linked);
    assert(cands@ == assembly_candidates(*store, satisfaction.call_to_action_hash, satisfaction_hash));
    let mut live: Vec<usize> = Vec::new();
    let mut i: usize = 0;
    while i < cands.len()
        invariant
            i <= cands@.len(),
            live@ == live_satisfaction_filter(*store, cands@.take(i as int)),
        decreases cands@.len() - i,
    {
        proof {
            assert(cands@.take(i + 1).drop_last() =~= cands@.take(i as int));
            assert(cands@.take(i + 1).last() == cands@[i as int]);
        }
        let id = cands[i];
        match store.resolve_latest(id) {
            None => (),
            Some(rl) => {
                proof {
                    lemma_live_revision_props(*store, id);
                }
                match &store.records[rl].content {
                    EntryTypes::Satisfaction(_) => live.push(id),
                    _ => (),
                }
            },
        }
        i = i + 1;
    }
    proof {
        assert(cands@.take(cands@.len() as int) =~= cands@);
    }
    let mut complete = true;
    let mut n: usize = 0;
    while n < cta.needs.len()
        invariant
            n <= cta.needs@.len(),
            complete == (forall|j: int|
                0 <= j < n && cta.needs@[j].min_necessary > 0 ==> exists|k: int|
                    0 <= k < live@.len() && is_live_satisfaction_for(*store, live@[k], j)),
        decreases cta.needs@.len() - n,
    {
        if cta.needs[n].min_necessary > 0 {
            if !some_live_satisfaction_claims(store, &live, n) {
                complete = false;
            }
        }
        n = n + 1;
    }
    if complete {
        Ok(Some(Assembly { call_to_action_hash: l, satisfactions_hashes: live }))
    } else {
        Ok(None)
    }
}

/// What one committed record leads the dispatcher to: a derived record
/// to publish, nothing, or a caught failure to report.
#[derive(Clone, Debug, PartialEq)]
pub enum DispatchOutcome {
    PublishSatisfaction(Satisfaction),
    PublishAssembly(Assembly),
    NoAction,
    Failed(EngineError),
}

/// The dispatcher's decision, as mathematical data: the seq-valued twin
/// of `DispatchOutcome`.
pub enum DispatchDecision {
    PublishSatisfaction { call_to_action_hash: usize, need_index: u32, commitments_hashes: Seq<usize> },
    PublishAssembly { call_to_action_hash: usize, satisfactions_hashes: Seq<usize> },
    NoAction,
    Failed(EngineError),
}

/// Whether an outcome realizes a decision.
pub open spec fn outcome_matches(r: DispatchOutcome, d: DispatchDecision) -> bool {
    match d {
        DispatchDecision::PublishSatisfaction { call_to_action_hash, need_index, commitments_hashes } => r matches DispatchOutcome::PublishSatisfaction(sat)
            && sat.call_to_action_hash == call_to_action_hash && sat.need_index == need_index
            && sat.commitments_hashes@ == commitments_hashes,
        DispatchDecision::PublishAssembly { call_to_action_hash, satisfactions_hashes } => r matches DispatchOutcome::PublishAssembly(assembly_value)
            && assembly_value.call_to_action_hash == call_to_action_hash && assembly_value.satisfactions_hashes@
            == satisfactions_hashes,
        DispatchDecision::NoAction => r == DispatchOutcome::NoAction,
        DispatchDecision::Failed(e) => r == DispatchOutcome::Failed(e),
    }
}

/// The cascade dispatcher's whole behaviour on one committed record:
/// newly created commitments run the need satisfaction trigger, newly
/// created satisfactions the assembly completion trigger, everything
/// else passes through untouched; a trigger's error is caught, never
/// propagated.
pub open spec fn dispatch_decision(s: RecordStore, cancelled: Seq<usize>, id: usize) -> DispatchDecision {
    if id >= s.records@.len() {
        DispatchDecision::NoAction
    } else if !(s.records@[id as int].origin is Create) {
        DispatchDecision::NoAction
    } else {
        match s.records@[id as int].content {
            EntryTypes::Commitment(c) => match need_trigger_decision(s, cancelled, id, c) {
                Err(e) => DispatchDecision::Failed(e),
                Ok(None) => DispatchDecision::NoAction,
                Ok(Some(d)) => DispatchDecision::PublishSatisfaction {
                    call_to_action_hash: d.0,
                    need_index: c.need_index,
                    commitments_hashes: d.1,
                },
            },
            EntryTypes::Satisfaction(sv) => match assembly_trigger_decision(s, id, sv) {
                Err(e) => DispatchDecision::Failed(e),
                Ok(None) => DispatchDecision::NoAction,
                Ok(Some(d)) => DispatchDecision::PublishAssembly {
                    call_to_action_hash: d.0,
                    satisfactions_hashes: d.1,
                },
            },
            _ => DispatchDecision::NoAction,
        }
    }
}

/// Classify one committed record and run the trigger it calls for. Never
/// propagates an error: what a trigger could not do is reported in the
/// outcome for the caller to log.
pub fn dispatch_committed_record(store: &RecordStore, cancelled: &Vec<usize>, id: usize) -> (r:
    DispatchOutcome)
    requires
        store.wf(),
    ensures
        outcome_matches(r, dispatch_decision(*store, cancelled@, id)),
{
    let entry = match store.get_record(id) {
        None => {
            return DispatchOutcome::NoAction;
        },
        Some(entry) => entry,
    };
    match &entry.origin {
        RecordOrigin::Create => (),
        _ => {
            return DispatchOutcome::NoAction;
        },
    }
    match &entry.content {
        EntryTypes::Commitment(c) => {
            match check_if_need_is_satisfied_with_new_commitment(store, cancelled, id, c) {
                Err(e) => DispatchOutcome::Failed(e),
                Ok(None) => DispatchOutcome::NoAction,
                Ok(Some(sat)) => DispatchOutcome::PublishSatisfaction(sat),
            }
        },
        EntryTypes::Satisfaction(sv) => {
            match check_if_call_to_action_is_fulfilled(store, id, sv) {
                Err(e) => DispatchOutcome::Failed(e),
                Ok(None) => DispatchOutcome::NoAction,
                Ok(Some(assembly_value)) => DispatchOutcome::PublishAssembly(assembly_value),
            }
        },
        _ => DispatchOutcome::NoAction,
    }
}

/// Carry out what the dispatcher decided: publish the derived record
/// through the same validated creation entry point a remote peer would
/// call. A refused publish is reported as a remote call failure, the
/// store left unchanged.
pub fn apply_outcome(store: &mut RecordStore, outcome: DispatchOutcome, author: u64) -> (r: Result<
    Option<usize>,
    EngineError,
>)
    requires
        old(store).wf(),
    ensures
        final(store).wf(),
        match outcome {
            DispatchOutcome::PublishSatisfaction(sat) => match spec_validate_create_satisfaction(
                *old(store),
                author,
                sat,
            ) {
                ValidateCallbackResult::Valid => r matches Ok(Some(id)) && appended_record(
                    *old(store),
                    *final(store),
                    id,
                    EntryTypes::Satisfaction(sat),
                    author,
                    RecordOrigin::Create,
                ) && final(store).edges@ == old(store).edges@ + satisfaction_edges(sat, id),
                ValidateCallbackResult::Invalid(_) => r == Err::<Option<usize>, EngineError>(
                    EngineError::RemoteCallFailure,
                ) && *final(store) == *old(store),
            },
            DispatchOutcome::PublishAssembly(assembly_value) => match spec_validate_create_assembly(
                *old(store),
                assembly_value,
            ) {
                ValidateCallbackResult::Valid => r matches Ok(Some(id)) && appended_record(
                    *old(store),
                    *final(store),
                    id,
                    EntryTypes::Assembly(assembly_value),
                    author,
                    RecordOrigin::Create,
                ) && final(store).edges@ == old(store).edges@ + assembly_edges(assembly_value, id),
                ValidateCallbackResult::Invalid(_) => r == Err::<Option<usize>, EngineError>(
                    EngineError::RemoteCallFailure,
                ) && *final(store) == *old(store),
            },
            _ => r == Ok::<Option<usize>, EngineError>(None) && *final(store) == *old(store),
        },
{
    match outcome {
        DispatchOutcome::PublishSatisfaction(sat) => match create_satisfaction(store, sat, author) {
            Ok(id) => Ok(Some(id)),
            Err(_) => Err(EngineError::RemoteCallFailure),
        },
        DispatchOutcome::PublishAssembly(assembly_value) => match create_assembly(store, assembly_value, author) {
            Ok(id) => Ok(Some(id)),
            Err(_) => Err(EngineError::RemoteCallFailure),
        },
        _ => Ok(None),
    }
}

} // verus!
