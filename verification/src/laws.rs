use vstd::prelude::*;

use crate::aggregate::commitment_candidates;
use crate::aggregate::committed_total;
use crate::aggregate::lemma_cancel_excluded_sum;
use crate::aggregate::lemma_dedup_already_present;
use crate::aggregate::lemma_dedup_distinct;
use crate::aggregate::lemma_push_contains;
use crate::aggregate::live_amount;
use crate::aggregate::surviving_commitment;
use crate::cascade::all_needs_satisfied;
use crate::cascade::assembly_trigger_decision;
use crate::cascade::is_live_satisfaction_for;
use crate::cascade::need_has_live_satisfaction;
use crate::cascade::need_trigger_decision;
use crate::entity::Commitment;
use crate::entity::EngineError;
use crate::entity::EntryTypes;
use crate::entity::LinkTypes;
use crate::entity::Need;
use crate::entity::Satisfaction;
use crate::store::RecordOrigin;
use crate::store::RecordStore;
use crate::store::appended_record;
use crate::store::edge_targets;
use crate::store::edge_targets_upto;
use crate::store::live_content;
use crate::store::live_revision;
use crate::satisfaction::satisfaction_edges;

verus! {

/// An edge that is present and live shows up among the edge targets of
/// its base and kind.
proof fn lemma_edge_target_upto_present(
    s: RecordStore,
    base: usize,
    link_type: LinkTypes,
    e: int,
    n: int,
)
    requires
        0 <= e < n <= s.edges@.len(),
        s.edges@[e].base == base,
        s.edges@[e].link_type == link_type,
        !s.edges@[e].deleted,
    ensures
        edge_targets_upto(s, base, link_type, n).contains(s.edges@[e].target),
    decreases n,
{
    if e == n - 1 {
        let prev = edge_targets_upto(s, base, link_type, n - 1);
        assert(edge_targets_upto(s, base, link_type, n) == prev.push(s.edges@[e].target));
        assert(prev.push(s.edges@[e].target)[prev.len() as int] == s.edges@[e].target);
    } else {
        lemma_edge_target_upto_present(s, base, link_type, e, n - 1);
        lemma_push_contains(
            edge_targets_upto(s, base, link_type, n - 1),
            s.edges@[n - 1].target,
            s.edges@[e].target,
        );
    }
}

/// An edge that is present and live shows up among the edge targets of
/// its base and kind.
pub proof fn lemma_edge_target_present(s: RecordStore, base: usize, link_type: LinkTypes, e: int)
    requires
        0 <= e < s.edges@.len(),
        s.edges@[e].base == base,
        s.edges@[e].link_type == link_type,
        !s.edges@[e].deleted,
    ensures
        edge_targets(s, base, link_type).contains(s.edges@[e].target),
{
    lemma_edge_target_upto_present(s, base, link_type, e, s.edges@.len() as int);
}

/// Idempotent threshold crossing, first half: while a live satisfaction
/// for a need is linked under the commitment's call to action, the need
/// satisfaction trigger publishes nothing for that need, whatever else
/// the snapshot holds.
pub proof fn lemma_no_publish_when_already_satisfied(
    s: RecordStore,
    cancelled: Seq<usize>,
    commitment_hash: usize,
    commitment: Commitment,
)
    requires
        s.wf(),
        need_has_live_satisfaction(s, commitment.call_to_action_hash, commitment.need_index as int),
    ensures
        !(need_trigger_decision(s, cancelled, commitment_hash, commitment) matches Ok(Some(_))),
{
}

/// Idempotent threshold crossing, second half: publishing a satisfaction
/// puts a live satisfaction for its need on the store, so every later
/// trigger run over the new snapshot takes the idempotent short-circuit.
pub proof fn lemma_publish_establishes_satisfaction(
    pre: RecordStore,
    post: RecordStore,
    sat: Satisfaction,
    id: usize,
    author: u64,
)
    requires
        pre.wf(),
        post.wf(),
        appended_record(pre, post, id, EntryTypes::Satisfaction(sat), author, RecordOrigin::Create),
        post.edges@ == pre.edges@ + satisfaction_edges(sat, id),
    ensures
        need_has_live_satisfaction(post, sat.call_to_action_hash, sat.need_index as int),
{
    let e = pre.edges@.len() as int;
    assert(post.edges@[e] == satisfaction_edges(sat, id)[0]);
    assert(post.edges@[e].base == sat.call_to_action_hash);
    assert(post.edges@[e].target == id);
    lemma_edge_target_present(post, sat.call_to_action_hash, LinkTypes::CallToActionToSatisfactions, e);
    assert(live_revision(post, id) == Some(id));
    assert(is_live_satisfaction_for(post, id, sat.need_index as int));
    let targets = edge_targets(post, sat.call_to_action_hash, LinkTypes::CallToActionToSatisfactions);
    let k = choose|k: int| 0 <= k < targets.len() && targets[k] == id;
    assert(is_live_satisfaction_for(post, targets[k], sat.need_index as int));
}

/// Idempotent threshold crossing, whole: once one participant's publish
/// of a satisfaction has landed, every trigger run over the new snapshot
/// for a commitment toward the same call to action and need decides
/// against publishing again.
pub proof fn lemma_threshold_crossing_idempotent(
    pre: RecordStore,
    post: RecordStore,
    sat: Satisfaction,
    id: usize,
    author: u64,
    cancelled: Seq<usize>,
    commitment_hash: usize,
    commitment: Commitment,
)
    requires
        pre.wf(),
        post.wf(),
        appended_record(pre, post, id, EntryTypes::Satisfaction(sat), author, RecordOrigin::Create),
        post.edges@ == pre.edges@ + satisfaction_edges(sat, id),
        commitment.call_to_action_hash == sat.call_to_action_hash,
        commitment.need_index == sat.need_index,
    ensures
        !(need_trigger_decision(post, cancelled, commitment_hash, commitment) matches Ok(Some(_))),
{
    lemma_publish_establishes_satisfaction(pre, post, sat, id, author);
    lemma_no_publish_when_already_satisfied(post, cancelled, commitment_hash, commitment);
}

/// Idempotent threshold crossing, the publishing half: where the live
/// call to action's need is open (not admin-gated, no live satisfaction
/// yet), has a positive threshold that the aggregate meets, and the
/// aggregate fits the numeric type, the trigger decides to publish a
/// satisfaction over exactly the surviving commitment ids.
pub proof fn lemma_threshold_met_publishes(
    s: RecordStore,
    cancelled: Seq<usize>,
    commitment_hash: usize,
    commitment: Commitment,
)
    requires
        s.wf(),
        match live_content(s, commitment.call_to_action_hash) {
            Some(EntryTypes::CallToAction(cta)) => commitment.need_index < cta.needs@.len()
                && !cta.needs@[commitment.need_index as int].requires_admin_approval
                && cta.needs@[commitment.need_index as int].min_necessary > 0
                && cta.needs@[commitment.need_index as int].min_necessary <= committed_total(
                s,
                cancelled,
                commitment.call_to_action_hash,
                commitment.need_index,
                Some(commitment_hash),
            ),
            _ => false,
        },
        !need_has_live_satisfaction(s, commitment.call_to_action_hash, commitment.need_index as int),
        committed_total(
            s,
            cancelled,
            commitment.call_to_action_hash,
            commitment.need_index,
            Some(commitment_hash),
        ) <= u64::MAX,
    ensures
        need_trigger_decision(s, cancelled, commitment_hash, commitment) matches Ok(Some(d))
            && live_revision(s, commitment.call_to_action_hash) == Some(d.0)
            && d.1 == crate::aggregate::surviving_candidates(
            s,
            cancelled,
            commitment.call_to_action_hash,
            commitment.need_index,
            Some(commitment_hash),
        ),
{
}

/// Cancellation nullification: once a cancellation against a commitment
/// is visible, the commitment no longer survives aggregation, and the
/// total drops by exactly its amount where it had been counted — even
/// though the commitment record itself is never deleted.
pub proof fn lemma_cancellation_nullifies(
    s: RecordStore,
    cancelled: Seq<usize>,
    call_to_action_hash: usize,
    need_index: u32,
    extra_commitment: Option<usize>,
    c: usize,
)
    requires
        s.wf(),
    ensures
        !surviving_commitment(s, cancelled.push(c), need_index, c),
        committed_total(s, cancelled.push(c), call_to_action_hash, need_index, extra_commitment)
            == committed_total(s, cancelled, call_to_action_hash, need_index, extra_commitment) - (
        if commitment_candidates(s, call_to_action_hash, extra_commitment).contains(c)
            && surviving_commitment(s, cancelled, need_index, c) {
            live_amount(s, c)
        } else {
            0
        }),
{
    lemma_push_contains(cancelled, c, c);
    let linked = edge_targets(s, call_to_action_hash, LinkTypes::CallToActionToCommitments);
    match extra_commitment {
        Some(x) => lemma_dedup_distinct(linked.push(x)),
        None => lemma_dedup_distinct(linked),
    }
    lemma_cancel_excluded_sum(
        s,
        cancelled,
        need_index,
        commitment_candidates(s, call_to_action_hash, extra_commitment),
        c,
    );
}

/// Vacuous needs are never satisfied: the need satisfaction trigger
/// publishes nothing for a need whose threshold is zero, however much is
/// pledged.
pub proof fn lemma_vacuous_need_not_auto_satisfied(
    s: RecordStore,
    cancelled: Seq<usize>,
    commitment_hash: usize,
    commitment: Commitment,
)
    requires
        s.wf(),
        match live_content(s, commitment.call_to_action_hash) {
            Some(EntryTypes::CallToAction(cta)) => commitment.need_index < cta.needs@.len()
                && cta.needs@[commitment.need_index as int].min_necessary == 0,
            _ => false,
        },
    ensures
        !(need_trigger_decision(s, cancelled, commitment_hash, commitment) matches Ok(Some(_))),
{
}

/// Vacuous needs never block completion: whether every need with a
/// positive threshold is claimed does not depend on any need whose
/// threshold is zero.
pub proof fn lemma_vacuous_need_never_blocks(
    s: RecordStore,
    needs: Seq<Need>,
    sats: Seq<usize>,
    i: int,
)
    requires
        0 <= i < needs.len(),
        needs[i].min_necessary == 0,
    ensures
        all_needs_satisfied(s, needs, sats) == (forall|j: int|
            0 <= j < needs.len() && j != i && needs[j].min_necessary > 0 ==> exists|k: int|
                0 <= k < sats.len() && is_live_satisfaction_for(s, sats[k], j)),
{
    if forall|j: int|
        0 <= j < needs.len() && j != i && needs[j].min_necessary > 0 ==> exists|k: int|
            0 <= k < sats.len() && is_live_satisfaction_for(s, sats[k], j) {
        assert forall|j: int| 0 <= j < needs.len() && needs[j].min_necessary > 0 implies exists|
            k: int,
        | 0 <= k < sats.len() && is_live_satisfaction_for(s, sats[k], j) by {
            assert(j != i);
        }
    }
}

/// Admin gating, first half: the need satisfaction trigger never
/// auto-derives a satisfaction for an admin-gated need, regardless of
/// commitment volume.
pub proof fn lemma_admin_gated_not_auto_satisfied(
    s: RecordStore,
    cancelled: Seq<usize>,
    commitment_hash: usize,
    commitment: Commitment,
)
    requires
        s.wf(),
        match live_content(s, commitment.call_to_action_hash) {
            Some(EntryTypes::CallToAction(cta)) => commitment.need_index < cta.needs@.len()
                && cta.needs@[commitment.need_index as int].requires_admin_approval,
            _ => false,
        },
    ensures
        !(need_trigger_decision(s, cancelled, commitment_hash, commitment) matches Ok(Some(_))),
{
}

/// Admin gating, second half: a satisfaction for an admin-gated need
/// passes validation only when its publisher stands in the admin set of
/// the call to action's live revision or is the author of the chain's
/// original publication — an amender is neither, unless admitted.
pub proof fn lemma_admin_gate_validity(s: RecordStore, author: u64, sat: Satisfaction)
    requires
        s.wf(),
        sat.call_to_action_hash < s.records@.len(),
        match s.records@[sat.call_to_action_hash as int].content {
            EntryTypes::CallToAction(cta) => sat.need_index < cta.needs@.len()
                && cta.needs@[sat.need_index as int].requires_admin_approval,
            _ => false,
        },
    ensures
        crate::validate::spec_validate_create_satisfaction(s, author, sat) is Valid
            ==> crate::validate::admin_gate_permits(s, author, sat.call_to_action_hash),
{
}

/// Dead chain propagation: a tombstone on the original revision of a
/// call to action kills the whole chain, updates notwithstanding, and
/// every derivation referencing it aborts as not found.
pub proof fn lemma_dead_chain_propagation(s: RecordStore, id: usize)
    requires
        s.wf(),
        id < s.records@.len(),
        s.records@[id as int].deletes@.len() > 0,
    ensures
        live_revision(s, id) is None,
        forall|cancelled: Seq<usize>, commitment_hash: usize, commitment: Commitment|
            commitment.call_to_action_hash == id ==> ((#[trigger] need_trigger_decision(
                s,
                cancelled,
                commitment_hash,
                commitment,
            )) matches Err(e) && e == EngineError::NotFound),
        forall|satisfaction_hash: usize, satisfaction: Satisfaction|
            satisfaction.call_to_action_hash == id ==> ((#[trigger] assembly_trigger_decision(
                s,
                satisfaction_hash,
                satisfaction,
            )) matches Err(e) && e == EngineError::NotFound),
{
}

/// Idempotent union dedup: where the triggering commitment is already
/// linked under the call to action, unioning it in changes neither the
/// candidate set nor the total — its amount is counted once.
pub proof fn lemma_union_dedup_idempotent(
    s: RecordStore,
    cancelled: Seq<usize>,
    call_to_action_hash: usize,
    need_index: u32,
    extra_commitment: usize,
)
    requires
        s.wf(),
        edge_targets(s, call_to_action_hash, LinkTypes::CallToActionToCommitments).contains(
            extra_commitment,
        ),
    ensures
        commitment_candidates(s, call_to_action_hash, Some(extra_commitment))
            == commitment_candidates(s, call_to_action_hash, None),
        committed_total(s, cancelled, call_to_action_hash, need_index, Some(extra_commitment))
            == committed_total(s, cancelled, call_to_action_hash, need_index, None),
{
    lemma_dedup_already_present(
        edge_targets(s, call_to_action_hash, LinkTypes::CallToActionToCommitments),
        extra_commitment,
    );
}

} // verus!
