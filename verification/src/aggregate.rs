use vstd::prelude::*;

use crate::entity::EngineError;
use crate::entity::EntryTypes;
use crate::entity::LinkTypes;
use crate::store::RecordStore;
use crate::store::edge_targets;
use crate::store::live_content;
use crate::store::live_revision;

verus! {

/// `ids` with every repeated id collapsed onto its first occurrence.
pub open spec fn first_occurrence_dedup(ids: Seq<usize>) -> Seq<usize>
    decreases ids.len(),
{
    if ids.len() == 0 {
        Seq::empty()
    } else {
        let rest = first_occurrence_dedup(ids.drop_last());
        if rest.contains(ids.last()) {
            rest
        } else {
            rest.push(ids.last())
        }
    }
}

/// The set of commitment ids an aggregation considers: the ids linked to
/// the call to action, with the triggering commitment (which may not be
/// linked yet) unioned in, duplicates collapsed.
pub open spec fn commitment_candidates(
    s: RecordStore,
    call_to_action_hash: usize,
    extra_commitment: Option<usize>,
) -> Seq<usize> {
    let linked = edge_targets(s, call_to_action_hash, LinkTypes::CallToActionToCommitments);
    match extra_commitment {
        Some(c) => first_occurrence_dedup(linked.push(c)),
        None => first_occurrence_dedup(linked),
    }
}

/// Whether the id counts toward the total for `need_index`: it resolves
/// to a live commitment for that need, and no cancellation is recorded
/// against it.
pub open spec fn surviving_commitment(
    s: RecordStore,
    cancelled: Seq<usize>,
    need_index: u32,
    id: usize,
) -> bool {
    match live_content(s, id) {
        Some(EntryTypes::Commitment(c)) => c.need_index == need_index && !cancelled.contains(id),
        _ => false,
    }
}

/// The subsequence of `cands` that survives aggregation.
pub open spec fn survivors_of(
    s: RecordStore,
    cancelled: Seq<usize>,
    need_index: u32,
    cands: Seq<usize>,
) -> Seq<usize>
    decreases cands.len(),
{
    if cands.len() == 0 {
        Seq::empty()
    } else {
        let prev = survivors_of(s, cancelled, need_index, cands.drop_last());
        if surviving_commitment(s, cancelled, need_index, cands.last()) {
            prev.push(cands.last())
        } else {
            prev
        }
    }
}

/// The amount pledged by the live commitment reached from `id`, or zero
/// where `id` does not lead to a live commitment.
pub open spec fn live_amount(s: RecordStore, id: usize) -> int {
    match live_content(s, id) {
        Some(EntryTypes::Commitment(c)) => c.amount as int,
        _ => 0,
    }
}

/// The sum of the amounts of the given commitment ids.
pub open spec fn sum_amounts(s: RecordStore, ids: Seq<usize>) -> int
    decreases ids.len(),
{
    if ids.len() == 0 {
        0
    } else {
        sum_amounts(s, ids.drop_last()) + live_amount(s, ids.last())
    }
}

/// The commitment ids that count toward `need_index` of the call to
/// action, in candidate order.
pub open spec fn surviving_candidates(
    s: RecordStore,
    cancelled: Seq<usize>,
    call_to_action_hash: usize,
    need_index: u32,
    extra_commitment: Option<usize>,
) -> Seq<usize> {
    survivors_of(
        s,
        cancelled,
        need_index,
        commitment_candidates(s, call_to_action_hash, extra_commitment),
    )
}

/// The total amount contributed toward `need_index` of the call to
/// action: the sum of the amounts of all surviving candidates.
pub open spec fn committed_total(
    s: RecordStore,
    cancelled: Seq<usize>,
    call_to_action_hash: usize,
    need_index: u32,
    extra_commitment: Option<usize>,
) -> int {
    sum_amounts(
        s,
        surviving_candidates(s, cancelled, call_to_action_hash, need_index, extra_commitment),
    )
}

/// A live revision points at an existing record with no tombstone and no
/// further update.
pub proof fn lemma_live_revision_props(s: RecordStore, id: usize)
    requires
        s.wf(),
    ensures
        match live_revision(s, id) {
            Some(l) => l < s.records@.len() && s.records@[l as int].deletes@.len() == 0
                && s.records@[l as int].updates@.len() == 0,
            None => true,
        },
    decreases s.records@.len() - id,
{
    if id < s.records@.len() && s.records@[id as int].deletes@.len() == 0 && s.records@[
        id as int
    ].updates@.len() > 0 {
        lemma_live_revision_props(s, s.records@[id as int].updates@.last());
    }
}

/// Membership in a sequence extended by one element.
pub proof fn lemma_push_contains(s: Seq<usize>, a: usize, x: usize)
    ensures
        s.push(a).contains(x) == (s.contains(x) || a == x),
{
    if s.contains(x) {
        let k = choose|k: int| 0 <= k < s.len() && s[k] == x;
        assert(s.push(a)[k] == x);
    }
    if a == x {
        assert(s.push(a)[s.len() as int] == x);
    }
    if s.push(a).contains(x) {
        let k = choose|k: int| 0 <= k < s.push(a).len() && s.push(a)[k] == x;
        if k < s.len() {
            assert(s[k] == x);
        }
    }
}

/// Membership in a sequence split at its last element.
pub proof fn lemma_unsnoc_contains(ids: Seq<usize>, x: usize)
    requires
        ids.len() > 0,
    ensures
        ids.contains(x) == (ids.drop_last().contains(x) || ids.last() == x),
{
    assert(ids.drop_last().push(ids.last()) =~= ids);
    lemma_push_contains(ids.drop_last(), ids.last(), x);
}

/// Collapsing duplicates neither adds nor removes ids.
pub proof fn lemma_dedup_contains(ids: Seq<usize>, x: usize)
    ensures
        first_occurrence_dedup(ids).contains(x) == ids.contains(x),
    decreases ids.len(),
{
    if ids.len() > 0 {
        lemma_dedup_contains(ids.drop_last(), x);
        lemma_unsnoc_contains(ids, x);
        let rest = first_occurrence_dedup(ids.drop_last());
        if rest.contains(ids.last()) {
            if ids.last() == x {
                lemma_dedup_contains(ids.drop_last(), ids.last());
            }
        } else {
            lemma_push_contains(rest, ids.last(), x);
        }
    }
}

/// Unioning an id that is already among `ids` changes nothing: the
/// idempotency device behind the duplicate-tolerant aggregation.
pub proof fn lemma_dedup_already_present(ids: Seq<usize>, x: usize)
    requires
        ids.contains(x),
    ensures
        first_occurrence_dedup(ids.push(x)) == first_occurrence_dedup(ids),
{
    assert(ids.push(x).drop_last() =~= ids);
    lemma_dedup_contains(ids, x);
}

/// Collapsing duplicates leaves no two equal ids behind.
pub proof fn lemma_dedup_distinct(ids: Seq<usize>)
    ensures
        forall|i: int, j: int|
            0 <= i < j < first_occurrence_dedup(ids).len() ==> first_occurrence_dedup(ids)[i]
                != first_occurrence_dedup(ids)[j],
    decreases ids.len(),
{
    if ids.len() > 0 {
        lemma_dedup_distinct(ids.drop_last());
        let rest = first_occurrence_dedup(ids.drop_last());
        if !rest.contains(ids.last()) {
            let d = rest.push(ids.last());
            assert forall|i: int, j: int| 0 <= i < j < d.len() implies d[i] != d[j] by {
                if j == d.len() - 1 {
                    assert(d[i] == rest[i]);
                    if rest[i] == ids.last() {
                        assert(rest.contains(ids.last()));
                    }
                } else {
                    assert(d[i] == rest[i] && d[j] == rest[j]);
                }
            }
        }
    }
}

/// Recording one more cancellation takes exactly the cancelled
/// commitment's amount out of the candidate sum, where that commitment
/// was a surviving candidate, and changes nothing otherwise.
pub proof fn lemma_cancel_excluded_sum(
    s: RecordStore,
    cancelled: Seq<usize>,
    need_index: u32,
    cands: Seq<usize>,
    c: usize,
)
    requires
        forall|i: int, j: int| 0 <= i < j < cands.len() ==> cands[i] != cands[j],
    ensures
        sum_amounts(s, survivors_of(s, cancelled.push(c), need_index, cands)) == sum_amounts(
            s,
            survivors_of(s, cancelled, need_index, cands),
        ) - (
        if cands.contains(c) && surviving_commitment(s, cancelled, need_index, c) {
            live_amount(s, c)
        } else {
            0
        }),
    decreases cands.len(),
{
    if cands.len() == 0 {
        assert(!cands.contains(c));
    } else {
        let x = cands.last();
        let rest = cands.drop_last();
        assert forall|i: int, j: int| 0 <= i < j < rest.len() implies rest[i] != rest[j] by {
            assert(rest[i] == cands[i] && rest[j] == cands[j]);
        }
        lemma_cancel_excluded_sum(s, cancelled, need_index, rest, c);
        lemma_push_contains(cancelled, c, x);
        lemma_unsnoc_contains(cands, c);
        if x == c {
            if rest.contains(c) {
                let i = choose|i: int| 0 <= i < rest.len() && rest[i] == c;
                assert(cands[i] == c && cands[cands.len() - 1] == c);
            }
            assert(!surviving_commitment(s, cancelled.push(c), need_index, x));
            if surviving_commitment(s, cancelled, need_index, x) {
                lemma_sum_push(s, survivors_of(s, cancelled, need_index, rest), x);
            }
        } else {
            assert(surviving_commitment(s, cancelled.push(c), need_index, x)
                == surviving_commitment(s, cancelled, need_index, x));
            if surviving_commitment(s, cancelled, need_index, x) {
                lemma_sum_push(s, survivors_of(s, cancelled, need_index, rest), x);
                lemma_sum_push(s, survivors_of(s, cancelled.push(c), need_index, rest), x);
            }
        }
    }
}

/// Summing one more id adds exactly its amount.
pub proof fn lemma_sum_push(s: RecordStore, ids: Seq<usize>, id: usize)
    ensures
        sum_amounts(s, ids.push(id)) == sum_amounts(s, ids) + live_amount(s, id),
{
    assert(ids.push(id).drop_last() =~= ids);
}

/// Extending the candidate prefix by one either appends a survivor or
/// leaves the survivor list unchanged.
pub proof fn lemma_survivors_take_step(
    s: RecordStore,
    cancelled: Seq<usize>,
    need_index: u32,
    cands: Seq<usize>,
    i: int,
)
    requires
        0 <= i < cands.len(),
    ensures
        survivors_of(s, cancelled, need_index, cands.take(i + 1)) == (
        if surviving_commitment(s, cancelled, need_index, cands[i]) {
            survivors_of(s, cancelled, need_index, cands.take(i)).push(cands[i])
        } else {
            survivors_of(s, cancelled, need_index, cands.take(i))
        }),
{
    assert(cands.take(i + 1).drop_last() =~= cands.take(i));
    assert(cands.take(i + 1).last() == cands[i]);
}

/// The sum over the survivors of a prefix never exceeds the sum over the
/// survivors of the whole candidate list.
pub proof fn lemma_prefix_sum_le(
    s: RecordStore,
    cancelled: Seq<usize>,
    need_index: u32,
    cands: Seq<usize>,
    j: int,
)
    requires
        0 <= j <= cands.len(),
    ensures
        sum_amounts(s, survivors_of(s, cancelled, need_index, cands.take(j))) <= sum_amounts(
            s,
            survivors_of(s, cancelled, need_index, cands),
        ),
    decreases cands.len() - j,
{
    if j == cands.len() {
        assert(cands.take(j) =~= cands);
    } else {
        lemma_survivors_take_step(s, cancelled, need_index, cands, j);
        if surviving_commitment(s, cancelled, need_index, cands[j]) {
            lemma_sum_push(s, survivors_of(s, cancelled, need_index, cands.take(j)), cands[j]);
        }
        lemma_prefix_sum_le(s, cancelled, need_index, cands, j + 1);
    }
}

/// Whether `x` occurs among `ids`.
pub fn contains_id(ids: &Vec<usize>, x: usize) -> (b: bool)
    ensures
        b == ids@.contains(x),
{
    let mut i: usize = 0;
    while i < ids.len()
        invariant
            i <= ids@.len(),
            forall|k: int| 0 <= k < i ==> ids@[k] != x,
        decreases ids@.len() - i,
    {
        if ids[i] == x {
            return true;
        }
        i = i + 1;
    }
    false
}

/// `ids` with every repeated id collapsed onto its first occurrence.
pub fn dedup_ids(ids: &Vec<usize>) -> (r: Vec<usize>)
    ensures
        r@ == first_occurrence_dedup(ids@),
{
    let mut r: Vec<usize> = Vec::new();
    let mut i: usize = 0;
    while i < ids.len()
        invariant
            i <= ids@.len(),
            r@ == first_occurrence_dedup(ids@.take(i as int)),
        decreases ids@.len() - i,
    {
        proof {
            assert(ids@.take(i + 1).drop_last() =~= ids@.take(i as int));
            assert(ids@.take(i + 1).last() == ids@[i as int]);
        }
        let id = ids[i];
        if !contains_id(&r, id) {
            r.push(id);
        }
        i = i + 1;
    }
    proof {
        assert(ids@.take(ids@.len() as int) =~= ids@);
    }
    r
}

/// The amount a candidate id contributes, or `None` where it does not
/// survive aggregation for this need.
fn surviving_amount(store: &RecordStore, cancelled: &Vec<usize>, need_index: u32, id: usize) -> (r:
    Option<u64>)
    requires
        store.wf(),
    ensures
        match r {
            Some(a) => surviving_commitment(*store, cancelled@, need_index, id) && a as int
                == live_amount(*store, id),
            None => !surviving_commitment(*store, cancelled@, need_index, id),
        },
{
    match store.resolve_latest(id) {
        None => None,
        Some(l) => {
            proof {
                lemma_live_revision_props(*store, id);
            }
            match &store.records[l].content {
                EntryTypes::Commitment(c) => {
                    if c.need_index == need_index && !contains_id(cancelled, id) {
                        Some(c.amount)
                    } else {
                        None
                    }
                },
                _ => None,
            }
        },
    }
}

/// Collect the live commitment set for one need of a call to action and
/// total it: the candidate ids linked to the call to action, unioned with
/// the triggering commitment, resolved, filtered to live commitments for
/// this need with no recorded cancellation, and summed. Returns the total
/// with the surviving ids, or an overflow error where the mathematical
/// sum does not fit.
pub fn aggregate_commitments(
    store: &RecordStore,
    cancelled: &Vec<usize>,
    call_to_action_hash: usize,
    need_index: u32,
    extra_commitment: Option<usize>,
) -> (r: Result<(u64, Vec<usize>), EngineError>)
    requires
        store.wf(),
    ensures
        match r {
            Ok(p) => p.0 as int == committed_total(
                *store,
                cancelled@,
                call_to_action_hash,
                need_index,
                extra_commitment,
            ) && p.1@ == surviving_candidates(
                *store,
                cancelled@,
                call_to_action_hash,
                need_index,
                extra_commitment,
            ),
            Err(e) => e == EngineError::NumericOverflow && committed_total(
                *store,
                cancelled@,
                call_to_action_hash,
                need_index,
                extra_commitment,
            ) > u64::MAX,
        },
{
    let mut with_extra = store.get_edges(call_to_action_hash, LinkTypes::CallToActionToCommitments);
    match extra_commitment {
        Some(c) => with_extra.push(c),
        None => (),
    }
    let cands = dedup_ids(&with_extra);
    assert(cands@ == commitment_candidates(*store, call_to_action_hash, extra_commitment));
    let mut total: u64 = 0;
    let mut survivors: Vec<usize> = Vec::new();
    let mut i: usize = 0;
    while i < cands.len()
        invariant
            store.wf(),
            i <= cands@.len(),
            cands@ == commitment_candidates(*store, call_to_action_hash, extra_commitment),
            survivors@ == survivors_of(*store, cancelled@, need_index, cands@.take(i as int)),
            total as int == sum_amounts(*store, survivors@),
        decreases cands@.len() - i,
    {
        let id = cands[i];
        proof {
            lemma_survivors_take_step(*store, cancelled@, need_index, cands@, i as int);
        }
        match surviving_amount(store, cancelled, need_index, id) {
            Some(a) => {
                proof {
                    lemma_sum_push(*store, survivors@, id);
                }
                if a > u64::MAX - total {
                    proof {
                        lemma_prefix_sum_le(*store, cancelled@, need_index, cands@, i + 1);
                    }
                    return Err(EngineError::NumericOverflow);
                }
                total = total + a;
                survivors.push(id);
            },
            None => (),
        }
        i = i + 1;
    }
    proof {
        assert(cands@.take(cands@.len() as int) =~= cands@);
    }
    Ok((total, survivors))
}

/// The total amount contributed toward one need of a call to action,
/// per the aggregation policy above.
pub fn total_committed(
    store: &RecordStore,
    cancelled: &Vec<usize>,
    call_to_action_hash: usize,
    need_index: u32,
    extra_commitment: Option<usize>,
) -> (r: Result<u64, EngineError>)
    requires
        store.wf(),
    ensures
        match r {
            Ok(total) => total as int == committed_total(
                *store,
                cancelled@,
                call_to_action_hash,
                need_index,
                extra_commitment,
            ),
            Err(e) => e == EngineError::NumericOverflow && committed_total(
                *store,
                cancelled@,
                call_to_action_hash,
                need_index,
                extra_commitment,
            ) > u64::MAX,
        },
{
    match aggregate_commitments(store, cancelled, call_to_action_hash, need_index, extra_commitment)
    {
        Ok(p) => Ok(p.0),
        Err(e) => Err(e),
    }
}

} // verus!
