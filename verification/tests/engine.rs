use assemble::aggregate::total_committed;
use assemble::call_to_action::UpdateCallToActionInput;
use assemble::call_to_action::create_call_to_action;
use assemble::call_to_action::delete_call_to_action;
use assemble::call_to_action::get_latest_call_to_action;
use assemble::call_to_action::update_call_to_action;
use assemble::assembly::get_assemblies_for_call_to_action;
use assemble::cascade::DispatchOutcome;
use assemble::cascade::apply_outcome;
use assemble::cascade::check_if_call_to_action_is_fulfilled;
use assemble::cascade::check_if_need_is_satisfied_with_new_commitment;
use assemble::cascade::dispatch_committed_record;
use assemble::commitment::create_commitment;
use assemble::entity::CallToAction;
use assemble::entity::Commitment;
use assemble::entity::EngineError;
use assemble::entity::EntryTypes;
use assemble::entity::Need;
use assemble::entity::Satisfaction;
use assemble::satisfaction::create_satisfaction;
use assemble::satisfaction::get_satisfactions_for_call_to_action;
use assemble::store::RecordStore;

const ALICE: u64 = 1;
const BOB: u64 = 2;
const CAROL: u64 = 3;

fn need(min_necessary: u64) -> Need {
    Need {
        min_necessary,
        max_possible: None,
        requires_admin_approval: false,
        description: String::from("a need"),
    }
}

fn call_to_action_with(needs: Vec<Need>) -> CallToAction {
    CallToAction { parent_call_to_action_hash: None, admins: Vec::new(), expiration_time: None, needs }
}

fn commitment(cta: usize, need_index: u32, amount: u64) -> Commitment {
    Commitment { call_to_action_hash: cta, amount, comment: None, need_index }
}

fn no_cancellations() -> Vec<usize> {
    Vec::new()
}

/// One full cascade, driven the way a participant would drive it: a
/// commitment crosses the threshold, a satisfaction is derived and
/// published, and the satisfaction completes the assembly.
#[test]
fn full_cascade_from_commitment_to_assembly() {
    let mut store = RecordStore::new();
    let cta = create_call_to_action(&mut store, call_to_action_with(vec![need(2)]), ALICE).unwrap();

    let c1 = create_commitment(&mut store, commitment(cta, 0, 1), ALICE).unwrap();
    assert_eq!(
        dispatch_committed_record(&store, &no_cancellations(), c1),
        DispatchOutcome::NoAction
    );

    let c2 = create_commitment(&mut store, commitment(cta, 0, 1), BOB).unwrap();
    let outcome = dispatch_committed_record(&store, &no_cancellations(), c2);
    let expected = Satisfaction {
        call_to_action_hash: cta,
        need_index: 0,
        commitments_hashes: vec![c1, c2],
    };
    assert_eq!(outcome, DispatchOutcome::PublishSatisfaction(expected));

    let sid = apply_outcome(&mut store, outcome, BOB).unwrap().unwrap();
    assert_eq!(get_satisfactions_for_call_to_action(&store, cta), vec![sid]);

    let outcome = dispatch_committed_record(&store, &no_cancellations(), sid);
    match &outcome {
        DispatchOutcome::PublishAssembly(a) => {
            assert_eq!(a.call_to_action_hash, cta);
            assert_eq!(a.satisfactions_hashes, vec![sid]);
        }
        other => panic!("expected an assembly publish, got {:?}", other),
    }
    let aid = apply_outcome(&mut store, outcome, BOB).unwrap().unwrap();
    assert_eq!(get_assemblies_for_call_to_action(&store, cta), vec![aid]);

    // the assembly record itself triggers nothing further
    assert_eq!(
        dispatch_committed_record(&store, &no_cancellations(), aid),
        DispatchOutcome::NoAction
    );
}

/// Idempotent threshold crossing: once a live satisfaction for the need
/// exists, further commitments trigger no further publish attempt.
#[test]
fn no_second_satisfaction_for_the_same_need() {
    let mut store = RecordStore::new();
    let cta = create_call_to_action(&mut store, call_to_action_with(vec![need(2)]), ALICE).unwrap();
    let c1 = create_commitment(&mut store, commitment(cta, 0, 2), ALICE).unwrap();

    let outcome = dispatch_committed_record(&store, &no_cancellations(), c1);
    assert!(matches!(outcome, DispatchOutcome::PublishSatisfaction(_)));
    apply_outcome(&mut store, outcome, ALICE).unwrap().unwrap();

    // replaying the same commitment: the satisfaction already exists
    assert_eq!(
        dispatch_committed_record(&store, &no_cancellations(), c1),
        DispatchOutcome::NoAction
    );

    // a further commitment for the satisfied need: no further attempt
    let c2 = create_commitment(&mut store, commitment(cta, 0, 5), CAROL).unwrap();
    assert_eq!(
        dispatch_committed_record(&store, &no_cancellations(), c2),
        DispatchOutcome::NoAction
    );
}

/// Two observers race: both compute the same publish decision from the
/// same snapshot; each publish passes validation, and the duplicate is a
/// tolerated outcome, not an error.
#[test]
fn concurrent_observers_may_both_publish() {
    let mut store = RecordStore::new();
    let cta = create_call_to_action(&mut store, call_to_action_with(vec![need(1)]), ALICE).unwrap();
    let c1 = create_commitment(&mut store, commitment(cta, 0, 1), ALICE).unwrap();

    let alice_view = dispatch_committed_record(&store, &no_cancellations(), c1);
    let bob_view = dispatch_committed_record(&store, &no_cancellations(), c1);
    assert_eq!(alice_view, bob_view);

    apply_outcome(&mut store, alice_view, ALICE).unwrap().unwrap();
    // Bob's publish, decided before Alice's landed, still goes through.
    apply_outcome(&mut store, bob_view, BOB).unwrap().unwrap();
    assert_eq!(get_satisfactions_for_call_to_action(&store, cta).len(), 2);
}

/// Cancellation nullification: a cancelled commitment's amount never
/// counts once the cancellation is visible, though the record stays.
#[test]
fn cancelled_commitment_does_not_count() {
    let mut store = RecordStore::new();
    let cta = create_call_to_action(&mut store, call_to_action_with(vec![need(5)]), ALICE).unwrap();
    let c1 = create_commitment(&mut store, commitment(cta, 0, 3), ALICE).unwrap();
    let c2 = create_commitment(&mut store, commitment(cta, 0, 2), BOB).unwrap();

    assert_eq!(total_committed(&store, &no_cancellations(), cta, 0, None), Ok(5));
    let cancelled = vec![c1];
    assert_eq!(total_committed(&store, &cancelled, cta, 0, None), Ok(2));
    // the record itself is still there
    assert!(store.get_record(c1).is_some());

    // with the cancellation visible the threshold is no longer met
    assert_eq!(dispatch_committed_record(&store, &cancelled, c2), DispatchOutcome::NoAction);
    // without it, it is
    assert!(matches!(
        dispatch_committed_record(&store, &no_cancellations(), c2),
        DispatchOutcome::PublishSatisfaction(_)
    ));
}

/// Vacuous needs: a need with a zero threshold never receives an
/// auto-derived satisfaction.
#[test]
fn vacuous_need_gets_no_satisfaction() {
    let mut store = RecordStore::new();
    let cta = create_call_to_action(&mut store, call_to_action_with(vec![need(0)]), ALICE).unwrap();
    let c1 = create_commitment(&mut store, commitment(cta, 0, 100), ALICE).unwrap();
    assert_eq!(
        dispatch_committed_record(&store, &no_cancellations(), c1),
        DispatchOutcome::NoAction
    );
}

/// Admin gating: an admin-gated need is never auto-satisfied by volume.
#[test]
fn admin_gated_need_is_never_auto_satisfied() {
    let mut store = RecordStore::new();
    let gated = Need {
        min_necessary: 1,
        max_possible: None,
        requires_admin_approval: true,
        description: String::from("gated"),
    };
    let cta = create_call_to_action(&mut store, call_to_action_with(vec![gated]), ALICE).unwrap();
    let c1 = create_commitment(&mut store, commitment(cta, 0, 1000), BOB).unwrap();
    assert_eq!(
        dispatch_committed_record(&store, &no_cancellations(), c1),
        DispatchOutcome::NoAction
    );
}

/// Dead chain propagation: a tombstone on the original revision aborts
/// every derivation referencing it, even though an update revision
/// exists.
#[test]
fn tombstoned_original_aborts_derivation() {
    let mut store = RecordStore::new();
    let cta = create_call_to_action(&mut store, call_to_action_with(vec![need(1)]), ALICE).unwrap();
    let updated = call_to_action_with(vec![need(1)]);
    update_call_to_action(
        &mut store,
        UpdateCallToActionInput {
            previous_call_to_action_hash: cta,
            updated_call_to_action: updated,
        },
        ALICE,
    )
    .unwrap();
    let c1 = create_commitment(&mut store, commitment(cta, 0, 1), BOB).unwrap();

    delete_call_to_action(&mut store, cta, ALICE).unwrap();
    assert_eq!(get_latest_call_to_action(&store, cta), None);
    assert_eq!(
        dispatch_committed_record(&store, &no_cancellations(), c1),
        DispatchOutcome::Failed(EngineError::NotFound)
    );
    let sat = Satisfaction { call_to_action_hash: cta, need_index: 0, commitments_hashes: vec![c1] };
    assert_eq!(
        check_if_call_to_action_is_fulfilled(&store, 999, &sat),
        Err(EngineError::NotFound)
    );
}

/// Assembly completeness over needs [3, 0, 2]: satisfactions for {0}
/// give no assembly, {0, 2} give one, {2} alone gives none.
#[test]
fn assembly_completeness_over_mixed_needs() {
    let needs = vec![need(3), need(0), need(2)];

    // satisfactions for need 0 only: not complete
    let mut store = RecordStore::new();
    let cta = create_call_to_action(&mut store, call_to_action_with(needs.clone()), ALICE).unwrap();
    let c0 = create_commitment(&mut store, commitment(cta, 0, 3), BOB).unwrap();
    let s0 = create_satisfaction(
        &mut store,
        Satisfaction { call_to_action_hash: cta, need_index: 0, commitments_hashes: vec![c0] },
        BOB,
    )
    .unwrap();
    assert_eq!(
        dispatch_committed_record(&store, &no_cancellations(), s0),
        DispatchOutcome::NoAction
    );

    // satisfactions for needs 0 and 2: complete, index 1 is vacuous
    let c2 = create_commitment(&mut store, commitment(cta, 2, 2), CAROL).unwrap();
    let s2 = create_satisfaction(
        &mut store,
        Satisfaction { call_to_action_hash: cta, need_index: 2, commitments_hashes: vec![c2] },
        CAROL,
    )
    .unwrap();
    match dispatch_committed_record(&store, &no_cancellations(), s2) {
        DispatchOutcome::PublishAssembly(a) => {
            assert_eq!(a.call_to_action_hash, cta);
            assert_eq!(a.satisfactions_hashes, vec![s0, s2]);
        }
        other => panic!("expected an assembly publish, got {:?}", other),
    }

    // satisfaction for need 2 alone: not complete
    let mut store = RecordStore::new();
    let cta = create_call_to_action(&mut store, call_to_action_with(needs), ALICE).unwrap();
    let c2 = create_commitment(&mut store, commitment(cta, 2, 2), CAROL).unwrap();
    let s2 = create_satisfaction(
        &mut store,
        Satisfaction { call_to_action_hash: cta, need_index: 2, commitments_hashes: vec![c2] },
        CAROL,
    )
    .unwrap();
    assert_eq!(
        dispatch_committed_record(&store, &no_cancellations(), s2),
        DispatchOutcome::NoAction
    );
}

/// Idempotent union dedup: the triggering commitment reached both
/// through the event and through the edge index counts once.
#[test]
fn commitment_seen_twice_counts_once() {
    let mut store = RecordStore::new();
    let cta = create_call_to_action(&mut store, call_to_action_with(vec![need(9)]), ALICE).unwrap();
    let c1 = create_commitment(&mut store, commitment(cta, 0, 4), ALICE).unwrap();
    // c1 is linked under the call to action and also handed in as the
    // just-published commitment: its 4 must not become 8.
    assert_eq!(total_committed(&store, &no_cancellations(), cta, 0, Some(c1)), Ok(4));
    assert_eq!(total_committed(&store, &no_cancellations(), cta, 0, None), Ok(4));
}

/// The aggregate is an exact sum over live, matching, non-cancelled
/// commitments: wrong need indices and unresolvable ids drop out.
#[test]
fn aggregate_sums_exactly_the_surviving_commitments() {
    let mut store = RecordStore::new();
    let cta =
        create_call_to_action(&mut store, call_to_action_with(vec![need(10), need(1)]), ALICE)
            .unwrap();
    create_commitment(&mut store, commitment(cta, 0, 2), ALICE).unwrap();
    create_commitment(&mut store, commitment(cta, 0, 3), BOB).unwrap();
    // a commitment for another need of the same call to action
    create_commitment(&mut store, commitment(cta, 1, 50), CAROL).unwrap();
    assert_eq!(total_committed(&store, &no_cancellations(), cta, 0, None), Ok(5));
    assert_eq!(total_committed(&store, &no_cancellations(), cta, 1, None), Ok(50));
}

/// Numeric overflow is a hard error of the aggregation, caught and
/// reported by the dispatcher.
#[test]
fn overflowing_total_fails_the_derivation() {
    let mut store = RecordStore::new();
    let cta = create_call_to_action(&mut store, call_to_action_with(vec![need(1)]), ALICE).unwrap();
    create_commitment(&mut store, commitment(cta, 0, u64::MAX), ALICE).unwrap();
    let c2 = create_commitment(&mut store, commitment(cta, 0, 1), BOB).unwrap();
    assert_eq!(
        total_committed(&store, &no_cancellations(), cta, 0, None),
        Err(EngineError::NumericOverflow)
    );
    assert_eq!(
        dispatch_committed_record(&store, &no_cancellations(), c2),
        DispatchOutcome::Failed(EngineError::NumericOverflow)
    );
}

/// A commitment whose call-to-action reference leads to a record of
/// another kind is malformed, and a need index outside the needs list is
/// malformed too.
#[test]
fn malformed_references_are_reported() {
    let mut store = RecordStore::new();
    let cta = create_call_to_action(&mut store, call_to_action_with(vec![need(1)]), ALICE).unwrap();
    let c1 = create_commitment(&mut store, commitment(cta, 0, 1), BOB).unwrap();
    // a commitment value pointing at another commitment instead of a call to action
    let bad = commitment(c1, 0, 1);
    assert_eq!(
        check_if_need_is_satisfied_with_new_commitment(&store, &no_cancellations(), 50, &bad),
        Err(EngineError::MalformedRecord)
    );
    // a commitment value whose need index is out of range
    let out_of_range = commitment(cta, 4, 1);
    assert_eq!(
        check_if_need_is_satisfied_with_new_commitment(&store, &no_cancellations(), 51, &out_of_range),
        Err(EngineError::MalformedRecord)
    );
}

/// A publish refused by validation surfaces as a remote call failure
/// and leaves the store unchanged.
#[test]
fn refused_publish_is_a_remote_call_failure() {
    let mut store = RecordStore::new();
    let sat = Satisfaction { call_to_action_hash: 7, need_index: 0, commitments_hashes: vec![] };
    let before = store.get_record(0).is_none();
    assert_eq!(
        apply_outcome(&mut store, DispatchOutcome::PublishSatisfaction(sat), ALICE),
        Err(EngineError::RemoteCallFailure)
    );
    assert_eq!(before, store.get_record(0).is_none());
}

/// A tombstoned satisfaction no longer resolves, so it drops out of the
/// completeness check: correction by deletion reopens the assembly
/// question.
#[test]
fn tombstoned_satisfaction_stops_counting() {
    let mut store = RecordStore::new();
    let cta = create_call_to_action(&mut store, call_to_action_with(vec![need(1)]), ALICE).unwrap();
    let c1 = create_commitment(&mut store, commitment(cta, 0, 1), ALICE).unwrap();
    let sid = create_satisfaction(
        &mut store,
        Satisfaction { call_to_action_hash: cta, need_index: 0, commitments_hashes: vec![c1] },
        ALICE,
    )
    .unwrap();
    assert!(matches!(
        dispatch_committed_record(&store, &no_cancellations(), sid),
        DispatchOutcome::PublishAssembly(_)
    ));
    store.add_tombstone(sid, 1);
    assert_eq!(
        dispatch_committed_record(&store, &no_cancellations(), sid),
        DispatchOutcome::NoAction
    );
}

/// Records that are not newly created commitments or satisfactions pass
/// through the dispatcher untouched, an unknown id too.
#[test]
fn dispatcher_ignores_other_records() {
    let mut store = RecordStore::new();
    let cta = create_call_to_action(&mut store, call_to_action_with(vec![need(1)]), ALICE).unwrap();
    assert_eq!(
        dispatch_committed_record(&store, &no_cancellations(), cta),
        DispatchOutcome::NoAction
    );
    assert_eq!(
        dispatch_committed_record(&store, &no_cancellations(), 999),
        DispatchOutcome::NoAction
    );
    // an update revision of a commitment is not a newly created commitment
    let c1 = create_commitment(&mut store, commitment(cta, 0, 1), BOB).unwrap();
    let u = store.update_record(c1, EntryTypes::Commitment(commitment(cta, 0, 1)), BOB);
    assert_eq!(
        dispatch_committed_record(&store, &no_cancellations(), u),
        DispatchOutcome::NoAction
    );
}
