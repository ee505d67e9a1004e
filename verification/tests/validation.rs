use assemble::call_to_action::create_call_to_action;
use assemble::call_to_action::update_call_to_action;
use assemble::commitment::create_commitment;
use assemble::entity::Assembly;
use assemble::entity::CallToAction;
use assemble::entity::Commitment;
use assemble::entity::EntryTypes;
use assemble::entity::LinkTypes;
use assemble::entity::Need;
use assemble::entity::RejectReason;
use assemble::entity::Satisfaction;
use assemble::entity::ValidateCallbackResult;
use assemble::satisfaction::create_satisfaction;
use assemble::store::RecordStore;
use assemble::validate::Op;
use assemble::validate::genesis_self_check;
use assemble::validate::validate;
use assemble::validate::validate_agent_joining;
use assemble::validate::validate_create_satisfaction;

const ALICE: u64 = 1;
const BOB: u64 = 2;
const CAROL: u64 = 3;

fn need(min_necessary: u64, requires_admin_approval: bool) -> Need {
    Need {
        min_necessary,
        max_possible: Some(10),
        requires_admin_approval,
        description: String::from("a need"),
    }
}

fn plain_call_to_action() -> CallToAction {
    CallToAction {
        parent_call_to_action_hash: None,
        admins: vec![BOB],
        expiration_time: Some(1_700_000_000),
        needs: vec![need(1, false), need(1, true)],
    }
}

fn commitment(cta: usize, need_index: u32) -> Commitment {
    Commitment { call_to_action_hash: cta, amount: 1, comment: None, need_index }
}

/// A store holding one call to action (authored by Alice, with Bob as
/// admin) and one commitment toward its first need.
fn seeded_store() -> (RecordStore, usize, usize) {
    let mut store = RecordStore::new();
    let cta = create_call_to_action(&mut store, plain_call_to_action(), ALICE).unwrap();
    let c = create_commitment(&mut store, commitment(cta, 0), CAROL).unwrap();
    (store, cta, c)
}

#[test]
fn store_entry_validation_by_kind() {
    let (store, cta, c) = seeded_store();
    assert_eq!(
        validate(&store, &Op::StoreEntry { author: ALICE, entry: EntryTypes::CallToAction(plain_call_to_action()) }),
        ValidateCallbackResult::Valid
    );
    assert_eq!(
        validate(&store, &Op::StoreEntry { author: CAROL, entry: EntryTypes::Commitment(commitment(cta, 0)) }),
        ValidateCallbackResult::Valid
    );
    // a commitment whose call to action is a commitment record
    assert_eq!(
        validate(&store, &Op::StoreEntry { author: CAROL, entry: EntryTypes::Commitment(commitment(c, 0)) }),
        ValidateCallbackResult::Invalid(RejectReason::WrongRecordKind)
    );
    let sat = Satisfaction { call_to_action_hash: cta, need_index: 0, commitments_hashes: vec![c] };
    assert_eq!(
        validate(&store, &Op::StoreEntry { author: CAROL, entry: EntryTypes::Satisfaction(sat) }),
        ValidateCallbackResult::Valid
    );
    let assembly = Assembly { call_to_action_hash: cta, satisfactions_hashes: vec![] };
    assert_eq!(
        validate(&store, &Op::StoreEntry { author: CAROL, entry: EntryTypes::Assembly(assembly) }),
        ValidateCallbackResult::Valid
    );
}

#[test]
fn satisfaction_validation_checks_every_reference() {
    let (store, cta, c) = seeded_store();
    // missing call to action
    let sat = Satisfaction { call_to_action_hash: 50, need_index: 0, commitments_hashes: vec![] };
    assert_eq!(
        validate_create_satisfaction(&store, ALICE, &sat),
        ValidateCallbackResult::Invalid(RejectReason::MissingDependency)
    );
    // need index outside the needs list
    let sat = Satisfaction { call_to_action_hash: cta, need_index: 9, commitments_hashes: vec![] };
    assert_eq!(
        validate_create_satisfaction(&store, ALICE, &sat),
        ValidateCallbackResult::Invalid(RejectReason::NeedIndexOutOfRange)
    );
    // a commitment reference that does not exist
    let sat = Satisfaction { call_to_action_hash: cta, need_index: 0, commitments_hashes: vec![88] };
    assert_eq!(
        validate_create_satisfaction(&store, ALICE, &sat),
        ValidateCallbackResult::Invalid(RejectReason::MissingDependency)
    );
    // a commitment reference that is a call to action
    let sat =
        Satisfaction { call_to_action_hash: cta, need_index: 0, commitments_hashes: vec![cta] };
    assert_eq!(
        validate_create_satisfaction(&store, ALICE, &sat),
        ValidateCallbackResult::Invalid(RejectReason::WrongRecordKind)
    );
    // everything in place
    let sat = Satisfaction { call_to_action_hash: cta, need_index: 0, commitments_hashes: vec![c] };
    assert_eq!(validate_create_satisfaction(&store, ALICE, &sat), ValidateCallbackResult::Valid);
}

#[test]
fn admin_gated_satisfaction_needs_an_admin_or_the_author() {
    let (store, cta, c) = seeded_store();
    let gated = Satisfaction { call_to_action_hash: cta, need_index: 1, commitments_hashes: vec![c] };
    // Carol is neither an admin nor the author
    assert_eq!(
        validate_create_satisfaction(&store, CAROL, &gated),
        ValidateCallbackResult::Invalid(RejectReason::Unauthorized)
    );
    // Bob is in the admins list
    assert_eq!(validate_create_satisfaction(&store, BOB, &gated), ValidateCallbackResult::Valid);
    // Alice published the call to action
    assert_eq!(validate_create_satisfaction(&store, ALICE, &gated), ValidateCallbackResult::Valid);
    // the creation entry point applies the same gate
    let mut store = store;
    assert_eq!(
        create_satisfaction(&mut store, gated.clone(), CAROL),
        Err(RejectReason::Unauthorized)
    );
    assert!(create_satisfaction(&mut store, gated, BOB).is_ok());
}

/// The admin gate follows the resolved chain: the admins are those of
/// the live revision, and the author fallback is the chain's original
/// publisher — never whoever happened to publish an amendment.
#[test]
fn amender_does_not_inherit_the_admin_gate() {
    let (mut store, cta, c) = seeded_store();
    // Carol amends the call to action, keeping Bob as the only admin
    let amended = update_call_to_action(
        &mut store,
        assemble::call_to_action::UpdateCallToActionInput {
            previous_call_to_action_hash: cta,
            updated_call_to_action: plain_call_to_action(),
        },
        CAROL,
    )
    .unwrap();
    // a trigger-derived satisfaction references the live revision
    let gated =
        Satisfaction { call_to_action_hash: amended, need_index: 1, commitments_hashes: vec![c] };
    // Carol published the amendment, but is neither an admin of the live
    // revision nor the original publisher
    assert_eq!(
        validate_create_satisfaction(&store, CAROL, &gated),
        ValidateCallbackResult::Invalid(RejectReason::Unauthorized)
    );
    // Bob stands in the live revision's admin set
    assert_eq!(validate_create_satisfaction(&store, BOB, &gated), ValidateCallbackResult::Valid);
    // Alice is the original publisher of the chain
    assert_eq!(validate_create_satisfaction(&store, ALICE, &gated), ValidateCallbackResult::Valid);
}

#[test]
fn update_validation_by_kind() {
    let cta = plain_call_to_action();
    let sat = Satisfaction { call_to_action_hash: 0, need_index: 0, commitments_hashes: vec![] };
    let assembly = Assembly { call_to_action_hash: 0, satisfactions_hashes: vec![] };
    let store = RecordStore::new();
    assert_eq!(
        validate(&store, &Op::RegisterUpdate {
            entry: EntryTypes::CallToAction(cta.clone()),
            original_entry: EntryTypes::CallToAction(cta.clone()),
        }),
        ValidateCallbackResult::Valid
    );
    assert_eq!(
        validate(&store, &Op::RegisterUpdate {
            entry: EntryTypes::Commitment(commitment(0, 0)),
            original_entry: EntryTypes::Commitment(commitment(0, 0)),
        }),
        ValidateCallbackResult::Invalid(RejectReason::Immutable)
    );
    assert_eq!(
        validate(&store, &Op::RegisterUpdate {
            entry: EntryTypes::Satisfaction(sat.clone()),
            original_entry: EntryTypes::Satisfaction(sat.clone()),
        }),
        ValidateCallbackResult::Valid
    );
    assert_eq!(
        validate(&store, &Op::RegisterUpdate {
            entry: EntryTypes::Assembly(assembly.clone()),
            original_entry: EntryTypes::Assembly(assembly),
        }),
        ValidateCallbackResult::Invalid(RejectReason::Immutable)
    );
    // the two revisions must be of one kind
    assert_eq!(
        validate(&store, &Op::RegisterUpdate {
            entry: EntryTypes::CallToAction(cta),
            original_entry: EntryTypes::Satisfaction(sat),
        }),
        ValidateCallbackResult::Invalid(RejectReason::WrongRecordKind)
    );
}

#[test]
fn delete_validation_by_kind() {
    let store = RecordStore::new();
    assert_eq!(
        validate(&store, &Op::RegisterDelete {
            original_entry: EntryTypes::CallToAction(plain_call_to_action()),
        }),
        ValidateCallbackResult::Valid
    );
    assert_eq!(
        validate(&store, &Op::RegisterDelete {
            original_entry: EntryTypes::Commitment(commitment(0, 0)),
        }),
        ValidateCallbackResult::Invalid(RejectReason::Undeletable)
    );
    // a satisfaction may be corrected by deletion
    assert_eq!(
        validate(&store, &Op::RegisterDelete {
            original_entry: EntryTypes::Satisfaction(Satisfaction {
                call_to_action_hash: 0,
                need_index: 0,
                commitments_hashes: vec![],
            }),
        }),
        ValidateCallbackResult::Valid
    );
    assert_eq!(
        validate(&store, &Op::RegisterDelete {
            original_entry: EntryTypes::Assembly(Assembly {
                call_to_action_hash: 0,
                satisfactions_hashes: vec![],
            }),
        }),
        ValidateCallbackResult::Invalid(RejectReason::Undeletable)
    );
}

#[test]
fn link_validation_checks_both_ends() {
    let (mut store, cta, c) = seeded_store();
    let sid = create_satisfaction(
        &mut store,
        Satisfaction { call_to_action_hash: cta, need_index: 0, commitments_hashes: vec![c] },
        ALICE,
    )
    .unwrap();
    assert_eq!(
        validate(&store, &Op::RegisterCreateLink {
            link_type: LinkTypes::CallToActionToCommitments,
            base_address: cta,
            target_address: c,
        }),
        ValidateCallbackResult::Valid
    );
    assert_eq!(
        validate(&store, &Op::RegisterCreateLink {
            link_type: LinkTypes::CallToActionToCommitments,
            base_address: c,
            target_address: c,
        }),
        ValidateCallbackResult::Invalid(RejectReason::WrongRecordKind)
    );
    assert_eq!(
        validate(&store, &Op::RegisterCreateLink {
            link_type: LinkTypes::CommitmentToSatisfactions,
            base_address: c,
            target_address: sid,
        }),
        ValidateCallbackResult::Valid
    );
    assert_eq!(
        validate(&store, &Op::RegisterCreateLink {
            link_type: LinkTypes::CallToActionToSatisfactions,
            base_address: cta,
            target_address: 70,
        }),
        ValidateCallbackResult::Invalid(RejectReason::MissingDependency)
    );
    // commitment edges never come down
    assert_eq!(
        validate(&store, &Op::RegisterDeleteLink {
            link_type: LinkTypes::CallToActionToCommitments,
        }),
        ValidateCallbackResult::Invalid(RejectReason::Undeletable)
    );
    // satisfaction edges do: withdrawing a satisfaction deletes them
    assert_eq!(
        validate(&store, &Op::RegisterDeleteLink {
            link_type: LinkTypes::CallToActionToSatisfactions,
        }),
        ValidateCallbackResult::Valid
    );
    assert_eq!(
        validate(&store, &Op::RegisterDeleteLink {
            link_type: LinkTypes::CommitmentToSatisfactions,
        }),
        ValidateCallbackResult::Valid
    );
}

#[test]
fn pass_through_operations_are_valid() {
    let store = RecordStore::new();
    assert_eq!(validate(&store, &Op::StoreRecord), ValidateCallbackResult::Valid);
    assert_eq!(validate(&store, &Op::RegisterAgentActivity), ValidateCallbackResult::Valid);
    assert_eq!(genesis_self_check(), ValidateCallbackResult::Valid);
    assert_eq!(validate_agent_joining(ALICE), ValidateCallbackResult::Valid);
}
