use vstd::prelude::*;

use crate::entity::Assembly;
use crate::entity::EntryTypes;
use crate::entity::LinkTypes;
use crate::entity::RejectReason;
use crate::entity::ValidateCallbackResult;
use crate::store::Edge;
use crate::store::RecordEntry;
use crate::store::RecordOrigin;
use crate::store::RecordStore;
use crate::store::appended_record;
use crate::store::copy_ids;
use crate::store::edge_targets;
use crate::validate::lemma_satisfactions_check_valid;
use crate::validate::record_is_call_to_action;
use crate::validate::spec_dependency_check;
use crate::validate::spec_satisfactions_check;
use crate::validate::validate_create_assembly;

verus! {

/// The verdict on a new assembly, as the creation path applies it.
pub open spec fn spec_validate_create_assembly(s: RecordStore, assembly: Assembly) -> ValidateCallbackResult {
    if !(spec_dependency_check(
        s,
        assembly.call_to_action_hash,
        record_is_call_to_action(s, assembly.call_to_action_hash),
    ) is Valid) {
        spec_dependency_check(
            s,
            assembly.call_to_action_hash,
            record_is_call_to_action(s, assembly.call_to_action_hash),
        )
    } else {
        spec_satisfactions_check(s, assembly.satisfactions_hashes@)
    }
}

/// The edges a new assembly brings with it: one under its call to
/// action, and one under each satisfaction it gathers.
pub open spec fn assembly_edges(assembly: Assembly, id: usize) -> Seq<Edge> {
    seq![
        (Edge {
            base: assembly.call_to_action_hash,
            target: id,
            link_type: LinkTypes::CallToActionToAssemblies,
            deleted: false,
        }),
    ] + assembly.satisfactions_hashes@.map_values(
        |sh: usize|
            (Edge {
                base: sh,
                target: id,
                link_type: LinkTypes::SatisfactionToAssemblies,
                deleted: false,
            }),
    )
}

/// Publish a new assembly through the validated creation path: the
/// record is appended and linked under its call to action and under each
/// satisfaction it gathers. Refused with the validation verdict where
/// validation fails.
pub fn create_assembly(store: &mut RecordStore, assembly: Assembly, author: u64) -> (r: Result<
    usize,
    RejectReason,
>)
    requires
        old(store).wf(),
    ensures
        final(store).wf(),
        match spec_validate_create_assembly(*old(store), assembly) {
            ValidateCallbackResult::Valid => r matches Ok(id) && appended_record(
                *old(store),
                *final(store),
                id,
                EntryTypes::Assembly(assembly),
                author,
                RecordOrigin::Create,
            ) && final(store).edges@ == old(store).edges@ + assembly_edges(assembly, id),
            ValidateCallbackResult::Invalid(reason) => r == Err::<usize, RejectReason>(reason)
                && *final(store) == *old(store),
        },
{
    match validate_create_assembly(store, &assembly) {
        ValidateCallbackResult::Valid => (),
        ValidateCallbackResult::Invalid(reason) => {
            return Err(reason);
        },
    }
    proof {
        lemma_satisfactions_check_valid(*store, assembly.satisfactions_hashes@);
    }
    let cta_hash = assembly.call_to_action_hash;
    let shs = copy_ids(&assembly.satisfactions_hashes);
    let id = store.put_record(EntryTypes::Assembly(assembly), author, RecordOrigin::Create);
    store.create_edge(cta_hash, id, LinkTypes::CallToActionToAssemblies);
    let ghost mid = *store;
    let mut i: usize = 0;
    while i < shs.len()
        invariant
            i <= shs@.len(),
            store.wf(),
            store.records@ == mid.records@,
            store.edges@ == mid.edges@ + shs@.take(i as int).map_values(
                |sh: usize|
                    (Edge {
                        base: sh,
                        target: id,
                        link_type: LinkTypes::SatisfactionToAssemblies,
                        deleted: false,
                    }),
            ),
        decreases shs@.len() - i,
    {
        proof {
            assert(shs@.take(0).map_values(
                |sh: usize|
                    (Edge {
                        base: sh,
                        target: id,
                        link_type: LinkTypes::SatisfactionToAssemblies,
                        deleted: false,
                    }),
            ) =~= Seq::<Edge>::empty());
            assert(shs@.take(i + 1).map_values(
                |sh: usize|
                    (Edge {
                        base: sh,
                        target: id,
                        link_type: LinkTypes::SatisfactionToAssemblies,
                        deleted: false,
                    }),
            ) =~= shs@.take(i as int).map_values(
                |sh: usize|
                    (Edge {
                        base: sh,
                        target: id,
                        link_type: LinkTypes::SatisfactionToAssemblies,
                        deleted: false,
                    }),
            ).push(
                (Edge {
                    base: shs@[i as int],
                    target: id,
                    link_type: LinkTypes::SatisfactionToAssemblies,
                    deleted: false,
                }),
            ));
        }
        store.create_edge(shs[i], id, LinkTypes::SatisfactionToAssemblies);
        i = i + 1;
    }
    proof {
        assert(shs@.take(shs@.len() as int) =~= shs@);
        assert(store.edges@ =~= old(store).edges@ + assembly_edges(assembly, id));
    }
    Ok(id)
}

/// The record first published under the given id, if any.
pub fn get_assembly(store: &RecordStore, assembly_hash: usize) -> (r: Option<&RecordEntry>)
    ensures
        match r {
            Some(entry) => assembly_hash < store.records@.len() && *entry == store.records@[
                assembly_hash as int
            ],
            None => assembly_hash >= store.records@.len(),
        },
{
    store.get_record(assembly_hash)
}

/// The ids of the assemblies linked under a call to action.
pub fn get_assemblies_for_call_to_action(store: &RecordStore, call_to_action_hash: usize) -> (r:
    Vec<usize>)
    ensures
        r@ == edge_targets(*store, call_to_action_hash, LinkTypes::CallToActionToAssemblies),
{
    store.get_edges(call_to_action_hash, LinkTypes::CallToActionToAssemblies)
}

/// The ids of the assemblies linked under a satisfaction they gather.
pub fn get_assemblies_for_satisfaction(store: &RecordStore, satisfaction_hash: usize) -> (r: Vec<
    usize,
>)
    ensures
        r@ == edge_targets(*store, satisfaction_hash, LinkTypes::SatisfactionToAssemblies),
{
    store.get_edges(satisfaction_hash, LinkTypes::SatisfactionToAssemblies)
}

} // verus!
