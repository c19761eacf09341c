//! The ordered view of the cluster.
//!
//! The live set arrives in no particular order. Sorting it by identifier gives
//! every node that sees the same set the same sequence, and with it the same
//! position for each member.

use vstd::prelude::*;
use vstd::multiset::*;
use vstd::seq_lib::*;
use vstd::utf8::*;
use crate::node::{id_le, lemma_bytes_le_total, lemma_bytes_le_transitive, lemma_id_order_total, NodeId};

verus! {

/// The identifiers of a sequence of nodes, as text.
pub open spec fn names(nodes: Seq<NodeId>) -> Seq<Seq<char>> {
    nodes.map_values(|node: NodeId| node@)
}

/// Every identifier is at or before each later one.
pub open spec fn ascending(ids: Seq<Seq<char>>) -> bool {
    forall|i: int, j: int| 0 <= i < j < ids.len() ==> id_le(#[trigger] ids[i], #[trigger] ids[j])
}

/// `view` is the cluster view of the live set `live`: the same identifiers,
/// as often as they are live, in ascending order.
pub open spec fn is_cluster_view(view: Seq<Seq<char>>, live: Multiset<Seq<char>>) -> bool {
    ascending(view) && view.to_multiset() == live
}

/// The cluster view of a live set. It is the one sequence with
/// `is_cluster_view`; see `lemma_cluster_view_unique`.
pub open spec fn cluster_view(live: Multiset<Seq<char>>) -> Seq<Seq<char>> {
    choose|view: Seq<Seq<char>>| is_cluster_view(view, live)
}

/// `found` is the position of `id` in `view`: the first index that holds it,
/// or nothing when no index does.
pub open spec fn is_position(view: Seq<Seq<char>>, id: Seq<char>, found: Option<usize>) -> bool {
    match found {
        Some(index) => index < view.len() && view[index as int] == id && forall|k: int|
            0 <= k < index ==> view[k] != id,
        None => forall|k: int| 0 <= k < view.len() ==> view[k] != id,
    }
}

/// No identifier occurs twice.
pub open spec fn distinct(view: Seq<Seq<char>>) -> bool {
    forall|i: int, j: int| 0 <= i < j < view.len() ==> view[i] != view[j]
}

pub proof fn lemma_id_le_transitive(a: Seq<char>, b: Seq<char>, c: Seq<char>)
    requires
        id_le(a, b),
        id_le(b, c),
    ensures
        id_le(a, c),
{
    lemma_bytes_le_transitive(encode_utf8(a), encode_utf8(b), encode_utf8(c));
}

pub proof fn lemma_id_le_total(a: Seq<char>, b: Seq<char>)
    ensures
        id_le(a, b) || id_le(b, a),
{
    lemma_bytes_le_total(encode_utf8(a), encode_utf8(b));
}

/// A live set has at most one cluster view: two ascending sequences that hold
/// the same identifiers equally often are the same sequence, in whatever
/// order the identifiers were discovered.
pub proof fn lemma_cluster_view_unique(
    first: Seq<Seq<char>>,
    second: Seq<Seq<char>>,
    live: Multiset<Seq<char>>,
)
    requires
        is_cluster_view(first, live),
        is_cluster_view(second, live),
    ensures
        first == second,
        first == cluster_view(live),
{
    let leq = |a: Seq<char>, b: Seq<char>| id_le(a, b);
    lemma_id_order_total();
    assert(vstd::relations::sorted_by(first, leq)) by {
        assert forall|i: int, j: int| 0 <= i < j < first.len() implies #[trigger] leq(
            first[i],
            first[j],
        ) by {}
    }
    assert(vstd::relations::sorted_by(second, leq)) by {
        assert forall|i: int, j: int| 0 <= i < j < second.len() implies #[trigger] leq(
            second[i],
            second[j],
        ) by {}
    }
    lemma_sorted_unique(first, second, leq);
    let chosen = cluster_view(live);
    assert(is_cluster_view(chosen, live));
    assert(vstd::relations::sorted_by(chosen, leq)) by {
        assert forall|i: int, j: int| 0 <= i < j < chosen.len() implies #[trigger] leq(
            chosen[i],
            chosen[j],
        ) by {}
    }
    lemma_sorted_unique(first, chosen, leq);
}

/// Two observers of the same live set hold the same view, whatever sequence
/// each one found the members in.
pub proof fn lemma_same_live_set_same_view(
    first_found: Seq<Seq<char>>,
    second_found: Seq<Seq<char>>,
    first_view: Seq<Seq<char>>,
    second_view: Seq<Seq<char>>,
)
    requires
        first_found.to_multiset() == second_found.to_multiset(),
        is_cluster_view(first_view, first_found.to_multiset()),
        is_cluster_view(second_view, second_found.to_multiset()),
    ensures
        first_view == second_view,
{
    lemma_cluster_view_unique(first_view, second_view, first_found.to_multiset());
}

/// In a view without repeated identifiers, each member's position is the one
/// index that holds it.
pub proof fn lemma_position_is_unique(view: Seq<Seq<char>>, index: int)
    requires
        distinct(view),
        0 <= index < view.len(),
        view.len() <= usize::MAX,
    ensures
        is_position(view, view[index], Some(index as usize)),
        forall|other: int| 0 <= other < view.len() && view[other] == view[index] ==> other == index,
{
}

/// Puts `node` into an ascending vector, behind every identifier that is at or
/// before it.
pub fn insert_sorted(sorted: &mut Vec<NodeId>, node: NodeId)
    requires
        ascending(names(old(sorted)@)),
    ensures
        ascending(names(final(sorted)@)),
        names(final(sorted)@).to_multiset() == names(old(sorted)@).to_multiset().insert(node@),
        final(sorted)@.len() == old(sorted)@.len() + 1,
{
    let ghost before = names(sorted@);
    let mut at: usize = 0;
    while at < sorted.len() && sorted[at].at_most(&node)
        invariant
            at <= sorted.len(),
            sorted@ == old(sorted)@,
            before == names(sorted@),
            forall|k: int| 0 <= k < at ==> id_le(#[trigger] before[k], node@),
        decreases sorted.len() - at,
    {
        assert(before[at as int] == sorted@[at as int]@);
        at += 1;
    }
    sorted.insert(at, node);
    proof {
        let after = names(sorted@);
        assert(after =~= before.insert(at as int, node@));
        to_multiset_insert(before, at as int, node@);
        assert forall|i: int, j: int| 0 <= i < j < after.len() implies id_le(
            #[trigger] after[i],
            #[trigger] after[j],
        ) by {
            if j == at {
                assert(after[i] == before[i]);
            } else if i == at {
                // every identifier behind the slot is behind `node`
                assert(after[j] == before[j - 1]);
                assert(!id_le(before[at as int], node@));
                lemma_id_le_total(before[at as int], node@);
                if j - 1 > at {
                    assert(id_le(before[at as int], before[j - 1]));
                    lemma_id_le_transitive(node@, before[at as int], before[j - 1]);
                }
            } else {
                let bi = if i < at { i } else { i - 1 };
                let bj = if j < at { j } else { j - 1 };
                assert(after[i] == before[bi]);
                assert(after[j] == before[bj]);
                assert(id_le(before[bi], before[bj]));
            }
        }
    }
}

/// Sorts nodes into the cluster view: ascending by identifier, holding the
/// same identifiers as the input, each as often.
pub fn sort_nodes(nodes: Vec<NodeId>) -> (view: Vec<NodeId>)
    ensures
        is_cluster_view(names(view@), names(nodes@).to_multiset()),
        names(view@) == cluster_view(names(nodes@).to_multiset()),
        view@.len() == nodes@.len(),
{
    let mut rest = nodes;
    let mut view: Vec<NodeId> = Vec::new();
    let ghost all = names(rest@);
    proof {
        broadcast use group_to_multiset_ensures;

        assert(names(view@) =~= Seq::<Seq<char>>::empty());
        assert(names(view@).to_multiset() =~= Multiset::<Seq<char>>::empty());
        assert(all.to_multiset() =~= all.to_multiset().add(Multiset::<Seq<char>>::empty()));
    }
    while rest.len() > 0
        invariant
            ascending(names(view@)),
            all.to_multiset() == names(rest@).to_multiset().add(names(view@).to_multiset()),
            all.len() == rest@.len() + view@.len(),
        decreases rest.len(),
    {
        let ghost rest_before = names(rest@);
        let node = rest.pop().unwrap();
        proof {
            assert(names(rest@) =~= rest_before.drop_last());
            assert(rest_before =~= names(rest@).push(node@));
            to_multiset_build(names(rest@), node@);
        }
        let ghost view_before = names(view@).to_multiset();
        insert_sorted(&mut view, node);
        proof {
            assert(names(rest@).to_multiset().insert(node@).add(view_before) =~= names(
                rest@,
            ).to_multiset().add(view_before.insert(node@)));
        }
    }
    proof {
        assert(names(rest@) =~= Seq::<Seq<char>>::empty());
        assert(names(rest@).to_multiset() =~= Multiset::<Seq<char>>::empty()) by {
            broadcast use group_to_multiset_ensures;

        }
        assert(all.to_multiset() =~= names(view@).to_multiset());
        lemma_cluster_view_unique(names(view@), names(view@), all.to_multiset());
    }
    view
}

/// Finds the position of `node` in a view: the first index that holds its
/// identifier.
pub fn position_of(view: &Vec<NodeId>, node: &NodeId) -> (found: Option<usize>)
    ensures
        is_position(names(view@), node@, found),
{
    let mut index: usize = 0;
    while index < view.len()
        invariant
            index <= view.len(),
            forall|k: int| 0 <= k < index ==> names(view@)[k] != node@,
        decreases view.len() - index,
    {
        if view[index].same_as(node) {
            assert(names(view@)[index as int] == node@);
            return Some(index);
        }
        index += 1;
    }
    None
}

} // verus!
