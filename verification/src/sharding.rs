//! Deterministic ownership of work keys.
//!
//! A work key is hashed with 64-bit FNV-1a over its UTF-8 bytes, and the hash
//! modulo the cluster size is the position of the node that owns the key. The
//! hash has no seed and no per-process state, so every node, in every
//! process, computes the same owner.

use vstd::prelude::*;
use vstd::utf8::*;
use crate::membership::{distinct, is_position};

verus! {

/// FNV-1a 64-bit offset basis.
pub const FNV_OFFSET_BASIS: u64 = 0xcbf2_9ce4_8422_2325;

/// FNV-1a 64-bit prime.
pub const FNV_PRIME: u64 = 0x0000_0100_0000_01b3;

/// One FNV-1a step: fold a byte into the running hash.
pub open spec fn fnv1a_step(hash: u64, byte: u8) -> u64 {
    (hash ^ (byte as u64)).wrapping_mul(FNV_PRIME)
}

/// 64-bit FNV-1a of a byte string.
pub open spec fn fnv1a(bytes: Seq<u8>) -> u64
    decreases bytes.len(),
{
    if bytes.len() == 0 {
        FNV_OFFSET_BASIS
    } else {
        fnv1a_step(fnv1a(bytes.drop_last()), bytes.last())
    }
}

/// The hash of a work key: FNV-1a of its UTF-8 bytes.
pub open spec fn key_hash(key: Seq<char>) -> u64 {
    fnv1a(encode_utf8(key))
}

/// The position that owns `key` in a cluster of `cluster_size` nodes.
pub open spec fn owner_index(key: Seq<char>, cluster_size: nat) -> nat
    recommends
        cluster_size > 0,
{
    (key_hash(key) as nat) % cluster_size
}

/// Whether the node at position `index` owns `key`. An empty cluster has no
/// owner for any key.
pub open spec fn owns(key: Seq<char>, index: nat, cluster_size: nat) -> bool {
    cluster_size > 0 && owner_index(key, cluster_size) == index
}

/// 64-bit FNV-1a of a byte slice.
pub fn hash_bytes(bytes: &[u8]) -> (hash: u64)
    ensures
        hash == fnv1a(bytes@),
{
    let mut hash: u64 = FNV_OFFSET_BASIS;
    let mut i: usize = 0;
    assert(bytes@.take(0) =~= Seq::<u8>::empty());
    while i < bytes.len()
        invariant
            i <= bytes.len(),
            hash == fnv1a(bytes@.take(i as int)),
        decreases bytes.len() - i,
    {
        let byte: u8 = bytes[i];
        proof {
            let next = bytes@.take(i + 1);
            assert(next.drop_last() =~= bytes@.take(i as int));
            assert(next.last() == byte);
        }
        hash = (hash ^ (byte as u64)).wrapping_mul(FNV_PRIME);
        i += 1;
    }
    assert(bytes@.take(i as int) =~= bytes@);
    hash
}

/// The hash of a work key.
pub fn hash_key(work_key: &str) -> (hash: u64)
    ensures
        hash == key_hash(work_key@),
{
    hash_bytes(work_key.as_bytes())
}

/// Decides whether the node at position `my_index` in a cluster of
/// `cluster_size` nodes owns `work_key`.
///
/// The answer depends on nothing but the three arguments. With an empty
/// cluster no node owns anything.
pub fn should_process(work_key: &str, my_index: usize, cluster_size: usize) -> (mine: bool)
    ensures
        mine == owns(work_key@, my_index as nat, cluster_size as nat),
{
    if cluster_size == 0 {
        return false;
    }
    let hash: u64 = hash_key(work_key);
    hash % (cluster_size as u64) == my_index as u64
}

/// Every key has exactly one owner: in a cluster that is not empty, one
/// position below the cluster size owns the key, and no other position does.
pub proof fn lemma_exactly_one_owner(key: Seq<char>, cluster_size: nat)
    requires
        cluster_size > 0,
    ensures
        owner_index(key, cluster_size) < cluster_size,
        owns(key, owner_index(key, cluster_size), cluster_size),
        forall|index: nat| owns(key, index, cluster_size) ==> index == owner_index(key, cluster_size),
{
}

/// Two different positions never both own a key.
pub proof fn lemma_owners_disjoint(key: Seq<char>, first: nat, second: nat, cluster_size: nat)
    requires
        first != second,
    ensures
        !(owns(key, first, cluster_size) && owns(key, second, cluster_size)),
{
}

/// With an empty cluster no position owns any key.
pub proof fn lemma_empty_cluster_owns_nothing(key: Seq<char>, index: nat)
    ensures
        !owns(key, index, 0),
{
}

/// In a cluster of one, position zero owns every key.
pub proof fn lemma_single_node_owns_all(key: Seq<char>)
    ensures
        owns(key, 0, 1),
{
}

/// Two nodes that look themselves up in the same view never both claim a
/// key: different identifiers stand at different positions, and a key has
/// one owning position.
pub proof fn lemma_members_never_share_a_key(
    view: Seq<Seq<char>>,
    first: Seq<char>,
    second: Seq<char>,
    first_index: usize,
    second_index: usize,
    key: Seq<char>,
)
    requires
        first != second,
        is_position(view, first, Some(first_index)),
        is_position(view, second, Some(second_index)),
    ensures
        first_index != second_index,
        !(owns(key, first_index as nat, view.len()) && owns(key, second_index as nat, view.len())),
{
}

/// In a view that is not empty every key is claimed: the owning position
/// holds a member of the view, and where no identifier occurs twice that
/// member finds itself at exactly that position.
pub proof fn lemma_every_key_has_a_member(view: Seq<Seq<char>>, key: Seq<char>)
    requires
        view.len() > 0,
        view.len() <= usize::MAX,
    ensures
        owner_index(key, view.len()) < view.len(),
        owns(key, owner_index(key, view.len()), view.len()),
        distinct(view) ==> is_position(
            view,
            view[owner_index(key, view.len()) as int],
            Some(owner_index(key, view.len()) as usize),
        ),
{
}

/// Two nodes that agree on a view of exactly the two of them split the keys:
/// each key is claimed by one of them and not by the other.
pub proof fn lemma_two_nodes_split_keys(
    view: Seq<Seq<char>>,
    first: Seq<char>,
    second: Seq<char>,
    first_index: usize,
    second_index: usize,
    key: Seq<char>,
)
    requires
        view.len() == 2,
        first != second,
        is_position(view, first, Some(first_index)),
        is_position(view, second, Some(second_index)),
    ensures
        owns(key, first_index as nat, 2) != owns(key, second_index as nat, 2),
{
}

} // verus!
