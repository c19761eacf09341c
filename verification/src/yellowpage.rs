//! The membership directory.
//!
//! A `Yellowpage` is the local node's handle on the cluster: it turns the
//! unordered live set of the gossip state into the sorted view every node
//! agrees on, finds the local node's position in it, and reads and writes
//! per-node metadata. Every operation is a local read or write on the state
//! it is handed; none waits for the network.

use vstd::prelude::*;
use vstd::seq_lib::*;
use vstd::string::*;
use chitchat::Chitchat;
use chitchat::ChitchatId;
use crate::error::GossipError;
use crate::gossip::{
    is_live, is_own_write, live_members, live_names, member_name, member_names, member_value,
    name_of, own_key_version, own_record_version, record_of, self_member, takes_write, value_in,
    write_own_value,
};
use crate::membership::{
    cluster_view, is_cluster_view, is_position, names, position_of, sort_nodes,
};
use crate::node::NodeId;
use crate::seeds::{check_seeds, is_seed_address};
use crate::text::{has_plain_start, text_of};

verus! {

/// Some live member carries the identifier `node`.
pub open spec fn is_known(state: Chitchat, node: Seq<char>) -> bool {
    exists|member: ChitchatId| is_live(state, member) && member_name(member) == node
}

/// `found` is what a lookup of `key` for `node` may return.
///
/// If a value is found, some live member with that identifier holds it under
/// the key. If none is found, either no live member carries the identifier,
/// or one that does holds nothing under the key. Where only one live member
/// carries the identifier, this leaves one answer.
pub open spec fn is_lookup(
    state: Chitchat,
    node: Seq<char>,
    key: Seq<char>,
    found: Option<Seq<char>>,
) -> bool {
    if is_known(state, node) {
        exists|member: ChitchatId|
            is_live(state, member) && member_name(member) == node && member_value(
                state,
                member,
                key,
            ) == found
    } else {
        found is None
    }
}

/// Where only one live member carries an identifier, a lookup for it has one
/// answer.
pub proof fn lemma_lookup_is_unique(
    state: Chitchat,
    node: Seq<char>,
    key: Seq<char>,
    first: Option<Seq<char>>,
    second: Option<Seq<char>>,
)
    requires
        is_lookup(state, node, key, first),
        is_lookup(state, node, key, second),
        forall|one: ChitchatId, other: ChitchatId|
            is_live(state, one) && member_name(one) == node && is_live(state, other)
                && member_name(other) == node ==> one == other,
    ensures
        first == second,
{
}

/// How often a node gossips, in milliseconds.
pub const GOSSIP_INTERVAL_MILLIS: u64 = 500;

/// How long a deleted entry is kept before it is dropped, in seconds.
pub const DELETION_GRACE_SECS: u64 = 60;

/// What the gossip layer is started with, apart from the address to listen
/// on.
#[derive(Debug)]
pub struct GossipSettings {
    /// The identifier of the local node.
    pub node_id: String,
    /// The identifier of the cluster to join.
    pub cluster_id: String,
    /// Tells this run of the node from earlier ones.
    pub generation_id: u64,
    /// The addresses of the nodes to contact first.
    pub seed_nodes: Vec<String>,
    /// How often to gossip, in milliseconds.
    pub gossip_interval_millis: u64,
    /// How long a deleted entry is kept, in seconds.
    pub deletion_grace_secs: u64,
}

/// The local node's handle on the cluster.
pub struct Yellowpage {
    node_id: NodeId,
    cluster_id: String,
}

impl Yellowpage {
    /// The identifier of the local node, as text.
    pub closed spec fn id(&self) -> Seq<char> {
        self.node_id@
    }

    /// The identifier of the cluster, as text.
    pub closed spec fn cluster(&self) -> Seq<char> {
        self.cluster_id@
    }

    /// The gossip state was started for this node: its local member carries
    /// this node's identifier.
    pub open spec fn runs_on(&self, state: Chitchat) -> bool {
        member_name(self_member(state)) == self.id()
    }

    /// A directory for the node `node_id` in the cluster `zuklink-cluster`.
    pub fn new(node_id: String) -> (page: Yellowpage)
        ensures
            page.id() == node_id@,
            page.cluster() == "zuklink-cluster"@,
    {
        Yellowpage::with_cluster_id(node_id, String::from_str("zuklink-cluster"))
    }

    /// A directory for the node `node_id` in the cluster `cluster_id`.
    pub fn with_cluster_id(node_id: String, cluster_id: String) -> (page: Yellowpage)
        ensures
            page.id() == node_id@,
            page.cluster() == cluster_id@,
    {
        Yellowpage { node_id: NodeId(node_id), cluster_id }
    }

    /// What the gossip layer is to be started with for this node: its
    /// identifier and cluster, the given generation and seeds, a gossip round
    /// every half second, and a minute of grace for deleted entries.
    ///
    /// Every seed has to be an address, a host and a port. If one is not,
    /// there are no settings: the result is the configuration error for the
    /// first seed that is malformed.
    pub fn settings(&self, generation_id: u64, seeds: Vec<String>) -> (settings: Result<
        GossipSettings,
        GossipError,
    >)
        ensures
            settings is Ok <==> forall|i: int|
                0 <= i < seeds@.len() ==> is_seed_address(#[trigger] seeds@[i]@),
            match settings {
                Ok(made) => {
                    &&& made.node_id@ == self.id()
                    &&& made.cluster_id@ == self.cluster()
                    &&& made.generation_id == generation_id
                    &&& made.seed_nodes == seeds
                    &&& made.gossip_interval_millis == GOSSIP_INTERVAL_MILLIS
                    &&& made.deletion_grace_secs == DELETION_GRACE_SECS
                },
                Err(error) => crate::seeds::is_first_malformed(seeds@, error),
            },
    {
        match check_seeds(&seeds) {
            Ok(()) => Ok(
                GossipSettings {
                    node_id: self.node_id.to_string(),
                    cluster_id: self.cluster_id.clone(),
                    generation_id,
                    seed_nodes: seeds,
                    gossip_interval_millis: GOSSIP_INTERVAL_MILLIS,
                    deletion_grace_secs: DELETION_GRACE_SECS,
                },
            ),
            Err(error) => Err(error),
        }
    }

    /// The live nodes, sorted ascending by identifier.
    ///
    /// The result is the cluster view of the live set: it depends on which
    /// nodes are live and not on the order in which they were discovered.
    /// It always holds the local node.
    ///
    /// An identifier stands in the view once for each live member that
    /// carries it. A node that is live under two generations at once, as
    /// just after a restart, is therefore listed twice until the old
    /// generation is dropped; its position is then the first of the two. The
    /// position of a node is the only one that holds it where no identifier
    /// is repeated.
    pub fn get_live_nodes(&self, state: &Chitchat) -> (view: Vec<NodeId>)
        ensures
            is_cluster_view(names(view@), live_names(*state)),
            names(view@) == cluster_view(live_names(*state)),
            view@.len() == live_names(*state).len(),
            names(view@).contains(member_name(self_member(*state))),
    {
        let members = live_members(state);
        let mut found: Vec<NodeId> = Vec::new();
        let mut next: usize = 0;
        while next < members.len()
            invariant
                next <= members.len(),
                names(found@) =~= member_names(members@).take(next as int),
            decreases members.len() - next,
        {
            let node = NodeId(name_of(&members[next]));
            proof {
                assert(names(found@.push(node)) =~= names(found@).push(node@));
                assert(member_names(members@).take(next + 1) =~= member_names(members@).take(
                    next as int,
                ).push(node@));
            }
            found.push(node);
            next += 1;
        }
        proof {
            assert(member_names(members@).take(next as int) =~= member_names(members@));
        }
        let view = sort_nodes(found);
        proof {
            to_multiset_len(names(view@));
            let own = member_name(self_member(*state));
            assert(member_names(members@)[0] == own);
            to_multiset_contains(member_names(members@), own);
            to_multiset_contains(names(view@), own);
        }
        view
    }

    /// The number of live nodes.
    pub fn cluster_size(&self, state: &Chitchat) -> (size: usize)
        ensures
            size == live_names(*state).len(),
            size > 0,
    {
        let members = live_members(state);
        proof {
            to_multiset_len(member_names(members@));
        }
        members.len()
    }

    /// The local node's position in the sorted view of the live nodes, or
    /// nothing if the view does not hold the local node.
    pub fn my_index(&self, state: &Chitchat) -> (index: Option<usize>)
        ensures
            is_position(cluster_view(live_names(*state)), self.id(), index),
            self.runs_on(*state) ==> index is Some,
    {
        let view = self.get_live_nodes(state);
        let index = position_of(&view, &self.node_id);
        proof {
            if self.runs_on(*state) {
                let at = choose|at: int| 0 <= at < names(view@).len() && names(view@)[at] == self.id();
                assert(names(view@)[at] == self.id());
            }
        }
        index
    }

    /// Whether the local record takes a write under `key`.
    ///
    /// It does not where the key starts with a character of more than one
    /// byte, where the record's version has been pushed to the largest there
    /// is, or where the entry under the key has got ahead of the record.
    pub fn can_set_metadata(&self, state: &Chitchat, key: &str) -> (taken: bool)
        ensures
            taken == takes_write(*state, key@),
    {
        has_plain_start(key) && match own_record_version(state) {
            None => true,
            Some(version) => version < u64::MAX && match own_key_version(state, key) {
                None => true,
                Some(entry) => entry <= version,
            },
        }
    }

    /// Stores `value` under `key` in the local node's own record.
    ///
    /// The write is visible to local reads at once. It changes neither the
    /// live set nor what is known of any other key or member.
    pub fn set_metadata(&self, state: &mut Chitchat, key: &str, value: &str)
        requires
            takes_write(*old(state), key@),
        ensures
            is_own_write(*old(state), *final(state), key@, value@),
    {
        write_own_value(state, key, value);
    }

    /// Stores `value` under `key` in the local node's own record, if the
    /// record takes the write, and says whether it did. Where it does not,
    /// the state is left as it is.
    pub fn try_set_metadata(&self, state: &mut Chitchat, key: &str, value: &str) -> (written: bool)
        ensures
            written == takes_write(*old(state), key@),
            written ==> is_own_write(*old(state), *final(state), key@, value@),
            !written ==> *final(state) == *old(state),
    {
        if self.can_set_metadata(state, key) {
            self.set_metadata(state, key, value);
            true
        } else {
            false
        }
    }

    /// The value most recently known here for `key` in the record of the live
    /// node `node_id`.
    ///
    /// Nothing is found if no live node carries the identifier or if the key
    /// is not set in its record. The local node is looked at first: asked for
    /// its own identifier, the answer comes from its own record.
    pub fn get_metadata(&self, state: &Chitchat, node_id: &NodeId, key: &str) -> (found: Option<
        String,
    >)
        ensures
            is_lookup(*state, node_id@, key@, text_of(found)),
            member_name(self_member(*state)) == node_id@ ==> text_of(found) == member_value(
                *state,
                self_member(*state),
                key@,
            ),
    {
        let members = live_members(state);
        let mut next: usize = 0;
        while next < members.len()
            invariant
                next <= members.len(),
                members@.len() > 0,
                members@[0] == self_member(*state),
                forall|member: ChitchatId| members@.contains(member) <==> is_live(*state, member),
                forall|k: int| 0 <= k < next ==> member_name(#[trigger] members@[k]) != node_id@,
            decreases members.len() - next,
        {
            let name = name_of(&members[next]);
            if name == node_id.0 {
                let member = &members[next];
                assert(members@.contains(*member));
                let found = match record_of(state, member) {
                    Some(record) => value_in(record, key),
                    None => None,
                };
                assert(text_of(found) == member_value(*state, *member, key@));
                return found;
            }
            next += 1;
        }
        proof {
            assert forall|member: ChitchatId| is_live(*state, member) implies member_name(member)
                != node_id@ by {
                assert(members@.contains(member));
                let k = choose|k: int| 0 <= k < members@.len() && members@[k] == member;
                assert(member_name(members@[k]) != node_id@);
            }
        }
        None
    }

    /// The local node's identifier.
    pub fn node_id(&self) -> (id: &NodeId)
        ensures
            id@ == self.id(),
    {
        &self.node_id
    }

    /// The cluster's identifier.
    pub fn cluster_id(&self) -> (id: &str)
        ensures
            id@ == self.cluster(),
    {
        self.cluster_id.as_str()
    }
}

} // verus!
