//! The gossip collaborator, as far as the directory relies on it.
//!
//! `chitchat` keeps the distributed membership state in the background. The
//! directory only reads that state, and writes the local node's own record.
//! Nothing in this file is proved: each item states what the `chitchat`
//! source shows, and the directory is verified against these statements.

use vstd::prelude::*;
use vstd::multiset::Multiset;
use chitchat::Chitchat;
use chitchat::ChitchatId;
use chitchat::NodeState;
use crate::text::is_plain_start;

verus! {

/// `chitchat::Chitchat`: the locally known state of the whole cluster.
#[verifier::external_type_specification]
#[verifier::external_body]
pub struct ExChitchat(Chitchat);

/// `chitchat::ChitchatId`: one incarnation of a node, made of its node
/// identifier, a generation number and the address it gossips on.
#[verifier::external_type_specification]
#[verifier::external_body]
pub struct ExChitchatId(ChitchatId);

/// `chitchat::NodeState`: the key/value record of one member.
#[verifier::external_type_specification]
#[verifier::external_body]
pub struct ExNodeState(NodeState);

/// The node identifier that a member carries (`ChitchatId::node_id`).
pub uninterp spec fn member_name(member: ChitchatId) -> Seq<char>;

/// The member that stands for the local node (`Chitchat::self_chitchat_id`).
pub uninterp spec fn self_member(state: Chitchat) -> ChitchatId;

/// Whether `Chitchat::live_nodes` yields `member`.
pub uninterp spec fn is_live(state: Chitchat, member: ChitchatId) -> bool;

/// The node identifiers of the members that `Chitchat::live_nodes` yields,
/// each as often as a live member carries it.
pub uninterp spec fn live_names(state: Chitchat) -> Multiset<Seq<char>>;

/// The record that `Chitchat::node_state` holds for `member`, if any.
pub uninterp spec fn member_state(state: Chitchat, member: ChitchatId) -> Option<NodeState>;

/// The value that `NodeState::get` finds under `key`: the value last set,
/// unless the key was never set or has been deleted.
pub uninterp spec fn state_value(record: NodeState, key: Seq<char>) -> Option<Seq<char>>;

/// The version of the local record (`NodeState::max_version` of the record
/// that `Chitchat::node_state` holds for the local member), if there is one.
pub uninterp spec fn own_version(state: Chitchat) -> Option<u64>;

/// The version of the entry that the local record holds under `key`, set or
/// deleted (`NodeState::get_versioned`), if there is one.
pub uninterp spec fn own_entry_version(state: Chitchat, key: Seq<char>) -> Option<u64>;

/// The local record takes a write under `key`.
///
/// The key can be cut behind its first byte: it is empty or starts with a
/// character of one byte. And there is no record yet, or its version can
/// still be raised and no entry under the key is ahead of it.
pub open spec fn takes_write(state: Chitchat, key: Seq<char>) -> bool {
    &&& is_plain_start(key)
    &&& match own_version(state) {
        None => true,
        Some(version) => version < u64::MAX && match own_entry_version(state, key) {
            None => true,
            Some(entry) => entry <= version,
        },
    }
}

/// `after` is `before` with `value` written under `key` in the local
/// record: the local member holds the value under the key, and the live set,
/// every other key and every other member are as they were.
pub open spec fn is_own_write(
    before: Chitchat,
    after: Chitchat,
    key: Seq<char>,
    value: Seq<char>,
) -> bool {
    &&& self_member(after) == self_member(before)
    &&& live_names(after) == live_names(before)
    &&& forall|member: ChitchatId| is_live(after, member) == is_live(before, member)
    &&& forall|member: ChitchatId, other: Seq<char>|
        #[trigger] member_value(after, member, other) == if member == self_member(before) && other
            == key {
            Some(value)
        } else {
            member_value(before, member, other)
        }
}

/// The node identifiers of a sequence of members, in the same order.
pub open spec fn member_names(members: Seq<ChitchatId>) -> Seq<Seq<char>> {
    members.map_values(|member: ChitchatId| member_name(member))
}

/// The value locally known for `key` in the record of `member`.
pub open spec fn member_value(state: Chitchat, member: ChitchatId, key: Seq<char>) -> Option<
    Seq<char>,
> {
    match member_state(state, member) {
        Some(record) => state_value(record, key),
        None => None,
    }
}

/// Calls `Chitchat::live_nodes` and collects what it yields.
///
/// The source chains the local member in front of the failure detector's
/// live set, which is a hash set. So the local member comes first, and the
/// order of the others is left open: the contract speaks of which members
/// come out, and how often each name, not of where they stand.
#[verifier::external_body]
pub(crate) fn live_members(state: &Chitchat) -> (members: Vec<ChitchatId>)
    ensures
        members@.len() > 0,
        members@[0] == self_member(*state),
        member_names(members@).to_multiset() == live_names(*state),
        forall|member: ChitchatId| members@.contains(member) <==> is_live(*state, member),
{
    state.live_nodes().cloned().collect()
}

/// Reads the field `ChitchatId::node_id` as owned text.
#[verifier::external_body]
pub(crate) fn name_of(member: &ChitchatId) -> (name: String)
    ensures
        name@ == member_name(*member),
{
    member.node_id.to_string()
}

/// Calls `Chitchat::node_state`, which looks `member` up in the map of
/// known records.
#[verifier::external_body]
pub(crate) fn record_of<'a>(state: &'a Chitchat, member: &ChitchatId) -> (record: Option<
    &'a NodeState,
>)
    ensures
        match record {
            Some(found) => member_state(*state, *member) == Some(*found),
            None => member_state(*state, *member) is None,
        },
{
    state.node_state(member)
}

/// Calls `NodeState::get` and copies the value found.
#[verifier::external_body]
pub(crate) fn value_in(record: &NodeState, key: &str) -> (value: Option<String>)
    ensures
        match value {
            Some(text) => state_value(*record, key@) == Some(text@),
            None => state_value(*record, key@) is None,
        },
{
    record.get(key).map(|text| text.to_string())
}

/// Reads the version of the local record: `Chitchat::node_state` for
/// `Chitchat::self_chitchat_id`, and `NodeState::max_version` of what it
/// finds.
#[verifier::external_body]
pub(crate) fn own_record_version(state: &Chitchat) -> (version: Option<u64>)
    ensures
        version == own_version(*state),
{
    state.node_state(state.self_chitchat_id()).map(|record| record.max_version())
}

/// Reads the version of the entry under `key` in the local record:
/// `Chitchat::node_state` for `Chitchat::self_chitchat_id`, then
/// `NodeState::get_versioned`, which also finds a deleted entry, and the
/// field `version` of what it finds.
#[verifier::external_body]
pub(crate) fn own_key_version(state: &Chitchat, key: &str) -> (version: Option<u64>)
    ensures
        version == own_entry_version(*state, key@),
{
    state.node_state(state.self_chitchat_id()).and_then(|record| record.get_versioned(key)).map(
        |entry| entry.version,
    )
}

/// Calls `Chitchat::self_node_state` and then `NodeState::set` on the record
/// it returns.
///
/// The first creates the local record, at version 0, if there is none yet.
/// The second leaves the record alone where it already holds the value as
/// set under the key. Otherwise:
/// - it gives the write the record's version plus one, which stops the
///   process if the version is the largest there is;
/// - it stores the value as set (not deleted), unless the entry under the
///   key already has that version or a later one;
/// - it tells the listeners of a stored write, and on the way cuts a key
///   that is not empty behind its first byte, which stops the process if
///   the first character takes more than one byte.
///
/// The `requires` leaves all three out. Neither call touches the failure
/// detector, nor the record of any other member.
///
/// The listeners that are told are those that were subscribed on this state
/// through `Chitchat::subscribe_event`. This library subscribes none, and
/// nothing that chitchat offers reads whether there are any: what a
/// listener does when it is told is its subscriber's to answer for.
#[verifier::external_body]
pub(crate) fn write_own_value(state: &mut Chitchat, key: &str, value: &str)
    requires
        takes_write(*old(state), key@),
    ensures
        is_own_write(*old(state), *final(state), key@, value@),
{
    state.self_node_state().set(key.to_string(), value.to_string());
}

} // verus!
