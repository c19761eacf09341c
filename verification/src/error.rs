//! Errors of the membership directory.

use vstd::prelude::*;
use vstd::string::*;
use crate::text::{decimal, join, push_decimal};

verus! {

/// What can go wrong in the membership directory.
#[derive(Debug)]
pub enum GossipError {
    /// The directory could not be set up.
    ConfigError(String),
    /// A node is not in the cluster view.
    NodeNotFound(String),
    /// The cluster view is empty.
    EmptyCluster,
    /// An operation did not finish in time.
    Timeout { duration_ms: u64 },
    /// The gossip layer reported an error.
    ChitchatError(String),
}

impl GossipError {
    /// The message of this error.
    pub open spec fn message(&self) -> Seq<char> {
        match self {
            GossipError::ConfigError(detail) => "Configuration error: "@ + detail@,
            GossipError::NodeNotFound(node) => "Node "@ + node@ + " not found in cluster"@,
            GossipError::EmptyCluster => "Cluster view is empty"@,
            GossipError::Timeout { duration_ms } => "Operation timed out after "@ + decimal(
                *duration_ms as nat,
            ) + "ms"@,
            GossipError::ChitchatError(detail) => "Chitchat error: "@ + detail@,
        }
    }

    /// A configuration error with the given detail.
    pub fn config_error(msg: &str) -> (error: GossipError)
        ensures
            error matches GossipError::ConfigError(detail) && detail@ == msg@,
    {
        GossipError::ConfigError(msg.to_owned())
    }

    /// A timeout after `duration_ms` milliseconds.
    pub fn timeout(duration_ms: u64) -> (error: GossipError)
        ensures
            error == (GossipError::Timeout { duration_ms }),
    {
        GossipError::Timeout { duration_ms }
    }

    /// The error for a node that is not in the cluster view.
    pub fn node_not_found(node_id: &str) -> (error: GossipError)
        ensures
            error matches GossipError::NodeNotFound(node) && node@ == node_id@,
    {
        GossipError::NodeNotFound(node_id.to_owned())
    }

    /// The error for a gossip layer that could not be started; `cause` is
    /// what the gossip layer said.
    pub fn spawn_failed(cause: &str) -> (error: GossipError)
        ensures
            error matches GossipError::ConfigError(detail) && detail@
                == "Failed to spawn chitchat: "@ + cause@,
    {
        GossipError::ConfigError(join("Failed to spawn chitchat: ", cause))
    }

    /// The message of this error, as text.
    pub fn to_string(&self) -> (text: String)
        ensures
            text@ == self.message(),
    {
        match self {
            GossipError::ConfigError(detail) => join("Configuration error: ", detail.as_str()),
            GossipError::NodeNotFound(node) => {
                let mut text = join("Node ", node.as_str());
                text.append(" not found in cluster");
                text
            },
            GossipError::EmptyCluster => String::from_str("Cluster view is empty"),
            GossipError::Timeout { duration_ms } => {
                let mut text = String::from_str("Operation timed out after ");
                push_decimal(&mut text, *duration_ms);
                text.append("ms");
                text
            },
            GossipError::ChitchatError(detail) => join("Chitchat error: ", detail.as_str()),
        }
    }
}

} // verus!
