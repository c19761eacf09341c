//! Coordinator-free cluster membership and work sharding for an ingestion
//! platform.
//!
//! Worker nodes agree on who is alive and on which node owns which unit of
//! work, using nothing but their local view of the cluster: the membership
//! directory sorts the live set into a view that is the same on every node
//! that sees the same set, and the sharding rule assigns each work key to one
//! position of that view. Beside them stand the rules of data ingestion: the
//! segment entity, its size limits, and how outcomes are reported.

pub mod api;
pub mod error;
pub mod gossip;
pub mod ingestion;
pub mod membership;
pub mod node;
pub mod seeds;
pub mod sharding;
pub mod storage;
pub mod text;
pub mod yellowpage;

pub use error::GossipError;
pub use node::NodeId;
pub use sharding::should_process;
pub use yellowpage::Yellowpage;
