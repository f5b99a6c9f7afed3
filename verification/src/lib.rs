//! Verified boundary logic for driving the KaHyPar hypergraph partitioner.
//!
//! The partitioner itself is native code behind raw handles. This crate holds
//! everything about its use that can be decided without it: the validation of
//! a hypergraph before it is handed over, the configuration state of a
//! context, the validation of a partition call, and the check of what the
//! partitioner hands back. A thin shell around the native library makes the
//! calls that these functions plan and feeds the replies back.

pub mod context;
pub mod error;
pub mod hypergraph;
pub mod imbalance;
pub mod partition;

pub use context::KaHyParContext;
pub use error::KaHyParError;
pub use error::Violation;
pub use hypergraph::KaHyParHyperGraph;
pub use imbalance::Imbalance;
pub use partition::partition;
pub use partition::EngineReply;
pub use partition::PartitionCall;
pub use partition::PartitionResult;
