//! The ways in which an operation at the partitioner boundary can fail.

use vstd::prelude::*;

verus! {

/// The invariant that a rejected input broke.
///
/// A construction checks the arrays, in the order in which their variants are
/// listed, and reports the first invariant that is broken. A partition checks
/// the number of blocks and then the imbalance.
#[derive(Clone, Copy, Debug, PartialEq, Eq)]
pub enum Violation {
    /// The offsets do not have one entry more than there are hyperedges.
    OffsetsLength,
    /// The first offset is not zero.
    OffsetsStart,
    /// The offsets decrease; `hyperedge` is the first hyperedge whose end
    /// offset lies before its start offset.
    NonMonotonicOffsets { hyperedge: usize },
    /// The last offset is not the number of pins.
    OffsetsEnd,
    /// A pin names no vertex; `position` is the first such place among the pins.
    PinOutOfRange { position: usize },
    /// Hyperedge weights are given, but not one for each hyperedge.
    HyperedgeWeightsLength,
    /// Vertex weights are given, but not one for each vertex.
    VertexWeightsLength,
    /// The number of blocks to partition into is smaller than one.
    BlockCount,
    /// The imbalance tolerance is not a number at least zero.
    Imbalance,
}

/// Failure of an operation at the partitioner boundary.
#[derive(Clone, Copy, Debug, PartialEq, Eq)]
pub enum KaHyParError {
    /// An argument was rejected by local validation, before anything reached
    /// the partitioner.
    InvalidInput(Violation),
    /// A configuration could not be handed to the partitioner, could not be
    /// read, or was not understood by it.
    Config,
    /// A partition was asked for with a context that was never configured.
    UnconfiguredContext,
    /// The partitioner returned no handle for a context or a hypergraph.
    Allocation,
    /// The partition call itself failed, or gave back something that is not
    /// an assignment of every vertex to one of the blocks.
    EngineFailure,
}

/// Turns the null signal of a native constructor into a result: a null handle
/// is an allocation failure, anything else is success.
pub fn check_allocation(handle_is_null: bool) -> (result: Result<(), KaHyParError>)
    ensures
        handle_is_null ==> result == Err::<(), KaHyParError>(KaHyParError::Allocation),
        !handle_is_null ==> result == Ok::<(), KaHyParError>(()),
{
    if handle_is_null {
        Err(KaHyParError::Allocation)
    } else {
        Ok(())
    }
}

} // verus!
