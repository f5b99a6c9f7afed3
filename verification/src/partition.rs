//! One partition call: the checks before anything is handed to the
//! partitioner, and the checks on what it hands back.

use vstd::prelude::*;
use crate::context::ContextView;
use crate::context::KaHyParContext;
use crate::error::KaHyParError;
use crate::error::Violation;
use crate::hypergraph::construct;
use crate::hypergraph::first_violation;
use crate::hypergraph::repeated;
use crate::hypergraph::weights_view;
use crate::hypergraph::HypergraphView;
use crate::hypergraph::KaHyParHyperGraph;
use crate::imbalance::is_nonnegative_bits;
use crate::imbalance::Imbalance;

verus! {

/// Block id that marks a vertex as not yet assigned: the value that the
/// assignment buffer holds before the partitioner fills it.
pub const UNASSIGNED: i32 = -1;

/// A validated partition call, as mathematical values.
pub struct PartitionCallView {
    /// Number of vertices to assign.
    pub num_vertices: u32,
    /// Number of blocks to assign them to.
    pub num_blocks: i32,
    /// Bit pattern of the imbalance tolerance.
    pub imbalance: u64,
    /// Seed set in the context, if any.
    pub seed: Option<i32>,
}

impl PartitionCallView {
    /// What validation established of the call's arguments.
    pub open spec fn wf(self) -> bool {
        &&& self.num_blocks >= 1
        &&& is_nonnegative_bits(self.imbalance)
    }
}

/// The outcome of validating a partition call on `graph` under `context`:
/// the call that may go to the partitioner, or the reason why none may.
/// An unconfigured context is reported before a bad argument, a bad number of
/// blocks before a bad imbalance.
pub open spec fn plan_partition(
    graph: HypergraphView,
    num_blocks: i32,
    imbalance: u64,
    context: ContextView,
) -> Result<PartitionCallView, KaHyParError> {
    if !context.is_configured() {
        Err(KaHyParError::UnconfiguredContext)
    } else if num_blocks < 1 {
        Err(KaHyParError::InvalidInput(Violation::BlockCount))
    } else if !is_nonnegative_bits(imbalance) {
        Err(KaHyParError::InvalidInput(Violation::Imbalance))
    } else {
        Ok(
            PartitionCallView {
                num_vertices: graph.num_vertices,
                num_blocks,
                imbalance,
                seed: context.seed,
            },
        )
    }
}

/// A validated partition call: proof that the arguments passed every check,
/// and the measure against which the partitioner's reply is checked.
#[derive(Clone, Copy, Debug, PartialEq, Eq)]
pub struct PartitionCall {
    num_vertices: u32,
    num_blocks: i32,
    imbalance: Imbalance,
    seed: Option<i32>,
}

impl View for PartitionCall {
    type V = PartitionCallView;

    closed spec fn view(&self) -> PartitionCallView {
        PartitionCallView {
            num_vertices: self.num_vertices,
            num_blocks: self.num_blocks,
            imbalance: self.imbalance@,
            seed: self.seed,
        }
    }
}

impl KaHyParHyperGraph {
    /// Validates a partition of this hypergraph into `num_blocks` blocks with
    /// imbalance tolerance `epsilon` under `kahypar_context`.
    ///
    /// Fails with an unconfigured-context error while the context is blank,
    /// and with an invalid-input error where `num_blocks` is below one or
    /// `epsilon` is not a number at least zero. Otherwise returns the call to
    /// make; neither the hypergraph nor the context changes.
    pub fn partition(
        &self,
        num_blocks: i32,
        epsilon: Imbalance,
        kahypar_context: &KaHyParContext,
    ) -> (result: Result<PartitionCall, KaHyParError>)
        ensures
            match result {
                Ok(call) => call@.wf() && plan_partition(
                    self@,
                    num_blocks,
                    epsilon@,
                    kahypar_context@,
                ) == Ok::<PartitionCallView, KaHyParError>(call@),
                Err(error) => plan_partition(self@, num_blocks, epsilon@, kahypar_context@)
                    == Err::<PartitionCallView, KaHyParError>(error),
            },
    {
        if !kahypar_context.is_configured() {
            return Err(KaHyParError::UnconfiguredContext);
        }
        if num_blocks < 1 {
            return Err(KaHyParError::InvalidInput(Violation::BlockCount));
        }
        if !epsilon.is_nonnegative() {
            return Err(KaHyParError::InvalidInput(Violation::Imbalance));
        }
        Ok(
            PartitionCall {
                num_vertices: self.num_vertices(),
                num_blocks,
                imbalance: epsilon,
                seed: kahypar_context.seed(),
            },
        )
    }
}

/// `assignment` gives each of `num_vertices` vertices one of the blocks
/// `0 .. num_blocks`.
pub open spec fn is_assignment(assignment: Seq<i32>, num_vertices: int, num_blocks: int) -> bool {
    &&& assignment.len() == num_vertices
    &&& forall|v: int| 0 <= v < assignment.len() ==> 0 <= #[trigger] assignment[v] < num_blocks
}

/// Whether `assignment` gives each of `num_vertices` vertices one of the
/// blocks `0 .. num_blocks`.
pub fn check_assignment(assignment: &[i32], num_vertices: u32, num_blocks: i32) -> (ok: bool)
    ensures
        ok == is_assignment(assignment@, num_vertices as int, num_blocks as int),
{
    let len: usize = assignment.len();
    if len != num_vertices as usize {
        return false;
    }
    let mut v: usize = 0;
    while v < len
        invariant
            len == assignment@.len(),
            v <= len,
            forall|u: int| 0 <= u < v ==> 0 <= #[trigger] assignment@[u] < num_blocks,
        decreases len - v,
    {
        let block: i32 = assignment[v];
        if block < 0 || block >= num_blocks {
            return false;
        }
        v += 1;
    }
    true
}

/// The summed weight of the vertices that `assignment` puts into `block`,
/// vertex `v` weighing `weights[v]`.
pub open spec fn block_weight(assignment: Seq<i32>, weights: Seq<i32>, block: int) -> int
    decreases assignment.len(),
{
    if assignment.len() == 0 {
        0
    } else {
        block_weight(assignment.drop_last(), weights, block) + if assignment.last() == block {
            weights[assignment.len() - 1] as int
        } else {
            0
        }
    }
}

/// Largest magnitude that the weight of a block of `vertices` vertices can
/// have; with a vertex count that fits 32 bits it fits 64 bits.
pub open spec fn block_weight_bound(vertices: int) -> int {
    vertices * 0x8000_0000
}

/// The weight of a block of the first `v` vertices is within the bound for
/// `v` vertices.
pub proof fn lemma_block_weight_bounded(assignment: Seq<i32>, weights: Seq<i32>, block: int)
    requires
        assignment.len() <= weights.len(),
    ensures
        -block_weight_bound(assignment.len() as int) <= block_weight(assignment, weights, block)
            <= block_weight_bound(assignment.len() as int),
    decreases assignment.len(),
{
    if assignment.len() > 0 {
        lemma_block_weight_bounded(assignment.drop_last(), weights, block);
    }
}

/// Sums the vertex weights of each block: entry `b` of the result is the
/// weight of block `b`. The sums are returned where `num_blocks` is not
/// negative, `assignment` gives each of the weighted vertices one of the
/// blocks `0 .. num_blocks`, and the vertices are few enough for a 32-bit
/// count; `None` otherwise.
pub fn block_weights(assignment: &[i32], vertex_weights: &[i32], num_blocks: i32) -> (sums: Option<
    Vec<i64>,
>)
    ensures
        sums is Some <==> num_blocks >= 0 && vertex_weights@.len() <= u32::MAX && is_assignment(
            assignment@,
            vertex_weights@.len() as int,
            num_blocks as int,
        ),
        sums matches Some(sums) ==> sums@.len() == num_blocks && forall|b: int|
            0 <= b < num_blocks ==> #[trigger] sums@[b] == block_weight(
                assignment@,
                vertex_weights@,
                b,
            ),
{
    let len: usize = vertex_weights.len();
    if len > u32::MAX as usize || num_blocks < 0 {
        return None;
    }
    if !check_assignment(assignment, len as u32, num_blocks) {
        return None;
    }
    let mut sums: Vec<i64> = Vec::new();
    let mut b: i32 = 0;
    while b < num_blocks
        invariant
            0 <= b <= num_blocks,
            sums@.len() == b,
            forall|c: int| 0 <= c < b ==> sums@[c] == 0,
        decreases num_blocks - b,
    {
        sums.push(0);
        b += 1;
    }
    let mut v: usize = 0;
    while v < len
        invariant
            v <= len,
            len == vertex_weights@.len(),
            len <= u32::MAX,
            is_assignment(assignment@, len as int, num_blocks as int),
            sums@.len() == num_blocks,
            forall|c: int|
                0 <= c < num_blocks ==> #[trigger] sums@[c] == block_weight(
                    assignment@.take(v as int),
                    vertex_weights@,
                    c,
                ),
        decreases len - v,
    {
        let block: usize = assignment[v] as usize;
        let weight: i64 = vertex_weights[v] as i64;
        proof {
            let before = assignment@.take(v as int);
            let after = assignment@.take(v + 1);
            assert(after.drop_last() =~= before);
            assert(after.last() == assignment@[v as int]);
            lemma_block_weight_bounded(before, vertex_weights@, block as int);
            assert(block_weight_bound(v as int) <= 0xFFFF_FFFE * 0x8000_0000);
        }
        let sum: i64 = sums[block];
        sums.set(block, sum + weight);
        v += 1;
    }
    proof {
        assert(assignment@.take(len as int) =~= assignment@);
    }
    Some(sums)
}

/// What came back from the partitioner.
#[derive(Debug, PartialEq, Eq)]
pub enum EngineReply {
    /// The partitioner signalled failure.
    Failed,
    /// The partitioner returned: the objective value it reached, and the
    /// assignment buffer as it left it.
    Partitioned { objective: i32, assignment: Vec<i32> },
}

/// A partition: the objective value reached, and the block of each vertex.
#[derive(Debug, PartialEq, Eq)]
pub struct PartitionResult {
    pub objective: i32,
    pub assignment: Vec<i32>,
}

/// The outcome of a partition call, given the partitioner's reply: the
/// partition where the reply assigns every vertex to one of the blocks, an
/// engine failure otherwise.
pub open spec fn completed(call: PartitionCallView, reply: EngineReply) -> Result<
    PartitionResult,
    KaHyParError,
> {
    match reply {
        EngineReply::Failed => Err(KaHyParError::EngineFailure),
        EngineReply::Partitioned { objective, assignment } => if is_assignment(
            assignment@,
            call.num_vertices as int,
            call.num_blocks as int,
        ) {
            Ok(PartitionResult { objective, assignment })
        } else {
            Err(KaHyParError::EngineFailure)
        },
    }
}

impl PartitionCall {
    #[verifier::type_invariant]
    spec fn well_formed(self) -> bool {
        self@.wf()
    }

    /// Number of vertices to assign.
    pub fn num_vertices(&self) -> (num_vertices: u32)
        ensures
            num_vertices == self@.num_vertices,
    {
        self.num_vertices
    }

    /// Number of blocks to partition into; at least one.
    pub fn num_blocks(&self) -> (num_blocks: i32)
        ensures
            num_blocks == self@.num_blocks,
            num_blocks >= 1,
    {
        proof {
            use_type_invariant(self);
        }
        self.num_blocks
    }

    /// The imbalance tolerance; a number at least zero.
    pub fn imbalance(&self) -> (imbalance: Imbalance)
        ensures
            imbalance@ == self@.imbalance,
            is_nonnegative_bits(imbalance@),
    {
        proof {
            use_type_invariant(self);
        }
        self.imbalance
    }

    /// The seed that the context holds for this call, if one was set.
    pub fn seed(&self) -> (seed: Option<i32>)
        ensures
            seed == self@.seed,
    {
        self.seed
    }

    /// The buffer for the partitioner to write the assignment into: one entry
    /// for each vertex, each marked [`UNASSIGNED`].
    pub fn output_buffer(&self) -> (buffer: Vec<i32>)
        ensures
            buffer@ == Seq::new(self@.num_vertices as nat, |v: int| UNASSIGNED),
    {
        repeated(UNASSIGNED, self.num_vertices as usize)
    }

    /// Checks the partitioner's reply to this call and turns it into the
    /// call's result. A reply is accepted only where it assigns every vertex
    /// to one of the blocks; the partition then holds the reply's objective
    /// and assignment unchanged. Anything else is an engine failure.
    pub fn complete(&self, reply: EngineReply) -> (result: Result<PartitionResult, KaHyParError>)
        ensures
            result == completed(self@, reply),
    {
        match reply {
            EngineReply::Failed => Err(KaHyParError::EngineFailure),
            EngineReply::Partitioned { objective, assignment } => {
                if check_assignment(assignment.as_slice(), self.num_vertices, self.num_blocks) {
                    Ok(PartitionResult { objective, assignment })
                } else {
                    Err(KaHyParError::EngineFailure)
                }
            },
        }
    }
}

/// The outcome of validating a one-shot partition: that of constructing a
/// hypergraph for `k` blocks from the arrays and then validating one
/// partition of it into `k` blocks.
pub open spec fn plan_one_shot(
    num_vertices: u32,
    num_hyperedges: u32,
    imbalance: u64,
    k: i32,
    vertex_weights: Option<Seq<i32>>,
    hyperedge_weights: Option<Seq<i32>>,
    offsets: Seq<usize>,
    pins: Seq<u32>,
    context: ContextView,
) -> Result<(HypergraphView, PartitionCallView), KaHyParError> {
    match construct(
        k,
        num_vertices,
        num_hyperedges,
        offsets,
        pins,
        hyperedge_weights,
        vertex_weights,
    ) {
        Err(error) => Err(error),
        Ok(graph) => match plan_partition(graph, k, imbalance, context) {
            Err(error) => Err(error),
            Ok(call) => Ok((graph, call)),
        },
    }
}

/// Validates a partition of a hypergraph that is used for this one call only.
///
/// This is the construction of a hypergraph for `k` blocks from the arrays,
/// followed by one validated partition of it into `k` blocks: it fails as
/// the construction would, else as the partition would, and otherwise
/// returns the hypergraph to hand over together with the call to make.
pub fn partition(
    num_vertices: u32,
    num_hyperedges: u32,
    imbalance: Imbalance,
    k: i32,
    vertex_weights: Option<Vec<i32>>,
    hyperedge_weights: Option<Vec<i32>>,
    hyperedge_indices: &[usize],
    hyperedges: &[u32],
    context: &KaHyParContext,
) -> (result: Result<(KaHyParHyperGraph, PartitionCall), KaHyParError>)
    ensures
        match result {
            Ok((graph, call)) => graph@.wf() && call@.wf() && plan_one_shot(
                num_vertices,
                num_hyperedges,
                imbalance@,
                k,
                weights_view(vertex_weights),
                weights_view(hyperedge_weights),
                hyperedge_indices@,
                hyperedges@,
                context@,
            ) == Ok::<(HypergraphView, PartitionCallView), KaHyParError>((graph@, call@)),
            Err(error) => plan_one_shot(
                num_vertices,
                num_hyperedges,
                imbalance@,
                k,
                weights_view(vertex_weights),
                weights_view(hyperedge_weights),
                hyperedge_indices@,
                hyperedges@,
                context@,
            ) == Err::<(HypergraphView, PartitionCallView), KaHyParError>(error),
        },
{
    let graph = match KaHyParHyperGraph::new(
        k,
        num_vertices,
        num_hyperedges,
        hyperedge_indices,
        hyperedges,
        hyperedge_weights,
        vertex_weights,
    ) {
        Ok(graph) => graph,
        Err(error) => {
            return Err(error);
        },
    };
    match graph.partition(k, imbalance, context) {
        Ok(call) => Ok((graph, call)),
        Err(error) => Err(error),
    }
}

/// The outcome of a whole partition operation: validation, and then the
/// check of the partitioner's reply.
pub open spec fn partition_outcome(
    graph: HypergraphView,
    num_blocks: i32,
    imbalance: u64,
    context: ContextView,
    reply: EngineReply,
) -> Result<PartitionResult, KaHyParError> {
    match plan_partition(graph, num_blocks, imbalance, context) {
        Err(error) => Err(error),
        Ok(call) => completed(call, reply),
    }
}

/// A successful partition of a well-formed hypergraph has one entry for each
/// vertex, and each entry is one of the blocks asked for.
pub proof fn lemma_partition_assigns_every_vertex(
    graph: HypergraphView,
    num_blocks: i32,
    imbalance: u64,
    context: ContextView,
    reply: EngineReply,
)
    requires
        graph.wf(),
        partition_outcome(graph, num_blocks, imbalance, context, reply) is Ok,
    ensures
        partition_outcome(graph, num_blocks, imbalance, context, reply) matches Ok(partition)
            && partition.assignment@.len() == graph.num_vertices && forall|v: int|
            0 <= v < graph.num_vertices ==> 0 <= #[trigger] partition.assignment@[v] < num_blocks,
{
}

/// A partition under a context that was never configured fails with the
/// unconfigured-context error, whatever the other arguments are and whatever
/// a partitioner would have replied.
pub proof fn lemma_unconfigured_context_fails(
    graph: HypergraphView,
    num_blocks: i32,
    imbalance: u64,
    context: ContextView,
    reply: EngineReply,
)
    requires
        !context.is_configured(),
    ensures
        plan_partition(graph, num_blocks, imbalance, context) == Err::<
            PartitionCallView,
            KaHyParError,
        >(KaHyParError::UnconfiguredContext),
        partition_outcome(graph, num_blocks, imbalance, context, reply) == Err::<
            PartitionResult,
            KaHyParError,
        >(KaHyParError::UnconfiguredContext),
{
}

/// A one-shot partition under a context that was never configured never
/// succeeds, whatever the number of blocks and the imbalance are. It fails as
/// the construction does where the arrays break an invariant, and with the
/// unconfigured-context error where they break none.
pub proof fn lemma_one_shot_unconfigured_context_fails(
    num_vertices: u32,
    num_hyperedges: u32,
    imbalance: u64,
    k: i32,
    vertex_weights: Option<Seq<i32>>,
    hyperedge_weights: Option<Seq<i32>>,
    offsets: Seq<usize>,
    pins: Seq<u32>,
    context: ContextView,
)
    requires
        !context.is_configured(),
    ensures
        plan_one_shot(
            num_vertices,
            num_hyperedges,
            imbalance,
            k,
            vertex_weights,
            hyperedge_weights,
            offsets,
            pins,
            context,
        ) == match first_violation(
            num_vertices,
            num_hyperedges,
            offsets,
            pins,
            hyperedge_weights,
            vertex_weights,
        ) {
            Some(violation) => Err::<(HypergraphView, PartitionCallView), KaHyParError>(
                KaHyParError::InvalidInput(violation),
            ),
            None => Err(KaHyParError::UnconfiguredContext),
        },
{
}

/// Two partitions of one hypergraph under one context with the same
/// arguments make the same call, and where the partitioner gives the same
/// reply to both, they have the same outcome. Whether a partitioner does give
/// the same reply twice is its own matter: nothing here says so.
pub proof fn lemma_same_reply_same_partition(
    graph: HypergraphView,
    num_blocks: i32,
    imbalance: u64,
    context: ContextView,
    first_reply: EngineReply,
    second_reply: EngineReply,
)
    requires
        first_reply == second_reply,
    ensures
        partition_outcome(graph, num_blocks, imbalance, context, first_reply) == partition_outcome(
            graph,
            num_blocks,
            imbalance,
            context,
            second_reply,
        ),
{
}

} // verus!
