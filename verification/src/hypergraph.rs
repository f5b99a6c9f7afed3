//! The validated in-memory hypergraph: pins stored per hyperedge in one flat
//! sequence, with an offset sequence that marks where each hyperedge begins.

use vstd::prelude::*;
use vstd::slice::slice_to_vec;
use crate::error::KaHyParError;
use crate::error::Violation;

verus! {

/// Weight given to every vertex, or to every hyperedge, for which the caller
/// supplied none.
pub const DEFAULT_WEIGHT: i32 = 1;

/// Every hyperedge ends at or after the offset at which it starts.
pub open spec fn offsets_monotonic(offsets: Seq<usize>) -> bool {
    forall|e: int| 0 <= e < offsets.len() - 1 ==> offsets[e] <= #[trigger] offsets[e + 1]
}

/// The offsets mark out `num_hyperedges` hyperedges among `num_pins` pins:
/// one offset for each hyperedge and one more, the first of them zero, none
/// smaller than the one before it, the last of them the number of pins.
pub open spec fn valid_offsets(offsets: Seq<usize>, num_hyperedges: int, num_pins: int) -> bool {
    &&& offsets.len() == num_hyperedges + 1
    &&& offsets[0] == 0
    &&& offsets_monotonic(offsets)
    &&& offsets.last() == num_pins
}

/// Hyperedge `e` is the first one whose end offset lies before its start.
pub open spec fn is_first_descent(offsets: Seq<usize>, e: int) -> bool {
    &&& 0 <= e < offsets.len() - 1
    &&& offsets[e] > offsets[e + 1]
    &&& forall|j: int| 0 <= j < e ==> offsets[j] <= #[trigger] offsets[j + 1]
}

/// The first hyperedge whose end offset lies before its start, where the
/// offsets are not monotonic.
pub open spec fn first_descent(offsets: Seq<usize>) -> int {
    choose|e: int| is_first_descent(offsets, e)
}

/// Every pin names one of the `num_vertices` vertices.
pub open spec fn pins_in_range(pins: Seq<u32>, num_vertices: int) -> bool {
    forall|i: int| 0 <= i < pins.len() ==> (#[trigger] pins[i]) < num_vertices
}

/// Place `i` holds the first pin that names no vertex.
pub open spec fn is_first_stray_pin(pins: Seq<u32>, num_vertices: int, i: int) -> bool {
    &&& 0 <= i < pins.len()
    &&& pins[i] >= num_vertices
    &&& forall|j: int| 0 <= j < i ==> (#[trigger] pins[j]) < num_vertices
}

/// The first place among the pins that names no vertex, where there is one.
pub open spec fn first_stray_pin(pins: Seq<u32>, num_vertices: int) -> int {
    choose|i: int| is_first_stray_pin(pins, num_vertices, i)
}

/// `len` weights, each the default.
pub open spec fn uniform_weights(len: int) -> Seq<i32> {
    Seq::new(len as nat, |i: int| DEFAULT_WEIGHT)
}

/// The weights in force: those supplied, or the default for each of `len` items.
pub open spec fn weights_or_default(weights: Option<Seq<i32>>, len: int) -> Seq<i32> {
    match weights {
        Some(given) => given,
        None => uniform_weights(len),
    }
}

/// The weights an optional vector supplies, as a sequence.
pub open spec fn weights_view(weights: Option<Vec<i32>>) -> Option<Seq<i32>> {
    match weights {
        Some(given) => Some(given@),
        None => None,
    }
}

/// What a hypergraph holds, as mathematical values.
pub struct HypergraphView {
    /// Number of blocks the hypergraph is prepared for: a hint to the
    /// partitioner, on which nothing here depends.
    pub num_blocks: i32,
    /// Number of vertices; the vertices are `0 .. num_vertices`.
    pub num_vertices: u32,
    /// Number of hyperedges; the hyperedges are `0 .. num_hyperedges`.
    pub num_hyperedges: u32,
    /// Hyperedge `e` owns the pins at `offsets[e] .. offsets[e + 1]`.
    pub offsets: Seq<usize>,
    /// The vertices of all hyperedges, one hyperedge after the other.
    pub pins: Seq<u32>,
    /// One weight for each hyperedge.
    pub hyperedge_weights: Seq<i32>,
    /// One weight for each vertex.
    pub vertex_weights: Seq<i32>,
}

impl HypergraphView {
    /// The data model's invariants, all of them.
    pub open spec fn wf(self) -> bool {
        &&& valid_offsets(self.offsets, self.num_hyperedges as int, self.pins.len() as int)
        &&& pins_in_range(self.pins, self.num_vertices as int)
        &&& self.hyperedge_weights.len() == self.num_hyperedges
        &&& self.vertex_weights.len() == self.num_vertices
    }

    /// The pins of hyperedge `e`.
    pub open spec fn hyperedge(self, e: int) -> Seq<u32> {
        self.pins.subrange(self.offsets[e] as int, self.offsets[e + 1] as int)
    }
}

/// The first invariant, in the order of [`Violation`], that the arrays of a
/// hypergraph construction break; `None` where they break none. The number
/// of blocks that the hypergraph is prepared for plays no part.
pub open spec fn first_violation(
    num_vertices: u32,
    num_hyperedges: u32,
    offsets: Seq<usize>,
    pins: Seq<u32>,
    hyperedge_weights: Option<Seq<i32>>,
    vertex_weights: Option<Seq<i32>>,
) -> Option<Violation> {
    if offsets.len() != num_hyperedges + 1 {
        Some(Violation::OffsetsLength)
    } else if offsets[0] != 0 {
        Some(Violation::OffsetsStart)
    } else if !offsets_monotonic(offsets) {
        Some(Violation::NonMonotonicOffsets { hyperedge: first_descent(offsets) as usize })
    } else if offsets.last() != pins.len() {
        Some(Violation::OffsetsEnd)
    } else if !pins_in_range(pins, num_vertices as int) {
        Some(
            Violation::PinOutOfRange {
                position: first_stray_pin(pins, num_vertices as int) as usize,
            },
        )
    } else if hyperedge_weights matches Some(weights) && weights.len() != num_hyperedges {
        Some(Violation::HyperedgeWeightsLength)
    } else if vertex_weights matches Some(weights) && weights.len() != num_vertices {
        Some(Violation::VertexWeightsLength)
    } else {
        None
    }
}

/// The hypergraph that a construction from these arguments holds: the
/// arguments as given, with default weights where none were supplied.
pub open spec fn constructed_view(
    num_blocks: i32,
    num_vertices: u32,
    num_hyperedges: u32,
    offsets: Seq<usize>,
    pins: Seq<u32>,
    hyperedge_weights: Option<Seq<i32>>,
    vertex_weights: Option<Seq<i32>>,
) -> HypergraphView {
    HypergraphView {
        num_blocks,
        num_vertices,
        num_hyperedges,
        offsets,
        pins,
        hyperedge_weights: weights_or_default(hyperedge_weights, num_hyperedges as int),
        vertex_weights: weights_or_default(vertex_weights, num_vertices as int),
    }
}

/// The outcome of a hypergraph construction: the hypergraph, or the first
/// broken invariant as an invalid-input error.
pub open spec fn construct(
    num_blocks: i32,
    num_vertices: u32,
    num_hyperedges: u32,
    offsets: Seq<usize>,
    pins: Seq<u32>,
    hyperedge_weights: Option<Seq<i32>>,
    vertex_weights: Option<Seq<i32>>,
) -> Result<HypergraphView, KaHyParError> {
    match first_violation(
        num_vertices,
        num_hyperedges,
        offsets,
        pins,
        hyperedge_weights,
        vertex_weights,
    ) {
        Some(violation) => Err(KaHyParError::InvalidInput(violation)),
        None => Ok(
            constructed_view(
                num_blocks,
                num_vertices,
                num_hyperedges,
                offsets,
                pins,
                hyperedge_weights,
                vertex_weights,
            ),
        ),
    }
}

/// Where no hyperedge is a first descent, the offsets do not decrease
/// anywhere below `bound`.
proof fn lemma_no_descent_below(offsets: Seq<usize>, bound: int)
    requires
        forall|e: int| !is_first_descent(offsets, e),
        0 <= bound <= offsets.len() - 1,
    ensures
        forall|j: int| 0 <= j < bound ==> offsets[j] <= #[trigger] offsets[j + 1],
    decreases bound,
{
    if bound > 0 {
        lemma_no_descent_below(offsets, bound - 1);
        assert(!is_first_descent(offsets, bound - 1));
    }
}

/// Offsets that are not monotonic have a first descent, and `first_descent`
/// is that hyperedge.
pub proof fn lemma_first_descent_exists(offsets: Seq<usize>)
    requires
        !offsets_monotonic(offsets),
    ensures
        is_first_descent(offsets, first_descent(offsets)),
{
    if forall|e: int| !is_first_descent(offsets, e) {
        lemma_no_descent_below(offsets, offsets.len() - 1);
    }
}

/// A first descent is unique, so finding one finds `first_descent`.
pub proof fn lemma_first_descent_unique(offsets: Seq<usize>, e: int)
    requires
        is_first_descent(offsets, e),
    ensures
        !offsets_monotonic(offsets),
        first_descent(offsets) == e,
{
    let chosen = first_descent(offsets);
    assert(is_first_descent(offsets, chosen));
    if chosen < e {
        assert(offsets[chosen] <= offsets[chosen + 1]);
    } else if e < chosen {
        assert(offsets[e] <= offsets[e + 1]);
    }
}

/// Where no place holds a first stray pin, every pin below `bound` names a
/// vertex.
proof fn lemma_no_stray_pin_below(pins: Seq<u32>, num_vertices: int, bound: int)
    requires
        forall|i: int| !is_first_stray_pin(pins, num_vertices, i),
        0 <= bound <= pins.len(),
    ensures
        forall|j: int| 0 <= j < bound ==> (#[trigger] pins[j]) < num_vertices,
    decreases bound,
{
    if bound > 0 {
        lemma_no_stray_pin_below(pins, num_vertices, bound - 1);
        assert(!is_first_stray_pin(pins, num_vertices, bound - 1));
    }
}

/// Pins that are not all in range have a first stray one, and
/// `first_stray_pin` is its place.
pub proof fn lemma_first_stray_pin_exists(pins: Seq<u32>, num_vertices: int)
    requires
        !pins_in_range(pins, num_vertices),
    ensures
        is_first_stray_pin(pins, num_vertices, first_stray_pin(pins, num_vertices)),
{
    if forall|i: int| !is_first_stray_pin(pins, num_vertices, i) {
        lemma_no_stray_pin_below(pins, num_vertices, pins.len() as int);
    }
}

/// A first stray pin is unique, so finding one finds `first_stray_pin`.
pub proof fn lemma_first_stray_pin_unique(pins: Seq<u32>, num_vertices: int, i: int)
    requires
        is_first_stray_pin(pins, num_vertices, i),
    ensures
        !pins_in_range(pins, num_vertices),
        first_stray_pin(pins, num_vertices) == i,
{
    let chosen = first_stray_pin(pins, num_vertices);
    assert(is_first_stray_pin(pins, num_vertices, chosen));
    if chosen < i {
        assert(pins[chosen] < num_vertices);
    } else if i < chosen {
        assert(pins[i] < num_vertices);
    }
}

/// Looks for the first hyperedge whose end offset lies before its start.
pub fn find_descent(offsets: &[usize]) -> (found: Option<usize>)
    ensures
        match found {
            Some(e) => is_first_descent(offsets@, e as int),
            None => offsets_monotonic(offsets@),
        },
{
    let len: usize = offsets.len();
    if len < 2 {
        return None;
    }
    let mut e: usize = 0;
    while e < len - 1
        invariant
            len == offsets@.len(),
            len >= 2,
            e <= len - 1,
            forall|j: int| 0 <= j < e ==> offsets@[j] <= #[trigger] offsets@[j + 1],
        decreases len - e,
    {
        if offsets[e] > offsets[e + 1] {
            return Some(e);
        }
        e += 1;
    }
    None
}

/// Looks for the first pin that names none of the `num_vertices` vertices.
pub fn find_stray_pin(pins: &[u32], num_vertices: u32) -> (found: Option<usize>)
    ensures
        match found {
            Some(i) => is_first_stray_pin(pins@, num_vertices as int, i as int),
            None => pins_in_range(pins@, num_vertices as int),
        },
{
    let len: usize = pins.len();
    let mut i: usize = 0;
    while i < len
        invariant
            len == pins@.len(),
            i <= len,
            forall|j: int| 0 <= j < i ==> (#[trigger] pins@[j]) < num_vertices,
        decreases len - i,
    {
        if pins[i] >= num_vertices {
            return Some(i);
        }
        i += 1;
    }
    None
}

/// Builds a vector of `len` entries, each of them `value`.
pub fn repeated(value: i32, len: usize) -> (entries: Vec<i32>)
    ensures
        entries@ == Seq::new(len as nat, |i: int| value),
{
    let mut entries: Vec<i32> = Vec::new();
    let mut i: usize = 0;
    while i < len
        invariant
            i <= len,
            entries@.len() == i,
            forall|j: int| 0 <= j < i ==> entries@[j] == value,
        decreases len - i,
    {
        entries.push(value);
        i += 1;
    }
    assert(entries@ =~= Seq::new(len as nat, |i: int| value));
    entries
}

/// Builds `len` weights, each the default.
pub fn default_weights(len: usize) -> (weights: Vec<i32>)
    ensures
        weights@ == uniform_weights(len as int),
{
    let weights = repeated(DEFAULT_WEIGHT, len);
    assert(weights@ =~= uniform_weights(len as int));
    weights
}

/// A validated hypergraph, holding its own copy of the data it was built
/// from. It cannot be changed once built, and it cannot be duplicated.
#[derive(Debug)]
pub struct KaHyParHyperGraph {
    num_blocks: i32,
    num_vertices: u32,
    num_hyperedges: u32,
    offsets: Vec<usize>,
    pins: Vec<u32>,
    hyperedge_weights: Vec<i32>,
    vertex_weights: Vec<i32>,
}

impl View for KaHyParHyperGraph {
    type V = HypergraphView;

    closed spec fn view(&self) -> HypergraphView {
        HypergraphView {
            num_blocks: self.num_blocks,
            num_vertices: self.num_vertices,
            num_hyperedges: self.num_hyperedges,
            offsets: self.offsets@,
            pins: self.pins@,
            hyperedge_weights: self.hyperedge_weights@,
            vertex_weights: self.vertex_weights@,
        }
    }
}

impl KaHyParHyperGraph {
    #[verifier::type_invariant]
    spec fn well_formed(self) -> bool {
        self@.wf()
    }

    /// Validates the arrays against every invariant of the data model and,
    /// where all hold, copies them into a new hypergraph. Weights that are not
    /// supplied default to [`DEFAULT_WEIGHT`] for every item. Where an
    /// invariant is broken, the first broken one is named in the error.
    /// `num_blocks` is a hint for the partitioner and is kept as given.
    pub fn new(
        num_blocks: i32,
        num_vertices: u32,
        num_hyperedges: u32,
        hyperedge_indices: &[usize],
        hyperedges: &[u32],
        hyperedge_weights: Option<Vec<i32>>,
        vertex_weights: Option<Vec<i32>>,
    ) -> (result: Result<KaHyParHyperGraph, KaHyParError>)
        ensures
            match result {
                Ok(graph) => {
                    &&& graph@.wf()
                    &&& construct(
                        num_blocks,
                        num_vertices,
                        num_hyperedges,
                        hyperedge_indices@,
                        hyperedges@,
                        weights_view(hyperedge_weights),
                        weights_view(vertex_weights),
                    ) == Ok::<HypergraphView, KaHyParError>(graph@)
                },
                Err(error) => construct(
                    num_blocks,
                    num_vertices,
                    num_hyperedges,
                    hyperedge_indices@,
                    hyperedges@,
                    weights_view(hyperedge_weights),
                    weights_view(vertex_weights),
                ) == Err::<HypergraphView, KaHyParError>(error),
            },
    {
        let offsets_len: usize = hyperedge_indices.len();
        if offsets_len == 0 || offsets_len - 1 != num_hyperedges as usize {
            return Err(KaHyParError::InvalidInput(Violation::OffsetsLength));
        }
        if hyperedge_indices[0] != 0 {
            return Err(KaHyParError::InvalidInput(Violation::OffsetsStart));
        }
        match find_descent(hyperedge_indices) {
            Some(hyperedge) => {
                proof {
                    lemma_first_descent_unique(hyperedge_indices@, hyperedge as int);
                }
                return Err(KaHyParError::InvalidInput(Violation::NonMonotonicOffsets { hyperedge }));
            },
            None => {},
        }
        if hyperedge_indices[offsets_len - 1] != hyperedges.len() {
            return Err(KaHyParError::InvalidInput(Violation::OffsetsEnd));
        }
        match find_stray_pin(hyperedges, num_vertices) {
            Some(position) => {
                proof {
                    lemma_first_stray_pin_unique(hyperedges@, num_vertices as int, position as int);
                }
                return Err(KaHyParError::InvalidInput(Violation::PinOutOfRange { position }));
            },
            None => {},
        }
        let hyperedge_weights: Vec<i32> = match hyperedge_weights {
            Some(weights) => {
                if weights.len() != num_hyperedges as usize {
                    return Err(KaHyParError::InvalidInput(Violation::HyperedgeWeightsLength));
                }
                weights
            },
            None => default_weights(num_hyperedges as usize),
        };
        let vertex_weights: Vec<i32> = match vertex_weights {
            Some(weights) => {
                if weights.len() != num_vertices as usize {
                    return Err(KaHyParError::InvalidInput(Violation::VertexWeightsLength));
                }
                weights
            },
            None => default_weights(num_vertices as usize),
        };
        Ok(
            KaHyParHyperGraph {
                num_blocks,
                num_vertices,
                num_hyperedges,
                offsets: slice_to_vec(hyperedge_indices),
                pins: slice_to_vec(hyperedges),
                hyperedge_weights,
                vertex_weights,
            },
        )
    }

    /// Number of blocks the hypergraph is prepared for, as given.
    pub fn num_blocks(&self) -> (num_blocks: i32)
        ensures
            num_blocks == self@.num_blocks,
            self@.wf(),
    {
        proof {
            use_type_invariant(self);
        }
        self.num_blocks
    }

    /// Number of vertices.
    pub fn num_vertices(&self) -> (num_vertices: u32)
        ensures
            num_vertices == self@.num_vertices,
            self@.wf(),
    {
        proof {
            use_type_invariant(self);
        }
        self.num_vertices
    }

    /// Number of hyperedges.
    pub fn num_hyperedges(&self) -> (num_hyperedges: u32)
        ensures
            num_hyperedges == self@.num_hyperedges,
            self@.wf(),
    {
        proof {
            use_type_invariant(self);
        }
        self.num_hyperedges
    }

    /// The offsets: one for each hyperedge, and the number of pins at the end.
    pub fn hyperedge_indices(&self) -> (offsets: &[usize])
        ensures
            offsets@ == self@.offsets,
            self@.wf(),
    {
        proof {
            use_type_invariant(self);
        }
        self.offsets.as_slice()
    }

    /// The pins of all hyperedges, one hyperedge after the other.
    pub fn hyperedges(&self) -> (pins: &[u32])
        ensures
            pins@ == self@.pins,
            self@.wf(),
    {
        proof {
            use_type_invariant(self);
        }
        self.pins.as_slice()
    }

    /// The weight of each hyperedge.
    pub fn hyperedge_weights(&self) -> (weights: &[i32])
        ensures
            weights@ == self@.hyperedge_weights,
            self@.wf(),
    {
        proof {
            use_type_invariant(self);
        }
        self.hyperedge_weights.as_slice()
    }

    /// The weight of each vertex.
    pub fn vertex_weights(&self) -> (weights: &[i32])
        ensures
            weights@ == self@.vertex_weights,
            self@.wf(),
    {
        proof {
            use_type_invariant(self);
        }
        self.vertex_weights.as_slice()
    }
}

/// Monotonic offsets are ordered at any distance, not only next to each other.
pub proof fn lemma_offsets_ordered(offsets: Seq<usize>, i: int, j: int)
    requires
        offsets_monotonic(offsets),
        0 <= i <= j < offsets.len(),
    ensures
        offsets[i] <= offsets[j],
    decreases j - i,
{
    if i < j {
        lemma_offsets_ordered(offsets, i, j - 1);
        assert(offsets[j - 1] <= offsets[(j - 1) + 1]);
    }
}

/// In a well-formed hypergraph every hyperedge owns a range of the pins that
/// lies within them, and each of its pins names a vertex.
pub proof fn lemma_hyperedge_within_pins(graph: HypergraphView, e: int)
    requires
        graph.wf(),
        0 <= e < graph.num_hyperedges,
    ensures
        0 <= graph.offsets[e] <= graph.offsets[e + 1] <= graph.pins.len(),
        graph.hyperedge(e).len() == graph.offsets[e + 1] - graph.offsets[e],
        forall|i: int|
            0 <= i < graph.hyperedge(e).len() ==> (#[trigger] graph.hyperedge(e)[i])
                < graph.num_vertices,
{
    lemma_offsets_ordered(graph.offsets, e, e + 1);
    lemma_offsets_ordered(graph.offsets, e + 1, graph.offsets.len() - 1);
    assert forall|i: int| 0 <= i < graph.hyperedge(e).len() implies (#[trigger] graph.hyperedge(
        e,
    )[i]) < graph.num_vertices by {
        assert(graph.hyperedge(e)[i] == graph.pins[graph.offsets[e] + i]);
    }
}

/// A construction succeeds on exactly the arguments that make a well-formed
/// hypergraph.
pub proof fn lemma_construction_succeeds_iff_well_formed(
    num_blocks: i32,
    num_vertices: u32,
    num_hyperedges: u32,
    offsets: Seq<usize>,
    pins: Seq<u32>,
    hyperedge_weights: Option<Seq<i32>>,
    vertex_weights: Option<Seq<i32>>,
)
    ensures
        construct(
            num_blocks,
            num_vertices,
            num_hyperedges,
            offsets,
            pins,
            hyperedge_weights,
            vertex_weights,
        ) is Ok <==> constructed_view(
            num_blocks,
            num_vertices,
            num_hyperedges,
            offsets,
            pins,
            hyperedge_weights,
            vertex_weights,
        ).wf(),
{
}

/// Offsets that break their invariant fail the construction with an
/// invalid-input error, whatever the other arguments are. The error names
/// the offsets, and where it names a hyperedge, that hyperedge is the first
/// whose end offset lies before its start.
pub proof fn lemma_invalid_offsets_fail_construction(
    num_blocks: i32,
    num_vertices: u32,
    num_hyperedges: u32,
    offsets: Seq<usize>,
    pins: Seq<u32>,
    hyperedge_weights: Option<Seq<i32>>,
    vertex_weights: Option<Seq<i32>>,
)
    requires
        offsets.len() <= usize::MAX,
        !valid_offsets(offsets, num_hyperedges as int, pins.len() as int),
    ensures
        construct(
            num_blocks,
            num_vertices,
            num_hyperedges,
            offsets,
            pins,
            hyperedge_weights,
            vertex_weights,
        ) matches Err(KaHyParError::InvalidInput(violation)) && (match violation {
            Violation::OffsetsLength => offsets.len() != num_hyperedges + 1,
            Violation::OffsetsStart => offsets[0] != 0,
            Violation::NonMonotonicOffsets { hyperedge } => is_first_descent(
                offsets,
                hyperedge as int,
            ),
            Violation::OffsetsEnd => offsets.last() != pins.len(),
            _ => false,
        }),
{
    if !offsets_monotonic(offsets) {
        lemma_first_descent_exists(offsets);
    }
}

/// A pin that names no vertex fails the construction with an invalid-input
/// error, whatever the other arguments are. Where the offsets are valid, the
/// error names the first place that holds such a pin.
pub proof fn lemma_stray_pin_fails_construction(
    num_blocks: i32,
    num_vertices: u32,
    num_hyperedges: u32,
    offsets: Seq<usize>,
    pins: Seq<u32>,
    hyperedge_weights: Option<Seq<i32>>,
    vertex_weights: Option<Seq<i32>>,
    position: int,
)
    requires
        pins.len() <= usize::MAX,
        0 <= position < pins.len(),
        pins[position] >= num_vertices,
    ensures
        construct(
            num_blocks,
            num_vertices,
            num_hyperedges,
            offsets,
            pins,
            hyperedge_weights,
            vertex_weights,
        ) matches Err(KaHyParError::InvalidInput(violation)) && (valid_offsets(
            offsets,
            num_hyperedges as int,
            pins.len() as int,
        ) ==> (violation matches Violation::PinOutOfRange { position: first }
            && is_first_stray_pin(pins, num_vertices as int, first as int) && first <= position)),
{
    lemma_first_stray_pin_exists(pins, num_vertices as int);
}

} // verus!
