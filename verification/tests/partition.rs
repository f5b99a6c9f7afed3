use kahypar::partition;
use kahypar::partition::block_weights;
use kahypar::partition::check_assignment;
use kahypar::partition::UNASSIGNED;
use kahypar::EngineReply;
use kahypar::Imbalance;
use kahypar::KaHyParContext;
use kahypar::KaHyParError;
use kahypar::KaHyParHyperGraph;
use kahypar::PartitionResult;
use kahypar::Violation;

const OFFSETS: [usize; 5] = [0, 2, 6, 9, 12];
const PINS: [u32; 12] = [0, 2, 0, 1, 3, 4, 3, 4, 6, 2, 5, 6];

fn tolerance(value: f64) -> Imbalance {
    Imbalance::from_bits(value.to_bits())
}

fn configured() -> KaHyParContext {
    let mut context = KaHyParContext::new();
    assert_eq!(context.configure_from_file("/tests/km1_kKaHyPar_sea20.ini", true), Ok(()));
    context
}

fn graph() -> KaHyParHyperGraph {
    KaHyParHyperGraph::new(
        2,
        7,
        4,
        &OFFSETS,
        &PINS,
        Some(vec![1, 1000, 1, 1000]),
        Some(vec![1, 2, 3, 4, 5, 6, 7]),
    )
    .unwrap()
}

fn reply(objective: i32, assignment: &[i32]) -> EngineReply {
    EngineReply::Partitioned { objective, assignment: assignment.to_vec() }
}

#[test]
fn test_partition() {
    let mut context = KaHyParContext::new();
    assert_eq!(context.configure_from_file("/tests/km1_kKaHyPar_sea20.ini", true), Ok(()));
    let num_vertices = 7;
    let num_hyperedges = 4;

    let hyperedge_indices = [0, 2, 6, 9, 12];
    let hyperedges = [0, 2, 0, 1, 3, 4, 3, 4, 6, 2, 5, 6];

    let node_weights = vec![1, 2, 3, 4, 5, 6, 7];
    let hyperedge_weights = vec![1, 1000, 1, 1000];

    let imbalance = 0.03;

    let k = 2;

    let (graph, call) = partition(
        num_vertices,
        num_hyperedges,
        tolerance(imbalance),
        k,
        Some(node_weights),
        Some(hyperedge_weights),
        &hyperedge_indices,
        &hyperedges,
        &context,
    )
    .unwrap();
    assert_eq!(graph.num_vertices(), 7);
    assert_eq!(call.num_blocks(), 2);
    assert_eq!(f64::from_bits(call.imbalance().to_bits()), 0.03);

    // The partitioner is not part of this crate: a reply stands in for it.
    let result = call.complete(reply(2002, &[1, 1, 0, 0, 1, 1, 0])).unwrap();
    assert_eq!(result.assignment[..5], [1, 1, 0, 0, 1]);
    assert_eq!(result.assignment.len(), 7);
    assert_eq!(result.objective, 2002);
}

#[test]
fn lib_test_partition() {
    let mut context = KaHyParContext::new();
    assert_eq!(context.configure("src/tests/km1_kKaHyPar_sea20.ini", true), Ok(()));
    let (graph, call) = partition(
        7,
        4,
        tolerance(0.03),
        2,
        Some(vec![1, 2, 3, 4, 5, 6, 7]),
        Some(vec![1, 1000, 1, 1000]),
        &[0, 2, 6, 9, 12],
        &[0, 2, 0, 1, 3, 4, 3, 4, 6, 2, 5, 6],
        &context,
    )
    .unwrap();
    assert_eq!(graph.vertex_weights(), &[1, 2, 3, 4, 5, 6, 7]);
    assert_eq!(graph.hyperedge_weights(), &[1, 1000, 1, 1000]);

    // A buffer of five entries cannot hold the blocks of seven vertices.
    assert_eq!(call.complete(reply(0, &[1, 1, 0, 0, 1])), Err(KaHyParError::EngineFailure));
    assert_eq!(call.output_buffer(), vec![-1, -1, -1, -1, -1, -1, -1]);
}

#[test]
fn partition_needs_a_configured_context() {
    let context = KaHyParContext::new();
    let result = graph().partition(2, tolerance(0.03), &context);
    assert_eq!(result, Err(KaHyParError::UnconfiguredContext));
}

#[test]
fn a_seed_alone_does_not_configure() {
    let mut context = KaHyParContext::new();
    context.set_seed(43);
    let result = graph().partition(2, tolerance(0.03), &context);
    assert_eq!(result, Err(KaHyParError::UnconfiguredContext));
}

#[test]
fn a_rejected_configuration_does_not_configure() {
    let mut context = configured();
    assert_eq!(context.reject_configuration(), KaHyParError::Config);
    let result = graph().partition(2, tolerance(0.03), &context);
    assert_eq!(result, Err(KaHyParError::UnconfiguredContext));
}

#[test]
fn one_shot_partition_needs_a_configured_context() {
    let context = KaHyParContext::new();
    let result = partition(7, 4, tolerance(0.03), 2, None, None, &OFFSETS, &PINS, &context);
    assert_eq!(result.err(), Some(KaHyParError::UnconfiguredContext));
}

#[test]
fn partition_into_no_blocks_is_invalid_input() {
    let context = configured();
    let graph = graph();
    for k in [0, -1, i32::MIN] {
        assert_eq!(
            graph.partition(k, tolerance(0.03), &context),
            Err(KaHyParError::InvalidInput(Violation::BlockCount))
        );
    }
    assert!(graph.partition(1, tolerance(0.03), &context).is_ok());
    assert!(graph.partition(i32::MAX, tolerance(0.03), &context).is_ok());
}

#[test]
fn imbalance_below_zero_is_invalid_input() {
    let context = configured();
    let graph = graph();
    for epsilon in [-0.03, -1.0, -f64::MIN_POSITIVE, f64::NEG_INFINITY, f64::NAN] {
        assert_eq!(
            graph.partition(2, tolerance(epsilon), &context),
            Err(KaHyParError::InvalidInput(Violation::Imbalance))
        );
    }
    for epsilon in [0.0, -0.0, 0.03, 1.0, 1e300, f64::INFINITY] {
        assert!(graph.partition(2, tolerance(epsilon), &context).is_ok());
    }
}

#[test]
fn errors_come_in_a_fixed_order() {
    let blank = KaHyParContext::new();
    let context = configured();
    let graph = graph();
    assert_eq!(
        graph.partition(0, tolerance(-1.0), &blank),
        Err(KaHyParError::UnconfiguredContext)
    );
    assert_eq!(
        graph.partition(0, tolerance(-1.0), &context),
        Err(KaHyParError::InvalidInput(Violation::BlockCount))
    );
    assert_eq!(
        graph.partition(2, tolerance(-1.0), &context),
        Err(KaHyParError::InvalidInput(Violation::Imbalance))
    );
}

#[test]
fn the_call_holds_what_was_validated() {
    let mut context = configured();
    let graph = graph();
    let call = graph.partition(3, tolerance(0.5), &context).unwrap();
    assert_eq!(call.num_vertices(), 7);
    assert_eq!(call.num_blocks(), 3);
    assert_eq!(call.imbalance().to_bits(), 0.5f64.to_bits());
    assert_eq!(call.seed(), None);
    context.set_seed(43);
    let call = graph.partition(3, tolerance(0.5), &context).unwrap();
    assert_eq!(call.seed(), Some(43));
}

#[test]
fn repeated_calls_are_the_same_call() {
    let mut context = configured();
    context.set_seed(43);
    let graph = graph();
    let first = graph.partition(2, tolerance(0.03), &context).unwrap();
    let second = graph.partition(2, tolerance(0.03), &context).unwrap();
    assert_eq!(first, second);
    let assignment = [1, 1, 0, 0, 1, 1, 0];
    assert_eq!(first.complete(reply(2002, &assignment)), second.complete(reply(2002, &assignment)));
    assert_eq!(graph.hyperedges(), &PINS);
    assert_eq!(context.seed(), Some(43));
}

#[test]
fn output_buffer_has_one_unassigned_entry_for_each_vertex() {
    let context = configured();
    let call = graph().partition(2, tolerance(0.03), &context).unwrap();
    assert_eq!(UNASSIGNED, -1);
    assert_eq!(call.output_buffer(), vec![UNASSIGNED; 7]);
    let empty = KaHyParHyperGraph::new(1, 0, 0, &[0], &[], None, None).unwrap();
    let call = empty.partition(1, tolerance(0.0), &context).unwrap();
    assert_eq!(call.output_buffer(), Vec::<i32>::new());
}

#[test]
fn complete_returns_the_reply_unchanged() {
    let context = configured();
    let call = graph().partition(3, tolerance(0.03), &context).unwrap();
    assert_eq!(
        call.complete(reply(17, &[2, 0, 1, 1, 0, 2, 2])),
        Ok(PartitionResult { objective: 17, assignment: vec![2, 0, 1, 1, 0, 2, 2] })
    );
    assert_eq!(
        call.complete(reply(-4, &[0, 0, 0, 0, 0, 0, 0])),
        Ok(PartitionResult { objective: -4, assignment: vec![0; 7] })
    );
}

#[test]
fn every_entry_of_a_partition_is_a_block() {
    let context = configured();
    let call = graph().partition(2, tolerance(0.03), &context).unwrap();
    let result = call.complete(reply(2002, &[1, 1, 0, 0, 1, 1, 0])).unwrap();
    assert_eq!(result.assignment.len(), 7);
    assert!(result.assignment.iter().all(|block| (0..2).contains(block)));
}

#[test]
fn reply_of_the_wrong_length_is_an_engine_failure() {
    let context = configured();
    let call = graph().partition(2, tolerance(0.03), &context).unwrap();
    assert_eq!(call.complete(reply(0, &[])), Err(KaHyParError::EngineFailure));
    assert_eq!(call.complete(reply(0, &[0, 1, 0, 1, 0, 1])), Err(KaHyParError::EngineFailure));
    assert_eq!(
        call.complete(reply(0, &[0, 1, 0, 1, 0, 1, 0, 1])),
        Err(KaHyParError::EngineFailure)
    );
}

#[test]
fn reply_with_a_stray_block_is_an_engine_failure() {
    let context = configured();
    let call = graph().partition(2, tolerance(0.03), &context).unwrap();
    assert_eq!(call.complete(reply(0, &[0, 1, 0, 1, 0, 1, 2])), Err(KaHyParError::EngineFailure));
    assert_eq!(call.complete(reply(0, &[-1, 1, 0, 1, 0, 1, 0])), Err(KaHyParError::EngineFailure));
    assert_eq!(call.complete(reply(0, &call.output_buffer())), Err(KaHyParError::EngineFailure));
}

#[test]
fn failed_reply_is_an_engine_failure() {
    let context = configured();
    let call = graph().partition(2, tolerance(0.03), &context).unwrap();
    assert_eq!(call.complete(EngineReply::Failed), Err(KaHyParError::EngineFailure));
}

#[test]
fn check_assignment_wants_length_and_range() {
    assert!(check_assignment(&[], 0, 1));
    assert!(check_assignment(&[], 0, 0));
    assert!(check_assignment(&[0, 1, 2], 3, 3));
    assert!(!check_assignment(&[0, 1, 3], 3, 3));
    assert!(!check_assignment(&[0, 1], 3, 3));
    assert!(!check_assignment(&[0, -1, 1], 3, 3));
    assert!(!check_assignment(&[0], 1, 0));
}

#[test]
fn balanced_reply_stays_within_the_tolerance() {
    let context = configured();
    let graph = graph();
    let epsilon = 0.03;
    let k = 2;
    let call = graph.partition(k, tolerance(epsilon), &context).unwrap();
    let result = call.complete(reply(2002, &[1, 1, 0, 0, 1, 1, 0])).unwrap();

    let block_weights = block_weights(&result.assignment, graph.vertex_weights(), k).unwrap();
    assert_eq!(block_weights, vec![14, 14]);
    let total: i64 = block_weights.iter().sum();
    let average = (total as f64 / k as f64).ceil();
    for weight in block_weights {
        assert!(weight as f64 <= (1.0 + epsilon) * average);
    }
}

#[test]
fn one_shot_is_construction_and_one_partition() {
    let mut context = configured();
    context.set_seed(5);
    let (graph, call) = partition(
        7,
        4,
        tolerance(0.03),
        2,
        Some(vec![1, 2, 3, 4, 5, 6, 7]),
        None,
        &OFFSETS,
        &PINS,
        &context,
    )
    .unwrap();
    let built =
        KaHyParHyperGraph::new(2, 7, 4, &OFFSETS, &PINS, None, Some(vec![1, 2, 3, 4, 5, 6, 7]))
            .unwrap();
    assert_eq!(graph.num_blocks(), built.num_blocks());
    assert_eq!(graph.num_vertices(), built.num_vertices());
    assert_eq!(graph.num_hyperedges(), built.num_hyperedges());
    assert_eq!(graph.hyperedge_indices(), built.hyperedge_indices());
    assert_eq!(graph.hyperedges(), built.hyperedges());
    assert_eq!(graph.hyperedge_weights(), built.hyperedge_weights());
    assert_eq!(graph.vertex_weights(), built.vertex_weights());
    assert_eq!(call, built.partition(2, tolerance(0.03), &context).unwrap());
}

#[test]
fn one_shot_fails_as_the_construction_does() {
    let context = configured();
    let result =
        partition(7, 4, tolerance(0.03), 2, None, None, &[0, 2, 1, 9, 12], &PINS, &context);
    assert_eq!(
        result.err(),
        Some(KaHyParError::InvalidInput(Violation::NonMonotonicOffsets { hyperedge: 1 }))
    );
    let result = partition(3, 4, tolerance(0.03), 2, None, None, &OFFSETS, &PINS, &context);
    assert_eq!(result.err(), Some(KaHyParError::InvalidInput(Violation::PinOutOfRange { position: 4 })));
    let result = partition(7, 4, tolerance(0.03), 2, Some(vec![]), None, &OFFSETS, &PINS, &context);
    assert_eq!(result.err(), Some(KaHyParError::InvalidInput(Violation::VertexWeightsLength)));
}

#[test]
fn one_shot_fails_as_the_partition_does() {
    let context = configured();
    let result = partition(7, 4, tolerance(-0.5), 2, None, None, &OFFSETS, &PINS, &context);
    assert_eq!(result.err(), Some(KaHyParError::InvalidInput(Violation::Imbalance)));
    let result = partition(7, 4, tolerance(0.03), 0, None, None, &OFFSETS, &PINS, &context);
    assert_eq!(result.err(), Some(KaHyParError::InvalidInput(Violation::BlockCount)));
    let result = partition(7, 4, tolerance(-0.5), 0, None, None, &OFFSETS, &PINS, &context);
    assert_eq!(result.err(), Some(KaHyParError::InvalidInput(Violation::BlockCount)));
    // A broken array is found before the blank context is.
    let blank = KaHyParContext::new();
    let result = partition(7, 4, tolerance(0.03), 2, None, None, &[0, 2, 1, 9, 12], &PINS, &blank);
    assert_eq!(
        result.err(),
        Some(KaHyParError::InvalidInput(Violation::NonMonotonicOffsets { hyperedge: 1 }))
    );
}

#[test]
fn one_shot_finds_the_blank_context_before_the_block_count() {
    let blank = KaHyParContext::new();
    for k in [0, -1, i32::MIN] {
        let result = partition(7, 4, tolerance(0.03), k, None, None, &OFFSETS, &PINS, &blank);
        assert_eq!(result.err(), Some(KaHyParError::UnconfiguredContext));
        let result = partition(7, 4, tolerance(-1.0), k, None, None, &OFFSETS, &PINS, &blank);
        assert_eq!(result.err(), Some(KaHyParError::UnconfiguredContext));
    }
}

#[test]
fn hypergraph_prepared_for_no_blocks_can_still_be_partitioned() {
    let context = configured();
    let graph = KaHyParHyperGraph::new(0, 7, 4, &OFFSETS, &PINS, None, None).unwrap();
    let call = graph.partition(2, tolerance(0.03), &context).unwrap();
    assert_eq!(call.num_blocks(), 2);
    assert_eq!(
        graph.partition(0, tolerance(0.03), &context),
        Err(KaHyParError::InvalidInput(Violation::BlockCount))
    );
}

#[test]
fn block_weights_sum_the_vertices_of_each_block() {
    assert_eq!(block_weights(&[1, 1, 0, 0, 1, 1, 0], &[1, 2, 3, 4, 5, 6, 7], 2), Some(vec![14, 14]));
    assert_eq!(block_weights(&[0, 0, 0], &[5, -7, 1], 3), Some(vec![-1, 0, 0]));
    assert_eq!(block_weights(&[2, 0, 2], &[i32::MAX, i32::MIN, i32::MAX], 3),
        Some(vec![i32::MIN as i64, 0, 2 * (i32::MAX as i64)]));
    assert_eq!(block_weights(&[], &[], 0), Some(vec![]));
    assert_eq!(block_weights(&[], &[], 2), Some(vec![0, 0]));
}

#[test]
fn block_weights_want_an_assignment_of_the_weighted_vertices() {
    assert_eq!(block_weights(&[0, 1], &[1, 2, 3], 2), None);
    assert_eq!(block_weights(&[0, 1, 2], &[1, 2, 3], 2), None);
    assert_eq!(block_weights(&[0, -1, 1], &[1, 2, 3], 2), None);
    assert_eq!(block_weights(&[], &[], -1), None);
    assert_eq!(block_weights(&[0], &[1], 0), None);
}
