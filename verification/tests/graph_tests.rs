use concrete_optimizer::graph::Node;
use concrete_optimizer::graph::OpKind;
use concrete_optimizer::graph::OperationGraph;
use concrete_optimizer::parameters::OptimizerConfig;
use concrete_optimizer::parameters::ParameterSet;

fn input_node() -> Node {
    Node { kind: OpKind::Input, multiplicity: 1, preds: vec![], noise_budget: u128::MAX }
}

fn test_config() -> OptimizerConfig {
    OptimizerConfig {
        target_security_bits: 3,
        failure_prob_log2: 1,
        modulus_bits: 64,
        fresh_noise_log2: 1,
        max_glwe_dimension: 2,
        polynomial_size: 1024,
        max_level: 2,
    }
}

fn params_glwe2_level3() -> ParameterSet {
    ParameterSet {
        lwe_dimension: 2 * 1024,
        glwe_dimension: 2,
        polynomial_size: 1024,
        base_log: 4,
        level: 3,
    }
}

#[test]
fn from_nodes_accepts_topological_dag() {
    let nodes = vec![
        input_node(),
        input_node(),
        Node { kind: OpKind::Add, multiplicity: 1, preds: vec![0, 1], noise_budget: u128::MAX },
    ];
    let g = OperationGraph::from_nodes(nodes).unwrap();
    assert_eq!(g.node_count(), 3);
    assert_eq!(g.fan_in(0), 0);
    assert_eq!(g.fan_in(2), 2);
    assert_eq!(g.node(2).multiplicity, 1);
}

#[test]
fn from_nodes_rejects_forward_edge() {
    let nodes = vec![
        Node { kind: OpKind::Add, multiplicity: 1, preds: vec![1, 2], noise_budget: u128::MAX },
        input_node(),
        input_node(),
    ];
    assert!(OperationGraph::from_nodes(nodes).is_none());
}

#[test]
fn from_nodes_rejects_wrong_fan_in() {
    let nodes = vec![
        input_node(),
        Node { kind: OpKind::Add, multiplicity: 1, preds: vec![0], noise_budget: u128::MAX },
    ];
    assert!(OperationGraph::from_nodes(nodes).is_none());
}

#[test]
fn single_keyswitch_graph_costs_the_worked_example() {
    // One GLWE keyswitch with input dimension 2, output dimension 1, level 3
    // must aggregate to 2*3 + 2*3*2 + (2*3-1)*2 + 1 = 29 (the input is free).
    let nodes = vec![
        input_node(),
        Node {
            kind: OpKind::KeyswitchGlwe { output_glwe_dimension: 1 },
            multiplicity: 1,
            preds: vec![0],
            noise_budget: u128::MAX,
        },
    ];
    let g = OperationGraph::from_nodes(nodes).unwrap();
    assert_eq!(g.total_complexity(&params_glwe2_level3(), 64), 29);
}

#[test]
fn multiplicity_scales_cost() {
    let nodes = vec![
        input_node(),
        Node {
            kind: OpKind::KeyswitchGlwe { output_glwe_dimension: 1 },
            multiplicity: 5,
            preds: vec![0],
            noise_budget: u128::MAX,
        },
    ];
    let g = OperationGraph::from_nodes(nodes).unwrap();
    assert_eq!(g.total_complexity(&params_glwe2_level3(), 64), 5 * 29);
}

#[test]
fn propagate_noise_through_add() {
    let cfg = test_config();
    let nodes = vec![
        input_node(),
        input_node(),
        Node { kind: OpKind::Add, multiplicity: 1, preds: vec![0, 1], noise_budget: u128::MAX },
    ];
    let g = OperationGraph::from_nodes(nodes).unwrap();
    let noises = g.propagate_noise(&params_glwe2_level3(), &cfg);
    // Fresh variance at level 1 is 2^2 = 4; the sum is 8.
    assert_eq!(noises, vec![4, 4, 8]);
}

#[test]
fn first_noise_violation_reports_first_node_over_budget() {
    let cfg = test_config();
    let nodes = vec![
        input_node(),
        Node { kind: OpKind::Add, multiplicity: 1, preds: vec![0, 0], noise_budget: 7 },
    ];
    let g = OperationGraph::from_nodes(nodes).unwrap();
    // Node 1 carries variance 8 against a budget of 7.
    assert_eq!(g.first_noise_violation(&params_glwe2_level3(), &cfg), Some((1, 1)));
}
