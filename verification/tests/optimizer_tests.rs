use concrete_optimizer::graph::Node;
use concrete_optimizer::graph::OpKind;
use concrete_optimizer::graph::OperationGraph;
use concrete_optimizer::optimizer::check_feasible;
use concrete_optimizer::optimizer::optimize;
use concrete_optimizer::optimizer::optimize_with_budget;
use concrete_optimizer::optimizer::InfeasibilityKind;
use concrete_optimizer::optimizer::OptimizationOutcome;
use concrete_optimizer::parameters::OptimizerConfig;
use concrete_optimizer::parameters::ParameterSet;

fn input_node() -> Node {
    Node { kind: OpKind::Input, multiplicity: 1, preds: vec![], noise_budget: u128::MAX }
}

fn keyswitch_graph() -> OperationGraph {
    let nodes = vec![
        input_node(),
        Node {
            kind: OpKind::KeyswitchGlwe { output_glwe_dimension: 1 },
            multiplicity: 1,
            preds: vec![0],
            noise_budget: u128::MAX,
        },
    ];
    OperationGraph::from_nodes(nodes).unwrap()
}

fn small_config() -> OptimizerConfig {
    OptimizerConfig {
        target_security_bits: 3,
        failure_prob_log2: 1,
        modulus_bits: 64,
        fresh_noise_log2: 1,
        max_glwe_dimension: 2,
        polynomial_size: 1024,
        max_level: 2,
    }
}

#[test]
fn optimizer_finds_minimal_keyswitch_parameters() {
    let g = keyswitch_graph();
    let cfg = small_config();
    let sol = optimize(&g, &cfg).unwrap();
    // Cost of a keyswitch at dimension 1, level 1: 1 + 1*2 + (1-1)*2 + 1 = 4.
    assert_eq!(sol.cost, 4);
    assert_eq!(sol.params.glwe_dimension, 1);
    assert_eq!(sol.params.level, 1);
    assert_eq!(sol.params.polynomial_size, 1024);
    assert_eq!(sol.params.lwe_dimension, 1024);
    // Tie-break: the first feasible base log at the minimal cost wins.
    assert_eq!(sol.params.base_log, 3);
}

#[test]
fn optimizer_matches_brute_force_minimum() {
    let g = keyswitch_graph();
    let cfg = small_config();
    let sol = optimize(&g, &cfg).unwrap();
    let mut best: Option<u128> = None;
    for glwe_dimension in 1..=cfg.max_glwe_dimension {
        for level in 1..=cfg.max_level {
            for base_log in 1..=cfg.modulus_bits {
                let p = ParameterSet {
                    lwe_dimension: glwe_dimension * cfg.polynomial_size,
                    glwe_dimension,
                    polynomial_size: cfg.polynomial_size,
                    base_log,
                    level,
                };
                if check_feasible(&g, &cfg, &p) {
                    let cost = g.total_complexity(&p, cfg.modulus_bits);
                    if best.is_none() || cost < best.unwrap() {
                        best = Some(cost);
                    }
                }
            }
        }
    }
    assert_eq!(Some(sol.cost), best);
}

#[test]
fn optimizer_result_passes_independent_recheck() {
    let g = keyswitch_graph();
    let cfg = small_config();
    let sol = optimize(&g, &cfg).unwrap();
    assert!(check_feasible(&g, &cfg, &sol.params));
}

#[test]
fn optimizer_is_deterministic() {
    let g = keyswitch_graph();
    let cfg = small_config();
    let a = optimize(&g, &cfg).unwrap();
    let b = optimize(&g, &cfg).unwrap();
    assert_eq!(a.params, b.params);
    assert_eq!(a.cost, b.cost);
}

#[test]
fn tightening_failure_probability_turns_feasible_into_infeasible_noise() {
    let nodes = vec![input_node()];
    let g = OperationGraph::from_nodes(nodes).unwrap();
    let mut cfg = OptimizerConfig {
        target_security_bits: 50,
        failure_prob_log2: 1,
        modulus_bits: 4,
        fresh_noise_log2: 1,
        max_glwe_dimension: 2,
        polynomial_size: 1024,
        max_level: 2,
    };
    // With a lenient failure bound the fresh variance 4 fits under 16/2 = 8.
    let sol = optimize(&g, &cfg).unwrap();
    assert_eq!(sol.cost, 0);
    // Tightening the bound below every candidate's capability reports
    // infeasible noise, not a silent fallback.
    cfg.failure_prob_log2 = 128;
    let rep = optimize(&g, &cfg).unwrap_err();
    assert_eq!(rep.kind, InfeasibilityKind::InfeasibleNoise);
    assert_eq!(rep.node, 0);
}

#[test]
fn unreachable_security_target_reports_infeasible_security() {
    let g = keyswitch_graph();
    let mut cfg = small_config();
    cfg.target_security_bits = 128;
    let rep = optimize(&g, &cfg).unwrap_err();
    assert_eq!(rep.kind, InfeasibilityKind::InfeasibleSecurity);
    // The report cites the input node whose encryption cannot reach the
    // target under the dimension cap.
    assert_eq!(rep.node, 0);
    // Margin: best achievable is 2*1024*53/((64-1)*200) = 8 bits, 120 short.
    assert_eq!(rep.margin, 120);
}

#[test]
fn out_of_range_configuration_is_a_domain_error() {
    let g = keyswitch_graph();
    let mut cfg = small_config();
    cfg.modulus_bits = 0;
    let rep = optimize(&g, &cfg).unwrap_err();
    assert_eq!(rep.kind, InfeasibilityKind::InvalidParameterDomain);
}

#[test]
fn exhausted_budget_is_tagged_not_silently_optimal() {
    let g = keyswitch_graph();
    let cfg = small_config();
    match optimize_with_budget(&g, &cfg, 0) {
        OptimizationOutcome::BudgetExhausted(best) => assert!(best.is_none()),
        _ => panic!("a zero budget cannot prove anything"),
    }
}

#[test]
fn budget_covering_the_space_is_optimal() {
    let g = keyswitch_graph();
    let cfg = small_config();
    // 2 dimensions * 2 levels * 64 base logs = 256 candidates.
    match optimize_with_budget(&g, &cfg, 256) {
        OptimizationOutcome::Optimal(sol) => assert_eq!(sol.cost, 4),
        _ => panic!("the space is exhausted at 256 candidates"),
    }
}
