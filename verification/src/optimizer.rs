//! Optimizer: exhaustive, deterministic search over the discrete candidate
//! space, returning the minimal-cost feasible parameter set or a structured
//! infeasibility report.
//!
//! Candidates are enumerated lexicographically over (GLWE dimension,
//! decomposition level, base log); the first candidate reaching the minimal
//! cost wins, so equal-cost ties break toward the lexicographically smallest
//! tuple and the result is a function of the graph and configuration alone.
//! Constraints are checked cheapest first: domain validity, then security,
//! then full-graph noise propagation.

use vstd::prelude::*;
use vstd::arithmetic::div_mod::lemma_fundamental_div_mod;
use vstd::arithmetic::div_mod::lemma_mod_division_less_than_divisor;
use vstd::arithmetic::div_mod::lemma_multiply_divide_lt;
use crate::complexity::Complexity;
use crate::graph::Node;
use crate::graph::OperationGraph;
use crate::graph::OpKind;
use crate::graph::spec_graph_noise_feasible;
use crate::graph::spec_node_noise;
use crate::graph::spec_node_noise_limit;
use crate::graph::spec_total_complexity;
use crate::parameters::OptimizerConfig;
use crate::parameters::ParameterSet;
use crate::parameters::spec_config_valid;
use crate::parameters::spec_param_set_valid;
use crate::security::security_bits;
use crate::security::spec_security_bits;

verus! {

/// Number of candidates in the search space: the cartesian product of GLWE
/// dimensions `1..=max_glwe_dimension`, levels `1..=max_level` and base logs
/// `1..=modulus_bits`.
pub open spec fn spec_space_size(cfg: OptimizerConfig) -> int {
    (cfg.max_glwe_dimension as int) * (cfg.max_level as int) * (cfg.modulus_bits as int)
}

/// The candidate at position `idx` of the lexicographic enumeration. The LWE
/// dimension is the dimension of samples extracted from the candidate's GLWE
/// ciphertexts.
pub open spec fn spec_candidate(cfg: OptimizerConfig, idx: int) -> ParameterSet {
    let lb = (cfg.max_level as int) * (cfg.modulus_bits as int);
    let g = idx / lb + 1;
    let rem = idx % lb;
    let l = rem / (cfg.modulus_bits as int) + 1;
    let b = rem % (cfg.modulus_bits as int) + 1;
    ParameterSet {
        lwe_dimension: (g * (cfg.polynomial_size as int)) as u64,
        glwe_dimension: g as u64,
        polynomial_size: cfg.polynomial_size,
        base_log: b as u64,
        level: l as u64,
    }
}

/// Security feasibility of a candidate: its extracted-LWE dimension reaches
/// the target security level under the configured noise and modulus.
pub open spec fn spec_secure(cfg: OptimizerConfig, p: ParameterSet) -> bool {
    spec_security_bits(p.lwe_dimension as int, cfg.fresh_noise_log2 as int, cfg.modulus_bits as int)
        >= cfg.target_security_bits
}

/// Full feasibility of a candidate for a graph: domain validity, security,
/// and noise at every node within its limit.
pub open spec fn spec_candidate_feasible(
    nodes: Seq<Node>,
    cfg: OptimizerConfig,
    p: ParameterSet,
) -> bool {
    &&& spec_param_set_valid(p, cfg.modulus_bits)
    &&& spec_secure(cfg, p)
    &&& spec_graph_noise_feasible(nodes, p, cfg)
}

/// A feasible parameter assignment and its aggregate cost.
#[derive(Clone, Copy, Debug, PartialEq, Eq, Structural)]
pub struct Solution {
    pub params: ParameterSet,
    pub cost: Complexity,
}

/// The constraint that made an optimization fail.
#[derive(Clone, Copy, Debug, PartialEq, Eq, Structural)]
pub enum InfeasibilityKind {
    /// The configuration itself is out of range: a defect, never clamped.
    InvalidParameterDomain,
    /// No explored candidate reaches the target security bits.
    InfeasibleSecurity,
    /// Some candidate is secure, but none keeps every node's noise within
    /// its limit.
    InfeasibleNoise,
}

/// A structured infeasibility report: the violated constraint, the offending
/// node, and the violation margin (bits short of the target for security,
/// variance above the limit for noise, zero for a domain defect).
#[derive(Clone, Copy, Debug, PartialEq, Eq, Structural)]
pub struct InfeasibilityReport {
    pub kind: InfeasibilityKind,
    pub node: usize,
    pub margin: u128,
}

/// Result of a budgeted search.
pub enum OptimizationOutcome {
    /// The minimal-cost feasible candidate, proven optimal over the whole
    /// space.
    Optimal(Solution),
    /// The iteration budget ran out before the space was exhausted: the best
    /// feasible candidate among those examined, explicitly not proven
    /// optimal, or `None` when none of the examined candidates was feasible.
    BudgetExhausted(Option<Solution>),
    /// No candidate in the space is feasible, or the configuration is out of
    /// range.
    Infeasible(InfeasibilityReport),
}

/// What it means for `sol` to be the search's answer over the candidates
/// `0..limit`: it is a feasible candidate, its cost is its graph cost, no
/// candidate beats that cost, and every earlier candidate is strictly worse
/// (the tie-break rule).
pub open spec fn spec_solution_witness(
    nodes: Seq<Node>,
    cfg: OptimizerConfig,
    sol: Solution,
    idx: int,
    limit: int,
) -> bool {
    &&& 0 <= idx < limit
    &&& spec_candidate(cfg, idx) == sol.params
    &&& spec_candidate_feasible(nodes, cfg, spec_candidate(cfg, idx))
    &&& sol.cost == spec_total_complexity(nodes, spec_candidate(cfg, idx))
    &&& forall|j: int|
        0 <= j < idx && spec_candidate_feasible(nodes, cfg, spec_candidate(cfg, j))
            ==> spec_total_complexity(nodes, spec_candidate(cfg, j)) > sol.cost
    &&& forall|j: int|
        0 <= j < limit && spec_candidate_feasible(nodes, cfg, spec_candidate(cfg, j))
            ==> sol.cost <= spec_total_complexity(nodes, spec_candidate(cfg, j))
}

/// A candidate (at position `j` of the enumeration) that passes validity and
/// security but violates the noise limit at `node` by `margin`, every
/// earlier node being within its limit.
pub open spec fn spec_noise_witness(
    nodes: Seq<Node>,
    cfg: OptimizerConfig,
    j: int,
    node: int,
    margin: int,
) -> bool {
    let p = spec_candidate(cfg, j);
    &&& spec_param_set_valid(p, cfg.modulus_bits)
    &&& spec_secure(cfg, p)
    &&& 0 <= node < nodes.len()
    &&& spec_node_noise(nodes, p, cfg, node) > spec_node_noise_limit(nodes[node], cfg)
    &&& margin == spec_node_noise(nodes, p, cfg, node) - spec_node_noise_limit(nodes[node], cfg)
    &&& forall|k: int|
        0 <= k < node ==> spec_node_noise(nodes, p, cfg, k) <= spec_node_noise_limit(nodes[k], cfg)
}

/// Everything an infeasibility report promises: the kind names the first
/// unsatisfiable constraint, and node and margin locate and quantify the
/// violation.
pub open spec fn spec_report_ok(
    nodes: Seq<Node>,
    cfg: OptimizerConfig,
    rep: InfeasibilityReport,
) -> bool {
    &&& (rep.kind == InfeasibilityKind::InvalidParameterDomain <==> !spec_config_valid(cfg))
    &&& spec_config_valid(cfg) ==> {
        &&& forall|j: int|
            0 <= j < spec_space_size(cfg) ==> !spec_candidate_feasible(
                nodes,
                cfg,
                spec_candidate(cfg, j),
            )
        &&& (rep.kind == InfeasibilityKind::InfeasibleSecurity <==> forall|j: int|
            0 <= j < spec_space_size(cfg) ==> !(spec_param_set_valid(
                spec_candidate(cfg, j),
                cfg.modulus_bits,
            ) && spec_secure(cfg, spec_candidate(cfg, j))))
        &&& rep.kind == InfeasibilityKind::InfeasibleSecurity ==> {
            &&& forall|j: int|
                0 <= j < spec_space_size(cfg) && spec_param_set_valid(
                    spec_candidate(cfg, j),
                    cfg.modulus_bits,
                ) ==> spec_security_bits(
                    spec_candidate(cfg, j).lwe_dimension as int,
                    cfg.fresh_noise_log2 as int,
                    cfg.modulus_bits as int,
                ) + rep.margin <= cfg.target_security_bits
            &&& (exists|j: int| 0 <= j < nodes.len() && nodes[j].kind is Input) ==> (rep.node
                < nodes.len() && nodes[rep.node as int].kind is Input)
        }
        &&& rep.kind == InfeasibilityKind::InfeasibleNoise ==> (exists|j: int|
            0 <= j < spec_space_size(cfg) && spec_noise_witness(
                nodes,
                cfg,
                j,
                rep.node as int,
                rep.margin as int,
            ))
    }
}

/// Determinism: any two solutions answering the same graph and configuration
/// are the same parameter set at the same position with the same cost. The
/// contract of the search pins its result uniquely, so identical inputs
/// reproduce an identical parameter set and cost.
pub proof fn lemma_solution_unique(
    nodes: Seq<Node>,
    cfg: OptimizerConfig,
    s1: Solution,
    i1: int,
    s2: Solution,
    i2: int,
    limit: int,
)
    requires
        spec_solution_witness(nodes, cfg, s1, i1, limit),
        spec_solution_witness(nodes, cfg, s2, i2, limit),
    ensures
        i1 == i2,
        s1 == s2,
{
    assert(s1.cost <= spec_total_complexity(nodes, spec_candidate(cfg, i2)));
    assert(s2.cost <= spec_total_complexity(nodes, spec_candidate(cfg, i1)));
    assert(s1.cost == s2.cost);
    if i1 < i2 {
        assert(spec_total_complexity(nodes, spec_candidate(cfg, i1)) > s2.cost);
        assert(false);
    }
    if i2 < i1 {
        assert(spec_total_complexity(nodes, spec_candidate(cfg, i2)) > s1.cost);
        assert(false);
    }
}

/// Number of candidates, as a machine integer.
fn space_size(cfg: &OptimizerConfig) -> (r: u64)
    requires
        spec_config_valid(*cfg),
    ensures
        r == spec_space_size(*cfg),
        1 <= r <= 262144,
{
    assert(1 <= (cfg.max_glwe_dimension as int) * (cfg.max_level as int) <= 4096 && 1 <= (
    cfg.max_glwe_dimension as int) * (cfg.max_level as int) * (cfg.modulus_bits as int)
        <= 262144) by (nonlinear_arith)
        requires
            1 <= cfg.max_glwe_dimension <= 64,
            1 <= cfg.max_level <= 64,
            1 <= cfg.modulus_bits <= 64,
    ;
    cfg.max_glwe_dimension * cfg.max_level * cfg.modulus_bits
}

/// Decode the candidate at position `idx` of the enumeration.
fn candidate_at(cfg: &OptimizerConfig, idx: u64) -> (r: ParameterSet)
    requires
        spec_config_valid(*cfg),
        idx < spec_space_size(*cfg),
    ensures
        r == spec_candidate(*cfg, idx as int),
{
    assert(1 <= (cfg.max_level as int) * (cfg.modulus_bits as int) <= 4096) by (nonlinear_arith)
        requires
            1 <= cfg.max_level <= 64,
            1 <= cfg.modulus_bits <= 64,
    ;
    let lb: u64 = cfg.max_level * cfg.modulus_bits;
    assert(spec_space_size(*cfg) == (lb as int) * (cfg.max_glwe_dimension as int))
        by (nonlinear_arith)
        requires
            lb == (cfg.max_level as int) * (cfg.modulus_bits as int),
            spec_space_size(*cfg) == (cfg.max_glwe_dimension as int) * (cfg.max_level as int) * (
            cfg.modulus_bits as int),
    ;
    proof {
        lemma_multiply_divide_lt(idx as int, lb as int, cfg.max_glwe_dimension as int);
        lemma_fundamental_div_mod(idx as int, lb as int);
        lemma_mod_division_less_than_divisor(idx as int, lb as int);
    }
    let g: u64 = idx / lb + 1;
    let rem: u64 = idx % lb;
    assert((lb as int) == (cfg.modulus_bits as int) * (cfg.max_level as int)) by (nonlinear_arith)
        requires
            lb == (cfg.max_level as int) * (cfg.modulus_bits as int),
    ;
    proof {
        lemma_multiply_divide_lt(rem as int, cfg.modulus_bits as int, cfg.max_level as int);
        lemma_mod_division_less_than_divisor(rem as int, cfg.modulus_bits as int);
    }
    let l: u64 = rem / cfg.modulus_bits + 1;
    let b: u64 = rem % cfg.modulus_bits + 1;
    assert((g as int) * (cfg.polynomial_size as int) <= 1048576) by (nonlinear_arith)
        requires
            1 <= g <= 64,
            1 <= cfg.polynomial_size <= 16384,
    ;
    let lwe: u64 = g * cfg.polynomial_size;
    ParameterSet {
        lwe_dimension: lwe,
        glwe_dimension: g,
        polynomial_size: cfg.polynomial_size,
        base_log: b,
        level: l,
    }
}

/// Independent feasibility re-check of one candidate: domain validity, then
/// security, then full-graph noise propagation, exactly the constraints the
/// search enforces.
pub fn check_feasible(graph: &OperationGraph, cfg: &OptimizerConfig, p: &ParameterSet) -> (r: bool)
    requires
        graph.wf(),
        spec_config_valid(*cfg),
    ensures
        r == spec_candidate_feasible(graph.spec_nodes(), *cfg, *p),
{
    if !p.is_valid(cfg.modulus_bits) {
        return false;
    }
    let sec = security_bits(p.lwe_dimension, cfg.fresh_noise_log2, cfg.modulus_bits);
    if sec < cfg.target_security_bits {
        return false;
    }
    match graph.first_noise_violation(p, cfg) {
        Option::None => true,
        Option::Some(_) => false,
    }
}

/// Position of the first fresh-encryption node, the node whose security
/// constraint an unreachable target is attributed to; zero when the graph
/// has no input node.
fn first_input_node(graph: &OperationGraph) -> (r: usize)
    ensures
        forall|k: int| 0 <= k < r ==> !(graph.spec_nodes()[k].kind is Input),
        (exists|j: int|
            0 <= j < graph.spec_nodes().len() && graph.spec_nodes()[j].kind is Input) ==> (
        r < graph.spec_nodes().len() && graph.spec_nodes()[r as int].kind is Input),
{
    let n = graph.node_count();
    let mut i: usize = 0;
    while i < n
        invariant
            i <= n,
            n == graph.spec_nodes().len(),
            forall|k: int| 0 <= k < i ==> !(graph.spec_nodes()[k].kind is Input),
        decreases n - i,
    {
        let node = graph.node(i);
        match node.kind {
            OpKind::Input => {
                return i;
            },
            _ => {},
        }
        i += 1;
    }
    0
}

/// Search the candidate space, examining at most `budget` candidates in
/// enumeration order. Returns the minimal-cost feasible candidate (proven
/// optimal when the space was exhausted, tagged otherwise), or a structured
/// infeasibility report naming the first unsatisfiable constraint, the
/// offending node and the violation margin.
pub fn optimize_with_budget(graph: &OperationGraph, cfg: &OptimizerConfig, budget: u64) -> (r:
    OptimizationOutcome)
    requires
        graph.wf(),
    ensures
        ({
            let nodes = graph.spec_nodes();
            let size = spec_space_size(*cfg);
            match r {
                OptimizationOutcome::Optimal(sol) => {
                    &&& spec_config_valid(*cfg)
                    &&& budget >= size
                    &&& spec_candidate_feasible(nodes, *cfg, sol.params)
                    &&& (exists|i: int| spec_solution_witness(nodes, *cfg, sol, i, size))
                },
                OptimizationOutcome::BudgetExhausted(b) => {
                    &&& spec_config_valid(*cfg)
                    &&& budget < size
                    &&& match b {
                        Option::Some(sol) => (exists|i: int|
                            spec_solution_witness(nodes, *cfg, sol, i, budget as int)),
                        Option::None => forall|j: int|
                            0 <= j < budget ==> !spec_candidate_feasible(
                                nodes,
                                *cfg,
                                spec_candidate(*cfg, j),
                            ),
                    }
                },
                OptimizationOutcome::Infeasible(rep) => spec_report_ok(nodes, *cfg, rep),
            }
        }),
{
    if !cfg.is_valid() {
        return OptimizationOutcome::Infeasible(
            InfeasibilityReport { kind: InfeasibilityKind::InvalidParameterDomain, node: 0, margin: 0 },
        );
    }
    let ghost nodes = graph.spec_nodes();
    let size = space_size(cfg);
    let examined: u64 = if budget < size {
        budget
    } else {
        size
    };
    let mut idx: u64 = 0;
    let mut best: Option<Solution> = Option::None;
    let mut seen_valid: bool = false;
    let mut best_sec: u64 = 0;
    let mut noise_wit: Option<(usize, u128)> = Option::None;
    let ghost mut best_idx: int = 0;
    let ghost mut sec_idx: int = 0;
    let ghost mut noise_idx: int = 0;
    while idx < examined
        invariant
            graph.wf(),
            spec_config_valid(*cfg),
            nodes == graph.spec_nodes(),
            examined <= spec_space_size(*cfg),
            idx <= examined,
            match best {
                Option::Some(sol) => {
                    &&& 0 <= best_idx < idx
                    &&& spec_candidate(*cfg, best_idx) == sol.params
                    &&& spec_candidate_feasible(nodes, *cfg, spec_candidate(*cfg, best_idx))
                    &&& sol.cost == spec_total_complexity(nodes, spec_candidate(*cfg, best_idx))
                    &&& forall|j: int|
                        0 <= j < best_idx && spec_candidate_feasible(
                            nodes,
                            *cfg,
                            spec_candidate(*cfg, j),
                        ) ==> spec_total_complexity(nodes, spec_candidate(*cfg, j)) > sol.cost
                    &&& forall|j: int|
                        0 <= j < idx && spec_candidate_feasible(
                            nodes,
                            *cfg,
                            spec_candidate(*cfg, j),
                        ) ==> sol.cost <= spec_total_complexity(nodes, spec_candidate(*cfg, j))
                },
                Option::None => forall|j: int|
                    0 <= j < idx ==> !spec_candidate_feasible(nodes, *cfg, spec_candidate(*cfg, j)),
            },
            !seen_valid ==> best_sec == 0 && forall|j: int|
                0 <= j < idx ==> !spec_param_set_valid(spec_candidate(*cfg, j), cfg.modulus_bits),
            seen_valid ==> {
                &&& 0 <= sec_idx < idx
                &&& spec_param_set_valid(spec_candidate(*cfg, sec_idx), cfg.modulus_bits)
                &&& best_sec == spec_security_bits(
                    spec_candidate(*cfg, sec_idx).lwe_dimension as int,
                    cfg.fresh_noise_log2 as int,
                    cfg.modulus_bits as int,
                )
                &&& forall|j: int|
                    0 <= j < idx && spec_param_set_valid(spec_candidate(*cfg, j), cfg.modulus_bits)
                        ==> spec_security_bits(
                        spec_candidate(*cfg, j).lwe_dimension as int,
                        cfg.fresh_noise_log2 as int,
                        cfg.modulus_bits as int,
                    ) <= best_sec
            },
            match noise_wit {
                Option::None => forall|j: int|
                    0 <= j < idx && spec_param_set_valid(spec_candidate(*cfg, j), cfg.modulus_bits)
                        && spec_secure(*cfg, spec_candidate(*cfg, j))
                        ==> spec_candidate_feasible(nodes, *cfg, spec_candidate(*cfg, j)),
                Option::Some((node, margin)) => {
                    &&& 0 <= noise_idx < idx
                    &&& spec_noise_witness(nodes, *cfg, noise_idx, node as int, margin as int)
                },
            },
        decreases examined - idx,
    {
        let p = candidate_at(cfg, idx);
        if p.is_valid(cfg.modulus_bits) {
            let sec = security_bits(p.lwe_dimension, cfg.fresh_noise_log2, cfg.modulus_bits);
            if !seen_valid {
                seen_valid = true;
                best_sec = sec;
                proof {
                    sec_idx = idx as int;
                }
            } else if sec > best_sec {
                best_sec = sec;
                proof {
                    sec_idx = idx as int;
                }
            }
            if sec >= cfg.target_security_bits {
                match graph.first_noise_violation(&p, cfg) {
                    Option::None => {
                        let cost = graph.total_complexity(&p, cfg.modulus_bits);
                        let better: bool = match best {
                            Option::None => true,
                            Option::Some(s) => cost < s.cost,
                        };
                        if better {
                            best = Option::Some(Solution { params: p, cost });
                            proof {
                                best_idx = idx as int;
                            }
                        }
                    },
                    Option::Some((node, margin)) => {
                        if noise_wit.is_none() {
                            noise_wit = Option::Some((node, margin));
                            proof {
                                noise_idx = idx as int;
                            }
                        }
                    },
                }
            }
        }
        idx += 1;
    }
    match best {
        Option::Some(sol) => {
            if examined == size {
                proof {
                    assert(spec_solution_witness(nodes, *cfg, sol, best_idx, spec_space_size(*cfg)));
                }
                OptimizationOutcome::Optimal(sol)
            } else {
                proof {
                    assert(spec_solution_witness(nodes, *cfg, sol, best_idx, budget as int));
                }
                OptimizationOutcome::BudgetExhausted(Option::Some(sol))
            }
        },
        Option::None => {
            if examined < size {
                OptimizationOutcome::BudgetExhausted(Option::None)
            } else {
                match noise_wit {
                    Option::Some((node, margin)) => {
                        let rep = InfeasibilityReport {
                            kind: InfeasibilityKind::InfeasibleNoise,
                            node,
                            margin,
                        };
                        proof {
                            // The recorded candidate witnesses both that some
                            // candidate is secure and that noise is what bars it.
                            assert(spec_param_set_valid(
                                spec_candidate(*cfg, noise_idx),
                                cfg.modulus_bits,
                            ) && spec_secure(*cfg, spec_candidate(*cfg, noise_idx)));
                            assert(spec_noise_witness(
                                nodes,
                                *cfg,
                                noise_idx,
                                rep.node as int,
                                rep.margin as int,
                            ));
                            assert(exists|j: int|
                                0 <= j < spec_space_size(*cfg) && spec_noise_witness(
                                    nodes,
                                    *cfg,
                                    j,
                                    rep.node as int,
                                    rep.margin as int,
                                ));
                            assert(spec_report_ok(nodes, *cfg, rep));
                        }
                        OptimizationOutcome::Infeasible(rep)
                    },
                    Option::None => {
                        proof {
                            if best_sec > cfg.target_security_bits {
                                assert(seen_valid);
                                assert(spec_candidate_feasible(
                                    nodes,
                                    *cfg,
                                    spec_candidate(*cfg, sec_idx),
                                ));
                                assert(false);
                            }
                        }
                        let node = first_input_node(graph);
                        let margin: u64 = cfg.target_security_bits - best_sec;
                        let rep = InfeasibilityReport {
                            kind: InfeasibilityKind::InfeasibleSecurity,
                            node,
                            margin: margin as u128,
                        };
                        proof {
                            assert(spec_report_ok(nodes, *cfg, rep));
                        }
                        OptimizationOutcome::Infeasible(rep)
                    },
                }
            }
        },
    }
}

/// Exhaustive optimization: the minimal-cost feasible candidate over the
/// whole space under the lexicographic tie-break, or a structured
/// infeasibility report.
pub fn optimize(graph: &OperationGraph, cfg: &OptimizerConfig) -> (r: Result<
    Solution,
    InfeasibilityReport,
>)
    requires
        graph.wf(),
    ensures
        ({
            let nodes = graph.spec_nodes();
            let size = spec_space_size(*cfg);
            match r {
                Result::Ok(sol) => {
                    &&& spec_config_valid(*cfg)
                    &&& spec_candidate_feasible(nodes, *cfg, sol.params)
                    &&& sol.cost == spec_total_complexity(nodes, sol.params)
                    &&& (exists|i: int| spec_solution_witness(nodes, *cfg, sol, i, size))
                },
                Result::Err(rep) => spec_report_ok(nodes, *cfg, rep),
            }
        }),
{
    if !cfg.is_valid() {
        return Result::Err(
            InfeasibilityReport { kind: InfeasibilityKind::InvalidParameterDomain, node: 0, margin: 0 },
        );
    }
    let size = space_size(cfg);
    match optimize_with_budget(graph, cfg, size) {
        OptimizationOutcome::Optimal(sol) => Result::Ok(sol),
        OptimizationOutcome::Infeasible(rep) => Result::Err(rep),
        OptimizationOutcome::BudgetExhausted(_) => {
            // Unreachable: the budget equals the space size, so the search
            // cannot run out before exhausting the space.
            proof {
                assert(false);
            }
            Result::Err(
                InfeasibilityReport { kind: InfeasibilityKind::InvalidParameterDomain, node: 0, margin: 0 },
            )
        },
    }
}

} // verus!
