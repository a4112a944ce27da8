//! Operation graph: a DAG of typed homomorphic operations with per-node
//! multiplicities and noise budgets, built once per compiled program and
//! read-only during optimization.
//!
//! Nodes are stored in topological order: every predecessor index is smaller
//! than the node's own index, so one forward pass propagates noise from
//! sources (fresh encryptions) to sinks.

use vstd::prelude::*;
use crate::complexity::Complexity;
use crate::complexity::KsGlweComplexity;
use crate::complexity::bootstrap_complexity;
use crate::complexity::linear_op_complexity;
use crate::complexity::spec_bootstrap_complexity;
use crate::complexity::spec_ks_glwe_complexity;
use crate::complexity::spec_linear_op_complexity;
use crate::noise::NoiseVariance;
use crate::noise::add_noise;
use crate::noise::bootstrap_noise;
use crate::noise::const_mul_noise;
use crate::noise::fresh_noise;
use crate::noise::keyswitch_noise;
use crate::noise::noise_bound;
use crate::noise::spec_add_noise;
use crate::noise::spec_bootstrap_noise;
use crate::noise::spec_const_mul_noise;
use crate::noise::spec_fresh_noise;
use crate::noise::spec_keyswitch_noise;
use crate::noise::spec_noise_bound;
use crate::parameters::GlweParameters;
use crate::parameters::KeyswitchGlweParameters;
use crate::parameters::KsDecompositionParameters;
use crate::parameters::MAX_GLWE_DIMENSION;
use crate::parameters::OptimizerConfig;
use crate::parameters::ParameterSet;
use crate::parameters::spec_config_valid;
use crate::parameters::spec_param_set_valid;

verus! {

/// Cap on the number of nodes in one graph.
pub const MAX_GRAPH_NODES: usize = 4096;

/// Cap on a node's multiplicity.
pub const MAX_MULTIPLICITY: u64 = 4294967296;

/// Cap on the magnitude exponent of a constant multiplier.
pub const MAX_MULTIPLIER_LOG2: u64 = 32;

/// Cap on the per-instance cost of any operation under valid parameters.
pub const MAX_OP_COMPLEXITY: u128 = 0x1000000000000;

/// Cap on a node's cost (per-instance cost times multiplicity); used to
/// bound the aggregate sum.
pub const MAX_NODE_COMPLEXITY: u128 = 0x100000000000000000000;

/// The kind of homomorphic operation a node performs.
#[derive(Clone, Copy, Debug, PartialEq, Eq, Structural)]
pub enum OpKind {
    /// A fresh encryption entering the circuit.
    Input,
    /// Homomorphic addition of two ciphertexts.
    Add,
    /// Multiplication by a known constant of magnitude `2^multiplier_log2`.
    ConstMul { multiplier_log2: u64 },
    /// GLWE-to-GLWE keyswitch toward a key of the given output dimension.
    KeyswitchGlwe { output_glwe_dimension: u64 },
    /// Programmable bootstrap, refreshing the noise.
    Bootstrap,
}

/// One operation of the compiled circuit: its kind, how many times it runs,
/// the indices of the operations it consumes, and the variance its consumers
/// can tolerate at this point (use `u128::MAX` for no local constraint).
pub struct Node {
    pub kind: OpKind,
    pub multiplicity: u64,
    pub preds: Vec<usize>,
    pub noise_budget: NoiseVariance,
}

/// Number of predecessors each kind of operation consumes.
pub open spec fn spec_arity(kind: OpKind) -> int {
    match kind {
        OpKind::Input => 0,
        OpKind::Add => 2,
        OpKind::ConstMul { .. } => 1,
        OpKind::KeyswitchGlwe { .. } => 1,
        OpKind::Bootstrap => 1,
    }
}

/// Validity of a kind's own fields.
pub open spec fn spec_kind_valid(kind: OpKind) -> bool {
    match kind {
        OpKind::ConstMul { multiplier_log2 } => multiplier_log2 <= MAX_MULTIPLIER_LOG2,
        OpKind::KeyswitchGlwe { output_glwe_dimension } => 0 < output_glwe_dimension
            <= MAX_GLWE_DIMENSION,
        _ => true,
    }
}

/// Well-formedness of a whole node sequence: a bounded count and every node
/// well formed at its position.
pub open spec fn spec_nodes_wf(nodes: Seq<Node>) -> bool {
    &&& nodes.len() <= MAX_GRAPH_NODES
    &&& forall|i: int| 0 <= i < nodes.len() ==> spec_node_wf(nodes[i], i)
}

/// Well-formedness of the node standing at position `i`: the right number of
/// predecessors, all of them earlier in the order, a bounded multiplicity and
/// a valid kind.
pub open spec fn spec_node_wf(n: Node, i: int) -> bool {
    &&& n.preds@.len() == spec_arity(n.kind)
    &&& forall|j: int| 0 <= j < n.preds@.len() ==> (n.preds@[j] as int) < i
    &&& n.multiplicity <= MAX_MULTIPLICITY
    &&& spec_kind_valid(n.kind)
}

/// Cost of running one instance of an operation under a candidate parameter
/// set.
pub open spec fn spec_op_complexity(kind: OpKind, p: ParameterSet) -> int {
    match kind {
        OpKind::Input => 0,
        OpKind::Add => spec_linear_op_complexity(p.glwe_dimension as int, p.polynomial_size as int),
        OpKind::ConstMul { .. } => spec_linear_op_complexity(
            p.glwe_dimension as int,
            p.polynomial_size as int,
        ),
        OpKind::KeyswitchGlwe { output_glwe_dimension } => spec_ks_glwe_complexity(
            p.glwe_dimension as int,
            output_glwe_dimension as int,
            p.level as int,
        ),
        OpKind::Bootstrap => spec_bootstrap_complexity(
            p.lwe_dimension as int,
            p.glwe_dimension as int,
            p.polynomial_size as int,
            p.level as int,
        ),
    }
}

/// Cost of a node: the cost of one instance times the node's multiplicity.
pub open spec fn spec_node_complexity(n: Node, p: ParameterSet) -> int {
    spec_op_complexity(n.kind, p) * n.multiplicity
}

/// Aggregate cost of the first `i` nodes.
pub open spec fn spec_complexity_prefix(nodes: Seq<Node>, p: ParameterSet, i: int) -> int
    decreases i,
{
    if i <= 0 {
        0
    } else {
        spec_complexity_prefix(nodes, p, i - 1) + spec_node_complexity(nodes[i - 1], p)
    }
}

/// Aggregate cost of a whole graph under a candidate parameter set.
pub open spec fn spec_total_complexity(nodes: Seq<Node>, p: ParameterSet) -> int {
    spec_complexity_prefix(nodes, p, nodes.len() as int)
}

/// Variance at node `i` after propagation from the sources, under a
/// candidate parameter set and configuration. Each node's variance is a
/// function solely of its immediate predecessors' variances and the
/// parameters.
pub open spec fn spec_node_noise(
    nodes: Seq<Node>,
    p: ParameterSet,
    cfg: OptimizerConfig,
    i: int,
) -> int
    decreases i,
{
    if !(0 <= i < nodes.len()) {
        0
    } else {
        let n = nodes[i];
        match n.kind {
            OpKind::Input => spec_fresh_noise(cfg.fresh_noise_log2 as int),
            OpKind::Add => {
                let a = n.preds@[0] as int;
                let b = n.preds@[1] as int;
                spec_add_noise(
                    if 0 <= a < i {
                        spec_node_noise(nodes, p, cfg, a)
                    } else {
                        0
                    },
                    if 0 <= b < i {
                        spec_node_noise(nodes, p, cfg, b)
                    } else {
                        0
                    },
                )
            },
            OpKind::ConstMul { multiplier_log2 } => {
                let a = n.preds@[0] as int;
                spec_const_mul_noise(
                    if 0 <= a < i {
                        spec_node_noise(nodes, p, cfg, a)
                    } else {
                        0
                    },
                    multiplier_log2 as int,
                )
            },
            OpKind::KeyswitchGlwe { .. } => {
                let a = n.preds@[0] as int;
                spec_keyswitch_noise(
                    if 0 <= a < i {
                        spec_node_noise(nodes, p, cfg, a)
                    } else {
                        0
                    },
                    p.glwe_dimension as int,
                    p.polynomial_size as int,
                    p.level as int,
                    p.base_log as int,
                    cfg.modulus_bits as int,
                    cfg.fresh_noise_log2 as int,
                )
            },
            OpKind::Bootstrap => spec_bootstrap_noise(
                p.lwe_dimension as int,
                p.glwe_dimension as int,
                p.polynomial_size as int,
                p.level as int,
                p.base_log as int,
                cfg.fresh_noise_log2 as int,
            ),
        }
    }
}

/// The variance node `i` may carry: its own budget or the global bound
/// implied by the failure probability, whichever is smaller.
pub open spec fn spec_node_noise_limit(n: Node, cfg: OptimizerConfig) -> int {
    let global = spec_noise_bound(cfg.modulus_bits as int, cfg.failure_prob_log2 as int);
    if n.noise_budget < global {
        n.noise_budget as int
    } else {
        global
    }
}

/// Noise feasibility of a whole graph: every node's propagated variance
/// stays within its limit.
pub open spec fn spec_graph_noise_feasible(
    nodes: Seq<Node>,
    p: ParameterSet,
    cfg: OptimizerConfig,
) -> bool {
    forall|i: int|
        0 <= i < nodes.len() ==> spec_node_noise(nodes, p, cfg, i) <= spec_node_noise_limit(
            nodes[i],
            cfg,
        )
}

/// An immutable DAG of homomorphic operations in topological order.
pub struct OperationGraph {
    nodes: Vec<Node>,
}

impl OperationGraph {
    /// The nodes of the graph, in topological order.
    pub closed spec fn spec_nodes(self) -> Seq<Node> {
        self.nodes@
    }

    /// Well-formedness: a bounded node count and every node well formed at
    /// its position.
    pub open spec fn wf(self) -> bool {
        spec_nodes_wf(self.spec_nodes())
    }

    /// Build a graph from nodes already in topological order. Returns `None`
    /// when a node breaks well-formedness: wrong fan-in, a predecessor not
    /// earlier in the order, an out-of-range multiplicity or kind, or too
    /// many nodes.
    #[verifier::loop_isolation(false)]
    pub fn from_nodes(nodes: Vec<Node>) -> (r: Option<OperationGraph>)
        ensures
            match r {
                Some(g) => g.wf() && g.spec_nodes() == nodes@,
                None => !spec_nodes_wf(nodes@),
            },
    {
        if nodes.len() > MAX_GRAPH_NODES {
            return None;
        }
        let mut i: usize = 0;
        while i < nodes.len()
            invariant
                i <= nodes@.len(),
                forall|k: int| 0 <= k < i ==> spec_node_wf(nodes@[k], k),
            decreases nodes@.len() - i,
        {
            let n = &nodes[i];
            let arity_ok: bool = match n.kind {
                OpKind::Input => n.preds.len() == 0,
                OpKind::Add => n.preds.len() == 2,
                OpKind::ConstMul { .. } => n.preds.len() == 1,
                OpKind::KeyswitchGlwe { .. } => n.preds.len() == 1,
                OpKind::Bootstrap => n.preds.len() == 1,
            };
            let kind_ok: bool = match n.kind {
                OpKind::ConstMul { multiplier_log2 } => multiplier_log2 <= MAX_MULTIPLIER_LOG2,
                OpKind::KeyswitchGlwe { output_glwe_dimension } => 0 < output_glwe_dimension
                    && output_glwe_dimension <= MAX_GLWE_DIMENSION,
                _ => true,
            };
            if !arity_ok || !kind_ok || n.multiplicity > MAX_MULTIPLICITY {
                assert(!spec_node_wf(nodes@[i as int], i as int));
                return None;
            }
            let mut j: usize = 0;
            while j < n.preds.len()
                invariant
                    j <= n.preds@.len(),
                    forall|m: int| 0 <= m < j ==> (n.preds@[m] as int) < i,
                decreases n.preds@.len() - j,
            {
                if n.preds[j] >= i {
                    assert(!spec_node_wf(nodes@[i as int], i as int));
                    return None;
                }
                j += 1;
            }
            assert(spec_node_wf(nodes@[i as int], i as int));
            i += 1;
        }
        assert(spec_nodes_wf(nodes@));
        Some(OperationGraph { nodes })
    }

    /// Number of nodes.
    pub fn node_count(&self) -> (r: usize)
        ensures
            r == self.spec_nodes().len(),
    {
        self.nodes.len()
    }

    /// The node at position `i`.
    pub fn node(&self, i: usize) -> (r: &Node)
        requires
            i < self.spec_nodes().len(),
        ensures
            *r == self.spec_nodes()[i as int],
    {
        &self.nodes[i]
    }

    /// Fan-in of the node at position `i`.
    pub fn fan_in(&self, i: usize) -> (r: usize)
        requires
            i < self.spec_nodes().len(),
        ensures
            r == self.spec_nodes()[i as int].preds@.len(),
    {
        self.nodes[i].preds.len()
    }

    /// Aggregate cost of the graph under a candidate parameter set: the sum
    /// over all nodes of per-instance cost times multiplicity. Exact; no
    /// rounding and no overflow under valid parameters.
    pub fn total_complexity(&self, p: &ParameterSet, modulus_bits: u64) -> (r: Complexity)
        requires
            self.wf(),
            spec_param_set_valid(*p, modulus_bits),
        ensures
            r == spec_total_complexity(self.spec_nodes(), *p),
    {
        let ghost nodes = self.spec_nodes();
        let mut acc: u128 = 0;
        let mut i: usize = 0;
        while i < self.nodes.len()
            invariant
                self.wf(),
                spec_param_set_valid(*p, modulus_bits),
                nodes == self.spec_nodes(),
                i <= nodes.len(),
                acc == spec_complexity_prefix(nodes, *p, i as int),
                acc <= (i as int) * MAX_NODE_COMPLEXITY,
            decreases nodes.len() - i,
        {
            let n = &self.nodes[i];
            assert(spec_node_wf(nodes[i as int], i as int));
            let op_cost: u128 = match n.kind {
                OpKind::Input => 0,
                OpKind::Add => linear_op_complexity(p.glwe_dimension, p.polynomial_size),
                OpKind::ConstMul { .. } => linear_op_complexity(
                    p.glwe_dimension,
                    p.polynomial_size,
                ),
                OpKind::KeyswitchGlwe { output_glwe_dimension } => {
                    let ks_params = KeyswitchGlweParameters {
                        input_glwe_params: GlweParameters {
                            glwe_dimension: p.glwe_dimension,
                            polynomial_size: p.polynomial_size,
                        },
                        output_glwe_params: GlweParameters {
                            glwe_dimension: output_glwe_dimension,
                            polynomial_size: p.polynomial_size,
                        },
                        ks_decomposition_parameter: KsDecompositionParameters {
                            level: p.level,
                            base_log: p.base_log,
                        },
                    };
                    let model = KsGlweComplexity;
                    model.complexity(ks_params, modulus_bits as u32)
                },
                OpKind::Bootstrap => bootstrap_complexity(
                    p.lwe_dimension,
                    p.glwe_dimension,
                    p.polynomial_size,
                    p.level,
                ),
            };
            proof {
                lemma_op_complexity_bound(n.kind, *p);
            }
            assert(op_cost * (n.multiplicity as u128) <= MAX_NODE_COMPLEXITY) by (nonlinear_arith)
                requires
                    op_cost <= MAX_OP_COMPLEXITY,
                    n.multiplicity <= MAX_MULTIPLICITY,
            ;
            let node_cost: u128 = op_cost * (n.multiplicity as u128);
            proof {
                vstd::arithmetic::mul::lemma_mul_is_distributive_add_other_way(
                    MAX_NODE_COMPLEXITY as int,
                    i as int,
                    1,
                );
                vstd::arithmetic::mul::lemma_mul_inequality(
                    (i as int) + 1,
                    MAX_GRAPH_NODES as int,
                    MAX_NODE_COMPLEXITY as int,
                );
            }
            acc = acc + node_cost;
            i += 1;
        }
        acc
    }

    /// Propagated variance at every node, in topological order.
    pub fn propagate_noise(&self, p: &ParameterSet, cfg: &OptimizerConfig) -> (r: Vec<
        NoiseVariance,
    >)
        requires
            self.wf(),
            spec_config_valid(*cfg),
            spec_param_set_valid(*p, cfg.modulus_bits),
        ensures
            r@.len() == self.spec_nodes().len(),
            forall|i: int|
                0 <= i < r@.len() ==> r@[i] == spec_node_noise(self.spec_nodes(), *p, *cfg, i),
    {
        let ghost nodes = self.spec_nodes();
        let mut out: Vec<NoiseVariance> = Vec::new();
        let mut i: usize = 0;
        while i < self.nodes.len()
            invariant
                self.wf(),
                spec_config_valid(*cfg),
                spec_param_set_valid(*p, cfg.modulus_bits),
                nodes == self.spec_nodes(),
                i <= nodes.len(),
                out@.len() == i,
                forall|k: int| 0 <= k < i ==> out@[k] == spec_node_noise(nodes, *p, *cfg, k),
            decreases nodes.len() - i,
        {
            let n = &self.nodes[i];
            assert(spec_node_wf(nodes[i as int], i as int));
            let v: NoiseVariance = match n.kind {
                OpKind::Input => fresh_noise(cfg.fresh_noise_log2),
                OpKind::Add => add_noise(out[n.preds[0]], out[n.preds[1]]),
                OpKind::ConstMul { multiplier_log2 } => const_mul_noise(
                    out[n.preds[0]],
                    multiplier_log2,
                ),
                OpKind::KeyswitchGlwe { .. } => keyswitch_noise(
                    out[n.preds[0]],
                    p.glwe_dimension,
                    p.polynomial_size,
                    p.level,
                    p.base_log,
                    cfg.modulus_bits,
                    cfg.fresh_noise_log2,
                ),
                OpKind::Bootstrap => bootstrap_noise(
                    p.lwe_dimension,
                    p.glwe_dimension,
                    p.polynomial_size,
                    p.level,
                    p.base_log,
                    cfg.fresh_noise_log2,
                ),
            };
            out.push(v);
            i += 1;
        }
        out
    }

    /// The first node whose propagated variance exceeds its limit, with the
    /// margin of the violation, or `None` when the graph is noise-feasible
    /// under the candidate.
    pub fn first_noise_violation(&self, p: &ParameterSet, cfg: &OptimizerConfig) -> (r: Option<
        (usize, NoiseVariance),
    >)
        requires
            self.wf(),
            spec_config_valid(*cfg),
            spec_param_set_valid(*p, cfg.modulus_bits),
        ensures
            match r {
                None => spec_graph_noise_feasible(self.spec_nodes(), *p, *cfg),
                Some((i, margin)) => {
                    &&& 0 <= i < self.spec_nodes().len()
                    &&& spec_node_noise(self.spec_nodes(), *p, *cfg, i as int)
                        > spec_node_noise_limit(self.spec_nodes()[i as int], *cfg)
                    &&& margin == spec_node_noise(self.spec_nodes(), *p, *cfg, i as int)
                        - spec_node_noise_limit(self.spec_nodes()[i as int], *cfg)
                    &&& forall|k: int|
                        0 <= k < i ==> spec_node_noise(self.spec_nodes(), *p, *cfg, k)
                            <= spec_node_noise_limit(self.spec_nodes()[k], *cfg)
                },
            },
    {
        let ghost nodes = self.spec_nodes();
        let noises = self.propagate_noise(p, cfg);
        let global = noise_bound(cfg.modulus_bits, cfg.failure_prob_log2);
        let mut i: usize = 0;
        while i < self.nodes.len()
            invariant
                self.wf(),
                spec_config_valid(*cfg),
                spec_param_set_valid(*p, cfg.modulus_bits),
                nodes == self.spec_nodes(),
                i <= nodes.len(),
                noises@.len() == nodes.len(),
                forall|k: int| 0 <= k < noises@.len() ==> noises@[k] == spec_node_noise(nodes, *p, *cfg, k),
                global == spec_noise_bound(cfg.modulus_bits as int, cfg.failure_prob_log2 as int),
                forall|k: int|
                    0 <= k < i ==> spec_node_noise(nodes, *p, *cfg, k) <= spec_node_noise_limit(
                        nodes[k],
                        *cfg,
                    ),
            decreases nodes.len() - i,
        {
            let budget = self.nodes[i].noise_budget;
            let limit: u128 = if budget < global {
                budget
            } else {
                global
            };
            if noises[i] > limit {
                return Some((i, noises[i] - limit));
            }
            i += 1;
        }
        None
    }
}

/// Under a valid kind and a valid parameter tuple, the per-instance cost of
/// any operation is nonnegative and below `MAX_NODE_COMPLEXITY /
/// MAX_MULTIPLICITY`.
pub proof fn lemma_op_complexity_bound(kind: OpKind, p: ParameterSet)
    requires
        spec_kind_valid(kind),
        0 < p.lwe_dimension <= crate::parameters::MAX_LWE_DIMENSION,
        0 < p.glwe_dimension <= MAX_GLWE_DIMENSION,
        0 < p.polynomial_size <= crate::parameters::MAX_POLYNOMIAL_SIZE,
        0 < p.level <= crate::parameters::MAX_LEVEL,
    ensures
        0 <= spec_op_complexity(kind, p) <= MAX_OP_COMPLEXITY,
{
    let d = p.glwe_dimension as int;
    let n = p.lwe_dimension as int;
    let size = p.polynomial_size as int;
    let l = p.level as int;
    match kind {
        OpKind::Input => {},
        OpKind::Add | OpKind::ConstMul { .. } => {
            assert(0 <= (d + 1) * size <= MAX_OP_COMPLEXITY) by (nonlinear_arith)
                requires
                    0 < d <= 64,
                    0 < size <= 16384,
            ;
        },
        OpKind::KeyswitchGlwe { output_glwe_dimension } => {
            let o = output_glwe_dimension as int;
            let count = d * l;
            assert(0 < d * l <= 4096) by (nonlinear_arith)
                requires
                    0 < d <= 64,
                    0 < l <= 64,
            ;
            assert(count + count * (o + 1) + ((count - 1) * (o + 1) + 1) <= MAX_OP_COMPLEXITY)
                by (nonlinear_arith)
                requires
                    0 < count <= 4096,
                    0 < o <= 64,
            ;
            assert(count + count * (o + 1) + ((count - 1) * (o + 1) + 1) >= 0)
                by (nonlinear_arith)
                requires
                    0 < count,
                    0 < o,
            ;
        },
        OpKind::Bootstrap => {
            assert(0 <= 2 * n * l * (d + 1) * size <= MAX_OP_COMPLEXITY) by (nonlinear_arith)
                requires
                    0 < n <= 1048576,
                    0 < l <= 64,
                    0 < d <= 64,
                    0 < size <= 16384,
            ;
        },
    }
}

/// Complexity of every operation kind is non-decreasing in the decomposition
/// level and in the dimensions, the polynomial size fixed.
pub proof fn lemma_op_complexity_monotone(kind: OpKind, p1: ParameterSet, p2: ParameterSet)
    requires
        p1.lwe_dimension <= p2.lwe_dimension,
        p1.glwe_dimension <= p2.glwe_dimension,
        p1.polynomial_size == p2.polynomial_size,
        p1.level <= p2.level,
    ensures
        spec_op_complexity(kind, p1) <= spec_op_complexity(kind, p2),
{
    match kind {
        OpKind::Input => {},
        OpKind::Add | OpKind::ConstMul { .. } => {
            crate::complexity::lemma_linear_op_complexity_monotone(
                p1.glwe_dimension as int,
                p2.glwe_dimension as int,
                p1.polynomial_size as int,
            );
        },
        OpKind::KeyswitchGlwe { output_glwe_dimension } => {
            crate::complexity::lemma_ks_glwe_complexity_monotone(
                p1.glwe_dimension as int,
                p2.glwe_dimension as int,
                output_glwe_dimension as int,
                output_glwe_dimension as int,
                p1.level as int,
                p2.level as int,
            );
        },
        OpKind::Bootstrap => {
            crate::complexity::lemma_bootstrap_complexity_monotone(
                p1.lwe_dimension as int,
                p2.lwe_dimension as int,
                p1.glwe_dimension as int,
                p2.glwe_dimension as int,
                p1.polynomial_size as int,
                p1.level as int,
                p2.level as int,
            );
        },
    }
}

/// Aggregate complexity of the first `i` nodes is non-decreasing in the
/// decomposition level and in the dimensions, the polynomial size fixed.
pub proof fn lemma_complexity_prefix_monotone(
    nodes: Seq<Node>,
    p1: ParameterSet,
    p2: ParameterSet,
    i: int,
)
    requires
        p1.lwe_dimension <= p2.lwe_dimension,
        p1.glwe_dimension <= p2.glwe_dimension,
        p1.polynomial_size == p2.polynomial_size,
        p1.level <= p2.level,
    ensures
        spec_complexity_prefix(nodes, p1, i) <= spec_complexity_prefix(nodes, p2, i),
    decreases i,
{
    if i > 0 {
        lemma_complexity_prefix_monotone(nodes, p1, p2, i - 1);
        lemma_op_complexity_monotone(nodes[i - 1].kind, p1, p2);
        vstd::arithmetic::mul::lemma_mul_inequality(
            spec_op_complexity(nodes[i - 1].kind, p1),
            spec_op_complexity(nodes[i - 1].kind, p2),
            nodes[i - 1].multiplicity as int,
        );
    }
}

/// Aggregate complexity of a whole graph is non-decreasing in the
/// decomposition level and in the dimensions, the polynomial size fixed.
pub proof fn lemma_total_complexity_monotone(nodes: Seq<Node>, p1: ParameterSet, p2: ParameterSet)
    requires
        p1.lwe_dimension <= p2.lwe_dimension,
        p1.glwe_dimension <= p2.glwe_dimension,
        p1.polynomial_size == p2.polynomial_size,
        p1.level <= p2.level,
    ensures
        spec_total_complexity(nodes, p1) <= spec_total_complexity(nodes, p2),
{
    lemma_complexity_prefix_monotone(nodes, p1, p2, nodes.len() as int);
}

} // verus!
