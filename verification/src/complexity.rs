//! Complexity models: one pure function per homomorphic primitive mapping
//! parameters to a scalar cost.
//!
//! Costs are a proxy for execution effort, not a wall-clock unit: they are
//! nonnegative, additive across independent operations and totally ordered.
//! Every formula is exact integer arithmetic, widened where products could
//! grow, so no rounding direction can bias the optimizer; degenerate tuples
//! (a zero dimension or level) cost zero rather than wrapping around.

use vstd::prelude::*;
use crate::parameters::KeyswitchGlweParameters;
use crate::parameters::MAX_GLWE_DIMENSION;
use crate::parameters::MAX_LEVEL;
use crate::parameters::MAX_LWE_DIMENSION;
use crate::parameters::MAX_POLYNOMIAL_SIZE;

verus! {

/// Scalar cost of an operation or of a whole graph.
pub type Complexity = u128;

/// Cost of a GLWE-to-GLWE keyswitch: one decomposition per input polynomial
/// and level, one polynomial multiplication per decomposition and output
/// polynomial, and the additions folding those products into the output.
/// A degenerate tuple (zero input dimension or level) performs no work.
pub open spec fn spec_ks_glwe_complexity(
    input_glwe_dimension: int,
    output_glwe_dimension: int,
    level: int,
) -> int {
    let count_decomposition = input_glwe_dimension * level;
    if count_decomposition == 0 {
        0
    } else {
        let output_glwe_size = output_glwe_dimension + 1;
        let count_mul = count_decomposition * output_glwe_size;
        let count_add = (count_decomposition - 1) * output_glwe_size + 1;
        count_decomposition + count_mul + count_add
    }
}

/// Cost of a coefficient-wise operation (addition or multiplication by a
/// constant) on a GLWE ciphertext: one scalar operation per coefficient of
/// each of the `glwe_dimension + 1` polynomials.
pub open spec fn spec_linear_op_complexity(glwe_dimension: int, polynomial_size: int) -> int {
    (glwe_dimension + 1) * polynomial_size
}

/// Cost of a programmable bootstrap: for each of the `lwe_dimension` external
/// products, `level` decompositions over `glwe_dimension + 1` polynomials of
/// `polynomial_size` coefficients, counting a multiplication and an addition
/// per coefficient.
pub open spec fn spec_bootstrap_complexity(
    lwe_dimension: int,
    glwe_dimension: int,
    polynomial_size: int,
    level: int,
) -> int {
    2 * lwe_dimension * level * (glwe_dimension + 1) * polynomial_size
}

/// The GLWE-keyswitch complexity model.
#[derive(Default, Clone, Copy)]
pub struct KsGlweComplexity;

impl KsGlweComplexity {
    /// Cost of one GLWE-to-GLWE keyswitch under the given parameters. The
    /// ciphertext-modulus width does not influence the operation count of
    /// this primitive; it is threaded through for uniformity with the other
    /// models. Pure and deterministic; the result is exactly the model's
    /// formula.
    pub fn complexity(
        &self,
        params: KeyswitchGlweParameters,
        _ciphertext_modulus_log: u32,
    ) -> (r: Complexity)
        requires
            params.input_glwe_params.glwe_dimension <= MAX_GLWE_DIMENSION,
            params.output_glwe_params.glwe_dimension <= MAX_GLWE_DIMENSION,
            params.ks_decomposition_parameter.level <= MAX_LEVEL,
        ensures
            r == spec_ks_glwe_complexity(
                params.input_glwe_params.glwe_dimension as int,
                params.output_glwe_params.glwe_dimension as int,
                params.ks_decomposition_parameter.level as int,
            ),
    {
        let input_glwe_dimension = params.input_glwe_params.glwe_dimension;
        let output_glwe_dimension = params.output_glwe_params.glwe_dimension;
        let level = params.ks_decomposition_parameter.level;
        assert(input_glwe_dimension * level <= MAX_GLWE_DIMENSION * MAX_LEVEL)
            by (nonlinear_arith)
            requires
                input_glwe_dimension <= MAX_GLWE_DIMENSION,
                level <= MAX_LEVEL,
        ;
        let count_decomposition: u64 = input_glwe_dimension * level;
        if count_decomposition == 0 {
            0
        } else {
            let output_glwe_size: u64 = output_glwe_dimension + 1;
            assert(count_decomposition * output_glwe_size
                <= MAX_GLWE_DIMENSION * MAX_LEVEL * (MAX_GLWE_DIMENSION + 1))
                by (nonlinear_arith)
                requires
                    count_decomposition <= MAX_GLWE_DIMENSION * MAX_LEVEL,
                    output_glwe_size <= MAX_GLWE_DIMENSION + 1,
            ;
            assert((count_decomposition - 1) * output_glwe_size
                <= MAX_GLWE_DIMENSION * MAX_LEVEL * (MAX_GLWE_DIMENSION + 1))
                by (nonlinear_arith)
                requires
                    1 <= count_decomposition <= MAX_GLWE_DIMENSION * MAX_LEVEL,
                    output_glwe_size <= MAX_GLWE_DIMENSION + 1,
            ;
            let count_mul: u64 = count_decomposition * output_glwe_size;
            let count_add: u64 = (count_decomposition - 1) * output_glwe_size + 1;
            (count_decomposition + count_mul + count_add) as Complexity
        }
    }
}

/// Cost of a coefficient-wise GLWE operation; see
/// [`spec_linear_op_complexity`].
pub fn linear_op_complexity(glwe_dimension: u64, polynomial_size: u64) -> (r: Complexity)
    requires
        glwe_dimension <= MAX_GLWE_DIMENSION,
        polynomial_size <= MAX_POLYNOMIAL_SIZE,
    ensures
        r == spec_linear_op_complexity(glwe_dimension as int, polynomial_size as int),
{
    assert((glwe_dimension + 1) * polynomial_size <= (MAX_GLWE_DIMENSION + 1) * MAX_POLYNOMIAL_SIZE)
        by (nonlinear_arith)
        requires
            glwe_dimension <= MAX_GLWE_DIMENSION,
            polynomial_size <= MAX_POLYNOMIAL_SIZE,
    ;
    ((glwe_dimension as u128) + 1) * (polynomial_size as u128)
}

/// Cost of a programmable bootstrap; see [`spec_bootstrap_complexity`].
pub fn bootstrap_complexity(
    lwe_dimension: u64,
    glwe_dimension: u64,
    polynomial_size: u64,
    level: u64,
) -> (r: Complexity)
    requires
        lwe_dimension <= MAX_LWE_DIMENSION,
        glwe_dimension <= MAX_GLWE_DIMENSION,
        polynomial_size <= MAX_POLYNOMIAL_SIZE,
        level <= MAX_LEVEL,
    ensures
        r == spec_bootstrap_complexity(
            lwe_dimension as int,
            glwe_dimension as int,
            polynomial_size as int,
            level as int,
        ),
{
    let n = lwe_dimension as u128;
    let k1 = (glwe_dimension + 1) as u128;
    let size = polynomial_size as u128;
    let l = level as u128;
    let a: u128 = 2 * n;
    assert(a * l <= 2 * MAX_LWE_DIMENSION * MAX_LEVEL) by (nonlinear_arith)
        requires
            a <= 2 * MAX_LWE_DIMENSION,
            l <= MAX_LEVEL,
    ;
    let b: u128 = a * l;
    assert(b * k1 <= 2 * MAX_LWE_DIMENSION * MAX_LEVEL * (MAX_GLWE_DIMENSION + 1))
        by (nonlinear_arith)
        requires
            b <= 2 * MAX_LWE_DIMENSION * MAX_LEVEL,
            k1 <= MAX_GLWE_DIMENSION + 1,
    ;
    let c: u128 = b * k1;
    assert(c * size <= 2 * MAX_LWE_DIMENSION * MAX_LEVEL * (MAX_GLWE_DIMENSION + 1)
        * MAX_POLYNOMIAL_SIZE) by (nonlinear_arith)
        requires
            c <= 2 * MAX_LWE_DIMENSION * MAX_LEVEL * (MAX_GLWE_DIMENSION + 1),
            size <= MAX_POLYNOMIAL_SIZE,
    ;
    c * size
}

/// Complexity is non-decreasing in the decomposition level and in the input
/// and output dimensions of a GLWE keyswitch, other parameters fixed.
pub proof fn lemma_ks_glwe_complexity_monotone(
    d1: int,
    d2: int,
    o1: int,
    o2: int,
    l1: int,
    l2: int,
)
    requires
        0 <= d1 <= d2,
        0 <= o1 <= o2,
        0 <= l1 <= l2,
    ensures
        spec_ks_glwe_complexity(d1, o1, l1) <= spec_ks_glwe_complexity(d2, o2, l2),
{
    let p1 = d1 * l1;
    let p2 = d2 * l2;
    assert(0 <= d1 * l1 && d1 * l1 <= d2 * l2) by (nonlinear_arith)
        requires
            0 <= d1 <= d2,
            0 <= l1 <= l2,
    ;
    if p1 == 0 {
        if p2 != 0 {
            assert(p2 + p2 * (o2 + 1) + ((p2 - 1) * (o2 + 1) + 1) >= 0) by (nonlinear_arith)
                requires
                    p2 >= 1,
                    o2 >= 0,
            ;
        }
    } else {
        assert(p1 + p1 * (o1 + 1) + ((p1 - 1) * (o1 + 1) + 1) <= p2 + p2 * (o2 + 1) + ((p2 - 1) * (
        o2 + 1) + 1)) by (nonlinear_arith)
            requires
                1 <= p1 <= p2,
                0 <= o1 <= o2,
        ;
    }
}

/// Complexity of a coefficient-wise GLWE operation is non-decreasing in the
/// dimension, the polynomial size fixed.
pub proof fn lemma_linear_op_complexity_monotone(d1: int, d2: int, polynomial_size: int)
    requires
        0 <= d1 <= d2,
        0 <= polynomial_size,
    ensures
        spec_linear_op_complexity(d1, polynomial_size)
            <= spec_linear_op_complexity(d2, polynomial_size),
{
    vstd::arithmetic::mul::lemma_mul_inequality(d1 + 1, d2 + 1, polynomial_size);
}

/// Bootstrap complexity is non-decreasing in the decomposition level and in
/// both dimensions, other parameters fixed.
pub proof fn lemma_bootstrap_complexity_monotone(
    n1: int,
    n2: int,
    d1: int,
    d2: int,
    polynomial_size: int,
    l1: int,
    l2: int,
)
    requires
        0 <= n1 <= n2,
        0 <= d1 <= d2,
        0 <= polynomial_size,
        0 <= l1 <= l2,
    ensures
        spec_bootstrap_complexity(n1, d1, polynomial_size, l1)
            <= spec_bootstrap_complexity(n2, d2, polynomial_size, l2),
{
    assert(2 * n1 * l1 * (d1 + 1) * polynomial_size <= 2 * n2 * l2 * (d2 + 1) * polynomial_size)
        by (nonlinear_arith)
        requires
            0 <= n1 <= n2,
            0 <= d1 <= d2,
            0 <= polynomial_size,
            0 <= l1 <= l2,
    ;
}

} // verus!
