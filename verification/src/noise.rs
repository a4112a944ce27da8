//! Noise models: estimated error-variance growth through each homomorphic
//! primitive, and the conversion of a maximum decryption-failure probability
//! into a maximum tolerable variance.
//!
//! Variance is tracked in integer units on a fixed absolute scale: a fresh
//! encryption at noise level `f` carries variance `2^(2 f)`. Propagation
//! saturates at `u128::MAX`; a saturated value exceeds every tolerable bound,
//! so saturation can only make a candidate infeasible, never feasible.

use vstd::prelude::*;
use vstd::arithmetic::power2::pow2;
use vstd::arithmetic::power2::lemma_pow2_adds;
use vstd::arithmetic::power2::lemma_pow2_strictly_increases;
use vstd::arithmetic::power2::lemma2_to64;
use vstd::arithmetic::div_mod::lemma_div_is_ordered_by_denominator;
use crate::parameters::MAX_MODULUS_BITS;

verus! {

/// Error variance carried by a ciphertext, in fixed absolute units.
pub type NoiseVariance = u128;

/// Addition saturating at `u128::MAX`.
pub open spec fn spec_sat_add(a: int, b: int) -> int {
    if a + b > u128::MAX {
        u128::MAX as int
    } else {
        a + b
    }
}

/// Multiplication saturating at `u128::MAX`.
pub open spec fn spec_sat_mul(a: int, b: int) -> int {
    if a * b > u128::MAX {
        u128::MAX as int
    } else {
        a * b
    }
}

/// `2^e`, saturating at `u128::MAX` once the exponent leaves the
/// representable range.
pub open spec fn spec_sat_pow2(e: int) -> int {
    if e >= 128 {
        u128::MAX as int
    } else {
        pow2(e as nat) as int
    }
}

/// Saturating addition of variances.
pub fn sat_add(a: u128, b: u128) -> (r: u128)
    ensures
        r == spec_sat_add(a as int, b as int),
{
    if a <= u128::MAX - b {
        a + b
    } else {
        u128::MAX
    }
}

/// Saturating multiplication of variances.
pub fn sat_mul(a: u128, b: u128) -> (r: u128)
    ensures
        r == spec_sat_mul(a as int, b as int),
{
    match a.checked_mul(b) {
        Some(v) => v,
        None => u128::MAX,
    }
}

/// `2^e` saturating at `u128::MAX`, by repeated doubling.
pub fn sat_pow2(e: u64) -> (r: u128)
    ensures
        r == spec_sat_pow2(e as int),
{
    if e >= 128 {
        return u128::MAX;
    }
    proof {
        lemma2_to64();
        vstd::arithmetic::power2::lemma2_to64_rest();
        lemma_pow2_adds(64, 63);
        assert(pow2(127) == pow2(64) * pow2(63));
    }
    let mut r: u128 = 1;
    let mut i: u64 = 0;
    while i < e
        invariant
            i <= e,
            e <= 127,
            r == pow2(i as nat),
            pow2(64) == 0x10000000000000000,
            pow2(63) == 0x8000000000000000,
            pow2(127) == 0x80000000000000000000000000000000,
        decreases e - i,
    {
        proof {
            if (i as nat) < 127 {
                lemma_pow2_strictly_increases(i as nat, 127);
            }
            lemma_pow2_adds(i as nat, 1);
            lemma2_to64();
        }
        r = r * 2;
        i = i + 1;
    }
    r
}

/// Variance of a fresh encryption at noise level `fresh_noise_log2`.
pub open spec fn spec_fresh_noise(fresh_noise_log2: int) -> int {
    spec_sat_pow2(2 * fresh_noise_log2)
}

/// Variance of a fresh encryption; see [`spec_fresh_noise`].
pub fn fresh_noise(fresh_noise_log2: u64) -> (r: NoiseVariance)
    ensures
        r == spec_fresh_noise(fresh_noise_log2 as int),
{
    if fresh_noise_log2 >= 64 {
        sat_pow2(128)
    } else {
        sat_pow2(2 * fresh_noise_log2)
    }
}

/// Variance after a homomorphic addition: the variances of the two summands
/// add.
pub open spec fn spec_add_noise(a: int, b: int) -> int {
    spec_sat_add(a, b)
}

/// Variance after a homomorphic addition; see [`spec_add_noise`].
pub fn add_noise(a: NoiseVariance, b: NoiseVariance) -> (r: NoiseVariance)
    ensures
        r == spec_add_noise(a as int, b as int),
{
    sat_add(a, b)
}

/// Variance after multiplying a ciphertext by a known constant of magnitude
/// `2^multiplier_log2`: variance scales with the square of the constant.
pub open spec fn spec_const_mul_noise(input: int, multiplier_log2: int) -> int {
    spec_sat_mul(input, spec_sat_pow2(2 * multiplier_log2))
}

/// Variance after a constant multiplication; see [`spec_const_mul_noise`].
pub fn const_mul_noise(input: NoiseVariance, multiplier_log2: u64) -> (r: NoiseVariance)
    ensures
        r == spec_const_mul_noise(input as int, multiplier_log2 as int),
{
    let factor = if multiplier_log2 >= 64 {
        sat_pow2(128)
    } else {
        sat_pow2(2 * multiplier_log2)
    };
    sat_mul(input, factor)
}

/// Variance added by a GLWE-to-GLWE keyswitch on top of the input variance:
/// a decomposition-rounding term `2^(2 (modulus_bits - level base_log))`,
/// plus a key-noise term proportional to the number of decomposed
/// coefficients and to the squared decomposition base times the key noise.
pub open spec fn spec_keyswitch_added_noise(
    input_glwe_dimension: int,
    polynomial_size: int,
    level: int,
    base_log: int,
    modulus_bits: int,
    fresh_noise_log2: int,
) -> int {
    let rounding = if level * base_log >= modulus_bits {
        0
    } else {
        spec_sat_pow2(2 * (modulus_bits - level * base_log))
    };
    let key_term = spec_sat_mul(
        spec_sat_mul(spec_sat_mul(input_glwe_dimension, polynomial_size), level),
        spec_sat_pow2(2 * (base_log + fresh_noise_log2)),
    );
    spec_sat_add(rounding, key_term)
}

/// Variance after a GLWE-to-GLWE keyswitch: the input variance plus the
/// added term of [`spec_keyswitch_added_noise`].
pub open spec fn spec_keyswitch_noise(
    input: int,
    input_glwe_dimension: int,
    polynomial_size: int,
    level: int,
    base_log: int,
    modulus_bits: int,
    fresh_noise_log2: int,
) -> int {
    spec_sat_add(
        input,
        spec_keyswitch_added_noise(
            input_glwe_dimension,
            polynomial_size,
            level,
            base_log,
            modulus_bits,
            fresh_noise_log2,
        ),
    )
}

/// Variance after a GLWE-to-GLWE keyswitch; see [`spec_keyswitch_noise`].
pub fn keyswitch_noise(
    input: NoiseVariance,
    input_glwe_dimension: u64,
    polynomial_size: u64,
    level: u64,
    base_log: u64,
    modulus_bits: u64,
    fresh_noise_log2: u64,
) -> (r: NoiseVariance)
    requires
        level <= crate::parameters::MAX_LEVEL,
        base_log <= crate::parameters::MAX_BASE_LOG,
        modulus_bits <= MAX_MODULUS_BITS,
        base_log + fresh_noise_log2 <= 128,
    ensures
        r == spec_keyswitch_noise(
            input as int,
            input_glwe_dimension as int,
            polynomial_size as int,
            level as int,
            base_log as int,
            modulus_bits as int,
            fresh_noise_log2 as int,
        ),
{
    assert(level * base_log <= crate::parameters::MAX_LEVEL * crate::parameters::MAX_BASE_LOG)
        by (nonlinear_arith)
        requires
            level <= crate::parameters::MAX_LEVEL,
            base_log <= crate::parameters::MAX_BASE_LOG,
    ;
    let decomposed: u64 = level * base_log;
    let rounding: u128 = if decomposed >= modulus_bits {
        0
    } else {
        sat_pow2(2 * (modulus_bits - decomposed))
    };
    let key_term: u128 = sat_mul(
        sat_mul(sat_mul(input_glwe_dimension as u128, polynomial_size as u128), level as u128),
        sat_pow2(2 * (base_log + fresh_noise_log2)),
    );
    sat_add(input, sat_add(rounding, key_term))
}

/// Variance of a bootstrap output. A bootstrap refreshes noise: the result
/// does not depend on the input variance, only on the bootstrap parameters,
/// through the same decomposition key-noise shape as a keyswitch over the
/// `lwe_dimension` external products.
pub open spec fn spec_bootstrap_noise(
    lwe_dimension: int,
    glwe_dimension: int,
    polynomial_size: int,
    level: int,
    base_log: int,
    fresh_noise_log2: int,
) -> int {
    spec_sat_mul(
        spec_sat_mul(
            spec_sat_mul(lwe_dimension, level),
            spec_sat_mul(glwe_dimension + 1, polynomial_size),
        ),
        spec_sat_pow2(2 * (base_log + fresh_noise_log2)),
    )
}

/// Variance of a bootstrap output; see [`spec_bootstrap_noise`].
pub fn bootstrap_noise(
    lwe_dimension: u64,
    glwe_dimension: u64,
    polynomial_size: u64,
    level: u64,
    base_log: u64,
    fresh_noise_log2: u64,
) -> (r: NoiseVariance)
    requires
        glwe_dimension < u64::MAX,
        base_log + fresh_noise_log2 <= 128,
    ensures
        r == spec_bootstrap_noise(
            lwe_dimension as int,
            glwe_dimension as int,
            polynomial_size as int,
            level as int,
            base_log as int,
            fresh_noise_log2 as int,
        ),
{
    sat_mul(
        sat_mul(
            sat_mul(lwe_dimension as u128, level as u128),
            sat_mul(glwe_dimension as u128 + 1, polynomial_size as u128),
        ),
        sat_pow2(2 * (base_log + fresh_noise_log2)),
    )
}

/// The largest variance a ciphertext may carry so that, under the model's
/// tail bound, decryption fails with probability at most
/// `2^-failure_prob_log2`: the squared decryption margin `2^(2 (modulus_bits
/// - 2))` shrunk by twice the failure exponent.
pub open spec fn spec_noise_bound(modulus_bits: int, failure_prob_log2: int) -> int {
    pow2((2 * (modulus_bits - 2)) as nat) as int / (2 * failure_prob_log2)
}

/// Maximum tolerable variance; see [`spec_noise_bound`].
pub fn noise_bound(modulus_bits: u64, failure_prob_log2: u64) -> (r: NoiseVariance)
    requires
        4 <= modulus_bits <= MAX_MODULUS_BITS,
        1 <= failure_prob_log2 <= 128,
    ensures
        r == spec_noise_bound(modulus_bits as int, failure_prob_log2 as int),
{
    let margin = sat_pow2(2 * (modulus_bits - 2));
    margin / (2 * failure_prob_log2 as u128)
}

/// Tightening the failure-probability bound never raises the tolerable
/// variance: with the modulus fixed, a larger failure exponent (a smaller
/// tolerated failure probability) gives a bound at most as large.
pub proof fn lemma_noise_bound_antitone(modulus_bits: int, f1: int, f2: int)
    requires
        2 <= modulus_bits,
        1 <= f1 <= f2,
    ensures
        spec_noise_bound(modulus_bits, f2) <= spec_noise_bound(modulus_bits, f1),
{
    lemma_div_is_ordered_by_denominator(
        pow2((2 * (modulus_bits - 2)) as nat) as int,
        2 * f1,
        2 * f2,
    );
}

} // verus!
