//! Value objects for LWE/GLWE/keyswitch parameter tuples, together with the
//! documented valid range of every field.

use vstd::prelude::*;

verus! {

/// Largest GLWE dimension any parameter tuple may carry.
pub const MAX_GLWE_DIMENSION: u64 = 64;

/// Largest polynomial size any parameter tuple may carry.
pub const MAX_POLYNOMIAL_SIZE: u64 = 16384;

/// Largest LWE dimension; equals `MAX_GLWE_DIMENSION * MAX_POLYNOMIAL_SIZE`,
/// the dimension of an LWE sample extracted from the largest GLWE ciphertext.
pub const MAX_LWE_DIMENSION: u64 = 1048576;

/// Largest decomposition level.
pub const MAX_LEVEL: u64 = 64;

/// Largest decomposition base logarithm.
pub const MAX_BASE_LOG: u64 = 64;

/// Largest ciphertext-modulus bit width the models accept.
pub const MAX_MODULUS_BITS: u64 = 64;

/// Dimension and polynomial size of a GLWE ciphertext family.
#[derive(Clone, Copy, Debug, PartialEq, Eq, Structural)]
pub struct GlweParameters {
    pub glwe_dimension: u64,
    pub polynomial_size: u64,
}

/// Radix decomposition used by keyswitch and bootstrap operations.
#[derive(Clone, Copy, Debug, PartialEq, Eq, Structural)]
pub struct KsDecompositionParameters {
    pub level: u64,
    pub base_log: u64,
}

/// Parameters of a GLWE-to-GLWE keyswitch: the input and output ciphertext
/// families and the decomposition used by the switch.
#[derive(Clone, Copy, Debug, PartialEq, Eq, Structural)]
pub struct KeyswitchGlweParameters {
    pub input_glwe_params: GlweParameters,
    pub output_glwe_params: GlweParameters,
    pub ks_decomposition_parameter: KsDecompositionParameters,
}

/// A full candidate parameter assignment explored by the optimizer.
///
/// `lwe_dimension` is the dimension of LWE samples extracted from the GLWE
/// ciphertexts, so a well-formed tuple has
/// `lwe_dimension == glwe_dimension * polynomial_size`.
#[derive(Clone, Copy, Debug, PartialEq, Eq, Structural)]
pub struct ParameterSet {
    pub lwe_dimension: u64,
    pub glwe_dimension: u64,
    pub polynomial_size: u64,
    pub base_log: u64,
    pub level: u64,
}

/// The algebraic validity domain of a parameter tuple under a given
/// ciphertext-modulus width: every field positive and within its documented
/// range, the decomposition covering no more than the modulus width, and the
/// LWE dimension equal to the dimension of extracted samples.
pub open spec fn spec_param_set_valid(p: ParameterSet, modulus_bits: u64) -> bool {
    &&& 0 < p.lwe_dimension <= MAX_LWE_DIMENSION
    &&& 0 < p.glwe_dimension <= MAX_GLWE_DIMENSION
    &&& 0 < p.polynomial_size <= MAX_POLYNOMIAL_SIZE
    &&& 0 < p.level <= MAX_LEVEL
    &&& 0 < p.base_log <= MAX_BASE_LOG
    &&& p.level * p.base_log <= modulus_bits
    &&& p.lwe_dimension == p.glwe_dimension * p.polynomial_size
}

impl ParameterSet {
    /// Decide membership in the validity domain.
    pub fn is_valid(&self, modulus_bits: u64) -> (r: bool)
        ensures
            r == spec_param_set_valid(*self, modulus_bits),
    {
        let in_range = 0 < self.lwe_dimension && self.lwe_dimension <= MAX_LWE_DIMENSION
            && 0 < self.glwe_dimension && self.glwe_dimension <= MAX_GLWE_DIMENSION
            && 0 < self.polynomial_size && self.polynomial_size <= MAX_POLYNOMIAL_SIZE
            && 0 < self.level && self.level <= MAX_LEVEL
            && 0 < self.base_log && self.base_log <= MAX_BASE_LOG;
        if !in_range {
            return false;
        }
        proof {
            vstd::arithmetic::mul::lemma_mul_upper_bound(
                self.level as int,
                MAX_LEVEL as int,
                self.base_log as int,
                MAX_BASE_LOG as int,
            );
            vstd::arithmetic::mul::lemma_mul_upper_bound(
                self.glwe_dimension as int,
                MAX_GLWE_DIMENSION as int,
                self.polynomial_size as int,
                MAX_POLYNOMIAL_SIZE as int,
            );
        }
        self.level * self.base_log <= modulus_bits
            && self.lwe_dimension == self.glwe_dimension * self.polynomial_size
    }
}

/// Target configuration threaded through an optimization: required security
/// level, maximum decryption-failure probability `2^-failure_prob_log2`,
/// ciphertext-modulus width, fresh-encryption noise level, and the bounds of
/// the search space.
#[derive(Clone, Copy, Debug, PartialEq, Eq, Structural)]
pub struct OptimizerConfig {
    /// Required security level in bits.
    pub target_security_bits: u64,
    /// The maximum decryption-failure probability is `2^-failure_prob_log2`.
    pub failure_prob_log2: u64,
    /// Bit width of the ciphertext modulus.
    pub modulus_bits: u64,
    /// Base-2 logarithm of the standard deviation of fresh encryption noise.
    pub fresh_noise_log2: u64,
    /// Largest GLWE dimension the search explores.
    pub max_glwe_dimension: u64,
    /// Polynomial size shared by all explored candidates.
    pub polynomial_size: u64,
    /// Largest decomposition level the search explores.
    pub max_level: u64,
}

/// Validity of a configuration: all bounds positive and within the documented
/// ranges, and the fresh noise strictly below the modulus width.
pub open spec fn spec_config_valid(cfg: OptimizerConfig) -> bool {
    &&& 4 <= cfg.modulus_bits <= MAX_MODULUS_BITS
    &&& cfg.fresh_noise_log2 < cfg.modulus_bits
    &&& 1 <= cfg.failure_prob_log2 <= 128
    &&& 1 <= cfg.max_glwe_dimension <= MAX_GLWE_DIMENSION
    &&& 1 <= cfg.polynomial_size <= MAX_POLYNOMIAL_SIZE
    &&& 1 <= cfg.max_level <= MAX_LEVEL
}

impl OptimizerConfig {
    /// Decide validity of the configuration.
    pub fn is_valid(&self) -> (r: bool)
        ensures
            r == spec_config_valid(*self),
    {
        4 <= self.modulus_bits && self.modulus_bits <= MAX_MODULUS_BITS
            && self.fresh_noise_log2 < self.modulus_bits
            && 1 <= self.failure_prob_log2 && self.failure_prob_log2 <= 128
            && 1 <= self.max_glwe_dimension && self.max_glwe_dimension <= MAX_GLWE_DIMENSION
            && 1 <= self.polynomial_size && self.polynomial_size <= MAX_POLYNOMIAL_SIZE
            && 1 <= self.max_level && self.max_level <= MAX_LEVEL
    }
}

} // verus!
