//! Security model: estimated attack strength in bits as a function of the
//! LWE dimension, the fresh-noise level and the ciphertext-modulus width,
//! together with its inverse.
//!
//! The estimate follows a fixed, versioned linear rule of thumb for lattice
//! attacks: security grows proportionally to the dimension and inversely to
//! the gap between the modulus width and the noise level. Changing the slope
//! constants below is a breaking change: it changes which parameters are
//! deemed secure.

use vstd::prelude::*;
use vstd::arithmetic::div_mod::lemma_div_is_ordered;
use vstd::arithmetic::div_mod::lemma_div_multiples_vanish;
use vstd::arithmetic::div_mod::lemma_fundamental_div_mod;
use vstd::arithmetic::div_mod::lemma_fundamental_div_mod_converse;
use vstd::arithmetic::mul::lemma_mul_inequality;
use vstd::arithmetic::mul::lemma_mul_strictly_positive;
use crate::parameters::MAX_MODULUS_BITS;

verus! {

/// Cap on any reported security estimate, in bits. Estimates beyond the cap
/// carry no additional information and are clamped to keep every figure
/// representable.
pub const SECURITY_CAP: u64 = 9999;

/// Numerator of the model's slope: one dimension unit contributes
/// `SECURITY_NUM / (SECURITY_DEN * (modulus_bits - fresh_noise_log2))` bits.
pub const SECURITY_NUM: u64 = 53;

/// Denominator of the model's slope.
pub const SECURITY_DEN: u64 = 200;

/// Estimated attack strength, in bits, of an LWE instance of the given
/// dimension, fresh-noise level and modulus width. When the noise level
/// reaches the modulus width the instance is as hard as the model can state,
/// so the estimate is the cap.
pub open spec fn spec_security_bits(dimension: int, fresh_noise_log2: int, modulus_bits: int) -> int {
    if modulus_bits <= fresh_noise_log2 {
        SECURITY_CAP as int
    } else {
        let raw = (dimension * SECURITY_NUM) / ((modulus_bits - fresh_noise_log2) * SECURITY_DEN);
        if raw > SECURITY_CAP { SECURITY_CAP as int } else { raw }
    }
}

/// Estimated attack strength in bits. Pure and deterministic; the result is
/// exactly the model's formula.
pub fn security_bits(dimension: u64, fresh_noise_log2: u64, modulus_bits: u64) -> (r: u64)
    ensures
        r == spec_security_bits(dimension as int, fresh_noise_log2 as int, modulus_bits as int),
        r <= SECURITY_CAP,
{
    if modulus_bits <= fresh_noise_log2 {
        SECURITY_CAP
    } else {
        proof {
            vstd::arithmetic::mul::lemma_mul_upper_bound(
                dimension as int,
                u64::MAX as int,
                SECURITY_NUM as int,
                SECURITY_NUM as int,
            );
            vstd::arithmetic::mul::lemma_mul_upper_bound(
                (modulus_bits - fresh_noise_log2) as int,
                u64::MAX as int,
                SECURITY_DEN as int,
                SECURITY_DEN as int,
            );
        }
        let num: u128 = (dimension as u128) * (SECURITY_NUM as u128);
        let den: u128 = ((modulus_bits - fresh_noise_log2) as u128) * (SECURITY_DEN as u128);
        let raw: u128 = num / den;
        if raw > SECURITY_CAP as u128 {
            SECURITY_CAP
        } else {
            raw as u64
        }
    }
}

/// Monotonicity of the security model: raising the dimension, with noise and
/// modulus fixed, never lowers the estimated security. The search relies on
/// this for pruning.
pub proof fn lemma_security_bits_monotone(d1: int, d2: int, fresh_noise_log2: int, modulus_bits: int)
    requires
        0 <= d1 <= d2,
    ensures
        spec_security_bits(d1, fresh_noise_log2, modulus_bits)
            <= spec_security_bits(d2, fresh_noise_log2, modulus_bits),
{
    if fresh_noise_log2 < modulus_bits {
        let den = (modulus_bits - fresh_noise_log2) * (SECURITY_DEN as int);
        lemma_mul_strictly_positive(modulus_bits - fresh_noise_log2, SECURITY_DEN as int);
        lemma_mul_inequality(d1, d2, SECURITY_NUM as int);
        lemma_div_is_ordered(d1 * (SECURITY_NUM as int), d2 * (SECURITY_NUM as int), den);
    }
}

/// Inverse of the security model: the smallest dimension whose estimated
/// security reaches `target_bits`, for the given noise level and modulus
/// width. Every smaller dimension falls short of the target.
pub fn min_dimension_for(target_bits: u64, fresh_noise_log2: u64, modulus_bits: u64) -> (r: u64)
    requires
        fresh_noise_log2 < modulus_bits,
        modulus_bits <= MAX_MODULUS_BITS,
        target_bits <= SECURITY_CAP,
    ensures
        spec_security_bits(r as int, fresh_noise_log2 as int, modulus_bits as int) >= target_bits,
        forall|d: int|
            0 <= d < r ==> spec_security_bits(d, fresh_noise_log2 as int, modulus_bits as int)
                < target_bits,
{
    proof {
        lemma_mul_inequality(
            modulus_bits - fresh_noise_log2,
            MAX_MODULUS_BITS as int,
            SECURITY_DEN as int,
        );
    }
    let den: u64 = (modulus_bits - fresh_noise_log2) * SECURITY_DEN;
    proof {
        vstd::arithmetic::mul::lemma_mul_upper_bound(
            target_bits as int,
            SECURITY_CAP as int,
            den as int,
            (MAX_MODULUS_BITS * SECURITY_DEN) as int,
        );
    }
    let r: u64 = (target_bits * den + (SECURITY_NUM - 1)) / SECURITY_NUM;
    proof {
        let t = target_bits as int;
        let dn = den as int;
        let n = SECURITY_NUM as int;
        let ri = r as int;
        lemma_mul_strictly_positive(modulus_bits - fresh_noise_log2, SECURITY_DEN as int);
        // r * n >= t * dn, hence security at r reaches the target.
        lemma_fundamental_div_mod(t * dn + (n - 1), n);
        assert(ri * n >= t * dn);
        lemma_div_is_ordered(t * dn, ri * n, dn);
        lemma_div_multiples_vanish(t, dn);
        assert((ri * n) / dn >= t);
        // Every dimension below r falls short of the target.
        if t > 0 {
            assert forall|d: int| 0 <= d < r implies spec_security_bits(
                d,
                fresh_noise_log2 as int,
                modulus_bits as int,
            ) < t by {
                // d * n <= (r - 1) * n <= t * dn - 1, and (t * dn - 1) / dn == t - 1.
                lemma_mul_inequality(d, ri - 1, n);
                assert(ri * n <= t * dn + n - 1);
                assert((ri - 1) * n == ri * n - n) by {
                    vstd::arithmetic::mul::lemma_mul_is_distributive_sub_other_way(n, ri, 1);
                }
                assert(d * n <= t * dn - 1);
                lemma_div_is_ordered(d * n, t * dn - 1, dn);
                assert((t - 1) * dn == t * dn - dn) by {
                    vstd::arithmetic::mul::lemma_mul_is_distributive_sub_other_way(dn, t, 1);
                }
                lemma_fundamental_div_mod_converse(t * dn - 1, dn, t - 1, dn - 1);
                assert((t * dn - 1) / dn == t - 1);
            }
        }
    }
    r
}

} // verus!
