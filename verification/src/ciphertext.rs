//! GLWE ciphertext data and sample extraction: turning one coefficient of a
//! GLWE ciphertext into an LWE ciphertext under the extracted key.
//!
//! A GLWE ciphertext stores its mask (`dimension` polynomials of
//! `polynomial_size` coefficients) followed by its body polynomial. Sample
//! extraction of the `n_th` coefficient writes an LWE ciphertext whose body
//! is the body's `n_th` coefficient and whose mask polynomials are the GLWE
//! mask polynomials reversed around `n_th` with the wrapped coefficients
//! negated modulo `2^64`.

use vstd::prelude::*;
use vstd::arithmetic::div_mod::lemma_fundamental_div_mod_converse;
use vstd::arithmetic::mul::lemma_mul_inequality;
use vstd::arithmetic::mul::lemma_mul_is_distributive_add_other_way;
use crate::parameters::MAX_GLWE_DIMENSION;
use crate::parameters::MAX_POLYNOMIAL_SIZE;

verus! {

/// Dimension and polynomial size of a GLWE ciphertext's storage.
#[derive(Clone, Copy, Debug, PartialEq, Eq, Structural)]
pub struct GlweParams {
    pub dimension: usize,
    pub polynomial_size: usize,
}

impl GlweParams {
    /// Within the documented ranges and positive.
    pub open spec fn valid(self) -> bool {
        &&& 0 < self.dimension <= MAX_GLWE_DIMENSION
        &&& 0 < self.polynomial_size <= MAX_POLYNOMIAL_SIZE
    }

    /// The dimension of LWE samples extracted from such a ciphertext: one
    /// coefficient per mask polynomial coefficient.
    pub open spec fn spec_lwe_dimension(self) -> int {
        self.dimension * self.polynomial_size
    }

    /// The dimension of extracted LWE samples.
    pub fn lwe_dimension(&self) -> (r: usize)
        requires
            self.valid(),
        ensures
            r == self.spec_lwe_dimension(),
    {
        assert(self.dimension * self.polynomial_size <= MAX_GLWE_DIMENSION * MAX_POLYNOMIAL_SIZE)
            by (nonlinear_arith)
            requires
                self.dimension <= MAX_GLWE_DIMENSION,
                self.polynomial_size <= MAX_POLYNOMIAL_SIZE,
        ;
        self.dimension * self.polynomial_size
    }
}

/// A GLWE ciphertext: its parameters and its coefficients, mask polynomials
/// first, body polynomial last.
pub struct GlweCiphertext {
    pub glwe_params: GlweParams,
    pub data: Vec<u64>,
}

/// An LWE ciphertext: `lwe_dimension` mask coefficients followed by the body.
pub struct LweCiphertext {
    pub lwe_dimension: usize,
    pub data: Vec<u64>,
}

impl LweCiphertext {
    /// The storage holds exactly the mask and the body.
    pub open spec fn wf(self) -> bool {
        self.data@.len() == self.lwe_dimension + 1
    }
}

/// The additive inverse modulo `2^64`.
pub open spec fn spec_wrapping_neg(x: u64) -> u64 {
    if x == 0 {
        0u64
    } else {
        (0x10000000000000000 - x) as u64
    }
}

/// The additive inverse modulo `2^64`; see [`spec_wrapping_neg`].
pub fn wrapping_neg_u64(x: u64) -> (r: u64)
    ensures
        r == spec_wrapping_neg(x),
{
    if x == 0 {
        0
    } else {
        u64::MAX - x + 1
    }
}

/// The coefficient standing at position `i` of the extracted LWE mask when
/// the `n_th` coefficient is extracted: position `pos` of mask polynomial
/// `poly` receives coefficient `n_th - pos` of that polynomial, or the
/// negated coefficient `polynomial_size + n_th - pos` once `pos` passes
/// `n_th` and the lookup wraps around.
pub open spec fn spec_extracted_mask_coeff(glwe: GlweCiphertext, n_th: int, i: int) -> u64 {
    let nsize = glwe.glwe_params.polynomial_size as int;
    let poly = i / nsize;
    let pos = i % nsize;
    if pos <= n_th {
        glwe.data@[poly * nsize + n_th - pos]
    } else {
        spec_wrapping_neg(glwe.data@[poly * nsize + nsize + n_th - pos])
    }
}

impl GlweCiphertext {
    /// The storage holds the mask polynomials and the body polynomial.
    pub open spec fn wf(self) -> bool {
        &&& self.glwe_params.valid()
        &&& self.data@.len() == (self.glwe_params.dimension + 1)
            * self.glwe_params.polynomial_size
    }

    /// Extract the `n_th` coefficient as an LWE ciphertext under the
    /// extracted key: the body receives coefficient `n_th` of the GLWE body,
    /// the mask positions beyond the extracted dimension are cleared, and
    /// every extracted mask coefficient is the reversed, negated-and-rotated
    /// GLWE mask coefficient of [`spec_extracted_mask_coeff`].
    #[verifier::loop_isolation(false)]
    pub fn sample_extract(&self, lwe: &mut LweCiphertext, n_th: usize)
        requires
            self.wf(),
            old(lwe).wf(),
            n_th < self.glwe_params.polynomial_size,
            self.glwe_params.spec_lwe_dimension() <= old(lwe).lwe_dimension,
        ensures
            final(lwe).lwe_dimension == old(lwe).lwe_dimension,
            final(lwe).wf(),
            final(lwe).data@[old(lwe).lwe_dimension as int] == self.data@[
                self.glwe_params.spec_lwe_dimension() + n_th],
            forall|i: int|
                self.glwe_params.spec_lwe_dimension() <= i < old(lwe).lwe_dimension
                    ==> final(lwe).data@[i] == 0,
            forall|i: int|
                0 <= i < self.glwe_params.spec_lwe_dimension() ==> final(lwe).data@[i]
                    == spec_extracted_mask_coeff(*self, n_th as int, i),
    {
        let dim = self.glwe_params.dimension;
        let nsize = self.glwe_params.polynomial_size;
        assert(dim * nsize <= MAX_GLWE_DIMENSION * MAX_POLYNOMIAL_SIZE && (dim + 1) * nsize == dim
            * nsize + nsize) by (nonlinear_arith)
            requires
                dim <= MAX_GLWE_DIMENSION,
                nsize <= MAX_POLYNOMIAL_SIZE,
        ;
        let mask_len: usize = dim * nsize;
        // Clear the mask positions beyond the extracted dimension.
        let mut i: usize = mask_len;
        while i < lwe.lwe_dimension
            invariant
                lwe.lwe_dimension == old(lwe).lwe_dimension,
                lwe.data@.len() == old(lwe).data@.len(),
                mask_len <= i <= lwe.lwe_dimension,
                forall|k: int| mask_len <= k < i ==> lwe.data@[k] == 0,
            decreases lwe.lwe_dimension - i,
        {
            lwe.data.set(i, 0);
            i += 1;
        }
        // Copy the body coefficient.
        let body_val = self.data[mask_len + n_th];
        let last: usize = lwe.lwe_dimension;
        lwe.data.set(last, body_val);
        // Fill the extracted mask, polynomial by polynomial.
        let mut p: usize = 0;
        while p < dim
            invariant
                lwe.lwe_dimension == old(lwe).lwe_dimension,
                lwe.data@.len() == old(lwe).data@.len(),
                p <= dim,
                lwe.data@[lwe.lwe_dimension as int] == self.data@[mask_len + n_th],
                forall|k: int| mask_len <= k < lwe.lwe_dimension ==> lwe.data@[k] == 0,
                forall|k: int|
                    0 <= k < p * nsize ==> lwe.data@[k] == spec_extracted_mask_coeff(
                        *self,
                        n_th as int,
                        k,
                    ),
            decreases dim - p,
        {
            proof {
                lemma_mul_inequality(p as int + 1, dim as int, nsize as int);
                lemma_mul_is_distributive_add_other_way(nsize as int, p as int, 1);
            }
            let base: usize = p * nsize;
            let mut pos: usize = 0;
            while pos < nsize
                invariant
                    lwe.lwe_dimension == old(lwe).lwe_dimension,
                    lwe.data@.len() == old(lwe).data@.len(),
                    p < dim,
                    pos <= nsize,
                    base == p * nsize,
                    base + nsize <= mask_len,
                    lwe.data@[lwe.lwe_dimension as int] == self.data@[mask_len + n_th],
                    forall|k: int| mask_len <= k < lwe.lwe_dimension ==> lwe.data@[k] == 0,
                    forall|k: int|
                        0 <= k < base + pos ==> lwe.data@[k] == spec_extracted_mask_coeff(
                            *self,
                            n_th as int,
                            k,
                        ),
                decreases nsize - pos,
            {
                let v: u64 = if pos <= n_th {
                    self.data[base + n_th - pos]
                } else {
                    wrapping_neg_u64(self.data[base + nsize + n_th - pos])
                };
                lwe.data.set(base + pos, v);
                proof {
                    lemma_fundamental_div_mod_converse(
                        base + pos,
                        nsize as int,
                        p as int,
                        pos as int,
                    );
                    assert(lwe.data@[base + pos] == spec_extracted_mask_coeff(
                        *self,
                        n_th as int,
                        base + pos,
                    ));
                }
                pos += 1;
            }
            p += 1;
        }
    }
}

} // verus!
