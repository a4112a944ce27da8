use concrete_optimizer::ciphertext::wrapping_neg_u64;
use concrete_optimizer::ciphertext::GlweCiphertext;
use concrete_optimizer::ciphertext::GlweParams;
use concrete_optimizer::ciphertext::LweCiphertext;

fn glwe_1x2(mask: [u64; 2], body: [u64; 2]) -> GlweCiphertext {
    GlweCiphertext {
        glwe_params: GlweParams { dimension: 1, polynomial_size: 2 },
        data: vec![mask[0], mask[1], body[0], body[1]],
    }
}

#[test]
fn lwe_dimension_is_mask_coefficient_count() {
    let params = GlweParams { dimension: 2, polynomial_size: 4 };
    assert_eq!(params.lwe_dimension(), 8);
}

#[test]
fn wrapping_neg_matches_two_complement() {
    assert_eq!(wrapping_neg_u64(0), 0);
    assert_eq!(wrapping_neg_u64(1), u64::MAX);
    assert_eq!(wrapping_neg_u64(7), 7u64.wrapping_neg());
}

#[test]
fn sample_extract_first_coefficient() {
    let glwe = glwe_1x2([5, 7], [11, 13]);
    let mut lwe = LweCiphertext { lwe_dimension: 3, data: vec![1, 2, 3, 4] };
    glwe.sample_extract(&mut lwe, 0);
    // Mask position 0 takes coefficient 0; position 1 takes the negated
    // wrapped coefficient 1; the extra mask position is cleared; the body is
    // the extracted coefficient of the GLWE body.
    assert_eq!(lwe.data, vec![5, 7u64.wrapping_neg(), 0, 11]);
    assert_eq!(lwe.lwe_dimension, 3);
}

#[test]
fn sample_extract_second_coefficient() {
    let glwe = glwe_1x2([5, 7], [11, 13]);
    let mut lwe = LweCiphertext { lwe_dimension: 3, data: vec![1, 2, 3, 4] };
    glwe.sample_extract(&mut lwe, 1);
    // Extracting the last coefficient reverses the mask without negation.
    assert_eq!(lwe.data, vec![7, 5, 0, 13]);
}

#[test]
fn sample_extract_two_mask_polynomials() {
    let glwe = GlweCiphertext {
        glwe_params: GlweParams { dimension: 2, polynomial_size: 2 },
        data: vec![1, 2, 3, 4, 9, 10],
    };
    let mut lwe = LweCiphertext { lwe_dimension: 4, data: vec![0; 5] };
    glwe.sample_extract(&mut lwe, 0);
    // Each mask polynomial is treated independently.
    assert_eq!(lwe.data, vec![1, 2u64.wrapping_neg(), 3, 4u64.wrapping_neg(), 9]);
}
