use concrete_optimizer::noise::add_noise;
use concrete_optimizer::noise::bootstrap_noise;
use concrete_optimizer::noise::const_mul_noise;
use concrete_optimizer::noise::fresh_noise;
use concrete_optimizer::noise::keyswitch_noise;
use concrete_optimizer::noise::noise_bound;

#[test]
fn fresh_noise_is_squared_std_dev() {
    assert_eq!(fresh_noise(0), 1);
    assert_eq!(fresh_noise(3), 64);
}

#[test]
fn add_noise_sums_variances() {
    assert_eq!(add_noise(5, 7), 12);
    assert_eq!(add_noise(u128::MAX, 1), u128::MAX);
}

#[test]
fn const_mul_noise_scales_by_squared_constant() {
    // A multiplier of magnitude 2^1 scales variance by 2^2.
    assert_eq!(const_mul_noise(4, 1), 16);
    assert_eq!(const_mul_noise(u128::MAX, 1), u128::MAX);
}

#[test]
fn keyswitch_noise_exact_value() {
    // rounding term: 2^(2*(16 - 1*4)) = 2^24; key term: 1*2*1 * 2^(2*(4+1)).
    let expected: u128 = 100 + (1u128 << 24) + 2 * (1u128 << 10);
    assert_eq!(keyswitch_noise(100, 1, 2, 1, 4, 16, 1), expected);
}

#[test]
fn keyswitch_noise_no_rounding_term_when_decomposition_covers_modulus() {
    // level * base_log = 16 >= modulus_bits, so only the key term is added.
    let expected: u128 = 100 + 2 * 4 * (1u128 << (2 * 5));
    assert_eq!(keyswitch_noise(100, 1, 2, 4, 4, 16, 1), expected);
}

#[test]
fn bootstrap_noise_ignores_input() {
    // 8 * 2 * (1+1) * 4 * 2^(2*(3+1))
    let expected: u128 = 8 * 2 * 2 * 4 * (1u128 << 8);
    assert_eq!(bootstrap_noise(8, 1, 4, 2, 3, 1), expected);
}

#[test]
fn noise_bound_exact_and_antitone() {
    // 2^(2*(64-2)) / (2*40)
    assert_eq!(noise_bound(64, 40), (1u128 << 124) / 80);
    // Tightening the failure probability never raises the bound.
    assert!(noise_bound(64, 80) <= noise_bound(64, 40));
    assert!(noise_bound(64, 128) <= noise_bound(64, 1));
}
