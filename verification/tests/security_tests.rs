use concrete_optimizer::security::min_dimension_for;
use concrete_optimizer::security::security_bits;
use concrete_optimizer::security::SECURITY_CAP;

#[test]
fn security_exact_value() {
    // (1024 * 53) / ((64 - 3) * 200) = 54272 / 12200 = 4
    assert_eq!(security_bits(1024, 3, 64), 4);
}

#[test]
fn security_monotone_in_dimension() {
    let mut prev: u64 = 0;
    let mut d: u64 = 0;
    while d <= 1 << 14 {
        let s = security_bits(d, 3, 64);
        assert!(prev <= s);
        prev = s;
        d += 512;
    }
}

#[test]
fn security_capped() {
    assert_eq!(security_bits(u64::MAX, 3, 64), SECURITY_CAP);
    // Noise at or beyond the modulus width is as hard as the model can state.
    assert_eq!(security_bits(1, 64, 64), SECURITY_CAP);
    assert_eq!(security_bits(0, 3, 64), 0);
}

#[test]
fn min_dimension_is_exact_inverse() {
    let d = min_dimension_for(128, 3, 64);
    // ceil(128 * 12200 / 53) = 29465
    assert_eq!(d, 29465);
    assert!(security_bits(d, 3, 64) >= 128);
    assert!(security_bits(d - 1, 3, 64) < 128);
}

#[test]
fn min_dimension_zero_target() {
    assert_eq!(min_dimension_for(0, 3, 64), 0);
}
