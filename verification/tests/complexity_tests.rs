use concrete_optimizer::complexity::bootstrap_complexity;
use concrete_optimizer::complexity::linear_op_complexity;
use concrete_optimizer::complexity::KsGlweComplexity;
use concrete_optimizer::parameters::GlweParameters;
use concrete_optimizer::parameters::KeyswitchGlweParameters;
use concrete_optimizer::parameters::KsDecompositionParameters;

fn ks_params(input: u64, output: u64, level: u64) -> KeyswitchGlweParameters {
    KeyswitchGlweParameters {
        input_glwe_params: GlweParameters { glwe_dimension: input, polynomial_size: 1024 },
        output_glwe_params: GlweParameters { glwe_dimension: output, polynomial_size: 1024 },
        ks_decomposition_parameter: KsDecompositionParameters { level, base_log: 4 },
    }
}

#[test]
fn ks_glwe_complexity_worked_example() {
    // input dimension 2, output dimension 1, level 3:
    // 2*3 + 2*3*2 + (2*3 - 1)*2 + 1 = 6 + 12 + 11 = 29
    let model = KsGlweComplexity;
    assert_eq!(model.complexity(ks_params(2, 1, 3), 64), 29);
}

#[test]
fn ks_glwe_complexity_degenerate_inputs_cost_zero() {
    let model = KsGlweComplexity;
    assert_eq!(model.complexity(ks_params(0, 1, 3), 64), 0);
    assert_eq!(model.complexity(ks_params(2, 1, 0), 64), 0);
}

#[test]
fn ks_glwe_complexity_monotone_samples() {
    let model = KsGlweComplexity;
    // Non-decreasing in the level.
    assert!(model.complexity(ks_params(2, 1, 3), 64) <= model.complexity(ks_params(2, 1, 4), 64));
    // Non-decreasing in the input dimension.
    assert!(model.complexity(ks_params(2, 1, 3), 64) <= model.complexity(ks_params(3, 1, 3), 64));
    // Non-decreasing in the output dimension.
    assert!(model.complexity(ks_params(2, 1, 3), 64) <= model.complexity(ks_params(2, 2, 3), 64));
}

#[test]
fn linear_op_complexity_exact() {
    // (1 + 1) * 1024
    assert_eq!(linear_op_complexity(1, 1024), 2048);
}

#[test]
fn bootstrap_complexity_exact() {
    // 2 * 512 * 2 * (1 + 1) * 1024
    assert_eq!(bootstrap_complexity(512, 1, 1024, 2), 4194304);
    // Non-decreasing in level and dimensions.
    assert!(bootstrap_complexity(512, 1, 1024, 2) <= bootstrap_complexity(512, 1, 1024, 3));
    assert!(bootstrap_complexity(512, 1, 1024, 2) <= bootstrap_complexity(1024, 2, 1024, 2));
}
