use rsmf::model_config::{DenseConfig, MoeConfig};
use rsmf::params::{
    dense_layer_indices, dense_total_parameters, moe_active_parameters, moe_total_parameters,
    spectral_parameters,
};

fn small_moe() -> MoeConfig {
    MoeConfig {
        base: DenseConfig {
            total_params: 1_000_000,
            hidden_dim: 64,
            num_layers: 4,
            num_heads: 4,
            intermediate_dim: 256,
            vocab_size: 1000,
        },
        num_experts: 4,
        active_experts: 2,
        moe_layer_indices: vec![1, 3],
        expert_intermediate_dim: 256,
    }
}

#[test]
fn dense_layers_are_the_non_moe_layers() {
    assert_eq!(dense_layer_indices(&small_moe()), vec![0, 2]);
    let mut cfg = small_moe();
    cfg.moe_layer_indices = vec![3, 0, 7];
    assert_eq!(dense_layer_indices(&cfg), vec![1, 2]);
    assert_eq!(dense_layer_indices(&MoeConfig::mixtral_8x7b()), Vec::<usize>::new());
}

#[test]
fn moe_parameter_counts() {
    let cfg = small_moe();
    let total = moe_total_parameters(&cfg, 2, &vec![4, 4]);
    let active = moe_active_parameters(&cfg, 2, 2);
    assert_eq!(total, 2 * 64 * 64 + 8 * 64 * 256 * 3);
    assert_eq!(active, 2 * 64 * 64 + 2 * 64 * 256 * 3 * 2);
    // With 2/4 experts active, a token sees well over a third of the model.
    assert!(active < total);
    assert!(active > total / 3);
}

#[test]
fn moe_total_counts_each_layers_experts() {
    let cfg = small_moe();
    assert_eq!(moe_total_parameters(&cfg, 0, &vec![1, 2, 3]), 6 * 64 * 256 * 3);
    assert_eq!(moe_total_parameters(&cfg, 1, &vec![]), 64 * 64);
}

#[test]
fn dense_parameter_counts() {
    assert_eq!(dense_total_parameters(4, 64), 4 * 64 * 64);
    // σ + U + V per layer: k + 2·k·d
    assert_eq!(spectral_parameters(&vec![8, 8, 8, 8], 64), 4 * (8 + 2 * 8 * 64));
    assert_eq!(spectral_parameters(&vec![], 64), 0);
}
