use rsmf::model_config::{DenseConfig, ModelArchitecture, MoeConfig, ShardStrategy};

#[test]
fn llama2_70b_vram_estimate() {
    let cfg = ModelArchitecture::Dense(DenseConfig::llama2_70b());
    let vram = cfg.vram_full_fp16();
    // 70B × 2 bytes ≈ 140 GB
    assert!(vram > 130 * 1024 * 1024 * 1024);
    assert!(vram < 150 * 1024 * 1024 * 1024);
}

#[test]
fn moe_recommends_expert_parallel() {
    let arch = ModelArchitecture::Moe(MoeConfig::mixtral_8x7b());
    // Single 24GB GPU
    let strategy = arch.recommend_shard_strategy(24 * 1024 * 1024 * 1024);
    assert_eq!(strategy, ShardStrategy::ExpertParallel);
}

#[test]
fn small_model_recommends_spectral_k() {
    let arch = ModelArchitecture::Dense(DenseConfig::gpt2_small());
    // 24GB GPU is plenty for 124M
    let strategy = arch.recommend_shard_strategy(24 * 1024 * 1024 * 1024);
    assert_eq!(strategy, ShardStrategy::SpectralK);
}

#[test]
fn dense_vram_is_two_bytes_per_parameter() {
    let arch = ModelArchitecture::Dense(DenseConfig::llama2_70b());
    assert_eq!(arch.vram_full_fp16(), 140_000_000_000);
}

#[test]
fn mixtral_vram_counts_expert_matrices() {
    // No shared layers; 32 MoE layers × 8 experts × 14336 × 4096 × 3 matrices × 2 bytes.
    let arch = ModelArchitecture::Moe(MoeConfig::mixtral_8x7b());
    assert_eq!(arch.vram_full_fp16(), 32 * 8 * 14336 * 4096 * 3 * 2);
}

#[test]
fn moe_vram_counts_shared_layers() {
    let mut cfg = MoeConfig::mixtral_8x7b();
    cfg.moe_layer_indices = vec![1, 3];
    cfg.base.num_layers = 4;
    cfg.base.hidden_dim = 64;
    cfg.num_experts = 4;
    cfg.expert_intermediate_dim = 256;
    let arch = ModelArchitecture::Moe(cfg);
    // 2 shared layers × 64² × 4 × 2 + 2 MoE layers × 4 experts × 256 × 64 × 3 × 2
    assert_eq!(arch.vram_full_fp16(), 2 * 64 * 64 * 8 + 2 * 4 * 256 * 64 * 6);
}

#[test]
fn moe_with_more_indices_than_layers_has_no_shared_bytes() {
    let mut cfg = MoeConfig::mixtral_8x7b();
    cfg.base.num_layers = 2;
    cfg.moe_layer_indices = vec![0, 1, 2];
    cfg.num_experts = 1;
    cfg.expert_intermediate_dim = 1;
    cfg.base.hidden_dim = 1;
    let arch = ModelArchitecture::Moe(cfg);
    assert_eq!(arch.vram_full_fp16(), 3 * 6);
}

#[test]
fn deep_dense_model_on_small_cluster_is_hybrid() {
    let arch = ModelArchitecture::Dense(DenseConfig::dense_700b());
    assert_eq!(arch.recommend_shard_strategy(24 * 1024 * 1024 * 1024), ShardStrategy::HybridPipelineSpectral);
}

#[test]
fn deep_dense_model_on_large_cluster_is_pipelined() {
    let arch = ModelArchitecture::Dense(DenseConfig::dense_700b());
    // 1.4 TB needed, 640 GiB available: more than available, less than 4×.
    assert_eq!(arch.recommend_shard_strategy(8 * 80 * 1024 * 1024 * 1024), ShardStrategy::PipelineLayers);
}

#[test]
fn moe_that_fits_uses_spectral_k() {
    let arch = ModelArchitecture::Moe(MoeConfig::mixtral_8x7b());
    assert_eq!(arch.recommend_shard_strategy(100 * 1024 * 1024 * 1024), ShardStrategy::SpectralK);
}

#[test]
fn presets_have_documented_shapes() {
    let g = DenseConfig::gpt2_small();
    assert_eq!((g.total_params, g.hidden_dim, g.num_layers, g.num_heads, g.intermediate_dim, g.vocab_size),
        (124_000_000, 768, 12, 12, 3072, 50257));
    let d = DenseConfig::dense_700b();
    assert_eq!((d.hidden_dim, d.num_layers), (16384, 128));
    let m = MoeConfig::moe_700b();
    assert_eq!(m.moe_layer_indices, (0..96).collect::<Vec<usize>>());
    assert_eq!((m.num_experts, m.active_experts), (128, 8));
    let x = MoeConfig::mixtral_8x7b();
    assert_eq!(x.moe_layer_indices, (0..32).collect::<Vec<usize>>());
}

#[test]
fn index_range_lists_indices() {
    assert_eq!(rsmf::model_config::index_range(0), Vec::<usize>::new());
    assert_eq!(rsmf::model_config::index_range(3), vec![0, 1, 2]);
}
