use rsmf::model_config::{DenseConfig, ModelArchitecture, MoeConfig, ShardStrategy};
use rsmf::topology::{arch_num_layers, DeviceTopology};

#[test]
fn uniform_topology_creation() {
    let topo = DeviceTopology::uniform(4, 24 * 1024 * 1024 * 1024, 80);
    assert_eq!(topo.num_pipeline_stages, 4);
    assert_eq!(topo.stage_assignments.len(), 4);
    // All layers covered
    let total_layers: usize = topo.stage_assignments.iter()
        .map(|s| s.layer_range.1 - s.layer_range.0)
        .sum();
    assert_eq!(total_layers, 80);
}

#[test]
fn gpt2_fits_single_gpu() {
    let topo = DeviceTopology::uniform(1, 24 * 1024 * 1024 * 1024, 12);
    let arch = ModelArchitecture::Dense(DenseConfig::gpt2_small());
    assert!(topo.can_host(&arch, ShardStrategy::SpectralK));
}

#[test]
fn uniform_stages_are_contiguous() {
    let topo = DeviceTopology::uniform(3, 7, 10);
    let ranges: Vec<(usize, usize)> = topo.stage_assignments.iter().map(|s| s.layer_range).collect();
    assert_eq!(ranges, vec![(0, 4), (4, 8), (8, 10)]);
    for (d, s) in topo.stage_assignments.iter().enumerate() {
        assert_eq!(s.stage_id, d);
        assert_eq!(s.device_ids, vec![d]);
        assert_eq!(s.micro_batches, 4);
    }
    assert_eq!(topo.device_vram, vec![7, 7, 7]);
}

#[test]
fn uniform_with_more_devices_than_layers() {
    // ceil(2 / 4) = 1 layer per stage; the last stage starts past the end.
    let topo = DeviceTopology::uniform(4, 1, 2);
    let ranges: Vec<(usize, usize)> = topo.stage_assignments.iter().map(|s| s.layer_range).collect();
    assert_eq!(ranges, vec![(0, 1), (1, 2), (2, 2), (3, 2)]);
}

#[test]
fn total_vram_sums_devices() {
    let mut topo = DeviceTopology::uniform(2, 10, 4);
    topo.device_vram = vec![10, 32, 5];
    assert_eq!(topo.total_vram(), 47);
}

#[test]
fn spectral_k_needs_a_layer_on_smallest_device() {
    let arch = ModelArchitecture::Dense(DenseConfig::gpt2_small());
    // 248 MB over 12 layers ≈ 20.7 MB per layer.
    let mut topo = DeviceTopology::uniform(2, 24 * 1024 * 1024 * 1024, 12);
    assert!(topo.can_host(&arch, ShardStrategy::SpectralK));
    topo.device_vram = vec![24 * 1024 * 1024 * 1024, 20_000_000];
    assert!(!topo.can_host(&arch, ShardStrategy::SpectralK));
    topo.device_vram = vec![];
    assert!(!topo.can_host(&arch, ShardStrategy::SpectralK));
}

#[test]
fn pipeline_and_expert_hosting_factors() {
    let arch = ModelArchitecture::Dense(DenseConfig::llama2_70b()); // 140e9 bytes
    let topo = DeviceTopology::uniform(1, 14_000_000_000, 80);
    // 140e9 < 14e9 × 10 is false; 140e9 < 14e9 × 8 is false.
    assert!(!topo.can_host(&arch, ShardStrategy::PipelineLayers));
    assert!(!topo.can_host(&arch, ShardStrategy::HybridPipelineSpectral));
    assert!(!topo.can_host(&arch, ShardStrategy::ExpertParallel));
    let topo = DeviceTopology::uniform(1, 14_000_000_001, 80);
    assert!(topo.can_host(&arch, ShardStrategy::PipelineLayers));
    assert!(!topo.can_host(&arch, ShardStrategy::ExpertParallel));
    let topo = DeviceTopology::uniform(1, 17_500_000_001, 80);
    assert!(topo.can_host(&arch, ShardStrategy::ExpertParallel));
}

#[test]
fn comm_cost_counts_stage_boundaries() {
    let topo = DeviceTopology::uniform(4, 1, 8);
    assert_eq!(topo.comm_cost_per_step(1024, 8), 3 * 8 * 1024 * 2);
    let single = DeviceTopology::uniform(1, 1, 8);
    assert_eq!(single.comm_cost_per_step(1024, 8), 0);
}

#[test]
fn num_layers_of_architectures() {
    assert_eq!(arch_num_layers(&ModelArchitecture::Dense(DenseConfig::llama2_70b())), 80);
    assert_eq!(arch_num_layers(&ModelArchitecture::Moe(MoeConfig::moe_700b())), 96);
}
