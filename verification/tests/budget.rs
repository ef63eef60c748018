use rsmf::budget::{estimate_stratum_bytes, find_optimal_k, VramBudgetAllocator};
use rsmf::config::SpectralConfig;
use rsmf::model_config::{DenseConfig, ModelArchitecture};
use rsmf::topology::{DeviceTopology, PipelineStage};

#[test]
fn gpt2_fits_single_24gb() {
    let arch = ModelArchitecture::Dense(DenseConfig::gpt2_small());
    let topo = DeviceTopology::uniform(1, 24 * 1024 * 1024 * 1024, 12);
    let cfg = SpectralConfig::default();
    assert!(VramBudgetAllocator::is_feasible(&arch, &topo, &cfg));
}

#[test]
fn llama70b_needs_multi_gpu() {
    let arch = ModelArchitecture::Dense(DenseConfig::llama2_70b());
    let _topo = DeviceTopology::uniform(1, 24 * 1024 * 1024 * 1024, 80);
    let cfg = SpectralConfig::default();
    // Single 24GB can't host 70B even with RSMF
    // But with enough GPUs it should work
    let topo8 = DeviceTopology::uniform(8, 80 * 1024 * 1024 * 1024, 80);
    assert!(VramBudgetAllocator::is_feasible(&arch, &topo8, &cfg));
}

#[test]
fn optimal_k_respects_budget() {
    let k = find_optimal_k(4096, 1024 * 1024, 256); // 1MB budget, d=4096
    let bytes = estimate_stratum_bytes(4096, k);
    assert!(bytes <= 1024 * 1024, "k={} uses {} bytes > 1MB", k, bytes);
    assert!(k >= 4, "Should find at least k=4");
}

#[test]
fn optimal_k_is_largest_fitting_rank() {
    // Each rank costs 8 + 4·4096 = 16392 bytes; 1 MiB holds 63 of them.
    let k = find_optimal_k(4096, 1024 * 1024, 256);
    assert_eq!(k, 63);
    assert!(estimate_stratum_bytes(4096, k + 1) > 1024 * 1024);
}

#[test]
fn optimal_k_capped_by_max_k_and_dimension() {
    assert_eq!(find_optimal_k(4096, usize::MAX / 2, 32), 32);
    assert_eq!(find_optimal_k(16, 1 << 30, 256), 16);
}

#[test]
fn optimal_k_falls_back_to_four() {
    // Budget too small for even rank 4.
    assert_eq!(find_optimal_k(4096, 100, 256), 4);
    // Empty search range.
    assert_eq!(find_optimal_k(2, 1 << 30, 256), 4);
    assert_eq!(find_optimal_k(4096, 1 << 30, 3), 4);
}

#[test]
fn stratum_estimate_formula() {
    assert_eq!(estimate_stratum_bytes(4096, 32), 32 * 8 + 2 * 4096 * 32 * 2);
    assert_eq!(estimate_stratum_bytes(0, 5), 40);
}

#[test]
fn allocation_follows_stages() {
    let arch = ModelArchitecture::Dense(DenseConfig::gpt2_small());
    let topo = DeviceTopology::uniform(3, 1000, 7);
    let cfg = SpectralConfig::default();
    let allocs = VramBudgetAllocator::allocate(&arch, &topo, &cfg);
    assert_eq!(allocs.len(), 3);
    assert_eq!(allocs[0].assigned_layers, vec![0, 1, 2]);
    assert_eq!(allocs[1].assigned_layers, vec![3, 4, 5]);
    assert_eq!(allocs[2].assigned_layers, vec![6]);
    for (i, a) in allocs.iter().enumerate() {
        assert_eq!(a.device_id, i);
        assert_eq!(a.vram_budget_bytes, 1000);
        // 1000 bytes cannot hold even rank 4 (12320 bytes): no headroom.
        assert_eq!(a.recommended_top_k, 4);
        assert_eq!(a.estimated_stratum_bytes, 4 * 8 + 2 * 768 * 4 * 2);
        assert_eq!(a.headroom_bytes, 0);
    }
    assert!(!VramBudgetAllocator::is_feasible(&arch, &topo, &cfg));
}

#[test]
fn allocation_headroom_exact() {
    let arch = ModelArchitecture::Dense(DenseConfig::gpt2_small());
    let topo = DeviceTopology::uniform(1, 24 * 1024 * 1024 * 1024, 12);
    let cfg = SpectralConfig::default();
    let allocs = VramBudgetAllocator::allocate(&arch, &topo, &cfg);
    let usable: u64 = 24 * 1024 * 1024 * 1024 * 80 / 100;
    assert_eq!(allocs[0].recommended_top_k, 32);
    assert_eq!(allocs[0].estimated_stratum_bytes, 32 * 3080);
    assert_eq!(allocs[0].headroom_bytes, usable - 2 * 32 * 3080);
}

#[test]
fn allocation_of_stage_without_devices_uses_device_zero() {
    let arch = ModelArchitecture::Dense(DenseConfig::gpt2_small());
    let topo = DeviceTopology {
        device_vram: vec![24 * 1024 * 1024 * 1024],
        num_pipeline_stages: 2,
        stage_assignments: vec![
            PipelineStage { stage_id: 0, device_ids: vec![], layer_range: (0, 2), micro_batches: 1 },
            PipelineStage { stage_id: 1, device_ids: vec![5], layer_range: (2, 2), micro_batches: 1 },
        ],
    };
    let cfg = SpectralConfig { top_k: 8, max_inner_iters: 1 };
    let allocs = VramBudgetAllocator::allocate(&arch, &topo, &cfg);
    assert_eq!(allocs[0].device_id, 0);
    assert_eq!(allocs[0].vram_budget_bytes, 24 * 1024 * 1024 * 1024);
    assert_eq!(allocs[0].recommended_top_k, 8);
    // Device 5 does not exist: no VRAM, no headroom.
    assert_eq!(allocs[1].device_id, 5);
    assert_eq!(allocs[1].vram_budget_bytes, 0);
    assert_eq!(allocs[1].assigned_layers, Vec::<usize>::new());
    assert_eq!(allocs[1].headroom_bytes, 0);
    assert!(!VramBudgetAllocator::is_feasible(&arch, &topo, &cfg));
}

#[test]
fn find_optimal_k_accepts_huge_search_ranges() {
    // the stratum at the top of the range would overflow, but the search never reaches it
    assert_eq!(find_optimal_k(1 << 31, 1 << 20, 1 << 31), 4);
    let d: usize = 1 << 31;
    let k = find_optimal_k(d, usize::MAX / 4, 1 << 31);
    assert!(estimate_stratum_bytes(d, k) <= usize::MAX / 4);
    assert!(k + 1 > 1 << 31 || (k + 1).checked_mul(8 + 4 * d).map_or(true, |b| b > usize::MAX / 4));
}
