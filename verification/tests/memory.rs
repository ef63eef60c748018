use rsmf::memory::{
    active_expert_memory, moe_active_vram_estimate, resonant_tensor_memory_bytes,
    stratum_memory_bytes, total_bytes,
};

#[test]
fn stratum_bytes_count_every_fp64_entry() {
    // rank 4 stratum of a 16 x 8 matrix: 4 sigmas, 16*4 U entries, 8*4 V entries
    assert_eq!(stratum_memory_bytes(4, 64, 32), (4 + 64 + 32) * 8);
    assert_eq!(stratum_memory_bytes(0, 0, 0), 0);
}

#[test]
fn resonant_tensor_adds_metadata() {
    assert_eq!(resonant_tensor_memory_bytes(800), 833);
    assert_eq!(resonant_tensor_memory_bytes(0), 33);
}

#[test]
fn total_bytes_sums_all_entries() {
    assert_eq!(total_bytes(&vec![]), 0);
    assert_eq!(total_bytes(&vec![10, 20, 30]), 60);
}

#[test]
fn active_memory_uses_first_expert_size() {
    let experts = vec![100, 100, 100, 100, 100, 100, 100, 100];
    assert_eq!(active_expert_memory(&experts, 2), 200);
    assert!(active_expert_memory(&experts, 2) < total_bytes(&experts));
    assert_eq!(active_expert_memory(&vec![], 2), 0);
}

#[test]
fn moe_active_vram_counts_active_experts_routing_and_dense() {
    // 100 bytes per expert, 2 active, 3 MoE layers; two routers of 10; one dense layer of 50
    let r = moe_active_vram_estimate(100, 2, 3, &vec![10, 10], &vec![50]);
    assert_eq!(r, 600 + 20 + 50);
    assert_eq!(moe_active_vram_estimate(0, 2, 3, &vec![], &vec![]), 0);
}
