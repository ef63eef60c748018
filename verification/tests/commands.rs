use rsmf::commands::{rsmf_allocate_budget, RsmfModelConfig};

fn model(arch: &str) -> RsmfModelConfig {
    RsmfModelConfig {
        architecture: arch.to_string(),
        hidden_dim: 768,
        num_layers: 12,
        num_heads: 12,
        intermediate_dim: 3072,
        vocab_size: 50257,
        num_experts: None,
        active_experts: None,
    }
}

#[test]
fn budget_plan_for_dense_model() {
    let r = rsmf_allocate_budget(model("dense"), 3, 24, 32).unwrap();
    assert!(r.feasible);
    assert_eq!(r.allocations.len(), 3);
    for (i, a) in r.allocations.iter().enumerate() {
        assert_eq!(a.device_id, i);
        assert_eq!(a.vram_budget_bytes, 24 * 1024 * 1024 * 1024);
        assert_eq!(a.assigned_layers, (4 * i..4 * i + 4).collect::<Vec<usize>>());
        assert_eq!(a.recommended_top_k, 32);
        assert_eq!(a.estimated_stratum_bytes, 32 * 3080);
    }
}

#[test]
fn budget_plan_for_moe_model_matches_dense() {
    let dense = rsmf_allocate_budget(model("dense"), 2, 1, 16).unwrap();
    let mut cfg = model("moe");
    cfg.num_experts = Some(4);
    let moe = rsmf_allocate_budget(cfg, 2, 1, 16).unwrap();
    assert_eq!(dense.feasible, moe.feasible);
    assert_eq!(dense.allocations.len(), moe.allocations.len());
    for (a, b) in dense.allocations.iter().zip(moe.allocations.iter()) {
        assert_eq!(a.recommended_top_k, b.recommended_top_k);
        assert_eq!(a.headroom_bytes, b.headroom_bytes);
    }
}

#[test]
fn budget_plan_without_vram_is_infeasible() {
    let r = rsmf_allocate_budget(model("dense"), 2, 0, 32).unwrap();
    assert!(!r.feasible);
    assert!(r.allocations.iter().all(|a| a.headroom_bytes == 0 && a.recommended_top_k == 4));
}
