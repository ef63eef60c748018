//! Request and reply values of the Studio front end, and the budget planning
//! command that answers from them.
use vstd::prelude::*;
use crate::budget::{
    VramBudgetAllocator, DeviceAllocation, stratum_bytes, stratum_bytes_fits,
    device_top_k, device_headroom, is_layer_range, allocatable, stage_device,
    device_vram_of, lemma_uniform_allocatable,
};
use crate::config::SpectralConfig;
use crate::model_config::{
    ModelArchitecture, DenseConfig, MoeConfig, index_range, hidden_dim_of, is_index_range,
};
use crate::topology::{
    DeviceTopology, layers_per_stage, uniform_stage_start, uniform_stage_end,
};

verus! {

/// Model description sent by the front end.
#[derive(Debug, Clone)]
pub struct RsmfModelConfig {
    /// `"moe"` for a Mixture-of-Experts model; anything else is dense.
    pub architecture: String,
    pub hidden_dim: usize,
    pub num_layers: usize,
    pub num_heads: usize,
    pub intermediate_dim: usize,
    pub vocab_size: usize,
    /// MoE only (ignored for dense): number of experts, 8 when absent.
    pub num_experts: Option<usize>,
    /// MoE only (ignored for dense): experts active per token, 2 when absent.
    pub active_experts: Option<usize>,
}

/// Allocation of one device, as sent to the front end.
#[derive(Debug, Clone)]
pub struct RsmfDeviceAllocation {
    pub device_id: usize,
    pub vram_budget_bytes: u64,
    pub assigned_layers: Vec<usize>,
    pub recommended_top_k: usize,
    pub estimated_stratum_bytes: u64,
    pub headroom_bytes: u64,
}

/// Budget plan for a uniform cluster, as sent to the front end.
#[derive(Debug, Clone)]
pub struct RsmfBudgetResult {
    pub feasible: bool,
    pub allocations: Vec<RsmfDeviceAllocation>,
}

/// Bytes in a gibibyte.
pub const GIB: u64 = 1024 * 1024 * 1024;

/// The architecture tag that selects a Mixture-of-Experts model.
pub open spec fn is_moe_tag(s: Seq<char>) -> bool {
    s == seq!['m', 'o', 'e']
}

/// `a` is the allocation of device `d` of a uniform cluster of `num_devices`
/// devices of `vram` bytes serving `num_layers` layers of dimension
/// `hidden_dim`, searched up to rank `top_k`.
pub open spec fn uniform_allocation(
    a: RsmfDeviceAllocation,
    d: int,
    num_devices: int,
    vram: int,
    num_layers: int,
    hidden_dim: int,
    top_k: int,
) -> bool {
    let k = device_top_k(hidden_dim, vram, top_k);
    &&& a.device_id == d
    &&& a.vram_budget_bytes == vram
    &&& is_layer_range(
        a.assigned_layers@,
        uniform_stage_start(d, num_layers, num_devices),
        uniform_stage_end(d, num_layers, num_devices),
    )
    &&& a.recommended_top_k == k
    &&& a.estimated_stratum_bytes == stratum_bytes(hidden_dim, k)
    &&& a.headroom_bytes == device_headroom(hidden_dim, vram, top_k)
}

/// The budget plan can be computed: at least one device, stage ranges that
/// do not run past the last layer, and byte counts that fit their integer
/// types.
pub open spec fn budget_request_ok(
    model_config: RsmfModelConfig,
    num_devices: int,
    vram_per_device_gb: int,
    top_k: int,
) -> bool {
    let d = model_config.hidden_dim as int;
    let l = model_config.num_layers as int;
    &&& num_devices > 0
    &&& l + num_devices <= usize::MAX
    &&& (num_devices - 1) * layers_per_stage(l, num_devices) <= l
    &&& vram_per_device_gb * GIB * 80 <= u64::MAX
    &&& stratum_bytes_fits(d, device_top_k(d, vram_per_device_gb * GIB, top_k))
    &&& stratum_bytes(d, device_top_k(d, vram_per_device_gb * GIB, top_k)) * 2 <= u64::MAX
}

/// `base` is the dense part described by a front-end model config, with an
/// unknown (zero) parameter total.
pub open spec fn is_config_base(base: DenseConfig, model_config: RsmfModelConfig) -> bool {
    &&& base.total_params == 0
    &&& base.hidden_dim == model_config.hidden_dim
    &&& base.num_layers == model_config.num_layers
    &&& base.num_heads == model_config.num_heads
    &&& base.intermediate_dim == model_config.intermediate_dim
    &&& base.vocab_size == model_config.vocab_size
}

/// Model architecture described by a front-end model config: an MoE model
/// for the tag `"moe"`, whose every layer is an MoE layer with experts of
/// the model's intermediate dimension (8 experts, 2 active, unless given),
/// and a dense model otherwise.
pub fn config_architecture(model_config: &RsmfModelConfig) -> (arch: ModelArchitecture)
    ensures
        hidden_dim_of(arch) == model_config.hidden_dim,
        is_moe_tag(model_config.architecture@) <==> arch is Moe,
        arch matches ModelArchitecture::Dense(base) ==> is_config_base(base, *model_config),
        arch matches ModelArchitecture::Moe(cfg) ==> {
            &&& is_config_base(cfg.base, *model_config)
            &&& cfg.num_experts == match model_config.num_experts {
                Some(n) => n,
                None => 8,
            }
            &&& cfg.active_experts == match model_config.active_experts {
                Some(n) => n,
                None => 2,
            }
            &&& is_index_range(cfg.moe_layer_indices@, model_config.num_layers as int)
            &&& cfg.expert_intermediate_dim == model_config.intermediate_dim
        },
{
    let base = DenseConfig {
        total_params: 0,
        hidden_dim: model_config.hidden_dim,
        num_layers: model_config.num_layers,
        num_heads: model_config.num_heads,
        intermediate_dim: model_config.intermediate_dim,
        vocab_size: model_config.vocab_size,
    };
    let moe_tag = String::from_str("moe");
    proof {
        reveal_strlit("moe");
        assert(moe_tag@ == seq!['m', 'o', 'e']);
    }
    let is_moe: bool = model_config.architecture.eq(&moe_tag);
    if is_moe {
        let num_experts: usize = match model_config.num_experts {
            Some(n) => n,
            None => 8,
        };
        let active_experts: usize = match model_config.active_experts {
            Some(n) => n,
            None => 2,
        };
        ModelArchitecture::Moe(
            MoeConfig {
                base,
                num_experts,
                active_experts,
                moe_layer_indices: index_range(model_config.num_layers),
                expert_intermediate_dim: model_config.intermediate_dim,
            },
        )
    } else {
        ModelArchitecture::Dense(base)
    }
}

/// Plan the VRAM budget of a uniform cluster of `num_devices` GPUs with
/// `vram_per_device_gb` GiB each for the given model, searching ranks up to
/// `top_k`. The model is feasible when every device keeps headroom.
pub fn rsmf_allocate_budget(
    model_config: RsmfModelConfig,
    num_devices: usize,
    vram_per_device_gb: u64,
    top_k: usize,
) -> (r: Result<RsmfBudgetResult, String>)
    requires
        budget_request_ok(model_config, num_devices as int, vram_per_device_gb as int, top_k as int),
    ensures
        r is Ok,
        ({
            let v = r->Ok_0;
            let vram = vram_per_device_gb * GIB;
            &&& v.feasible == (device_headroom(
                model_config.hidden_dim as int,
                vram,
                top_k as int,
            ) > 0)
            &&& v.allocations@.len() == num_devices
            &&& forall|i: int|
                0 <= i < num_devices ==> uniform_allocation(
                    #[trigger] v.allocations@[i],
                    i,
                    num_devices as int,
                    vram,
                    model_config.num_layers as int,
                    model_config.hidden_dim as int,
                    top_k as int,
                )
        }),
{
    let arch = config_architecture(&model_config);
    proof {
        assert(GIB == 0x4000_0000);
    }
    let vram: u64 = vram_per_device_gb * 1024 * 1024 * 1024;
    let topo = DeviceTopology::uniform(num_devices, vram, model_config.num_layers);
    let mut spectral = SpectralConfig::default();
    spectral.top_k = top_k;

    proof {
        lemma_uniform_allocatable(
            arch,
            topo,
            spectral,
            num_devices as int,
            vram as int,
            model_config.num_layers as int,
        );
    }
    let feasible: bool = VramBudgetAllocator::is_feasible(&arch, &topo, &spectral);
    let allocs: Vec<DeviceAllocation> = VramBudgetAllocator::allocate(&arch, &topo, &spectral);

    let mut allocations: Vec<RsmfDeviceAllocation> = Vec::new();
    let ghost all = allocs@;
    let mut i: usize = 0;
    while i < num_devices
        invariant
            i <= num_devices,
            allocs@ == all,
            all.len() == num_devices,
            allocations@.len() == i,
            forall|j: int|
                0 <= j < i ==> {
                    let a = #[trigger] allocations@[j];
                    let b = all[j];
                    &&& a.device_id == b.device_id
                    &&& a.vram_budget_bytes == b.vram_budget_bytes
                    &&& a.assigned_layers@ == b.assigned_layers@
                    &&& a.recommended_top_k == b.recommended_top_k
                    &&& a.estimated_stratum_bytes == b.estimated_stratum_bytes
                    &&& a.headroom_bytes == b.headroom_bytes
                },
        decreases num_devices - i,
    {
        let a: &DeviceAllocation = &allocs[i];
        let layers: Vec<usize> = a.assigned_layers.clone();
        proof {
            assert(layers@ =~= a.assigned_layers@);
        }
        allocations.push(
            RsmfDeviceAllocation {
                device_id: a.device_id,
                vram_budget_bytes: a.vram_budget_bytes,
                assigned_layers: layers,
                recommended_top_k: a.recommended_top_k,
                estimated_stratum_bytes: a.estimated_stratum_bytes,
                headroom_bytes: a.headroom_bytes,
            },
        );
        i = i + 1;
    }
    proof {
        assert forall|i: int| 0 <= i < num_devices implies uniform_allocation(
            #[trigger] allocations@[i],
            i,
            num_devices as int,
            vram as int,
            model_config.num_layers as int,
            model_config.hidden_dim as int,
            top_k as int,
        ) by {
            let s = topo.stage_assignments@[i];
            assert(stage_device(s) == i);
        }
        if !feasible {
            let j = choose|j: int|
                0 <= j < topo.stage_assignments@.len() && !(device_headroom(
                    hidden_dim_of(arch),
                    device_vram_of(topo, stage_device(#[trigger] topo.stage_assignments@[j])),
                    spectral.top_k as int,
                ) > 0);
            assert(stage_device(topo.stage_assignments@[j]) == j);
        } else {
            assert(stage_device(topo.stage_assignments@[0]) == 0);
        }
    }
    Ok(RsmfBudgetResult { feasible, allocations })
}

} // verus!
