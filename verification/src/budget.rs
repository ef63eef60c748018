//! VRAM budget allocation across the devices of a topology.
use vstd::prelude::*;
use crate::config::{SpectralConfig, lemma_nonneg_product};
use crate::model_config::{ModelArchitecture, hidden_dim_of};
use crate::topology::{is_uniform_topology, layers_per_stage, lemma_ceil_div};
use crate::topology::{DeviceTopology, PipelineStage};

verus! {

/// Allocates VRAM budget across devices for a given model and topology.
///
/// Computes the largest top_k per stratum such that each device stays
/// within its VRAM budget.
pub struct VramBudgetAllocator;

/// Allocation result for a single device.
#[derive(Debug, Clone)]
pub struct DeviceAllocation {
    pub device_id: usize,
    pub vram_budget_bytes: u64,
    pub assigned_layers: Vec<usize>,
    pub recommended_top_k: usize,
    pub estimated_stratum_bytes: u64,
    pub headroom_bytes: u64,
}

/// Memory for one stratum of rank `k` and dimension `d`: FP64 singular
/// values plus FP16 `U` and `V` (`d x k` each).
pub open spec fn stratum_bytes(d: int, k: int) -> int {
    k * 8 + 2 * d * k * 2
}

/// Every intermediate value of [`stratum_bytes`] fits in a `usize`.
pub open spec fn stratum_bytes_fits(d: int, k: int) -> bool {
    &&& 2 * d <= usize::MAX
    &&& stratum_bytes(d, k) <= usize::MAX
}

/// Upper end of the rank search: `min(max_k, d)`.
pub open spec fn rank_cap(d: int, max_k: int) -> int {
    if max_k < d {
        max_k
    } else {
        d
    }
}

/// The rank the budget search settles on: the largest `k` in
/// `[4, min(max_k, d)]` whose stratum fits in `budget` bytes, and `4` when
/// there is none.
pub open spec fn optimal_k(d: int, budget: int, max_k: int) -> int {
    let hi = rank_cap(d, max_k);
    if hi >= 4 && stratum_bytes(d, 4) <= budget {
        let q = budget / (8 + 4 * d);
        if hi < q {
            hi
        } else {
            q
        }
    } else {
        4
    }
}

/// A stratum of rank zero takes no memory, and each further rank adds one
/// FP64 singular value and a column of FP16 `U` and of FP16 `V`.
pub proof fn lemma_stratum_bytes_per_rank(d: int, k: int)
    ensures
        stratum_bytes(d, 0) == 0,
        stratum_bytes(d, k + 1) == stratum_bytes(d, k) + 8 + 2 * d + 2 * d,
{
    assert(2 * d * (k + 1) * 2 == 2 * d * k * 2 + 4 * d) by (nonlinear_arith);
    assert(2 * d * 0 * 2 == 0) by (nonlinear_arith);
}

/// Stratum size grows with the rank.
pub proof fn lemma_stratum_bytes_monotone(d: int, k1: int, k2: int)
    requires
        d >= 0,
        0 <= k1 <= k2,
    ensures
        0 <= stratum_bytes(d, k1) <= stratum_bytes(d, k2),
{
    assert(stratum_bytes(d, k1) == k1 * (8 + 4 * d)) by (nonlinear_arith);
    assert(stratum_bytes(d, k2) == k2 * (8 + 4 * d)) by (nonlinear_arith);
    assert(0 <= k1 * (8 + 4 * d) <= k2 * (8 + 4 * d)) by (nonlinear_arith)
        requires
            d >= 0,
            0 <= k1 <= k2,
    ;
}

/// Rank `k` fits in `budget` exactly when `k` is at most the quotient of the
/// budget by the per-rank cost `8 + 4d`.
pub proof fn lemma_fits_iff_quotient(d: int, k: int, budget: int)
    requires
        d >= 0,
        k >= 0,
        budget >= 0,
    ensures
        (stratum_bytes(d, k) <= budget) == (k <= budget / (8 + 4 * d)),
{
    let c = 8 + 4 * d;
    let q = budget / c;
    vstd::arithmetic::div_mod::lemma_fundamental_div_mod(budget, c);
    let r = budget % c;
    assert(0 <= r < c);
    assert(stratum_bytes(d, k) == k * c) by (nonlinear_arith)
        requires
            c == 8 + 4 * d,
    ;
    assert((k * c <= budget) == (k <= q)) by (nonlinear_arith)
        requires
            budget == c * q + r,
            0 <= r < c,
            c > 0,
            k >= 0,
    ;
}

/// The search never settles below rank four.
pub proof fn lemma_optimal_k_at_least_four(d: int, budget: int, max_k: int)
    requires
        d >= 0,
        budget >= 0,
    ensures
        optimal_k(d, budget, max_k) >= 4,
{
    if rank_cap(d, max_k) >= 4 && stratum_bytes(d, 4) <= budget {
        lemma_fits_iff_quotient(d, 4, budget);
    }
}

/// Estimate memory for one stratum with given k and d.
pub fn estimate_stratum_bytes(d: usize, k: usize) -> (r: usize)
    requires
        stratum_bytes_fits(d as int, k as int),
    ensures
        r == stratum_bytes(d as int, k as int),
{
    proof {
        lemma_nonneg_product(2 * d, k as int);
        assert(2 * d * k <= 2 * d * k * 2);
    }
    let elem: usize = 2;
    k * 8 + 2 * d * k * elem
}

/// [`stratum_bytes`] for a rank of at least one, `None` when it exceeds
/// `usize::MAX`.
fn stratum_bytes_checked(d: usize, k: usize) -> (r: Option<usize>)
    requires
        k >= 1,
    ensures
        match r {
            Some(b) => b == stratum_bytes(d as int, k as int),
            None => stratum_bytes(d as int, k as int) > usize::MAX,
        },
{
    proof {
        lemma_nonneg_product(2 * d, k as int);
        assert(2 * d <= 2 * d * k) by (nonlinear_arith)
            requires
                k >= 1,
                d >= 0,
        ;
    }
    let d2: usize = match d.checked_mul(2) {
        Some(v) => v,
        None => return None,
    };
    let dk: usize = match d2.checked_mul(k) {
        Some(v) => v,
        None => return None,
    };
    let dk2: usize = match dk.checked_mul(2) {
        Some(v) => v,
        None => return None,
    };
    let k8: usize = match k.checked_mul(8) {
        Some(v) => v,
        None => return None,
    };
    dk2.checked_add(k8)
}

/// Binary search for largest k where stratum fits in budget.
///
/// The search covers `[4, min(max_k, d)]`; when no rank there fits, or the
/// range is empty, it answers `4`.
pub fn find_optimal_k(hidden_dim: usize, budget_bytes: usize, max_k: usize) -> (r: usize)
    ensures
        r == optimal_k(hidden_dim as int, budget_bytes as int, max_k as int),
        4 <= r,
        r == 4 || r <= rank_cap(hidden_dim as int, max_k as int),
        rank_cap(hidden_dim as int, max_k as int) >= 4 && stratum_bytes(hidden_dim as int, 4)
            <= budget_bytes ==> {
            &&& stratum_bytes(hidden_dim as int, r as int) <= budget_bytes
            &&& (r == rank_cap(hidden_dim as int, max_k as int) || stratum_bytes(
                hidden_dim as int,
                r + 1,
            ) > budget_bytes)
        },
{
    let ghost d = hidden_dim as int;
    let ghost budget = budget_bytes as int;
    let ghost cap = rank_cap(d, max_k as int);
    let mut lo: usize = 4;
    let mut hi: usize = if max_k < hidden_dim {
        max_k
    } else {
        hidden_dim
    };
    let mut best: usize = lo;
    while lo <= hi
        invariant
            d == hidden_dim,
            budget == budget_bytes,
            cap == rank_cap(d, max_k as int),
            4 <= lo,
            hi <= cap,
            lo <= hi + 1 || (lo == 4 && hi == cap),
            lo == 4 ==> best == 4,
            lo > 4 ==> best == lo - 1 && best <= cap && stratum_bytes(d, best as int) <= budget,
            hi < cap ==> stratum_bytes(d, hi + 1) > budget,
        decreases hi + 1 - lo,
    {
        let mid: usize = lo + (hi - lo) / 2;
        let fits: bool = match stratum_bytes_checked(hidden_dim, mid) {
            Some(bytes) => bytes <= budget_bytes,
            None => false,
        };
        if fits {
            best = mid;
            lo = mid + 1;
        } else {
            proof {
                assert forall|k: int| mid <= k <= cap implies stratum_bytes(d, k) > budget by {
                    lemma_stratum_bytes_monotone(d, mid as int, k);
                }
            }
            hi = mid.saturating_sub(1);
        }
    }
    proof {
        if lo > 4 {
            lemma_stratum_bytes_monotone(d, 4, best as int);
        }
        if cap >= 4 && stratum_bytes(d, 4) <= budget {
            assert(lo > 4);
            assert(best <= cap);
            lemma_fits_iff_quotient(d, best as int, budget);
            if best < cap {
                lemma_fits_iff_quotient(d, best + 1, budget);
            }
        }
    }
    best
}

/// The device a stage is served by: its first device, `0` when it lists none.
pub open spec fn stage_device(stage: PipelineStage) -> int {
    if stage.device_ids@.len() > 0 {
        stage.device_ids@[0] as int
    } else {
        0
    }
}

/// VRAM of device `id`, `0` when the topology has no such device.
pub open spec fn device_vram_of(topo: DeviceTopology, id: int) -> int {
    if 0 <= id < topo.device_vram@.len() {
        topo.device_vram@[id] as int
    } else {
        0
    }
}

/// VRAM usable for strata: 80% of the device, the rest being reserved for
/// activations, gradients and system overhead.
pub open spec fn usable_vram(vram: int) -> int {
    vram * 80 / 100
}

/// Budget of one stratum: with layer cycling one stratum is active and one
/// is buffered, so each gets half the usable VRAM.
pub open spec fn stratum_budget(vram: int) -> int {
    usable_vram(vram) / 2
}

/// Usable VRAM is 80% of the device rounded down, each stratum's budget half
/// of it rounded down, and the headroom what remains of the usable VRAM
/// after the active and the buffered stratum, or zero when they do not fit.
pub proof fn lemma_vram_split(d: int, vram: int, max_k: int)
    requires
        vram >= 0,
    ensures
        100 * usable_vram(vram) <= 80 * vram < 100 * usable_vram(vram) + 100,
        2 * stratum_budget(vram) <= usable_vram(vram) < 2 * stratum_budget(vram) + 2,
        device_headroom(d, vram, max_k) == 0 || device_headroom(d, vram, max_k) + 2 * stratum_bytes(
            d,
            device_top_k(d, vram, max_k),
        ) == usable_vram(vram),
        device_headroom(d, vram, max_k) >= 0,
        usable_vram(vram) > 2 * stratum_bytes(d, device_top_k(d, vram, max_k)) ==> device_headroom(
            d,
            vram,
            max_k,
        ) > 0,
{
    assert(vram * 80 == 80 * vram);
}

/// Rank recommended for a device with `vram` bytes.
pub open spec fn device_top_k(d: int, vram: int, max_k: int) -> int {
    optimal_k(d, (stratum_budget(vram) as usize) as int, max_k)
}

/// Usable VRAM left after the active and the buffered stratum, saturating at
/// zero.
pub open spec fn device_headroom(d: int, vram: int, max_k: int) -> int {
    let used = stratum_bytes(d, device_top_k(d, vram, max_k)) * 2;
    if usable_vram(vram) >= used {
        usable_vram(vram) - used
    } else {
        0
    }
}

/// `s` lists the layers `start, start + 1, ..., end - 1`.
pub open spec fn is_layer_range(s: Seq<usize>, start: int, end: int) -> bool {
    &&& s.len() == if start <= end {
        end - start
    } else {
        0
    }
    &&& forall|i: int| 0 <= i < s.len() ==> s[i] == start + i
}

/// `a` is the allocation that a device with `vram` bytes serving `stage`
/// receives for a model of hidden dimension `d` searched up to rank `max_k`.
pub open spec fn allocation_for(
    a: DeviceAllocation,
    stage: PipelineStage,
    vram: int,
    d: int,
    max_k: int,
) -> bool {
    let k = device_top_k(d, vram, max_k);
    &&& a.device_id == stage_device(stage)
    &&& a.vram_budget_bytes == vram
    &&& is_layer_range(a.assigned_layers@, stage.layer_range.0 as int, stage.layer_range.1 as int)
    &&& a.recommended_top_k == k
    &&& a.estimated_stratum_bytes == stratum_bytes(d, k)
    &&& a.headroom_bytes == device_headroom(d, vram, max_k)
}

/// The allocation of a stage can be computed without overflow or underflow:
/// its layer range is ordered, 80% of its VRAM is computable, and the
/// stratum of the rank the search settles on, doubled, fits in a `u64`.
pub open spec fn stage_allocatable(stage: PipelineStage, vram: int, d: int, max_k: int) -> bool {
    &&& stage.layer_range.0 <= stage.layer_range.1
    &&& vram * 80 <= u64::MAX
    &&& stratum_bytes_fits(d, device_top_k(d, vram, max_k))
    &&& stratum_bytes(d, device_top_k(d, vram, max_k)) * 2 <= u64::MAX
}

/// Every stage of the topology can be allocated.
pub open spec fn allocatable(arch: ModelArchitecture, topo: DeviceTopology, cfg: SpectralConfig) -> bool {
    forall|i: int|
        0 <= i < topo.stage_assignments@.len() ==> {
            let s = #[trigger] topo.stage_assignments@[i];
            stage_allocatable(
                s,
                device_vram_of(topo, stage_device(s)),
                hidden_dim_of(arch),
                cfg.top_k as int,
            )
        }
}

/// `allocs` holds, stage by stage, the allocation of each stage of `topo`.
pub open spec fn allocations_for(
    allocs: Seq<DeviceAllocation>,
    arch: ModelArchitecture,
    topo: DeviceTopology,
    cfg: SpectralConfig,
) -> bool {
    &&& allocs.len() == topo.stage_assignments@.len()
    &&& forall|i: int|
        0 <= i < allocs.len() ==> {
            let s = topo.stage_assignments@[i];
            allocation_for(
                #[trigger] allocs[i],
                s,
                device_vram_of(topo, stage_device(s)),
                hidden_dim_of(arch),
                cfg.top_k as int,
            )
        }
}

/// Builds the vector `[start, start + 1, ..., end - 1]`.
fn layer_range_vec(start: usize, end: usize) -> (v: Vec<usize>)
    ensures
        is_layer_range(v@, start as int, end as int),
{
    let mut v: Vec<usize> = Vec::new();
    if end <= start {
        return v;
    }
    let mut l: usize = start;
    while l < end
        invariant
            start <= l <= end,
            v@.len() == l - start,
            forall|i: int| 0 <= i < v@.len() ==> v@[i] == start + i,
        decreases end - l,
    {
        v.push(l);
        l = l + 1;
    }
    v
}

impl VramBudgetAllocator {
    /// Allocation of one stage.
    fn allocate_stage(
        stage: &PipelineStage,
        topo: &DeviceTopology,
        hidden_dim: usize,
        max_k: usize,
    ) -> (a: DeviceAllocation)
        requires
            stage_allocatable(
                *stage,
                device_vram_of(*topo, stage_device(*stage)),
                hidden_dim as int,
                max_k as int,
            ),
        ensures
            allocation_for(
                a,
                *stage,
                device_vram_of(*topo, stage_device(*stage)),
                hidden_dim as int,
                max_k as int,
            ),
    {
        let device_id: usize = if stage.device_ids.len() > 0 {
            stage.device_ids[0]
        } else {
            0
        };
        let vram: u64 = if device_id < topo.device_vram.len() {
            topo.device_vram[device_id]
        } else {
            0
        };
        let _num_assigned: usize = stage.layer_range.1 - stage.layer_range.0;

        // Reserve 20% for activations, gradients, and OS overhead
        let usable_vram: u64 = vram * 80 / 100;

        // With layer cycling, only 1 stratum active at a time + 1 buffer
        let budget_per_stratum: u64 = usable_vram / 2;

        let optimal_k: usize = find_optimal_k(hidden_dim, budget_per_stratum as usize, max_k);
        let stratum_bytes: usize = estimate_stratum_bytes(hidden_dim, optimal_k);
        let assigned_layers: Vec<usize> = layer_range_vec(stage.layer_range.0, stage.layer_range.1);

        DeviceAllocation {
            device_id,
            vram_budget_bytes: vram,
            assigned_layers,
            recommended_top_k: optimal_k,
            estimated_stratum_bytes: stratum_bytes as u64,
            headroom_bytes: usable_vram.saturating_sub(stratum_bytes as u64 * 2),
        }
    }

    /// Compute allocation for all devices given model and topology.
    pub fn allocate(
        arch: &ModelArchitecture,
        topo: &DeviceTopology,
        spectral_cfg: &SpectralConfig,
    ) -> (r: Vec<DeviceAllocation>)
        requires
            allocatable(*arch, *topo, *spectral_cfg),
        ensures
            allocations_for(r@, *arch, *topo, *spectral_cfg),
    {
        let hidden_dim: usize = match arch {
            ModelArchitecture::Dense(cfg) => cfg.hidden_dim,
            ModelArchitecture::Moe(cfg) => cfg.base.hidden_dim,
        };

        let mut allocations: Vec<DeviceAllocation> = Vec::new();
        let mut i: usize = 0;
        while i < topo.stage_assignments.len()
            invariant
                hidden_dim == hidden_dim_of(*arch),
                allocatable(*arch, *topo, *spectral_cfg),
                i <= topo.stage_assignments@.len(),
                allocations@.len() == i,
                forall|j: int|
                    0 <= j < i ==> {
                        let s = topo.stage_assignments@[j];
                        allocation_for(
                            #[trigger] allocations@[j],
                            s,
                            device_vram_of(*topo, stage_device(s)),
                            hidden_dim as int,
                            spectral_cfg.top_k as int,
                        )
                    },
            decreases topo.stage_assignments@.len() - i,
        {
            let stage: &PipelineStage = &topo.stage_assignments[i];
            proof {
                let s = topo.stage_assignments@[i as int];
                assert(stage_allocatable(
                    s,
                    device_vram_of(*topo, stage_device(s)),
                    hidden_dim_of(*arch),
                    spectral_cfg.top_k as int,
                ));
            }
            let a: DeviceAllocation = Self::allocate_stage(stage, topo, hidden_dim, spectral_cfg.top_k);
            allocations.push(a);
            i = i + 1;
        }
        allocations
    }

    /// Check if entire model fits with given configuration: every device
    /// keeps headroom and gets a rank of at least four.
    pub fn is_feasible(
        arch: &ModelArchitecture,
        topo: &DeviceTopology,
        spectral_cfg: &SpectralConfig,
    ) -> (r: bool)
        requires
            allocatable(*arch, *topo, *spectral_cfg),
        ensures
            r == (forall|i: int|
                0 <= i < topo.stage_assignments@.len() ==> {
                    let s = #[trigger] topo.stage_assignments@[i];
                    device_headroom(
                        hidden_dim_of(*arch),
                        device_vram_of(*topo, stage_device(s)),
                        spectral_cfg.top_k as int,
                    ) > 0
                }),
    {
        let allocs: Vec<DeviceAllocation> = Self::allocate(arch, topo, spectral_cfg);
        let mut i: usize = 0;
        while i < allocs.len()
            invariant
                allocations_for(allocs@, *arch, *topo, *spectral_cfg),
                i <= allocs@.len(),
                forall|j: int| 0 <= j < i ==> #[trigger] allocs@[j].headroom_bytes > 0,
            decreases allocs@.len() - i,
        {
            if !(allocs[i].headroom_bytes > 0 && allocs[i].recommended_top_k >= 4) {
                proof {
                    let s = topo.stage_assignments@[i as int];
                    lemma_optimal_k_at_least_four(
                        hidden_dim_of(*arch),
                        (stratum_budget(device_vram_of(*topo, stage_device(s))) as usize) as int,
                        spectral_cfg.top_k as int,
                    );
                    assert(allocation_for(
                        allocs@[i as int],
                        s,
                        device_vram_of(*topo, stage_device(s)),
                        hidden_dim_of(*arch),
                        spectral_cfg.top_k as int,
                    ));
                }
                return false;
            }
            i = i + 1;
        }
        proof {
            assert forall|j: int| 0 <= j < topo.stage_assignments@.len() implies {
                let s = #[trigger] topo.stage_assignments@[j];
                device_headroom(
                    hidden_dim_of(*arch),
                    device_vram_of(*topo, stage_device(s)),
                    spectral_cfg.top_k as int,
                ) > 0
            } by {
                assert(allocs@[j].headroom_bytes > 0);
            }
        }
        true
    }
}

/// What an allocation promises its device: a rank of at least four; when
/// the minimal rank fits the per-stratum budget and the search range is not
/// empty, a rank no larger than the configured `top_k` nor the hidden
/// dimension whose stratum fits that budget; and, when the device has
/// headroom, two strata (active and buffered) within its usable VRAM.
pub proof fn lemma_allocation_within_budget(
    a: DeviceAllocation,
    stage: PipelineStage,
    vram: int,
    d: int,
    max_k: int,
)
    requires
        allocation_for(a, stage, vram, d, max_k),
        d >= 0,
    ensures
        a.recommended_top_k >= 4,
        rank_cap(d, max_k) >= 4 && stratum_bytes(d, 4) <= (stratum_budget(vram) as usize) ==> {
            &&& a.recommended_top_k <= max_k
            &&& a.recommended_top_k <= d
            &&& a.estimated_stratum_bytes <= (stratum_budget(vram) as usize)
        },
        a.headroom_bytes > 0 ==> a.estimated_stratum_bytes * 2 < usable_vram(vram),
{
    let budget = (stratum_budget(vram) as usize) as int;
    let k = device_top_k(d, vram, max_k);
    lemma_optimal_k_at_least_four(d, budget, max_k);
    if rank_cap(d, max_k) >= 4 && stratum_bytes(d, 4) <= budget {
        lemma_fits_iff_quotient(d, 4, budget);
        lemma_fits_iff_quotient(d, k, budget);
    }
}

/// A uniform topology whose stages stay within the layers can be allocated
/// whenever its devices' VRAM and the stratum of the rank the search settles
/// on keep the byte counts within their integer types; stage `d` is served
/// by device `d`.
pub proof fn lemma_uniform_allocatable(
    arch: ModelArchitecture,
    topo: DeviceTopology,
    cfg: SpectralConfig,
    num_devices: int,
    vram: int,
    num_layers: int,
)
    requires
        num_devices > 0,
        num_layers >= 0,
        is_uniform_topology(topo, num_devices, vram, num_layers),
        (num_devices - 1) * layers_per_stage(num_layers, num_devices) <= num_layers,
        vram * 80 <= u64::MAX,
        stratum_bytes_fits(hidden_dim_of(arch), device_top_k(hidden_dim_of(arch), vram, cfg.top_k as int)),
        stratum_bytes(hidden_dim_of(arch), device_top_k(hidden_dim_of(arch), vram, cfg.top_k as int)) * 2
            <= u64::MAX,
    ensures
        allocatable(arch, topo, cfg),
        forall|i: int|
            0 <= i < num_devices ==> stage_device(#[trigger] topo.stage_assignments@[i]) == i
                && device_vram_of(topo, i) == vram,
{
    let n = num_devices;
    let l = num_layers;
    let c = layers_per_stage(l, n);
    lemma_ceil_div(l, n);
    assert forall|i: int| 0 <= i < topo.stage_assignments@.len() implies ({
        let s = #[trigger] topo.stage_assignments@[i];
        &&& stage_device(s) == i
        &&& device_vram_of(topo, i) == vram
        &&& s.layer_range.0 <= s.layer_range.1
    }) by {
        let s = topo.stage_assignments@[i];
        assert(s.device_ids@ == seq![i as usize]);
        assert(i * c <= (n - 1) * c) by (nonlinear_arith)
            requires
                i <= n - 1,
                c >= 0,
        ;
        assert(0 <= i * c) by (nonlinear_arith)
            requires
                i >= 0,
                c >= 0,
        ;
    }
}

} // verus!
