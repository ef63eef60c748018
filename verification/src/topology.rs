//! Physical device topologies and pipeline stage layouts.
use vstd::prelude::*;
use crate::model_config::{
    ModelArchitecture, ShardStrategy, vram_fp16, vram_fp16_fits, num_layers_of,
};
use crate::config::lemma_nonneg_product;

verus! {

/// A pipeline stage: contiguous range of layers assigned to device group.
#[derive(Debug)]
pub struct PipelineStage {
    /// Stage index.
    pub stage_id: usize,
    /// Device IDs participating in this stage.
    pub device_ids: Vec<usize>,
    /// Layer range [start, end) assigned to this stage.
    pub layer_range: (usize, usize),
    /// Number of micro-batches in flight for pipeline overlap.
    pub micro_batches: usize,
}

impl Clone for PipelineStage {
    fn clone(&self) -> (r: Self)
        ensures
            r.stage_id == self.stage_id,
            r.device_ids@ == self.device_ids@,
            r.layer_range == self.layer_range,
            r.micro_batches == self.micro_batches,
    {
        let ids: Vec<usize> = self.device_ids.clone();
        proof {
            assert(ids@ =~= self.device_ids@);
        }
        PipelineStage {
            stage_id: self.stage_id,
            device_ids: ids,
            layer_range: self.layer_range,
            micro_batches: self.micro_batches,
        }
    }
}

/// Describes the physical device topology for distributed RSMF.
///
/// Inter-device bandwidth is a real-valued link property that no decision
/// here reads; it is carried alongside this value by the host code.
#[derive(Debug, Clone)]
pub struct DeviceTopology {
    /// Per-device VRAM capacity in bytes.
    pub device_vram: Vec<u64>,
    /// Number of pipeline stages (groups of consecutive layers).
    pub num_pipeline_stages: usize,
    /// Assignment of layers to pipeline stages.
    pub stage_assignments: Vec<PipelineStage>,
}

/// Sum of a sequence of byte counts.
pub open spec fn seq_sum(s: Seq<u64>) -> int
    decreases s.len(),
{
    if s.len() == 0 {
        0
    } else {
        seq_sum(s.drop_last()) + s.last()
    }
}

/// Smallest element of a sequence of byte counts, `0` for an empty one.
pub open spec fn seq_min(s: Seq<u64>) -> int
    decreases s.len(),
{
    if s.len() == 0 {
        0
    } else if s.len() == 1 {
        s[0] as int
    } else {
        let m = seq_min(s.drop_last());
        if s.last() < m {
            s.last() as int
        } else {
            m
        }
    }
}

/// Layers per stage when `num_layers` layers are spread over `num_devices`
/// devices: the ceiling of their quotient.
pub open spec fn layers_per_stage(num_layers: int, num_devices: int) -> int {
    (num_layers + num_devices - 1) / num_devices
}

/// First layer of stage `d` in a uniform topology.
pub open spec fn uniform_stage_start(d: int, num_layers: int, num_devices: int) -> int {
    d * layers_per_stage(num_layers, num_devices)
}

/// One past the last layer of stage `d` in a uniform topology.
pub open spec fn uniform_stage_end(d: int, num_layers: int, num_devices: int) -> int {
    let e = uniform_stage_start(d, num_layers, num_devices) + layers_per_stage(num_layers, num_devices);
    if e < num_layers {
        e
    } else {
        num_layers
    }
}

/// `topo` is the uniform topology of `num_devices` devices of `vram` bytes
/// each, serving `num_layers` layers.
pub open spec fn is_uniform_topology(
    topo: DeviceTopology,
    num_devices: int,
    vram: int,
    num_layers: int,
) -> bool {
    &&& topo.device_vram@.len() == num_devices
    &&& forall|i: int| 0 <= i < num_devices ==> topo.device_vram@[i] == vram
    &&& topo.num_pipeline_stages == num_devices
    &&& topo.stage_assignments@.len() == num_devices
    &&& forall|d: int|
        0 <= d < num_devices ==> {
            let s = #[trigger] topo.stage_assignments@[d];
            &&& s.stage_id == d
            &&& s.device_ids@ == seq![d as usize]
            &&& s.layer_range.0 == uniform_stage_start(d, num_layers, num_devices)
            &&& s.layer_range.1 == uniform_stage_end(d, num_layers, num_devices)
            &&& s.micro_batches == 4
        }
}

/// Whether a model needing `needed` bytes fits on devices with `available`
/// bytes in total, the smallest holding `min_device` bytes, for a strategy.
pub open spec fn hosts(
    strategy: ShardStrategy,
    needed: int,
    num_layers: int,
    available: int,
    min_device: int,
) -> bool {
    match strategy {
        ShardStrategy::SpectralK => needed / num_layers < min_device,
        ShardStrategy::PipelineLayers => needed < available * 10,
        ShardStrategy::HybridPipelineSpectral => needed < available * 10,
        ShardStrategy::ExpertParallel => needed < available * 8,
    }
}

/// The hosting check can run without overflow or division by zero.
pub open spec fn hosts_fits(strategy: ShardStrategy, num_layers: int, available: int) -> bool {
    match strategy {
        ShardStrategy::SpectralK => num_layers > 0,
        ShardStrategy::PipelineLayers => available * 10 <= u64::MAX,
        ShardStrategy::HybridPipelineSpectral => available * 10 <= u64::MAX,
        ShardStrategy::ExpertParallel => available * 8 <= u64::MAX,
    }
}

/// Bytes crossing pipeline stage boundaries per training step.
pub open spec fn comm_bytes(num_stages: int, hidden_dim: int, batch_size: int) -> int {
    let boundaries = if num_stages >= 1 {
        num_stages - 1
    } else {
        0
    };
    boundaries * (batch_size * hidden_dim * 2)
}

/// Activations cross a boundary between consecutive stages only: a pipeline
/// of at most one stage transfers nothing, and each further stage adds one
/// FP16 activation batch.
pub proof fn lemma_comm_bytes_per_stage(num_stages: int, hidden_dim: int, batch_size: int)
    ensures
        num_stages <= 1 ==> comm_bytes(num_stages, hidden_dim, batch_size) == 0,
        num_stages >= 1 ==> comm_bytes(num_stages + 1, hidden_dim, batch_size) == comm_bytes(
            num_stages,
            hidden_dim,
            batch_size,
        ) + 2 * batch_size * hidden_dim,
{
    let a = batch_size * hidden_dim * 2;
    assert(0 * a == 0) by (nonlinear_arith);
    assert(num_stages * a == (num_stages - 1) * a + 2 * batch_size * hidden_dim) by (nonlinear_arith)
        requires
            a == batch_size * hidden_dim * 2,
    ;
}

/// The prefix sums of a sequence of non-negative values grow with the prefix.
pub proof fn lemma_seq_sum_prefix(s: Seq<u64>, i: int)
    requires
        0 <= i <= s.len(),
    ensures
        0 <= seq_sum(s.subrange(0, i)) <= seq_sum(s),
    decreases s.len() - i,
{
    if i < s.len() {
        lemma_seq_sum_prefix(s, i + 1);
        lemma_seq_sum_nonneg(s.subrange(0, i));
        assert(s.subrange(0, i + 1).drop_last() =~= s.subrange(0, i));
    } else {
        assert(s.subrange(0, i) =~= s);
        lemma_seq_sum_nonneg(s);
    }
}

/// Sums of byte counts are non-negative.
pub proof fn lemma_seq_sum_nonneg(s: Seq<u64>)
    ensures
        seq_sum(s) >= 0,
    decreases s.len(),
{
    if s.len() > 0 {
        lemma_seq_sum_nonneg(s.drop_last());
    }
}

/// Adding a device adds its VRAM to the total; no devices hold nothing.
pub proof fn lemma_seq_sum_push(s: Seq<u64>, x: u64)
    ensures
        seq_sum(Seq::<u64>::empty()) == 0,
        seq_sum(s.push(x)) == seq_sum(s) + x,
{
    assert(s.push(x).drop_last() =~= s);
}

/// The smallest-device VRAM is the minimum of the devices' VRAM: no device
/// holds less, and some device holds exactly that much.
pub proof fn lemma_seq_min_is_minimum(s: Seq<u64>)
    requires
        s.len() > 0,
    ensures
        forall|i: int| 0 <= i < s.len() ==> seq_min(s) <= #[trigger] s[i],
        exists|i: int| 0 <= i < s.len() && seq_min(s) == #[trigger] s[i],
    decreases s.len(),
{
    if s.len() == 1 {
        assert(seq_min(s) == s[0]);
    } else {
        let t = s.drop_last();
        lemma_seq_min_is_minimum(t);
        assert forall|i: int| 0 <= i < s.len() implies seq_min(s) <= #[trigger] s[i] by {
            if i < s.len() - 1 {
                assert(s[i] == t[i]);
            }
        }
        if s.last() < seq_min(t) {
            assert(seq_min(s) == s[s.len() - 1]);
        } else {
            let j = choose|j: int| 0 <= j < t.len() && seq_min(t) == #[trigger] t[j];
            assert(s[j] == t[j]);
            assert(seq_min(s) == s[j]);
        }
    }
}

/// Under spectral-K sharding a topology hosts a model exactly when it has
/// devices and every one of them holds more than one layer's share of the
/// model.
pub proof fn lemma_spectral_hosting(needed: int, num_layers: int, available: int, devices: Seq<u64>)
    requires
        needed >= 0,
        num_layers > 0,
    ensures
        hosts(ShardStrategy::SpectralK, needed, num_layers, available, seq_min(devices)) <==> (
        devices.len() > 0 && forall|i: int|
            0 <= i < devices.len() ==> needed / num_layers < #[trigger] devices[i]),
{
    assert(needed / num_layers >= 0) by {
        vstd::arithmetic::div_mod::lemma_div_pos_is_pos(needed, num_layers);
    }
    if devices.len() > 0 {
        lemma_seq_min_is_minimum(devices);
        let j = choose|j: int| 0 <= j < devices.len() && seq_min(devices) == #[trigger] devices[j];
        if forall|i: int| 0 <= i < devices.len() ==> needed / num_layers < #[trigger] devices[i] {
            assert(needed / num_layers < devices[j]);
        }
    }
}

/// The division bounding uniform stage arithmetic: `n` times the ceiling of
/// `l / n` is at least `l` and below `l + n`.
pub proof fn lemma_ceil_div(l: int, n: int)
    requires
        l >= 0,
        n > 0,
    ensures
        layers_per_stage(l, n) >= 0,
        l <= n * layers_per_stage(l, n) <= l + n - 1,
{
    let c = layers_per_stage(l, n);
    vstd::arithmetic::div_mod::lemma_fundamental_div_mod(l + n - 1, n);
    let r = (l + n - 1) % n;
    assert(0 <= r < n);
    assert(n * c == l + n - 1 - r);
    assert(c >= 0) by (nonlinear_arith)
        requires
            n * c == l + n - 1 - r,
            r < n,
            l >= 0,
            n > 0,
    ;
}

/// Stages before the last lie below `n * ceil(l / n)`.
pub proof fn lemma_stage_bound(d: int, l: int, n: int)
    requires
        l >= 0,
        n > 0,
        0 <= d < n,
    ensures
        0 <= uniform_stage_start(d, l, n),
        uniform_stage_start(d, l, n) + layers_per_stage(l, n) <= l + n - 1,
{
    lemma_ceil_div(l, n);
    let c = layers_per_stage(l, n);
    assert(0 <= d * c && d * c + c <= n * c) by (nonlinear_arith)
        requires
            0 <= d < n,
            c >= 0,
    ;
}

impl DeviceTopology {
    /// Create uniform topology: N identical GPUs, simple pipeline.
    pub fn uniform(num_devices: usize, vram_per_device: u64, num_layers: usize) -> (r: Self)
        requires
            num_devices > 0,
            num_layers + num_devices <= usize::MAX,
        ensures
            is_uniform_topology(r, num_devices as int, vram_per_device as int, num_layers as int),
    {
        let per_stage: usize = (num_layers + num_devices - 1) / num_devices;
        let mut stage_assignments: Vec<PipelineStage> = Vec::new();
        let mut d: usize = 0;
        while d < num_devices
            invariant
                num_devices > 0,
                num_layers + num_devices <= usize::MAX,
                per_stage == layers_per_stage(num_layers as int, num_devices as int),
                d <= num_devices,
                stage_assignments@.len() == d,
                forall|j: int|
                    0 <= j < d ==> {
                        let s = #[trigger] stage_assignments@[j];
                        &&& s.stage_id == j
                        &&& s.device_ids@ == seq![j as usize]
                        &&& s.layer_range.0 == uniform_stage_start(
                            j,
                            num_layers as int,
                            num_devices as int,
                        )
                        &&& s.layer_range.1 == uniform_stage_end(
                            j,
                            num_layers as int,
                            num_devices as int,
                        )
                        &&& s.micro_batches == 4
                    },
            decreases num_devices - d,
        {
            proof {
                lemma_stage_bound(d as int, num_layers as int, num_devices as int);
            }
            let start: usize = d * per_stage;
            let e: usize = start + per_stage;
            let end: usize = if e < num_layers {
                e
            } else {
                num_layers
            };
            let mut ids: Vec<usize> = Vec::new();
            ids.push(d);
            proof {
                assert(ids@ =~= seq![d]);
            }
            stage_assignments.push(
                PipelineStage { stage_id: d, device_ids: ids, layer_range: (start, end), micro_batches: 4 },
            );
            d = d + 1;
        }
        let device_vram: Vec<u64> = vec![vram_per_device; num_devices];
        DeviceTopology { device_vram, num_pipeline_stages: num_devices, stage_assignments }
    }

    /// Total VRAM across all devices.
    pub fn total_vram(&self) -> (r: u64)
        requires
            seq_sum(self.device_vram@) <= u64::MAX,
        ensures
            r == seq_sum(self.device_vram@),
    {
        let mut total: u64 = 0;
        let mut i: usize = 0;
        while i < self.device_vram.len()
            invariant
                i <= self.device_vram@.len(),
                seq_sum(self.device_vram@) <= u64::MAX,
                total == seq_sum(self.device_vram@.subrange(0, i as int)),
            decreases self.device_vram@.len() - i,
        {
            proof {
                lemma_seq_sum_prefix(self.device_vram@, i + 1);
                assert(self.device_vram@.subrange(0, i + 1).drop_last()
                    =~= self.device_vram@.subrange(0, i as int));
            }
            total = total + self.device_vram[i];
            i = i + 1;
        }
        proof {
            assert(self.device_vram@.subrange(0, i as int) =~= self.device_vram@);
        }
        total
    }

    /// VRAM of the smallest device, `0` when there is none.
    fn min_device_vram(&self) -> (r: u64)
        ensures
            r == seq_min(self.device_vram@),
    {
        let n: usize = self.device_vram.len();
        if n == 0 {
            return 0;
        }
        let mut m: u64 = self.device_vram[0];
        let mut i: usize = 1;
        proof {
            assert(self.device_vram@.subrange(0, 1).drop_last().len() == 0);
        }
        while i < n
            invariant
                n == self.device_vram@.len(),
                1 <= i <= n,
                m == seq_min(self.device_vram@.subrange(0, i as int)),
            decreases n - i,
        {
            proof {
                assert(self.device_vram@.subrange(0, i + 1).drop_last()
                    =~= self.device_vram@.subrange(0, i as int));
            }
            if self.device_vram[i] < m {
                m = self.device_vram[i];
            }
            i = i + 1;
        }
        proof {
            assert(self.device_vram@.subrange(0, n as int) =~= self.device_vram@);
        }
        m
    }

    /// Check if architecture fits this topology with given shard strategy.
    ///
    /// With spectral-K sharding, one layer of the full model must fit on the
    /// smallest device; pipeline strategies assume a tenfold and expert
    /// parallelism an eightfold RSMF compression over the total VRAM.
    pub fn can_host(&self, arch: &ModelArchitecture, strategy: ShardStrategy) -> (r: bool)
        requires
            vram_fp16_fits(*arch),
            seq_sum(self.device_vram@) <= u64::MAX,
            hosts_fits(strategy, num_layers_of(*arch), seq_sum(self.device_vram@)),
        ensures
            r == hosts(
                strategy,
                vram_fp16(*arch),
                num_layers_of(*arch),
                seq_sum(self.device_vram@),
                seq_min(self.device_vram@),
            ),
    {
        let needed: u64 = arch.vram_full_fp16();
        let available: u64 = self.total_vram();
        match strategy {
            ShardStrategy::SpectralK => {
                let per_layer: u64 = needed / arch_num_layers(arch) as u64;
                let min_device: u64 = self.min_device_vram();
                per_layer < min_device
            },
            ShardStrategy::PipelineLayers | ShardStrategy::HybridPipelineSpectral => {
                needed < available * 10
            },
            ShardStrategy::ExpertParallel => { needed < available * 8 },
        }
    }

    /// Estimate communication cost per training step (bytes transferred):
    /// activations cross every pipeline stage boundary in FP16.
    pub fn comm_cost_per_step(&self, hidden_dim: usize, batch_size: usize) -> (r: u64)
        requires
            batch_size * hidden_dim * 2 <= u64::MAX,
            comm_bytes(self.num_pipeline_stages as int, hidden_dim as int, batch_size as int)
                <= u64::MAX,
        ensures
            r == comm_bytes(self.num_pipeline_stages as int, hidden_dim as int, batch_size as int),
    {
        proof {
            lemma_nonneg_product(batch_size as int, hidden_dim as int);
        }
        let boundaries: u64 = self.num_pipeline_stages.saturating_sub(1) as u64;
        let activation_bytes: u64 = batch_size as u64 * hidden_dim as u64 * 2;
        boundaries * activation_bytes
    }
}

/// Number of layers of an architecture.
pub fn arch_num_layers(arch: &ModelArchitecture) -> (r: usize)
    ensures
        r == num_layers_of(*arch),
{
    match arch {
        ModelArchitecture::Dense(cfg) => cfg.num_layers,
        ModelArchitecture::Moe(cfg) => cfg.base.num_layers,
    }
}

/// Total number of layers spanned by a sequence of stages.
pub open spec fn stage_span(stages: Seq<PipelineStage>) -> int
    decreases stages.len(),
{
    if stages.len() == 0 {
        0
    } else {
        stage_span(stages.drop_last()) + (stages.last().layer_range.1 - stages.last().layer_range.0)
    }
}

/// The stage of a uniform topology that serves layer `l`.
pub open spec fn stage_of_layer(l: int, num_layers: int, num_devices: int) -> int {
    l / layers_per_stage(num_layers, num_devices)
}

/// The stages of a uniform topology cover the layers without overlap: layer
/// `l` lies in stage `l / ceil(num_layers / num_devices)`, earlier stages end
/// no later than later ones start, and when no stage runs past the last
/// layer the stage lengths add up to the number of layers.
pub proof fn lemma_uniform_stages_tile(topo: DeviceTopology, num_devices: int, vram: int, num_layers: int)
    requires
        num_devices > 0,
        num_layers >= 0,
        is_uniform_topology(topo, num_devices, vram, num_layers),
    ensures
        forall|l: int|
            0 <= l < num_layers ==> {
                let d = #[trigger] stage_of_layer(l, num_layers, num_devices);
                &&& 0 <= d < num_devices
                &&& topo.stage_assignments@[d].layer_range.0 <= l
                &&& l < topo.stage_assignments@[d].layer_range.1
            },
        forall|d1: int, d2: int|
            0 <= d1 < d2 < num_devices ==> #[trigger] topo.stage_assignments@[d1].layer_range.1
                <= #[trigger] topo.stage_assignments@[d2].layer_range.0,
        (num_devices - 1) * layers_per_stage(num_layers, num_devices) <= num_layers ==> {
            &&& forall|d: int|
                0 <= d < num_devices ==> #[trigger] topo.stage_assignments@[d].layer_range.0
                    <= topo.stage_assignments@[d].layer_range.1
            &&& stage_span(topo.stage_assignments@) == num_layers
        },
{
    let c = layers_per_stage(num_layers, num_devices);
    lemma_ceil_div(num_layers, num_devices);
    let stages = topo.stage_assignments@;
    assert forall|l: int| 0 <= l < num_layers implies {
        let d = #[trigger] stage_of_layer(l, num_layers, num_devices);
        &&& 0 <= d < num_devices
        &&& topo.stage_assignments@[d].layer_range.0 <= l
        &&& l < topo.stage_assignments@[d].layer_range.1
    } by {
        assert(c > 0) by (nonlinear_arith)
            requires
                num_layers <= num_devices * c,
                num_devices > 0,
                c >= 0,
                l >= 0,
                l < num_layers,
        ;
        let d = l / c;
        vstd::arithmetic::div_mod::lemma_fundamental_div_mod(l, c);
        let r = l % c;
        assert(0 <= r < c);
        assert(0 <= d < num_devices) by (nonlinear_arith)
            requires
                l == c * d + r,
                0 <= r < c,
                0 <= l < num_layers,
                num_layers <= num_devices * c,
        ;
        assert(d * c <= l < d * c + c) by (nonlinear_arith)
            requires
                l == c * d + r,
                0 <= r < c,
        ;
        let s = stages[d];
    }
    assert forall|d1: int, d2: int| 0 <= d1 < d2 < num_devices implies #[trigger] topo.stage_assignments@[d1].layer_range.1
        <= #[trigger] topo.stage_assignments@[d2].layer_range.0 by {
        assert(d1 * c + c <= d2 * c) by (nonlinear_arith)
            requires
                d1 < d2,
                c >= 0,
        ;
    }
    if (num_devices - 1) * c <= num_layers {
        assert forall|d: int| 0 <= d < num_devices implies #[trigger] topo.stage_assignments@[d].layer_range.0
            <= topo.stage_assignments@[d].layer_range.1 by {
            assert(d * c <= (num_devices - 1) * c) by (nonlinear_arith)
                requires
                    d <= num_devices - 1,
                    c >= 0,
            ;
            assert(0 <= d * c) by (nonlinear_arith)
                requires
                    d >= 0,
                    c >= 0,
            ;
        }
        lemma_uniform_prefix_span(topo, num_devices, vram, num_layers, num_devices);
        assert(stages.subrange(0, num_devices) =~= stages);
        assert(num_devices * c >= num_layers);
    }
}

/// The first `j` stages of a uniform topology whose stages stay within the
/// layers span `min(j * ceil(num_layers / num_devices), num_layers)` layers.
proof fn lemma_uniform_prefix_span(
    topo: DeviceTopology,
    num_devices: int,
    vram: int,
    num_layers: int,
    j: int,
)
    requires
        num_devices > 0,
        num_layers >= 0,
        is_uniform_topology(topo, num_devices, vram, num_layers),
        (num_devices - 1) * layers_per_stage(num_layers, num_devices) <= num_layers,
        0 <= j <= num_devices,
    ensures
        stage_span(topo.stage_assignments@.subrange(0, j)) == if j * layers_per_stage(
            num_layers,
            num_devices,
        ) < num_layers {
            j * layers_per_stage(num_layers, num_devices)
        } else {
            num_layers
        },
    decreases j,
{
    let c = layers_per_stage(num_layers, num_devices);
    lemma_ceil_div(num_layers, num_devices);
    let stages = topo.stage_assignments@;
    if j == 0 {
        assert(stages.subrange(0, 0).len() == 0);
        assert(0 * c == 0);
    } else {
        lemma_uniform_prefix_span(topo, num_devices, vram, num_layers, j - 1);
        assert(stages.subrange(0, j).drop_last() =~= stages.subrange(0, j - 1));
        assert(stages.subrange(0, j).last() == stages[j - 1]);
        let s = stages[j - 1];
        assert((j - 1) * c <= (num_devices - 1) * c) by (nonlinear_arith)
            requires
                j - 1 <= num_devices - 1,
                c >= 0,
        ;
        assert((j - 1) * c + c == j * c) by (nonlinear_arith);
        assert(0 <= (j - 1) * c) by (nonlinear_arith)
            requires
                j >= 1,
                c >= 0,
        ;
    }
}

} // verus!
