//! Model architecture descriptors and their FP16 memory footprint.
use vstd::prelude::*;

verus! {

/// Configuration for dense transformer models.
#[derive(Debug, Clone)]
pub struct DenseConfig {
    /// Total number of parameters (e.g., 70_000_000_000 for 70B).
    pub total_params: u64,
    /// Hidden dimension per layer.
    pub hidden_dim: usize,
    /// Number of transformer layers.
    pub num_layers: usize,
    /// Number of attention heads.
    pub num_heads: usize,
    /// Intermediate (FFN) dimension. Typically 4x hidden_dim.
    pub intermediate_dim: usize,
    /// Vocabulary size.
    pub vocab_size: usize,
}

/// Configuration for Mixture-of-Experts models.
#[derive(Debug, Clone)]
pub struct MoeConfig {
    /// Base dense config (shared attention + non-expert layers).
    pub base: DenseConfig,
    /// Number of experts per MoE layer.
    pub num_experts: usize,
    /// Number of experts activated per token (top-k routing).
    pub active_experts: usize,
    /// Which layers are MoE layers (indices). Others are dense.
    pub moe_layer_indices: Vec<usize>,
    /// Expert intermediate dimension (may differ from base).
    pub expert_intermediate_dim: usize,
}

/// High-level model architecture descriptor.
///
/// Determines how RSMF distributes computation across devices.
#[derive(Debug, Clone)]
pub enum ModelArchitecture {
    /// Standard dense transformer: all tokens flow through all parameters.
    Dense(DenseConfig),
    /// Mixture-of-Experts: sparse activation with shared routing.
    Moe(MoeConfig),
}

/// Strategy for distributing strata across devices.
#[derive(Debug, Clone, Copy, PartialEq, Eq, Structural)]
pub enum ShardStrategy {
    /// Split top-k singular components across GPUs along k-dimension.
    SpectralK,
    /// Assign contiguous layer ranges to each GPU (pipeline parallelism).
    PipelineLayers,
    /// Hybrid: pipeline over layer groups + spectral-K within each group.
    HybridPipelineSpectral,
    /// Each expert assigned to dedicated GPU(s). Routing stratum replicated.
    ExpertParallel,
}

/// Number of layers that are not MoE layers (saturating at zero).
pub open spec fn moe_shared_layers(cfg: MoeConfig) -> int {
    if cfg.base.num_layers >= cfg.moe_layer_indices.len() {
        cfg.base.num_layers - cfg.moe_layer_indices.len()
    } else {
        0
    }
}

/// Bytes of the shared (non-expert) layers of an MoE model in FP16:
/// each shared layer holds four `d x d` matrices of two bytes each.
pub open spec fn moe_shared_bytes(cfg: MoeConfig) -> int {
    moe_shared_layers(cfg) * (cfg.base.hidden_dim * cfg.base.hidden_dim) * 4 * 2
}

/// Bytes of the expert layers of an MoE model in FP16: every expert of every
/// MoE layer holds three `d x d_ff` matrices (gate, up, down) of two bytes each.
pub open spec fn moe_expert_bytes(cfg: MoeConfig) -> int {
    cfg.moe_layer_indices.len() * cfg.num_experts * cfg.expert_intermediate_dim
        * cfg.base.hidden_dim * 3 * 2
}

/// Total VRAM needed for the full model in FP16.
pub open spec fn vram_fp16(arch: ModelArchitecture) -> int {
    match arch {
        ModelArchitecture::Dense(cfg) => cfg.total_params * 2,
        ModelArchitecture::Moe(cfg) => moe_shared_bytes(cfg) + moe_expert_bytes(cfg),
    }
}

/// Every intermediate product of the FP16 estimate fits in a `u64`, so the
/// estimate can be computed without overflow.
pub open spec fn vram_fp16_fits(arch: ModelArchitecture) -> bool {
    match arch {
        ModelArchitecture::Dense(cfg) => cfg.total_params * 2 <= u64::MAX,
        ModelArchitecture::Moe(cfg) => {
            let d = cfg.base.hidden_dim as int;
            let l = cfg.moe_layer_indices.len() as int;
            let e = cfg.num_experts as int;
            let f = cfg.expert_intermediate_dim as int;
            &&& d * d <= u64::MAX
            &&& moe_shared_bytes(cfg) <= u64::MAX
            &&& l * e <= u64::MAX
            &&& l * e * f <= u64::MAX
            &&& moe_expert_bytes(cfg) <= u64::MAX
            &&& moe_shared_bytes(cfg) + moe_expert_bytes(cfg) <= u64::MAX
        },
    }
}

/// Number of layers of the architecture.
pub open spec fn num_layers_of(arch: ModelArchitecture) -> int {
    match arch {
        ModelArchitecture::Dense(cfg) => cfg.num_layers as int,
        ModelArchitecture::Moe(cfg) => cfg.base.num_layers as int,
    }
}

/// Hidden dimension of the architecture.
pub open spec fn hidden_dim_of(arch: ModelArchitecture) -> int {
    match arch {
        ModelArchitecture::Dense(cfg) => cfg.hidden_dim as int,
        ModelArchitecture::Moe(cfg) => cfg.base.hidden_dim as int,
    }
}

/// The strategy recommended for an architecture needing `full` bytes when
/// `total` bytes of VRAM are available.
pub open spec fn strategy_for(arch: ModelArchitecture, full: int, total: int) -> ShardStrategy {
    if arch is Moe && full > total {
        ShardStrategy::ExpertParallel
    } else if arch is Dense && num_layers_of(arch) > 64 && full > total * 4 {
        ShardStrategy::HybridPipelineSpectral
    } else if full > total {
        ShardStrategy::PipelineLayers
    } else {
        ShardStrategy::SpectralK
    }
}

/// The strategy choice can evaluate its `total * 4` test without overflow.
pub open spec fn strategy_fits(arch: ModelArchitecture, total: int) -> bool {
    (arch is Dense && num_layers_of(arch) > 64) ==> total * 4 <= u64::MAX
}

/// `s` lists the indices `0, 1, ..., n - 1`.
pub open spec fn is_index_range(s: Seq<usize>, n: int) -> bool {
    &&& s.len() == n
    &&& forall|i: int| 0 <= i < n ==> s[i] == i
}

/// Builds the vector `[0, 1, ..., n - 1]`.
pub fn index_range(n: usize) -> (v: Vec<usize>)
    ensures
        is_index_range(v@, n as int),
{
    let mut v: Vec<usize> = Vec::new();
    let mut i: usize = 0;
    while i < n
        invariant
            i <= n,
            is_index_range(v@, i as int),
        decreases n - i,
    {
        v.push(i);
        i = i + 1;
    }
    v
}

impl ModelArchitecture {
    /// Estimate total VRAM needed for full model in FP16.
    pub fn vram_full_fp16(&self) -> (r: u64)
        requires
            vram_fp16_fits(*self),
        ensures
            r == vram_fp16(*self),
    {
        match self {
            ModelArchitecture::Dense(cfg) => cfg.total_params * 2,
            ModelArchitecture::Moe(cfg) => {
                let n_moe: usize = cfg.moe_layer_indices.len();
                let shared: u64 = cfg.base.num_layers.saturating_sub(n_moe) as u64;
                let d: u64 = cfg.base.hidden_dim as u64;
                let l: u64 = n_moe as u64;
                let e: u64 = cfg.num_experts as u64;
                let f: u64 = cfg.expert_intermediate_dim as u64;
                proof {
                    lemma_product_prefixes(shared as int, (d * d) as int);
                    lemma_product_prefixes((l * e * f) as int, d as int);
                }
                let dd: u64 = d * d;
                let shared_bytes: u64 = shared * dd * 4 * 2;
                let expert_bytes: u64 = l * e * f * d * 3 * 2;
                shared_bytes + expert_bytes
            },
        }
    }

    /// Recommended shard strategy based on architecture and available VRAM.
    pub fn recommend_shard_strategy(&self, total_vram_bytes: u64) -> (r: ShardStrategy)
        requires
            vram_fp16_fits(*self),
            strategy_fits(*self, total_vram_bytes as int),
        ensures
            r == strategy_for(*self, vram_fp16(*self), total_vram_bytes as int),
    {
        let full_vram: u64 = self.vram_full_fp16();
        match self {
            ModelArchitecture::Moe(_) => {
                if full_vram > total_vram_bytes {
                    return ShardStrategy::ExpertParallel;
                }
            },
            ModelArchitecture::Dense(cfg) => {
                if cfg.num_layers > 64 && full_vram > total_vram_bytes * 4 {
                    return ShardStrategy::HybridPipelineSpectral;
                }
            },
        }
        if full_vram > total_vram_bytes {
            ShardStrategy::PipelineLayers
        } else {
            ShardStrategy::SpectralK
        }
    }
}

/// A dense model needs two bytes per parameter in FP16.
pub proof fn lemma_dense_fp16_bytes(cfg: DenseConfig)
    ensures
        vram_fp16(ModelArchitecture::Dense(cfg)) == 2 * cfg.total_params,
{
}

/// The recommended strategy follows whether the model fits: spectral-K
/// exactly when the FP16 model fits in the available VRAM; otherwise expert
/// parallelism for an MoE model, the hybrid pipeline for a dense model deeper
/// than 64 layers needing more than four times the VRAM, and plain pipeline
/// parallelism for every other dense model.
pub proof fn lemma_strategy_follows_fit(arch: ModelArchitecture, total: int)
    ensures
        (strategy_for(arch, vram_fp16(arch), total) == ShardStrategy::SpectralK) <==> vram_fp16(
            arch,
        ) <= total,
        arch is Moe && vram_fp16(arch) > total ==> strategy_for(arch, vram_fp16(arch), total)
            == ShardStrategy::ExpertParallel,
        arch is Dense && vram_fp16(arch) > total && (num_layers_of(arch) <= 64 || vram_fp16(arch)
            <= 4 * total) ==> strategy_for(arch, vram_fp16(arch), total)
            == ShardStrategy::PipelineLayers,
        arch is Dense && num_layers_of(arch) > 64 && vram_fp16(arch) > 4 * total ==> strategy_for(
            arch,
            vram_fp16(arch),
            total,
        ) == ShardStrategy::HybridPipelineSpectral,
{
    if arch is Dense && num_layers_of(arch) > 64 && vram_fp16(arch) > 4 * total {
        if vram_fp16(arch) <= total {
            match arch {
                ModelArchitecture::Dense(cfg) => {
                    assert(cfg.total_params >= 0);
                },
                _ => {},
            }
            assert(total >= 0);
        }
    }
}

/// Each further expert adds its three FP16 `d x d_ff` matrices in every MoE
/// layer to an MoE model's footprint, and an MoE model without experts needs
/// only its shared layers: four FP16 `d x d` matrices each.
pub proof fn lemma_moe_fp16_per_expert(cfg: MoeConfig, more: MoeConfig)
    requires
        more.base == cfg.base,
        more.moe_layer_indices@ == cfg.moe_layer_indices@,
        more.expert_intermediate_dim == cfg.expert_intermediate_dim,
        more.num_experts == cfg.num_experts + 1,
    ensures
        vram_fp16(ModelArchitecture::Moe(more)) == vram_fp16(ModelArchitecture::Moe(cfg))
            + cfg.moe_layer_indices@.len() * (6 * cfg.expert_intermediate_dim * cfg.base.hidden_dim),
        cfg.num_experts == 0 ==> vram_fp16(ModelArchitecture::Moe(cfg)) == 8 * (
        cfg.base.hidden_dim * cfg.base.hidden_dim) * (if cfg.base.num_layers
            >= cfg.moe_layer_indices@.len() {
            cfg.base.num_layers - cfg.moe_layer_indices@.len()
        } else {
            0
        }),
{
    let l = cfg.moe_layer_indices@.len() as int;
    let e = cfg.num_experts as int;
    let f = cfg.expert_intermediate_dim as int;
    let d = cfg.base.hidden_dim as int;
    assert(moe_expert_bytes(more) == moe_expert_bytes(cfg) + l * (6 * f * d)) by (nonlinear_arith)
        requires
            moe_expert_bytes(more) == l * (e + 1) * f * d * 3 * 2,
            moe_expert_bytes(cfg) == l * e * f * d * 3 * 2,
    ;
    if e == 0 {
        assert(moe_expert_bytes(cfg) == 0) by (nonlinear_arith)
            requires
                moe_expert_bytes(cfg) == l * e * f * d * 3 * 2,
                e == 0,
        ;
        let s = moe_shared_layers(cfg);
        assert(moe_shared_bytes(cfg) == 8 * (d * d) * s) by (nonlinear_arith)
            requires
                moe_shared_bytes(cfg) == s * (d * d) * 4 * 2,
        ;
    }
}

/// For non-negative `a` and `b`, when `a * b * 8` is bounded so are the
/// products `a * b` and `a * b * 4` on the way there, and likewise for a
/// factor of six.
proof fn lemma_product_prefixes(a: int, b: int)
    requires
        a >= 0,
        b >= 0,
    ensures
        a * b >= 0,
        a * b <= a * b * 4 <= a * b * 8,
        a * b <= a * b * 3 <= a * b * 6,
{
    assert(a * b >= 0) by (nonlinear_arith)
        requires
            a >= 0,
            b >= 0,
    ;
}

impl DenseConfig {
    /// GPT-2 Small (124M)
    pub fn gpt2_small() -> (r: Self)
        ensures
            r.total_params == 124_000_000,
            r.hidden_dim == 768,
            r.num_layers == 12,
            r.num_heads == 12,
            r.intermediate_dim == 3072,
            r.vocab_size == 50257,
    {
        DenseConfig {
            total_params: 124_000_000,
            hidden_dim: 768,
            num_layers: 12,
            num_heads: 12,
            intermediate_dim: 3072,
            vocab_size: 50257,
        }
    }

    /// Llama-2 70B
    pub fn llama2_70b() -> (r: Self)
        ensures
            r.total_params == 70_000_000_000,
            r.hidden_dim == 8192,
            r.num_layers == 80,
            r.num_heads == 64,
            r.intermediate_dim == 28672,
            r.vocab_size == 32000,
    {
        DenseConfig {
            total_params: 70_000_000_000,
            hidden_dim: 8192,
            num_layers: 80,
            num_heads: 64,
            intermediate_dim: 28672,
            vocab_size: 32000,
        }
    }

    /// Hypothetical 700B dense
    pub fn dense_700b() -> (r: Self)
        ensures
            r.total_params == 700_000_000_000,
            r.hidden_dim == 16384,
            r.num_layers == 128,
            r.num_heads == 128,
            r.intermediate_dim == 65536,
            r.vocab_size == 128000,
    {
        DenseConfig {
            total_params: 700_000_000_000,
            hidden_dim: 16384,
            num_layers: 128,
            num_heads: 128,
            intermediate_dim: 65536,
            vocab_size: 128000,
        }
    }
}

impl MoeConfig {
    /// Mixtral 8x7B style
    pub fn mixtral_8x7b() -> (r: Self)
        ensures
            r.base.total_params == 46_700_000_000,
            r.base.hidden_dim == 4096,
            r.base.num_layers == 32,
            r.base.num_heads == 32,
            r.base.intermediate_dim == 14336,
            r.base.vocab_size == 32000,
            r.num_experts == 8,
            r.active_experts == 2,
            is_index_range(r.moe_layer_indices@, 32),
            r.expert_intermediate_dim == 14336,
    {
        MoeConfig {
            base: DenseConfig {
                total_params: 46_700_000_000,
                hidden_dim: 4096,
                num_layers: 32,
                num_heads: 32,
                intermediate_dim: 14336,
                vocab_size: 32000,
            },
            num_experts: 8,
            active_experts: 2,
            moe_layer_indices: index_range(32),
            expert_intermediate_dim: 14336,
        }
    }

    /// Hypothetical 700B MoE (e.g., 128 experts, top-8)
    pub fn moe_700b() -> (r: Self)
        ensures
            r.base.total_params == 700_000_000_000,
            r.base.hidden_dim == 8192,
            r.base.num_layers == 96,
            r.base.num_heads == 64,
            r.base.intermediate_dim == 28672,
            r.base.vocab_size == 128000,
            r.num_experts == 128,
            r.active_experts == 8,
            is_index_range(r.moe_layer_indices@, 96),
            r.expert_intermediate_dim == 28672,
    {
        MoeConfig {
            base: DenseConfig {
                total_params: 700_000_000_000,
                hidden_dim: 8192,
                num_layers: 96,
                num_heads: 64,
                intermediate_dim: 28672,
                vocab_size: 128000,
            },
            num_experts: 128,
            active_experts: 8,
            moe_layer_indices: index_range(96),
            expert_intermediate_dim: 28672,
        }
    }
}

} // verus!
