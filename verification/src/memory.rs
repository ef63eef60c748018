//! Memory accounting of strata, resonant tensors and expert groups.
use vstd::prelude::*;

verus! {

/// Bytes of an FP64 element.
pub const F64_BYTES: usize = 8;

/// Bytes of the resonance metadata of a resonant tensor: phase, local
/// energy, condition number and one more FP64 slot, plus the update flag.
pub const RESONANCE_META_BYTES: usize = 4 * 8 + 1;

/// Bytes of a stratum held in FP64: its singular values and the entries of
/// its bases `U` and `V`.
pub open spec fn stratum_f64_bytes(sigma_len: int, u_len: int, v_len: int) -> int {
    sigma_len * 8 + u_len * 8 + v_len * 8
}

/// Memory footprint in bytes of an FP64 stratum (or shard of one) with the
/// given numbers of singular values and basis entries.
pub fn stratum_memory_bytes(sigma_len: usize, u_len: usize, v_len: usize) -> (r: usize)
    requires
        stratum_f64_bytes(sigma_len as int, u_len as int, v_len as int) <= usize::MAX,
    ensures
        r == stratum_f64_bytes(sigma_len as int, u_len as int, v_len as int),
{
    sigma_len * F64_BYTES + u_len * F64_BYTES + v_len * F64_BYTES
}

/// Memory footprint of a resonant tensor whose stratum takes
/// `stratum_bytes` bytes: the stratum plus its resonance metadata.
pub fn resonant_tensor_memory_bytes(stratum_bytes: usize) -> (r: usize)
    requires
        stratum_bytes + RESONANCE_META_BYTES <= usize::MAX,
    ensures
        r == stratum_bytes + RESONANCE_META_BYTES,
{
    stratum_bytes + RESONANCE_META_BYTES
}

/// Every FP64 entry of a stratum takes eight bytes: an empty stratum takes
/// none, and one more singular value or basis entry adds eight.
pub proof fn lemma_stratum_f64_per_entry(sigma_len: int, u_len: int, v_len: int)
    ensures
        stratum_f64_bytes(0, 0, 0) == 0,
        stratum_f64_bytes(sigma_len + 1, u_len, v_len) == stratum_f64_bytes(sigma_len, u_len, v_len) + 8,
        stratum_f64_bytes(sigma_len, u_len + 1, v_len) == stratum_f64_bytes(sigma_len, u_len, v_len) + 8,
        stratum_f64_bytes(sigma_len, u_len, v_len + 1) == stratum_f64_bytes(sigma_len, u_len, v_len) + 8,
{
}

/// Sum of a sequence of byte counts.
pub open spec fn bytes_sum(s: Seq<usize>) -> int
    decreases s.len(),
{
    if s.len() == 0 {
        0
    } else {
        bytes_sum(s.drop_last()) + s.last()
    }
}

proof fn lemma_bytes_sum_prefix(s: Seq<usize>, i: int)
    requires
        0 <= i <= s.len(),
    ensures
        0 <= bytes_sum(s.subrange(0, i)) <= bytes_sum(s),
    decreases s.len() - i,
{
    if i < s.len() {
        lemma_bytes_sum_prefix(s, i + 1);
        lemma_bytes_sum_nonneg(s.subrange(0, i));
        assert(s.subrange(0, i + 1).drop_last() =~= s.subrange(0, i));
    } else {
        assert(s.subrange(0, i) =~= s);
        lemma_bytes_sum_nonneg(s);
    }
}

proof fn lemma_bytes_sum_nonneg(s: Seq<usize>)
    ensures
        bytes_sum(s) >= 0,
    decreases s.len(),
{
    if s.len() > 0 {
        lemma_bytes_sum_nonneg(s.drop_last());
    }
}

/// Total of a list of byte counts.
pub fn total_bytes(bytes: &Vec<usize>) -> (r: usize)
    requires
        bytes_sum(bytes@) <= usize::MAX,
    ensures
        r == bytes_sum(bytes@),
{
    let mut total: usize = 0;
    let mut i: usize = 0;
    while i < bytes.len()
        invariant
            i <= bytes@.len(),
            bytes_sum(bytes@) <= usize::MAX,
            total == bytes_sum(bytes@.subrange(0, i as int)),
        decreases bytes@.len() - i,
    {
        proof {
            lemma_bytes_sum_prefix(bytes@, i + 1);
            assert(bytes@.subrange(0, i + 1).drop_last() =~= bytes@.subrange(0, i as int));
        }
        total = total + bytes[i];
        i = i + 1;
    }
    proof {
        assert(bytes@.subrange(0, i as int) =~= bytes@);
    }
    total
}

/// Bytes of one loaded expert of a group: the first expert's footprint, `0`
/// for a group without experts.
pub open spec fn per_expert_bytes(expert_bytes: Seq<usize>) -> int {
    if expert_bytes.len() > 0 {
        expert_bytes[0] as int
    } else {
        0
    }
}

/// Memory for only the active experts of a group whose experts take
/// `expert_bytes` bytes each: `num_active` experts loaded at once, each
/// sized like the first.
pub fn active_expert_memory(expert_bytes: &Vec<usize>, num_active: usize) -> (r: usize)
    requires
        per_expert_bytes(expert_bytes@) * num_active <= usize::MAX,
    ensures
        r == per_expert_bytes(expert_bytes@) * num_active,
{
    let per_expert: usize = if expert_bytes.len() > 0 {
        expert_bytes[0]
    } else {
        0
    };
    per_expert * num_active
}

/// Per-token VRAM of an MoE model: the active experts of every MoE layer,
/// every routing stratum and every dense layer.
pub open spec fn moe_active_vram(
    per_expert: int,
    active_experts: int,
    moe_layers: int,
    routing_bytes: Seq<usize>,
    dense_bytes: Seq<usize>,
) -> int {
    per_expert * active_experts * moe_layers + bytes_sum(routing_bytes) + bytes_sum(dense_bytes)
}

/// Memory estimate for the active components of an MoE model, whose experts
/// take `per_expert` bytes each, with the footprints of its routing strata
/// and dense layers.
pub fn moe_active_vram_estimate(
    per_expert: usize,
    active_experts: usize,
    moe_layers: usize,
    routing_bytes: &Vec<usize>,
    dense_bytes: &Vec<usize>,
) -> (r: usize)
    requires
        per_expert * active_experts <= usize::MAX,
        moe_active_vram(per_expert as int, active_experts as int, moe_layers as int, routing_bytes@, dense_bytes@)
            <= usize::MAX,
    ensures
        r == moe_active_vram(per_expert as int, active_experts as int, moe_layers as int, routing_bytes@, dense_bytes@),
{
    proof {
        lemma_bytes_sum_nonneg(routing_bytes@);
        lemma_bytes_sum_nonneg(dense_bytes@);
        assert(per_expert * active_experts * moe_layers >= 0) by (nonlinear_arith);
    }
    let active_expert_mem: usize = per_expert * active_experts * moe_layers;
    let routing_mem: usize = total_bytes(routing_bytes);
    let dense_mem: usize = total_bytes(dense_bytes);
    active_expert_mem + routing_mem + dense_mem
}

/// Adding a component adds its bytes to a total; no components take none.
pub proof fn lemma_bytes_sum_push(s: Seq<usize>, x: usize)
    ensures
        bytes_sum(Seq::<usize>::empty()) == 0,
        bytes_sum(s.push(x)) == bytes_sum(s) + x,
{
    assert(s.push(x).drop_last() =~= s);
}

/// The per-token VRAM estimate of an MoE model: with no active expert it is
/// the routing strata and dense layers alone, each further active expert
/// adds its bytes once per MoE layer, and each further MoE layer adds the
/// bytes of the active experts.
pub proof fn lemma_moe_active_vram_steps(
    per_expert: int,
    active_experts: int,
    moe_layers: int,
    routing_bytes: Seq<usize>,
    dense_bytes: Seq<usize>,
)
    ensures
        moe_active_vram(per_expert, 0, moe_layers, routing_bytes, dense_bytes) == bytes_sum(
            routing_bytes,
        ) + bytes_sum(dense_bytes),
        moe_active_vram(per_expert, active_experts + 1, moe_layers, routing_bytes, dense_bytes)
            == moe_active_vram(per_expert, active_experts, moe_layers, routing_bytes, dense_bytes)
            + per_expert * moe_layers,
        moe_active_vram(per_expert, active_experts, moe_layers + 1, routing_bytes, dense_bytes)
            == moe_active_vram(per_expert, active_experts, moe_layers, routing_bytes, dense_bytes)
            + per_expert * active_experts,
{
    assert(per_expert * (active_experts + 1) * moe_layers == per_expert * active_experts
        * moe_layers + per_expert * moe_layers) by (nonlinear_arith);
    assert(per_expert * active_experts * (moe_layers + 1) == per_expert * active_experts
        * moe_layers + per_expert * active_experts) by (nonlinear_arith);
    assert(per_expert * 0 * moe_layers == 0) by (nonlinear_arith);
}

/// When every expert of a group takes the same number of bytes, its active
/// experts take `num_active` of its `n` experts' share of the group's total,
/// so no more than the total when at most `n` are active.
pub proof fn lemma_active_experts_share(expert_bytes: Seq<usize>, num_active: int)
    requires
        0 <= num_active <= expert_bytes.len(),
        forall|i: int| 0 <= i < expert_bytes.len() ==> #[trigger] expert_bytes[i] == expert_bytes[0],
    ensures
        per_expert_bytes(expert_bytes) * expert_bytes.len() == bytes_sum(expert_bytes),
        per_expert_bytes(expert_bytes) * num_active <= bytes_sum(expert_bytes),
{
    lemma_uniform_bytes_sum(expert_bytes, per_expert_bytes(expert_bytes));
    let p = per_expert_bytes(expert_bytes);
    let n = expert_bytes.len() as int;
    assert(p * num_active <= p * n) by (nonlinear_arith)
        requires
            p >= 0,
            0 <= num_active <= n,
    ;
}

/// `n` entries of `p` bytes each sum to `n * p` bytes.
proof fn lemma_uniform_bytes_sum(s: Seq<usize>, p: int)
    requires
        forall|i: int| 0 <= i < s.len() ==> #[trigger] s[i] == p,
    ensures
        p * s.len() == bytes_sum(s),
    decreases s.len(),
{
    if s.len() > 0 {
        lemma_uniform_bytes_sum(s.drop_last(), p);
        assert(s.last() == p);
        assert(p * (s.len() - 1) + p == p * s.len()) by (nonlinear_arith);
    }
}

} // verus!
