//! Parameter accounting of dense and Mixture-of-Experts RSMF models, and the
//! split of an MoE model's layers into dense and expert layers.
use vstd::prelude::*;
use crate::config::lemma_nonneg_product;
use crate::model_config::MoeConfig;

verus! {

/// `s` contains `x`.
pub open spec fn lists(s: Seq<usize>, x: int) -> bool {
    exists|i: int| 0 <= i < s.len() && s[i] == x
}

/// `r` lists, in increasing order, exactly the layers below `num_layers`
/// that `moe` does not list.
pub open spec fn is_dense_layer_list(r: Seq<usize>, num_layers: int, moe: Seq<usize>) -> bool {
    &&& forall|i: int, j: int| 0 <= i < j < r.len() ==> r[i] < r[j]
    &&& forall|i: int| 0 <= i < r.len() ==> #[trigger] r[i] < num_layers && !lists(moe, r[i] as int)
    &&& forall|l: int| 0 <= l < num_layers && !lists(moe, l) ==> #[trigger] lists(r, l)
}

/// Whether `v` lists `x`.
fn contains(v: &Vec<usize>, x: usize) -> (r: bool)
    ensures
        r == lists(v@, x as int),
{
    let mut i: usize = 0;
    while i < v.len()
        invariant
            i <= v@.len(),
            forall|j: int| 0 <= j < i ==> v@[j] != x,
        decreases v@.len() - i,
    {
        if v[i] == x {
            return true;
        }
        i = i + 1;
    }
    false
}

/// Layers of an MoE model that are dense: every layer index below the layer
/// count that is not an MoE layer, in increasing order.
pub fn dense_layer_indices(cfg: &MoeConfig) -> (r: Vec<usize>)
    ensures
        is_dense_layer_list(r@, cfg.base.num_layers as int, cfg.moe_layer_indices@),
{
    let n: usize = cfg.base.num_layers;
    let mut r: Vec<usize> = Vec::new();
    let mut l: usize = 0;
    while l < n
        invariant
            n == cfg.base.num_layers,
            l <= n,
            forall|i: int, j: int| 0 <= i < j < r@.len() ==> r@[i] < r@[j],
            forall|i: int|
                0 <= i < r@.len() ==> #[trigger] r@[i] < l && !lists(cfg.moe_layer_indices@, r@[i] as int),
            forall|x: int|
                0 <= x < l && !lists(cfg.moe_layer_indices@, x) ==> #[trigger] lists(r@, x),
        decreases n - l,
    {
        if !contains(&cfg.moe_layer_indices, l) {
            let ghost before = r@;
            r.push(l);
            proof {
                assert forall|x: int|
                    0 <= x < l + 1 && !lists(cfg.moe_layer_indices@, x) implies #[trigger] lists(
                    r@,
                    x,
                ) by {
                    if x < l {
                        assert(lists(before, x));
                        let i = choose|i: int| 0 <= i < before.len() && before[i] == x;
                        assert(r@[i] == x);
                    } else {
                        assert(r@[r@.len() - 1] == x);
                    }
                }
            }
        } else {
            proof {
                assert forall|x: int|
                    0 <= x < l + 1 && !lists(cfg.moe_layer_indices@, x) implies #[trigger] lists(
                    r@,
                    x,
                ) by {
                    assert(x != l);
                }
            }
        }
        l = l + 1;
    }
    r
}

/// For non-negative `a` and `b`, `a * b` is zero or at most `a * b * b`.
proof fn lemma_square_prefix(a: int, b: int)
    requires
        a >= 0,
        b >= 0,
    ensures
        a * b <= a * b * b || a * b == 0,
        a * b >= 0,
{
    assert(a * b >= 0) by (nonlinear_arith)
        requires
            a >= 0,
            b >= 0,
    ;
    if b == 0 {
        assert(a * b == 0);
    } else {
        assert(a * b <= a * b * b) by (nonlinear_arith)
            requires
                a * b >= 0,
                b >= 1,
        ;
    }
}

/// Parameters of `num_layers` dense `d x d` layers.
pub open spec fn dense_params(num_layers: int, hidden_dim: int) -> int {
    num_layers * hidden_dim * hidden_dim
}

/// Parameters of one expert: gate, up and down matrices of `d x d_ff`.
pub open spec fn expert_params(cfg: MoeConfig) -> int {
    cfg.base.hidden_dim * cfg.expert_intermediate_dim * 3
}

/// Sum of the expert counts of a sequence of MoE layers.
pub open spec fn total_experts(experts_per_layer: Seq<usize>) -> int
    decreases experts_per_layer.len(),
{
    if experts_per_layer.len() == 0 {
        0
    } else {
        total_experts(experts_per_layer.drop_last()) + experts_per_layer.last()
    }
}

/// Total parameters of an MoE model with `dense_layers` dense layers and MoE
/// layers holding `experts_per_layer` experts each.
pub open spec fn moe_total_params(cfg: MoeConfig, dense_layers: int, experts_per_layer: Seq<usize>) -> int {
    dense_params(dense_layers, cfg.base.hidden_dim as int) + total_experts(experts_per_layer)
        * expert_params(cfg)
}

/// Parameters one token passes through: every dense layer plus the active
/// experts of each of the `moe_layers` MoE layers.
pub open spec fn moe_active_params(cfg: MoeConfig, dense_layers: int, moe_layers: int) -> int {
    dense_params(dense_layers, cfg.base.hidden_dim as int) + cfg.active_experts * expert_params(cfg)
        * moe_layers
}

/// Each dense layer holds a `d x d` matrix: a further layer adds `d * d`
/// parameters, and no layers hold none.
pub proof fn lemma_dense_params_per_layer(num_layers: int, hidden_dim: int)
    ensures
        dense_params(0, hidden_dim) == 0,
        dense_params(num_layers + 1, hidden_dim) == dense_params(num_layers, hidden_dim)
            + hidden_dim * hidden_dim,
{
    assert((num_layers + 1) * hidden_dim * hidden_dim == num_layers * hidden_dim * hidden_dim
        + hidden_dim * hidden_dim) by (nonlinear_arith);
    assert(0 * hidden_dim * hidden_dim == 0) by (nonlinear_arith);
}

/// An MoE model's parameters: its dense layers alone when it has no MoE
/// layer, and each further MoE layer of `n` experts adds `n` experts of
/// three `d x d_ff` matrices each. A token of a model whose MoE layers have
/// no active expert passes through the dense layers only, and each further
/// MoE layer adds the active experts' three matrices each.
pub proof fn lemma_moe_params_steps(cfg: MoeConfig, dense_layers: int, experts_per_layer: Seq<usize>, n: usize, moe_layers: int)
    ensures
        moe_total_params(cfg, dense_layers, Seq::<usize>::empty()) == dense_layers * cfg.base.hidden_dim
            * cfg.base.hidden_dim,
        moe_total_params(cfg, dense_layers, experts_per_layer.push(n)) == moe_total_params(
            cfg,
            dense_layers,
            experts_per_layer,
        ) + n * (3 * cfg.base.hidden_dim * cfg.expert_intermediate_dim),
        cfg.active_experts == 0 ==> moe_active_params(cfg, dense_layers, moe_layers) == dense_layers
            * cfg.base.hidden_dim * cfg.base.hidden_dim,
        moe_active_params(cfg, dense_layers, moe_layers + 1) == moe_active_params(
            cfg,
            dense_layers,
            moe_layers,
        ) + cfg.active_experts * (3 * cfg.base.hidden_dim * cfg.expert_intermediate_dim),
{
    let d = cfg.base.hidden_dim as int;
    let f = cfg.expert_intermediate_dim as int;
    let a = cfg.active_experts as int;
    assert(experts_per_layer.push(n).drop_last() =~= experts_per_layer);
    let t = total_experts(experts_per_layer);
    assert((t + n) * (d * f * 3) == t * (d * f * 3) + n * (3 * d * f)) by (nonlinear_arith);
    assert(a * (d * f * 3) * (moe_layers + 1) == a * (d * f * 3) * moe_layers + a * (3 * d * f))
        by (nonlinear_arith);
    assert(a == 0 ==> a * (d * f * 3) * moe_layers == 0) by (nonlinear_arith);
    assert(0 * (d * f * 3) == 0) by (nonlinear_arith);
}

/// The spectral parameters of strata add up layer by layer, each stratum of
/// rank `k` holding `k` singular values and two `d x k` bases; no strata
/// hold none.
pub proof fn lemma_spectral_params_per_layer(ranks: Seq<usize>, k: usize, hidden_dim: int)
    ensures
        spectral_params(Seq::<usize>::empty(), hidden_dim) == 0,
        spectral_params(ranks.push(k), hidden_dim) == spectral_params(ranks, hidden_dim) + k + 2 * k
            * hidden_dim,
{
    assert(ranks.push(k).drop_last() =~= ranks);
}

/// Total parameters of a dense RSMF model when every layer is reconstructed.
pub fn dense_total_parameters(num_layers: usize, hidden_dim: usize) -> (r: usize)
    requires
        dense_params(num_layers as int, hidden_dim as int) <= usize::MAX,
    ensures
        r == dense_params(num_layers as int, hidden_dim as int),
{
    proof {
        lemma_square_prefix(num_layers as int, hidden_dim as int);
    }
    num_layers * hidden_dim * hidden_dim
}

/// Spectral parameters of a stratum of rank `k`: `k` singular values and the
/// `d x k` bases `U` and `V`.
pub open spec fn stratum_params(k: int, hidden_dim: int) -> int {
    k + 2 * k * hidden_dim
}

/// Spectral parameters of strata of the given ranks.
pub open spec fn spectral_params(ranks: Seq<usize>, hidden_dim: int) -> int
    decreases ranks.len(),
{
    if ranks.len() == 0 {
        0
    } else {
        spectral_params(ranks.drop_last(), hidden_dim) + stratum_params(ranks.last() as int, hidden_dim)
    }
}

proof fn lemma_spectral_params_prefix(ranks: Seq<usize>, hidden_dim: int, i: int)
    requires
        0 <= i <= ranks.len(),
        hidden_dim >= 0,
    ensures
        0 <= spectral_params(ranks.subrange(0, i), hidden_dim) <= spectral_params(ranks, hidden_dim),
    decreases ranks.len() - i,
{
    if i < ranks.len() {
        lemma_spectral_params_prefix(ranks, hidden_dim, i + 1);
        lemma_spectral_params_nonneg(ranks.subrange(0, i), hidden_dim);
        assert(ranks.subrange(0, i + 1).drop_last() =~= ranks.subrange(0, i));
        assert(ranks.subrange(0, i + 1).last() == ranks[i]);
        let k = ranks[i] as int;
        assert(0 <= stratum_params(k, hidden_dim)) by (nonlinear_arith)
            requires
                k >= 0,
                hidden_dim >= 0,
        ;
    } else {
        assert(ranks.subrange(0, i) =~= ranks);
        lemma_spectral_params_nonneg(ranks, hidden_dim);
    }
}

proof fn lemma_spectral_params_nonneg(ranks: Seq<usize>, hidden_dim: int)
    requires
        hidden_dim >= 0,
    ensures
        spectral_params(ranks, hidden_dim) >= 0,
    decreases ranks.len(),
{
    if ranks.len() > 0 {
        lemma_spectral_params_nonneg(ranks.drop_last(), hidden_dim);
        let k = ranks.last() as int;
        assert(0 <= stratum_params(k, hidden_dim)) by (nonlinear_arith)
            requires
                k >= 0,
                hidden_dim >= 0,
        ;
    }
}

/// Parameters held in spectral form by strata of the given ranks.
pub fn spectral_parameters(ranks: &Vec<usize>, hidden_dim: usize) -> (r: usize)
    requires
        forall|i: int| 0 <= i < ranks@.len() ==> 2 * #[trigger] ranks@[i] <= usize::MAX,
        spectral_params(ranks@, hidden_dim as int) <= usize::MAX,
    ensures
        r == spectral_params(ranks@, hidden_dim as int),
{
    let mut total: usize = 0;
    let mut i: usize = 0;
    while i < ranks.len()
        invariant
            i <= ranks@.len(),
            forall|j: int| 0 <= j < ranks@.len() ==> 2 * #[trigger] ranks@[j] <= usize::MAX,
            spectral_params(ranks@, hidden_dim as int) <= usize::MAX,
            total == spectral_params(ranks@.subrange(0, i as int), hidden_dim as int),
        decreases ranks@.len() - i,
    {
        proof {
            lemma_spectral_params_prefix(ranks@, hidden_dim as int, i + 1);
            lemma_spectral_params_nonneg(ranks@.subrange(0, i as int), hidden_dim as int);
            assert(ranks@.subrange(0, i + 1).drop_last() =~= ranks@.subrange(0, i as int));
            let k = ranks@[i as int] as int;
            assert(0 <= k * hidden_dim && 2 * k * hidden_dim <= stratum_params(k, hidden_dim as int))
                by (nonlinear_arith)
                requires
                    k >= 0,
                    hidden_dim >= 0,
            ;
        }
        let k: usize = ranks[i];
        total = total + (k + 2 * k * hidden_dim);
        i = i + 1;
    }
    proof {
        assert(ranks@.subrange(0, i as int) =~= ranks@);
    }
    total
}

proof fn lemma_total_experts_prefix(s: Seq<usize>, i: int)
    requires
        0 <= i <= s.len(),
    ensures
        0 <= total_experts(s.subrange(0, i)) <= total_experts(s),
    decreases s.len() - i,
{
    if i < s.len() {
        lemma_total_experts_prefix(s, i + 1);
        assert(s.subrange(0, i + 1).drop_last() =~= s.subrange(0, i));
        lemma_total_experts_nonneg(s.subrange(0, i));
    } else {
        assert(s.subrange(0, i) =~= s);
        lemma_total_experts_nonneg(s);
    }
}

proof fn lemma_total_experts_nonneg(s: Seq<usize>)
    ensures
        total_experts(s) >= 0,
    decreases s.len(),
{
    if s.len() > 0 {
        lemma_total_experts_nonneg(s.drop_last());
    }
}

/// Every intermediate product and sum of the MoE parameter counts fits in a
/// `u64`: the dense layers' count, each MoE layer's `experts * d * f * 3`
/// (with its prefix `experts * d`) and the total.
pub open spec fn moe_params_fit(cfg: MoeConfig, dense_layers: int, experts_per_layer: Seq<usize>) -> bool {
    let d = cfg.base.hidden_dim as int;
    let f = cfg.expert_intermediate_dim as int;
    &&& dense_layers * d * d <= u64::MAX
    &&& forall|i: int|
        0 <= i < experts_per_layer.len() ==> #[trigger] experts_per_layer[i] * d <= u64::MAX
            && experts_per_layer[i] * d * f * 3 <= u64::MAX
    &&& moe_total_params(cfg, dense_layers, experts_per_layer) <= u64::MAX
}

/// Total parameter count of an MoE model (all experts and dense layers),
/// given its number of dense layers and the expert count of each MoE layer.
pub fn moe_total_parameters(cfg: &MoeConfig, dense_layers: usize, experts_per_layer: &Vec<usize>) -> (r: u64)
    requires
        moe_params_fit(*cfg, dense_layers as int, experts_per_layer@),
    ensures
        r == moe_total_params(*cfg, dense_layers as int, experts_per_layer@),
{
    let d: u64 = cfg.base.hidden_dim as u64;
    let f: u64 = cfg.expert_intermediate_dim as u64;
    proof {
        lemma_nonneg_product(d as int, f as int);
        lemma_nonneg_product(dense_layers as int, d as int);
        lemma_square_prefix(dense_layers as int, d as int);
        lemma_total_experts_nonneg(experts_per_layer@);
        assert(0 <= total_experts(experts_per_layer@) * expert_params(*cfg)) by (nonlinear_arith)
            requires
                total_experts(experts_per_layer@) >= 0,
                expert_params(*cfg) == d * f * 3,
                d * f >= 0,
        ;
    }
    let dense_layer_params: u64 = dense_layers as u64 * d * d;
    let ghost per_expert: int = expert_params(*cfg);
    let mut expert_params_sum: u64 = 0;
    let mut i: usize = 0;
    while i < experts_per_layer.len()
        invariant
            i <= experts_per_layer@.len(),
            d == cfg.base.hidden_dim,
            f == cfg.expert_intermediate_dim,
            per_expert == expert_params(*cfg),
            per_expert >= 0,
            dense_layer_params == dense_params(dense_layers as int, d as int),
            moe_params_fit(*cfg, dense_layers as int, experts_per_layer@),
            expert_params_sum == total_experts(experts_per_layer@.subrange(0, i as int)) * per_expert,
        decreases experts_per_layer@.len() - i,
    {
        let n: u64 = experts_per_layer[i] as u64;
        proof {
            lemma_total_experts_prefix(experts_per_layer@, i + 1);
            assert(experts_per_layer@.subrange(0, i + 1).drop_last() =~= experts_per_layer@.subrange(
                0,
                i as int,
            ));
            let t = total_experts(experts_per_layer@.subrange(0, i + 1));
            let all = total_experts(experts_per_layer@);
            assert(t * per_expert <= all * per_expert) by (nonlinear_arith)
                requires
                    t <= all,
                    per_expert >= 0,
            ;
            let prev = total_experts(experts_per_layer@.subrange(0, i as int));
            assert(t == prev + n);
            assert(t * per_expert == prev * per_expert + n * per_expert) by (nonlinear_arith)
                requires
                    t == prev + n,
            ;
            assert(experts_per_layer@[i as int] * d <= u64::MAX);
            assert(n * d * f <= n * d * f * 3) by (nonlinear_arith)
                requires
                    n * d * f >= 0,
            ;
            lemma_nonneg_product(n * d, f as int);
            lemma_nonneg_product(n as int, d as int);
            assert(n * d * f * 3 == n * per_expert) by (nonlinear_arith)
                requires
                    per_expert == d * f * 3,
            ;
        }
        expert_params_sum = expert_params_sum + n * d * f * 3;
        i = i + 1;
    }
    proof {
        assert(experts_per_layer@.subrange(0, i as int) =~= experts_per_layer@);
    }
    dense_layer_params + expert_params_sum
}

/// Every intermediate product and sum of the active parameter count fits in
/// a `u64`.
pub open spec fn moe_active_fit(cfg: MoeConfig, dense_layers: int, moe_layers: int) -> bool {
    let d = cfg.base.hidden_dim as int;
    let f = cfg.expert_intermediate_dim as int;
    &&& dense_layers * d * d <= u64::MAX
    &&& cfg.active_experts * d <= u64::MAX
    &&& cfg.active_experts * d * f <= u64::MAX
    &&& cfg.active_experts * expert_params(cfg) * moe_layers <= u64::MAX
    &&& cfg.active_experts * expert_params(cfg) <= u64::MAX
    &&& moe_active_params(cfg, dense_layers, moe_layers) <= u64::MAX
}

/// Parameters one token passes through in an MoE model: all dense layers
/// plus the active experts of every MoE layer.
pub fn moe_active_parameters(cfg: &MoeConfig, dense_layers: usize, moe_layers: usize) -> (r: u64)
    requires
        moe_active_fit(*cfg, dense_layers as int, moe_layers as int),
    ensures
        r == moe_active_params(*cfg, dense_layers as int, moe_layers as int),
{
    let d: u64 = cfg.base.hidden_dim as u64;
    let f: u64 = cfg.expert_intermediate_dim as u64;
    let a: u64 = cfg.active_experts as u64;
    proof {
        lemma_square_prefix(dense_layers as int, d as int);
        lemma_nonneg_product(a as int, d as int);
        lemma_nonneg_product(a * d, f as int);
        assert(a * d * f * 3 == a * (d * f * 3)) by (nonlinear_arith);
    }
    let dense: u64 = dense_layers as u64 * d * d;
    let expert_per_layer: u64 = a * d * f * 3;
    dense + expert_per_layer * moe_layers as u64
}

/// With no more active experts than experts per layer, a token passes
/// through at most all parameters of an MoE model whose MoE layers each hold
/// `num_experts` experts.
pub proof fn lemma_active_at_most_total(cfg: MoeConfig, dense_layers: int, experts_per_layer: Seq<usize>)
    requires
        dense_layers >= 0,
        cfg.active_experts <= cfg.num_experts,
        forall|i: int| 0 <= i < experts_per_layer.len() ==> #[trigger] experts_per_layer[i] == cfg.num_experts,
    ensures
        moe_active_params(cfg, dense_layers, experts_per_layer.len() as int) <= moe_total_params(
            cfg,
            dense_layers,
            experts_per_layer,
        ),
    decreases experts_per_layer.len(),
{
    lemma_total_experts_uniform(experts_per_layer, cfg.num_experts as int);
    let n = experts_per_layer.len() as int;
    let p = expert_params(cfg);
    lemma_nonneg_product(cfg.base.hidden_dim as int, cfg.expert_intermediate_dim as int);
    assert(cfg.active_experts * p * n <= n * cfg.num_experts * p) by (nonlinear_arith)
        requires
            0 <= cfg.active_experts <= cfg.num_experts,
            p >= 0,
            n >= 0,
    ;
}

/// MoE layers of `e` experts each hold `len * e` experts in total.
proof fn lemma_total_experts_uniform(s: Seq<usize>, e: int)
    requires
        forall|i: int| 0 <= i < s.len() ==> #[trigger] s[i] == e,
    ensures
        total_experts(s) == s.len() * e,
    decreases s.len(),
{
    if s.len() > 0 {
        lemma_total_experts_uniform(s.drop_last(), e);
        assert(s.last() == e);
        assert((s.len() - 1) * e + e == s.len() * e) by (nonlinear_arith);
    }
}

} // verus!
