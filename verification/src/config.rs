//! Rank and iteration hyperparameters of stratum dynamics, and the VRAM
//! working-set estimate that follows from them.
use vstd::prelude::*;

verus! {

/// The integer hyperparameters governing stratified manifold dynamics.
///
/// The real-valued coefficients of the RSMF objective (spectral
/// regularisation, coupling strength, learning rate, tolerances) belong to
/// the floating-point training code and are kept beside this value there.
#[derive(Debug, Clone, Copy)]
pub struct SpectralConfig {
    /// Number of top singular values/vectors to retain per stratum.
    /// Controls memory footprint: O(k*d) vs full O(d^2).
    pub top_k: usize,
    /// Maximum number of inner iterations per stratum update.
    pub max_inner_iters: usize,
}

impl Default for SpectralConfig {
    fn default() -> (r: Self)
        ensures
            r.top_k == 32,
            r.max_inner_iters == 10,
    {
        SpectralConfig { top_k: 32, max_inner_iters: 10 }
    }
}

/// Bytes of one stratum's working set: FP16 `U` and `V` (`k x d` each), FP64
/// singular values, an FP16 activation cache for a batch of eight and an FP16
/// resonance signal.
pub open spec fn vram_per_stratum_bytes(top_k: int, hidden_dim: int) -> int {
    top_k * hidden_dim * 2 * 2 + top_k * 8 + hidden_dim * 8 * 2 + hidden_dim * 2
}

/// Bytes needed while a stratum is active: its working set plus the FP16
/// weight matrix reconstructed from it.
pub open spec fn active_stratum_bytes(top_k: int, hidden_dim: int) -> int {
    vram_per_stratum_bytes(top_k, hidden_dim) + hidden_dim * hidden_dim * 2
}

/// The working set of a stratum: a rank-zero stratum holds only the FP16
/// activation cache of eight rows and the FP16 resonance signal (`18 d`
/// bytes); each further rank adds an FP64 singular value and FP16 columns of
/// `U` and `V`; the active stratum adds the FP16 `d x d` weight matrix.
pub proof fn lemma_working_set_per_rank(top_k: int, hidden_dim: int)
    ensures
        vram_per_stratum_bytes(0, hidden_dim) == 18 * hidden_dim,
        vram_per_stratum_bytes(top_k + 1, hidden_dim) == vram_per_stratum_bytes(top_k, hidden_dim)
            + 8 + 4 * hidden_dim,
        active_stratum_bytes(top_k, hidden_dim) == vram_per_stratum_bytes(top_k, hidden_dim) + 2
            * hidden_dim * hidden_dim,
{
    assert((top_k + 1) * hidden_dim * 2 * 2 == top_k * hidden_dim * 2 * 2 + 4 * hidden_dim)
        by (nonlinear_arith);
    assert(0 * hidden_dim * 2 * 2 == 0) by (nonlinear_arith);
    assert(hidden_dim * hidden_dim * 2 == 2 * hidden_dim * hidden_dim) by (nonlinear_arith);
}

impl SpectralConfig {
    /// Estimate VRAM footprint per stratum for given hidden dimension.
    /// Returns bytes needed for one stratum's working set.
    pub fn vram_per_stratum(&self, hidden_dim: usize) -> (r: usize)
        requires
            vram_per_stratum_bytes(self.top_k as int, hidden_dim as int) <= usize::MAX,
        ensures
            r == vram_per_stratum_bytes(self.top_k as int, hidden_dim as int),
    {
        let k: usize = self.top_k;
        proof {
            lemma_nonneg_product(k as int, hidden_dim as int);
        }
        let elem_size: usize = 2;
        let svd_storage: usize = k * hidden_dim * 2 * elem_size;
        let sigma_storage: usize = k * 8;
        let activation_cache: usize = hidden_dim * 8 * elem_size;
        let resonance_signal: usize = hidden_dim * elem_size;
        svd_storage + sigma_storage + activation_cache + resonance_signal
    }

    /// Check if config fits within VRAM budget for given model dimensions.
    /// Only one stratum is resident at a time, plus the weights reconstructed
    /// from it.
    pub fn fits_budget(&self, hidden_dim: usize, _num_layers: usize, budget_bytes: usize) -> (r: bool)
        requires
            active_stratum_bytes(self.top_k as int, hidden_dim as int) <= usize::MAX,
        ensures
            r == (active_stratum_bytes(self.top_k as int, hidden_dim as int) <= budget_bytes),
    {
        proof {
            lemma_nonneg_product(hidden_dim as int, hidden_dim as int);
            lemma_nonneg_product(self.top_k as int, hidden_dim as int);
        }
        let per_stratum: usize = self.vram_per_stratum(hidden_dim);
        let weight_reconstruction: usize = hidden_dim * hidden_dim * 2;
        let total: usize = per_stratum + weight_reconstruction;
        total <= budget_bytes
    }
}

/// The product of two non-negative integers is non-negative.
pub proof fn lemma_nonneg_product(a: int, b: int)
    requires
        a >= 0,
        b >= 0,
    ensures
        a * b >= 0,
{
    assert(a * b >= 0) by (nonlinear_arith)
        requires
            a >= 0,
            b >= 0,
    ;
}

} // verus!
