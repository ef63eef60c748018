//! Splitting a stratum's singular components across devices.
use vstd::prelude::*;

verus! {

/// Specification for how a stratum is split across devices.
#[derive(Debug, Clone, Copy)]
pub struct ShardSpec {
    /// Device index this shard resides on.
    pub device_id: usize,
    /// Range of singular component indices [start, end) held by this shard.
    pub k_range: (usize, usize),
    /// Layer index this shard belongs to.
    pub layer_id: usize,
    /// Total number of shards for this stratum.
    pub total_shards: usize,
}

/// Number of shards a stratum of rank `rank` is split into over
/// `num_shards` devices: one per device, or one per component when there are
/// fewer components than devices.
pub open spec fn shard_count(rank: int, num_shards: int) -> int {
    if rank < num_shards {
        rank
    } else {
        num_shards
    }
}

/// First component of shard `i` when `rank` components are split into
/// `count` equal shards: `floor(i * rank / count)`.
pub open spec fn shard_bound(i: int, rank: int, count: int) -> int {
    i * rank / count
}

/// `specs` is the plan that splits the `rank` components of the stratum of
/// layer `layer_id` into `shard_count(rank, num_shards)` equal shards along
/// the k-dimension: shard `i` lives on device `i` and holds the components
/// `[floor(i * rank / n), floor((i + 1) * rank / n))`, `n` being the shard
/// count.
pub open spec fn is_shard_plan(specs: Seq<ShardSpec>, rank: int, layer_id: int, num_shards: int) -> bool {
    let n = shard_count(rank, num_shards);
    &&& specs.len() == n
    &&& forall|i: int|
        0 <= i < specs.len() ==> {
            let s = #[trigger] specs[i];
            &&& s.device_id == i
            &&& s.k_range.0 == shard_bound(i, rank, n)
            &&& s.k_range.1 == shard_bound(i + 1, rank, n)
            &&& s.layer_id == layer_id
            &&& s.total_shards == num_shards
        }
}

/// `floor(i * rank / count)`, computed without overflow.
fn shard_bound_exec(i: usize, rank: usize, count: usize) -> (r: usize)
    requires
        0 < count <= rank,
        i <= count,
    ensures
        r == shard_bound(i as int, rank as int, count as int),
{
    proof {
        assert(i * rank <= count * rank) by (nonlinear_arith)
            requires
                i <= count,
        ;
        assert(count * rank <= 0xffff_ffff_ffff_ffff * 0xffff_ffff_ffff_ffffint) by (nonlinear_arith)
            requires
                count <= 0xffff_ffff_ffff_ffff,
                rank <= 0xffff_ffff_ffff_ffff,
        ;
        vstd::arithmetic::div_mod::lemma_div_is_ordered(i * rank, count * rank, count as int);
        vstd::arithmetic::div_mod::lemma_div_multiples_vanish(rank as int, count as int);
    }
    let product: u128 = (i as u128) * (rank as u128);
    let q: u128 = product / (count as u128);
    q as usize
}

/// Plan the split of a stratum of rank `rank` (layer `layer_id`) into
/// `num_shards` equal shards along the k-dimension, one per device in device
/// order. A stratum with fewer components than devices gives one component
/// to each of its first `rank` devices.
pub fn shard_plan(rank: usize, layer_id: usize, num_shards: usize) -> (r: Vec<ShardSpec>)
    requires
        num_shards > 0,
    ensures
        is_shard_plan(r@, rank as int, layer_id as int, num_shards as int),
{
    let count: usize = if rank < num_shards {
        rank
    } else {
        num_shards
    };
    let mut shards: Vec<ShardSpec> = Vec::with_capacity(count);
    let mut device_id: usize = 0;
    while device_id < count
        invariant
            count == shard_count(rank as int, num_shards as int),
            count <= rank,
            device_id <= count,
            shards@.len() == device_id,
            forall|i: int|
                0 <= i < shards@.len() ==> {
                    let s = #[trigger] shards@[i];
                    &&& s.device_id == i
                    &&& s.k_range.0 == shard_bound(i, rank as int, count as int)
                    &&& s.k_range.1 == shard_bound(i + 1, rank as int, count as int)
                    &&& s.layer_id == layer_id
                    &&& s.total_shards == num_shards
                },
        decreases count - device_id,
    {
        let start: usize = shard_bound_exec(device_id, rank, count);
        let end: usize = shard_bound_exec(device_id + 1, rank, count);
        let spec = ShardSpec { device_id, k_range: (start, end), layer_id, total_shards: num_shards };
        shards.push(spec);
        device_id = device_id + 1;
    }
    shards
}

/// The boundaries of consecutive shards lie `floor(rank / count)` or one
/// more components apart.
proof fn lemma_shard_bound_step(i: int, rank: int, count: int)
    requires
        0 < count,
        0 <= i,
        0 <= rank,
    ensures
        shard_bound(i + 1, rank, count) - shard_bound(i, rank, count) == rank / count
            || shard_bound(i + 1, rank, count) - shard_bound(i, rank, count) == rank / count + 1,
{
    let q = rank / count;
    let r = rank % count;
    vstd::arithmetic::div_mod::lemma_fundamental_div_mod(rank, count);
    let x = i * rank;
    let a = x / count;
    let b = x % count;
    vstd::arithmetic::div_mod::lemma_fundamental_div_mod(x, count);
    assert(0 <= r < count && 0 <= b < count) by {
        vstd::arithmetic::div_mod::lemma_mod_bound(rank, count);
        vstd::arithmetic::div_mod::lemma_mod_bound(x, count);
    }
    assert((i + 1) * rank == x + rank) by (nonlinear_arith)
        requires
            x == i * rank,
    ;
    assert(x + rank == (a + q) * count + (b + r)) by (nonlinear_arith)
        requires
            x == count * a + b,
            rank == count * q + r,
    ;
    if b + r < count {
        vstd::arithmetic::div_mod::lemma_fundamental_div_mod_converse_div(
            x + rank,
            count,
            a + q,
            b + r,
        );
    } else {
        assert(x + rank == (a + q + 1) * count + (b + r - count)) by (nonlinear_arith)
            requires
                x + rank == (a + q) * count + (b + r),
        ;
        vstd::arithmetic::div_mod::lemma_fundamental_div_mod_converse_div(
            x + rank,
            count,
            a + q + 1,
            b + r - count,
        );
    }
}

/// A plan splits the components `[0, rank)` into equal shards: one per
/// device when there are at least as many components as devices, one per
/// component otherwise; the first starts at zero, each ends where the next
/// starts, the last ends at `rank`, none is empty, and the sizes of any two
/// shards differ by at most one.
pub proof fn lemma_shard_plan_tiles(specs: Seq<ShardSpec>, rank: int, layer_id: int, num_shards: int)
    requires
        num_shards > 0,
        rank >= 0,
        is_shard_plan(specs, rank, layer_id, num_shards),
    ensures
        rank >= num_shards ==> specs.len() == num_shards,
        rank < num_shards ==> specs.len() == rank,
        specs.len() > 0 ==> {
            &&& specs[0].k_range.0 == 0
            &&& specs[specs.len() - 1].k_range.1 == rank
        },
        forall|i: int| 0 <= i < specs.len() ==> #[trigger] specs[i].k_range.0 < specs[i].k_range.1,
        forall|i: int|
            0 <= i < specs.len() - 1 ==> #[trigger] specs[i].k_range.1 == specs[i + 1].k_range.0,
        forall|i: int, j: int|
            0 <= i < specs.len() && 0 <= j < specs.len() ==> (#[trigger] specs[i].k_range.1
                - specs[i].k_range.0) - (#[trigger] specs[j].k_range.1 - specs[j].k_range.0) <= 1,
{
    let n = shard_count(rank, num_shards);
    if n > 0 {
        let q = rank / n;
        assert(q >= 1) by {
            vstd::arithmetic::div_mod::lemma_div_is_ordered(n, rank, n);
            vstd::arithmetic::div_mod::lemma_div_multiples_vanish(1, n);
        }
        assert(specs[0].k_range.0 == 0) by {
            assert(0 * rank == 0);
        }
        assert(specs[specs.len() - 1].k_range.1 == rank) by {
            assert((n - 1 + 1) * rank == n * rank) by (nonlinear_arith);
            vstd::arithmetic::div_mod::lemma_div_multiples_vanish(rank, n);
        }
        assert forall|i: int| 0 <= i < specs.len() implies #[trigger] specs[i].k_range.0
            < specs[i].k_range.1 && specs[i].k_range.1 - specs[i].k_range.0 - q <= 1
            && specs[i].k_range.1 - specs[i].k_range.0 >= q by {
            lemma_shard_bound_step(i, rank, n);
        }
    }
}

} // verus!
