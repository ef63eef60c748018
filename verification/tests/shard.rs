use rsmf::shard::shard_plan;

fn ranges(rank: usize, n: usize) -> Vec<(usize, usize)> {
    shard_plan(rank, 7, n).iter().map(|s| s.k_range).collect()
}

#[test]
fn shard_plan_even_split() {
    assert_eq!(ranges(4, 2), vec![(0, 2), (2, 4)]);
    assert_eq!(ranges(64, 4), vec![(0, 16), (16, 32), (32, 48), (48, 64)]);
}

#[test]
fn shard_plan_uneven_split_gives_every_device_a_shard() {
    assert_eq!(ranges(5, 3), vec![(0, 1), (1, 3), (3, 5)]);
    assert_eq!(ranges(5, 4), vec![(0, 1), (1, 2), (2, 3), (3, 5)]);
    assert_eq!(ranges(10, 4), vec![(0, 2), (2, 5), (5, 7), (7, 10)]);
}

#[test]
fn shard_plan_sizes_differ_by_at_most_one() {
    for rank in 1..40usize {
        for n in 1..=rank {
            let r = ranges(rank, n);
            assert_eq!(r.len(), n);
            let sizes: Vec<usize> = r.iter().map(|(a, b)| b - a).collect();
            let min = *sizes.iter().min().unwrap();
            let max = *sizes.iter().max().unwrap();
            assert!(min >= 1 && max - min <= 1);
            assert_eq!(sizes.iter().sum::<usize>(), rank);
        }
    }
}

#[test]
fn shard_plan_fewer_components_than_devices() {
    assert_eq!(ranges(2, 4), vec![(0, 1), (1, 2)]);
    assert_eq!(ranges(0, 3), vec![]);
}

#[test]
fn shard_plan_large_rank_does_not_overflow() {
    let r = ranges(usize::MAX, 2);
    assert_eq!(r, vec![(0, usize::MAX / 2), (usize::MAX / 2, usize::MAX)]);
}

#[test]
fn shard_plan_metadata() {
    let plan = shard_plan(10, 3, 4);
    for (i, s) in plan.iter().enumerate() {
        assert_eq!(s.device_id, i);
        assert_eq!(s.layer_id, 3);
        assert_eq!(s.total_shards, 4);
    }
}
