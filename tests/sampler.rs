use shipwave::sampler::{pick_weighted, sample, total_weight};

#[test]
fn draws_fall_into_their_buckets() {
    let w = vec![2, 1];
    assert_eq!(pick_weighted(&w, 0), 0);
    assert_eq!(pick_weighted(&w, 1), 0);
    assert_eq!(pick_weighted(&w, 2), 1);
}

#[test]
fn zero_weight_buckets_own_no_draw() {
    let w = vec![0, 3, 0, 2];
    let picks: Vec<usize> = (0..5).map(|d| pick_weighted(&w, d)).collect();
    assert_eq!(picks, vec![1, 1, 1, 3, 3]);
}

#[test]
fn each_bucket_owns_as_many_draws_as_its_weight() {
    let w = vec![2, 1];
    let total = total_weight(&w);
    assert_eq!(total, 3);
    let mut counts = [0u64; 2];
    for d in 0..total {
        counts[pick_weighted(&w, d)] += 1;
    }
    assert_eq!(counts, [2, 1]);
}

#[test]
fn sampling_two_to_one_converges_to_two_to_one() {
    let w = vec![2, 1];
    let n = 60_000;
    let mut counts = [0u64; 2];
    for _ in 0..n {
        counts[sample(&w)] += 1;
    }
    let ratio = counts[0] as f64 / counts[1] as f64;
    assert!(ratio > 1.85 && ratio < 2.15, "ratio {}", ratio);
}

#[test]
fn sampling_never_picks_a_zero_weight() {
    let w = vec![0, 5, 0];
    for _ in 0..1000 {
        assert_eq!(sample(&w), 1);
    }
}

#[test]
fn sampling_reaches_every_positive_bucket() {
    let w = vec![1, 1, 1];
    let mut seen = [false; 3];
    for _ in 0..2000 {
        seen[sample(&w)] = true;
    }
    assert_eq!(seen, [true, true, true]);
}

#[test]
fn total_weight_sums_the_list() {
    assert_eq!(total_weight(&vec![4, 3, 2, 1]), 10);
    assert_eq!(total_weight(&vec![u32::MAX, u32::MAX]), 2 * u32::MAX as u64);
}
