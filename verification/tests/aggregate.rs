use echo_ranging::aggregate::SampleAggregator;

#[test]
fn ten_sample_batch_averages_to_ten() {
    // sum = 100, N = 10 -> average = 10.
    let mut agg = SampleAggregator::new(10);
    for v in [10u64, 10, 11, 9, 10, 10, 10, 10, 11, 9] {
        assert!(!agg.is_full());
        agg.push(v);
    }
    assert!(agg.is_full());
    assert_eq!(agg.take_average(), 10);
    assert_eq!(agg.len(), 0);
    assert!(!agg.is_full());
}

#[test]
fn batch_is_not_full_before_n_samples() {
    let mut agg = SampleAggregator::new(10);
    for i in 0..9u64 {
        agg.push(i);
        assert!(!agg.is_full());
        assert_eq!(agg.len(), (i + 1) as usize);
    }
    agg.push(9);
    assert!(agg.is_full());
}

#[test]
fn average_uses_floor_division() {
    let mut agg = SampleAggregator::new(2);
    agg.push(1);
    agg.push(2);
    assert_eq!(agg.take_average(), 1);

    let mut agg = SampleAggregator::new(3);
    agg.push(0);
    agg.push(1);
    agg.push(1);
    assert_eq!(agg.take_average(), 0);
}

#[test]
fn single_sample_batch_returns_the_sample() {
    let mut agg = SampleAggregator::new(1);
    assert_eq!(agg.batch_size(), 1);
    agg.push(142);
    assert!(agg.is_full());
    assert_eq!(agg.take_average(), 142);
}

#[test]
fn aggregator_resets_and_collects_again() {
    let mut agg = SampleAggregator::new(2);
    agg.push(4);
    agg.push(6);
    assert_eq!(agg.take_average(), 5);
    agg.push(100);
    agg.push(200);
    assert_eq!(agg.take_average(), 150);
}

#[test]
fn large_samples_do_not_overflow_the_sum() {
    let mut agg = SampleAggregator::new(3);
    agg.push(u64::MAX);
    agg.push(u64::MAX);
    agg.push(u64::MAX);
    assert_eq!(agg.take_average(), u64::MAX);
}
