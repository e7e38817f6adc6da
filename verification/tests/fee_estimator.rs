use solver_core::fee_estimator::{
    calculate_percentile, sort_fees, FeeEstimator, FeeLevel, DEFAULT_PRIORITY_FEE, MAX_CACHED_FEES,
};

#[test]
fn test_calculate_percentile_empty() {
    assert_eq!(calculate_percentile(&[], 50), 0);
}

#[test]
fn test_calculate_percentile_single() {
    assert_eq!(calculate_percentile(&[10], 50), 10);
}

#[test]
fn test_calculate_percentile_low() {
    let data = vec![10, 20, 30, 40, 50];
    assert_eq!(calculate_percentile(&data, 25), 20);
}

#[test]
fn test_calculate_percentile_medium() {
    let data = vec![10, 20, 30, 40, 50];
    assert_eq!(calculate_percentile(&data, 50), 30);
}

#[test]
fn test_calculate_percentile_high() {
    let data = vec![10, 20, 30, 40, 50];
    assert_eq!(calculate_percentile(&data, 75), 40);
}

#[test]
fn test_calculate_percentile_very_high() {
    let data = vec![10, 20, 30, 40, 50];
    assert_eq!(calculate_percentile(&data, 95), 50);
}

#[test]
fn test_calculate_percentile_two_elements() {
    let data = vec![100, 200];
    // index = (0.0 * 1).round() = 0 -> 100
    assert_eq!(calculate_percentile(&data, 0), 100);
    // index = (0.5 * 1).round() = 1 (rounds up) -> 200
    assert_eq!(calculate_percentile(&data, 50), 200);
    // index = (1.0 * 1).round() = 1 -> 200
    assert_eq!(calculate_percentile(&data, 100), 200);
}

#[test]
fn test_calculate_percentile_unsorted_input() {
    let data = vec![50, 10, 30, 20, 40];
    let mut sorted = data.clone();
    sorted.sort_unstable();
    assert_eq!(calculate_percentile(&sorted, 50), 30);
}

#[test]
fn test_get_priority_fee_level_mapping() {
    let data = vec![10, 20, 30, 40, 50, 60, 70, 80, 90, 100];
    let mut sorted = data;
    sorted.sort_unstable();

    // index = (0.25 * 9).round() = 2 -> 30
    assert_eq!(calculate_percentile(&sorted, 25), 30);
    // index = (0.50 * 9).round() = 5 -> 60
    assert_eq!(calculate_percentile(&sorted, 50), 60);
    // index = (0.75 * 9).round() = 7 -> 80
    assert_eq!(calculate_percentile(&sorted, 75), 80);
    // index = (0.95 * 9).round() = 9 -> 100
    assert_eq!(calculate_percentile(&sorted, 95), 100);
}

#[test]
fn percentile_rounds_half_up() {
    // 0.25 * 2 = 0.5 rounds to index 1; 0.25 * 6 = 1.5 rounds to index 2.
    assert_eq!(calculate_percentile(&[1, 2, 3], 25), 2);
    assert_eq!(calculate_percentile(&[1, 2, 3, 4, 5, 6, 7], 25), 3);
    // 0.95 * 10 = 9.5 rounds to index 10.
    let data: Vec<u64> = (0..11).collect();
    assert_eq!(calculate_percentile(&data, 95), 10);
}

#[test]
fn sort_fees_orders_and_keeps_duplicates() {
    let sorted = sort_fees(&vec![5, 3, 9, 3, 1, 9]);
    assert_eq!(sorted, vec![1, 3, 3, 5, 9, 9]);
    assert_eq!(sort_fees(&vec![]), Vec::<u64>::new());
}

#[test]
fn empty_cache_quotes_default_fee() {
    let est = FeeEstimator::new();
    assert_eq!(est.get_priority_fee_for_level("low"), DEFAULT_PRIORITY_FEE);
    assert_eq!(est.get_priority_fee_for_level("very-high"), 5_000);
}

#[test]
fn levels_pick_their_percentile_of_unsorted_cache() {
    let mut est = FeeEstimator::new();
    est.update_fees(vec![100, 40, 90, 10, 70, 20, 60, 30, 80, 50]);
    assert_eq!(est.get_priority_fee_for_level("low"), 30);
    assert_eq!(est.get_priority_fee_for_level("medium"), 60);
    assert_eq!(est.get_priority_fee_for_level("high"), 80);
    assert_eq!(est.get_priority_fee_for_level("very-high"), 100);
    // Unknown names fall back to the medium level.
    assert_eq!(est.get_priority_fee_for_level("urgent"), 60);
    assert_eq!(est.get_priority_fee_for_level("LOW"), 60);
    let fees = est.priority_fees();
    assert_eq!((fees.low, fees.medium, fees.high, fees.very_high), (30, 60, 80, 100));
}

#[test]
fn level_names() {
    assert_eq!(FeeLevel::from_name("low"), FeeLevel::Low);
    assert_eq!(FeeLevel::from_name("medium"), FeeLevel::Medium);
    assert_eq!(FeeLevel::from_name("high"), FeeLevel::High);
    assert_eq!(FeeLevel::from_name("very-high"), FeeLevel::VeryHigh);
    assert_eq!(FeeLevel::from_name(""), FeeLevel::Medium);
    assert_eq!(FeeLevel::VeryHigh.percent(), 95);
}

#[test]
fn fetch_keeps_first_twenty_and_ignores_empty_results() {
    let mut est = FeeEstimator::new();
    let fetched: Vec<u64> = (1..=30).collect();
    est.update_fees(fetched);
    assert_eq!(est.recent_fees().len(), MAX_CACHED_FEES);
    assert_eq!(est.recent_fees(), &(1..=20).collect::<Vec<u64>>());
    est.update_fees(vec![]);
    assert_eq!(est.recent_fees(), &(1..=20).collect::<Vec<u64>>());
    est.update_fees(vec![7, 8]);
    assert_eq!(est.recent_fees(), &vec![7, 8]);
}

#[test]
fn quoted_fee_ignores_fetch_order() {
    let mut a = FeeEstimator::new();
    let mut b = FeeEstimator::new();
    a.update_fees(vec![3, 1, 4, 1, 5, 9, 2, 6]);
    b.update_fees(vec![9, 6, 5, 4, 3, 2, 1, 1]);
    for level in ["low", "medium", "high", "very-high"] {
        assert_eq!(a.get_priority_fee_for_level(level), b.get_priority_fee_for_level(level));
    }
}

#[test]
fn more_urgent_levels_never_cost_less() {
    let mut est = FeeEstimator::new();
    est.update_fees(vec![500, 5, 50, 5000, 1]);
    let f = est.priority_fees();
    assert!(f.low <= f.medium && f.medium <= f.high && f.high <= f.very_high);
    assert!([500, 5, 50, 5000, 1].contains(&f.high));
}
