use customs_workflow::models::customs::{CustomsParams, Fee};

#[test]
fn flat_fee_ignores_the_price() {
    let fee = Fee::Flat(10);
    assert_eq!(fee.calculate_fee(0), 10);
    assert_eq!(fee.calculate_fee(100), 10);
    assert_eq!(fee.calculate_fee(u64::MAX), 10);
}

#[test]
fn percentage_fee_is_factor_times_price() {
    let fee = Fee::Percentage(3);
    assert_eq!(fee.calculate_fee(0), 0);
    assert_eq!(fee.calculate_fee(200), 600);
    assert_eq!(Fee::Percentage(0).calculate_fee(200), 0);
}

#[test]
fn percentage_fee_does_not_overflow() {
    let fee = Fee::Percentage(u32::MAX);
    assert_eq!(fee.calculate_fee(u64::MAX), (u32::MAX as u128) * (u64::MAX as u128));
}

#[test]
fn progressive_fee_last_match_wins() {
    let fee = Fee::ProgressiveFlat { border: vec![50, 100], fee: vec![5, 10] };
    assert_eq!(fee.calculate_fee(40), 10);
    assert_eq!(fee.calculate_fee(60), 10);
    assert_eq!(fee.calculate_fee(150), 0);
}

#[test]
fn progressive_fee_at_the_borders() {
    let fee = Fee::ProgressiveFlat { border: vec![50, 100], fee: vec![5, 10] };
    assert_eq!(fee.calculate_fee(49), 10);
    assert_eq!(fee.calculate_fee(50), 10);
    assert_eq!(fee.calculate_fee(99), 10);
    assert_eq!(fee.calculate_fee(100), 0);
}

#[test]
fn progressive_fee_descending_table() {
    let fee = Fee::ProgressiveFlat { border: vec![100, 50], fee: vec![10, 5] };
    assert_eq!(fee.calculate_fee(40), 5);
    assert_eq!(fee.calculate_fee(60), 10);
    assert_eq!(fee.calculate_fee(150), 0);
}

#[test]
fn progressive_fee_reads_pairs_only() {
    let longer_border = Fee::ProgressiveFlat { border: vec![50, 100, 200], fee: vec![5, 10] };
    assert_eq!(longer_border.calculate_fee(150), 0);
    assert_eq!(longer_border.calculate_fee(10), 10);
    let longer_fee = Fee::ProgressiveFlat { border: vec![50], fee: vec![5, 10, 20] };
    assert_eq!(longer_fee.calculate_fee(10), 5);
    let empty = Fee::ProgressiveFlat { border: vec![], fee: vec![] };
    assert_eq!(empty.calculate_fee(10), 0);
}

#[test]
fn same_schedule_and_price_same_fee() {
    let fee = Fee::ProgressiveFlat { border: vec![50, 100], fee: vec![5, 10] };
    let copy = fee.clone();
    assert_eq!(fee, copy);
    for price in [0u64, 40, 50, 60, 100, 150] {
        assert_eq!(fee.calculate_fee(price), fee.calculate_fee(price));
        assert_eq!(fee.calculate_fee(price), copy.calculate_fee(price));
    }
}

#[test]
fn default_schedule_is_free() {
    assert_eq!(Fee::default(), Fee::Flat(0));
    let params = CustomsParams::default();
    assert_eq!(params.fee, Fee::Flat(0));
    assert!(params.banned_import_products.is_empty());
    assert!(params.banned_export_products.is_empty());
    assert!(params.banned_import_origin.is_empty());
    assert!(params.banned_export_origin.is_empty());
    assert_eq!(params.clone(), params);
}
