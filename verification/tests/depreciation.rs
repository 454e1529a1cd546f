use konto::amount::Amount;
use konto::depreciation_service::{DepreciationService, FixedAssetInfo};

fn asset(method: &str, rate: Option<Amount>) -> FixedAssetInfo {
    FixedAssetInfo {
        id: "a1".to_string(),
        name: "Car".to_string(),
        depreciation_method: method.to_string(),
        declining_rate: rate,
        residual_value: Amount::from_int(1000),
        acquisition_cost: Amount::from_int(10000),
        useful_life_years: 9,
        account_id: "acct-1530".to_string(),
        depreciation_account_id: "acct-6800".to_string(),
    }
}

fn value_cents(a: Amount) -> i128 {
    // the value in hundredths, for amounts with at most two places
    let mut m = a.mantissa;
    let mut s = a.scale;
    while s < 2 {
        m *= 10;
        s += 1;
    }
    while s > 2 {
        assert_eq!(m % 10, 0);
        m /= 10;
        s -= 1;
    }
    m
}

#[test]
fn straight_line_spreads_cost_over_life() {
    let a = asset("straight_line", None);
    let d = DepreciationService::calculate(&a, Amount::from_int(10000)).unwrap();
    assert_eq!(value_cents(d), 100000);
    let mut a0 = asset("straight_line", None);
    a0.useful_life_years = 0;
    assert_eq!(value_cents(DepreciationService::calculate(&a0, Amount::from_int(5000)).unwrap()), 0);
}

#[test]
fn declining_balance_stops_at_residual_value() {
    let a = asset("declining_balance", Some(Amount::new(20, 2)));
    let d = DepreciationService::calculate(&a, Amount::from_int(10000)).unwrap();
    assert_eq!(value_cents(d), 200000);
    let d = DepreciationService::calculate(&a, Amount::from_int(1100)).unwrap();
    assert_eq!(value_cents(d), 10000);
    let d = DepreciationService::calculate(&a, Amount::from_int(900)).unwrap();
    assert_eq!(value_cents(d), 0);
    let none = asset("declining_balance", None);
    assert_eq!(value_cents(DepreciationService::calculate(&none, Amount::from_int(5000)).unwrap()), 0);
}

#[test]
fn a_run_books_once_per_fiscal_year() {
    let a = asset("straight_line", None);
    let step = DepreciationService::run_step(&a, "fy1", &vec![]).unwrap().unwrap();
    assert_eq!(value_cents(step.amount), 100000);
    assert_eq!(value_cents(step.accumulated), 100000);
    assert_eq!(value_cents(step.book_value), 900000);
    assert!(!step.fully_depreciated);
    let existing = vec![("fy1".to_string(), step.amount)];
    assert!(DepreciationService::run_step(&a, "fy1", &existing).unwrap().is_none());
}

#[test]
fn the_last_run_marks_the_asset_fully_depreciated() {
    let a = asset("straight_line", None);
    let existing: Vec<(String, Amount)> = (0..8).map(|i| (format!("fy{i}"), Amount::from_int(1000))).collect();
    let step = DepreciationService::run_step(&a, "fy8", &existing).unwrap().unwrap();
    assert_eq!(value_cents(step.book_value), 100000);
    assert!(step.fully_depreciated);
    let mut all = existing.clone();
    all.push(("fy8".to_string(), Amount::from_int(1000)));
    assert!(DepreciationService::run_step(&a, "fy9", &all).unwrap().is_none());
}

#[test]
fn depreciation_booking_texts() {
    let a = asset("straight_line", None);
    let lines = DepreciationService::depreciation_lines(&a, Amount::from_int(1000));
    assert_eq!(lines[0].account_id, "acct-6800");
    assert_eq!(lines[1].account_id, "acct-1530");
    assert_eq!(lines[0].description.as_deref(), Some("Depreciation: Car"));
    assert_eq!(DepreciationService::entry_description("Car", "2024"), "Depreciation Car — FY 2024");
}

#[test]
fn a_run_is_refused_for_a_closed_fiscal_year() {
    let assets = vec![(asset("straight_line", None), vec![])];
    match DepreciationService::run_depreciation("closed", "fy1", &assets) {
        Err(konto::error::AppError::Validation(m)) => {
            assert_eq!(m, "Cannot run depreciation on a closed fiscal year")
        }
        _ => panic!("a closed fiscal year must be refused"),
    }
}

#[test]
fn a_run_books_each_active_asset_in_order() {
    let booked = vec![("fy1".to_string(), Amount::from_int(1000))];
    let assets = vec![
        (asset("straight_line", None), vec![]),
        (asset("straight_line", None), booked),
    ];
    let steps = DepreciationService::run_depreciation("open", "fy1", &assets).unwrap().unwrap();
    assert_eq!(steps.len(), 2);
    let first = steps[0].as_ref().unwrap();
    assert_eq!(value_cents(first.amount), 100000);
    assert_eq!(value_cents(first.book_value), 900000);
    assert!(steps[1].is_none());
}
