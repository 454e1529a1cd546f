use konto::amount::Amount;
use konto::error::AppError;
use konto::fiscal_year::{FiscalYearInfo, FiscalYearService};

#[test]
fn a_calendar_year_has_twelve_monthly_periods() {
    let p = FiscalYearService::monthly_periods((2024, 1, 1), (2024, 12, 31));
    assert_eq!(p.len(), 12);
    assert_eq!(p[0].name, "January 2024");
    assert_eq!(p[0].start, (2024, 1, 1));
    assert_eq!(p[0].end, (2024, 1, 31));
    assert_eq!(p[1].end, (2024, 2, 29));
    assert_eq!(p[11].start, (2024, 12, 1));
    assert_eq!(p[11].end, (2024, 12, 31));
    assert_eq!(p[11].number, 12);
}

#[test]
fn a_short_year_ends_on_its_last_day() {
    let p = FiscalYearService::monthly_periods((2024, 7, 15), (2024, 9, 10));
    assert_eq!(p.len(), 3);
    assert_eq!(p[0].start, (2024, 7, 15));
    assert_eq!(p[0].end, (2024, 7, 31));
    assert_eq!(p[2].start, (2024, 9, 1));
    assert_eq!(p[2].end, (2024, 9, 10));
    assert_eq!(p[2].name, "September 2024");
}

#[test]
fn a_long_year_stops_at_twelve_periods() {
    let p = FiscalYearService::monthly_periods((2024, 1, 1), (2025, 6, 30));
    assert_eq!(p.len(), 12);
    assert_eq!(p[11].end, (2024, 12, 31));
}

#[test]
fn date_and_status_checks() {
    assert!(FiscalYearService::check_dates((2024, 1, 1), (2024, 12, 31)).is_ok());
    match FiscalYearService::check_dates((2024, 1, 1), (2024, 1, 1)) {
        Err(AppError::Validation(m)) => assert_eq!(m, "End date must be after start date"),
        _ => panic!(),
    }
    assert!(FiscalYearService::check_editable("open").is_ok());
    match FiscalYearService::check_editable("closed") {
        Err(AppError::Validation(m)) => assert_eq!(m, "Cannot edit a closed fiscal year"),
        _ => panic!(),
    }
    match FiscalYearService::check_closable("closed") {
        Err(AppError::Validation(m)) => assert_eq!(m, "Fiscal year is already closed"),
        _ => panic!(),
    }
}

#[test]
fn closing_entries() {
    assert!(FiscalYearService::closing_lines(Amount::zero()).is_none());
    let profit = FiscalYearService::closing_lines(Amount::new(150000, 2)).unwrap();
    assert_eq!(profit[0].account_id, "acct-2979");
    assert_eq!(profit[0].debit_amount.mantissa, 150000);
    assert_eq!(profit[1].account_id, "acct-2970");
    assert_eq!(profit[1].description.as_deref(), Some("Closing entry - retained earnings"));
    let loss = FiscalYearService::closing_lines(Amount::new(-500, 0)).unwrap();
    assert_eq!(loss[0].account_id, "acct-2970");
    assert_eq!(loss[0].debit_amount.mantissa, 500);
    assert_eq!(loss[1].credit_amount.mantissa, 500);
    let (d, r) = FiscalYearService::closing_texts("FY 2024");
    assert_eq!(d, "Closing entry for FY 2024");
    assert_eq!(r, "CLOSE-FY 2024");
}

#[test]
fn posting_dates() {
    let years = vec![
        FiscalYearInfo { name: "2023".into(), start: (2023, 1, 1), end: (2023, 12, 31), closed: true },
        FiscalYearInfo { name: "2024".into(), start: (2024, 1, 1), end: (2024, 12, 31), closed: false },
    ];
    assert!(FiscalYearService::check_posting_date(&vec![], (1999, 1, 1)).is_ok());
    assert!(FiscalYearService::check_posting_date(&years, (2024, 6, 30)).is_ok());
    match FiscalYearService::check_posting_date(&years, (2023, 12, 31)) {
        Err(AppError::Validation(m)) => assert_eq!(m, "Posting period is closed: 2023 (2023-01-01 to 2023-12-31)"),
        _ => panic!(),
    }
    match FiscalYearService::check_posting_date(&years, (2025, 1, 1)) {
        Err(AppError::Validation(m)) => assert_eq!(m, "No fiscal year found for date 2025-01-01"),
        _ => panic!(),
    }
}
