use konto::amount::Amount;
use konto::cash_flow::{CashFlowService, CashLine, EntryFlow, FlowCategory, MonthlyEntry};

fn l(n: Option<i32>, d: i64, c: i64) -> CashLine {
    CashLine { account_number: n, debit_amount: Amount::from_int(d), credit_amount: Amount::from_int(c) }
}

#[test]
fn accounts_are_classified_by_number() {
    assert_eq!(CashFlowService::classify_account_number(Some(1020)), FlowCategory::Exclude);
    assert_eq!(CashFlowService::classify_account_number(Some(1100)), FlowCategory::Operating);
    assert_eq!(CashFlowService::classify_account_number(Some(1500)), FlowCategory::Investing);
    assert_eq!(CashFlowService::classify_account_number(Some(2100)), FlowCategory::Financing);
    assert_eq!(CashFlowService::classify_account_number(Some(2200)), FlowCategory::Operating);
    assert_eq!(CashFlowService::classify_account_number(Some(2800)), FlowCategory::Financing);
    assert_eq!(CashFlowService::classify_account_number(Some(6000)), FlowCategory::Operating);
    assert_eq!(CashFlowService::classify_account_number(Some(9100)), FlowCategory::Exclude);
    assert_eq!(CashFlowService::classify_account_number(None), FlowCategory::Operating);
    assert!(CashFlowService::is_cash_account(Some(1099)));
    assert!(!CashFlowService::is_cash_account(Some(1100)));
}

#[test]
fn a_sale_paid_in_cash_is_operating() {
    let lines = vec![l(Some(1020), 300, 0), l(Some(3200), 0, 100), l(Some(1500), 0, 200)];
    match CashFlowService::entry_flow(&lines).unwrap() {
        EntryFlow::Allocate(v) => {
            assert_eq!(v.len(), 2);
            assert_eq!(v[0].0, 1);
            assert_eq!(v[0].1, FlowCategory::Operating);
            assert_eq!(v[1].1, FlowCategory::Investing);
            // 300 * (100/300) and 300 * (200/300)
            let a = rust_decimal::Decimal::from_i128_with_scale(v[0].2.mantissa, v[0].2.scale);
            let b = rust_decimal::Decimal::from_i128_with_scale(v[1].2.mantissa, v[1].2.scale);
            assert_eq!(a.round_dp(6), rust_decimal::Decimal::from(100));
            assert_eq!(b.round_dp(6), rust_decimal::Decimal::from(200));
        }
        _ => panic!("expected an allocation"),
    }
}

#[test]
fn opening_balances_and_non_cash_entries() {
    let opening = vec![l(Some(1020), 500, 0), l(Some(9100), 0, 500)];
    match CashFlowService::entry_flow(&opening).unwrap() {
        EntryFlow::Opening(a) => assert_eq!(a.mantissa, 500),
        _ => panic!(),
    }
    let no_cash = vec![l(Some(6000), 5, 0), l(Some(2000), 0, 5)];
    assert!(matches!(CashFlowService::entry_flow(&no_cash).unwrap(), EntryFlow::Skip));
    let transfer = vec![l(Some(1020), 5, 0), l(Some(1000), 0, 5)];
    assert!(matches!(CashFlowService::entry_flow(&transfer).unwrap(), EntryFlow::Skip));
}

#[test]
fn monthly_entries() {
    let inflow = vec![l(Some(1020), 80, 0), l(Some(3200), 0, 80)];
    assert!(matches!(CashFlowService::monthly_entry(&inflow).unwrap(), MonthlyEntry::Inflow(a) if a.mantissa == 80));
    let outflow = vec![l(Some(1020), 0, 80), l(Some(6000), 80, 0)];
    assert!(matches!(CashFlowService::monthly_entry(&outflow).unwrap(), MonthlyEntry::Outflow(a) if a.mantissa == -80));
    let opening = vec![l(Some(1020), 80, 0), l(Some(9000), 0, 80)];
    assert!(matches!(CashFlowService::monthly_entry(&opening).unwrap(), MonthlyEntry::Opening(_)));
}

#[test]
fn section_and_month_totals() {
    let items = vec![Amount::from_int(10), Amount::from_int(-4), Amount::zero(), Amount::from_int(5)];
    let (i, o) = CashFlowService::section_totals(&items).unwrap();
    assert_eq!((i.mantissa, o.mantissa), (15, -4));
    let months = vec![(Amount::from_int(10), Amount::from_int(-3)), (Amount::from_int(0), Amount::from_int(-2))];
    let (rows, ti, to) = CashFlowService::monthly_rows(Amount::from_int(100), &months).unwrap();
    assert_eq!(rows.len(), 2);
    assert_eq!(rows[0].net.mantissa, 7);
    assert_eq!(rows[0].cumulative_balance.mantissa, 107);
    assert_eq!(rows[1].cumulative_balance.mantissa, 105);
    assert_eq!((ti.mantissa, to.mantissa), (10, -5));
}

#[test]
fn receivables_aging_brackets() {
    let a = |c: i64| Amount::new(c, 2);
    let entries = vec![(0i64, a(1000)), (-5, a(500)), (1, a(200)), (30, a(300)), (31, a(400)), (90, a(50)), (91, a(70))];
    let b = CashFlowService::aging_from_days(&entries).unwrap();
    let got: Vec<(String, i64, i128)> = b.iter().map(|x| (x.bucket.clone(), x.count, x.total.mantissa)).collect();
    assert_eq!(
        got,
        vec![
            ("Current".to_string(), 2, 1500),
            ("1-30 days".to_string(), 2, 500),
            ("31-60 days".to_string(), 1, 400),
            ("61-90 days".to_string(), 1, 50),
            ("90+ days".to_string(), 1, 70),
        ]
    );
    // due 2024-01-31, today 2024-03-01: 30 days overdue (leap year); due 2023-12-01: 91 days
    let r = CashFlowService::ar_aging_report((2024, 3, 1), &vec![((2024, 1, 31), a(100)), ((2023, 12, 1), a(250)), ((2024, 3, 2), a(7))]).unwrap();
    let got: Vec<(i64, i128)> = r.iter().map(|x| (x.count, x.total.mantissa)).collect();
    assert_eq!(got, vec![(1, 7), (1, 100), (0, 0), (0, 0), (1, 250)]);
    let ap = CashFlowService::ap_aging_report();
    assert_eq!(ap.len(), 5);
    assert_eq!(ap[4].bucket, "90+ days");
    assert_eq!(ap[4].count, 0);
}

#[test]
fn monthly_cash_flow_by_month() {
    let e1 = ((2024, 1, 20), vec![l(Some(1020), 100, 0), l(Some(3000), 0, 100)]);
    let e2 = ((2024, 2, 5), vec![l(Some(1020), 0, 30), l(Some(4000), 30, 0)]);
    let e3 = ((2024, 1, 2), vec![l(Some(1020), 500, 0), l(Some(9100), 0, 500)]);
    let rep = CashFlowService::monthly_cash_flow(true, (2024, 1, 15), (2024, 3, 10), Amount::from_int(50), &vec![e1, e2, e3]).unwrap();
    assert_eq!(rep.initial_balance.mantissa, 550);
    let got: Vec<(String, i128, i128, i128, i128)> = rep.months.iter().map(|m| (m.month.clone(), m.inflows.mantissa, m.outflows.mantissa, m.net.mantissa, m.cumulative_balance.mantissa)).collect();
    assert_eq!(got, vec![
        ("2024-01".to_string(), 100, 0, 100, 650),
        ("2024-02".to_string(), 0, -30, -30, 620),
        ("2024-03".to_string(), 0, 0, 0, 620),
    ]);
    assert_eq!(rep.ending_balance.mantissa, 620);
    assert_eq!(rep.total_inflows.mantissa, 100);
    assert_eq!(rep.total_outflows.mantissa, -30);
    assert_eq!(rep.net_variation.mantissa, 70);
    let none = CashFlowService::monthly_cash_flow(false, (2024, 1, 1), (2024, 2, 1), Amount::from_int(50), &vec![]).unwrap();
    assert!(none.months.is_empty());
}

fn dv(a: Amount) -> rust_decimal::Decimal {
    rust_decimal::Decimal::from_i128_with_scale(a.mantissa, a.scale)
}

#[test]
fn cash_flow_statement_sections() {
    let s = |x: &str| x.to_string();
    let e1 = (vec![l(Some(1020), 100, 0), l(Some(3000), 0, 60), l(Some(3200), 0, 40)], vec![s("1020 Bank"), s("3000 Sales"), s("3200 Services")]);
    let e2 = (vec![l(Some(1020), 0, 50), l(Some(1500), 50, 0)], vec![s("1020 Bank"), s("1500 Machines")]);
    let e3 = (vec![l(Some(1020), 500, 0), l(Some(9100), 0, 500)], vec![s("1020 Bank"), s("9100 Opening")]);
    let e4 = (vec![l(Some(1020), 0, 80), l(Some(3000), 80, 0)], vec![s("1020 Bank"), s("3000 Sales")]);
    let rep = CashFlowService::cash_flow_report((2024, 1, 1), (2024, 12, 31), Amount::from_int(10), Amount::from_int(480), &vec![e1, e2, e3, e4]).unwrap();
    assert_eq!(dv(rep.opening_balance), 510.into());
    assert_eq!(rep.sections.len(), 3);
    assert_eq!(rep.sections[0].label, "Operating Activities");
    let ops: Vec<(String, rust_decimal::Decimal)> = rep.sections[0].items.iter().map(|i| (i.description.clone(), dv(i.amount))).collect();
    // Sales: 60 - 80 = -20; Services: 40 — sorted by size
    assert_eq!(ops, vec![(s("3200 Services"), 40.into()), (s("3000 Sales"), (-20).into())]);
    assert_eq!(dv(rep.sections[0].inflows), 40.into());
    assert_eq!(dv(rep.sections[0].outflows), (-20).into());
    assert_eq!(dv(rep.sections[0].net), 20.into());
    assert_eq!(dv(rep.sections[1].net), (-50).into());
    assert!(rep.sections[2].items.is_empty());
    assert_eq!(dv(rep.net_change), (-30).into());
    // 480 - (510 - 30) = 0
    assert_eq!(dv(rep.reconciliation_difference), 0.into());
    assert_eq!(rep.from_date, "2024-01-01");
}
