use konto::amount::Amount;
use konto::dashboard::DashboardChartsService;

#[test]
fn month_labels() {
    assert_eq!(DashboardChartsService::month_label(2024, 3), "2024-03");
    assert_eq!(DashboardChartsService::month_label(999, 12), "0999-12");
    assert_eq!(DashboardChartsService::month_label(0, 1), "0000-01");
    assert_eq!(DashboardChartsService::month_label(12345, 7), "12345-07");
    assert_eq!(DashboardChartsService::month_label(-5, 10), "-005-10");
}

#[test]
fn overview_of_an_invalid_year() {
    match DashboardChartsService::overview(300000, &vec![], &vec![], vec![]) {
        Err(konto::error::AppError::Validation(m)) => assert_eq!(m, "Invalid year"),
        _ => panic!(),
    }
    let d = DashboardChartsService::overview(12000, &vec![], &vec![], vec![]).unwrap().unwrap();
    assert_eq!(d.months[11].month, "12000-12");
}

#[test]
fn the_overview_runs_the_totals() {
    let income = vec![(1, Amount::from_int(100)), (3, Amount::from_int(50)), (1, Amount::new(250, 2))];
    let expenses = vec![(2, Amount::from_int(30)), (12, Amount::from_int(20))];
    let d = DashboardChartsService::overview(2024, &income, &expenses, vec![2024, 2023]).unwrap().unwrap();
    assert_eq!(d.months.len(), 12);
    assert_eq!(d.months[0].month, "2024-01");
    assert_eq!((d.months[0].income.mantissa, d.months[0].income.scale), (10250, 2));
    assert_eq!(d.months[1].expenses.mantissa, 30);
    assert_eq!((d.months[2].cumulative_income.mantissa, d.months[2].cumulative_income.scale), (15250, 2));
    assert_eq!(d.months[11].cumulative_expenses.mantissa, 50);
    assert_eq!((d.total_income.mantissa, d.total_income.scale), (15250, 2));
    assert_eq!((d.difference.mantissa, d.difference.scale), (10250, 2));
    assert_eq!(d.available_years, vec![2024, 2023]);
}

#[test]
fn available_years_latest_first() {
    assert_eq!(DashboardChartsService::available_years(&vec![2022, 2024, 2022, 2021], 2025), vec![2025, 2024, 2022, 2021]);
    assert_eq!(DashboardChartsService::available_years(&vec![], 2025), vec![2025]);
    assert_eq!(DashboardChartsService::available_years(&vec![2025, 2025], 2025), vec![2025]);
}

#[test]
fn invoice_aging_orders_standard_statuses_first() {
    let inv = |s: &str, cents: i64| (s.to_string(), Amount::new(cents, 2));
    let invoices = vec![
        inv("paid", 10000),
        inv("disputed", 500),
        inv("draft", 2550),
        inv("paid", 2500),
        inv("sent", 100),
        inv("disputed", 250),
    ];
    let buckets = DashboardChartsService::invoice_aging(&invoices).unwrap();
    let got: Vec<(String, i64, i128, u32)> =
        buckets.iter().map(|b| (b.status.clone(), b.count, b.total.mantissa, b.total.scale)).collect();
    assert_eq!(
        got,
        vec![
            ("draft".to_string(), 1, 2550, 2),
            ("sent".to_string(), 1, 100, 2),
            ("paid".to_string(), 2, 12500, 2),
            ("disputed".to_string(), 2, 750, 2),
        ]
    );
    assert!(DashboardChartsService::invoice_aging(&vec![]).unwrap().is_empty());
}
