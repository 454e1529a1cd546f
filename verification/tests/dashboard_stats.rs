use konto::amount::Amount;
use konto::dashboard_service::{DashboardService, EntryRow};

fn a(c: i64) -> Amount {
    Amount::new(c, 2)
}

#[test]
fn dashboard_key_figures() {
    assert_eq!(DashboardService::month_start((2026, 3, 17)), (2026, 3, 1));
    let revenue = vec![(a(0), a(150000)), (a(0), a(25050))];
    let expenses = vec![(a(40000), a(0)), (a(1000), a(500))];
    let cash = vec![(a(100000), a(0)), (a(0), a(30025)), (a(500), a(100))];
    let stats = DashboardService::get_stats(
        12,
        5,
        40,
        2,
        &revenue,
        &expenses,
        &cash,
        3,
        &vec![a(10000), a(2550)],
        vec![EntryRow {
            id: "e1".to_string(),
            date: (2026, 3, 2),
            reference: Some("R-1".to_string()),
            description: "Rent".to_string(),
            status: "posted".to_string(),
        }],
    )
    .unwrap();
    assert_eq!((stats.account_count, stats.active_contacts, stats.journal_entry_count, stats.active_projects), (12, 5, 40, 2));
    assert_eq!((stats.revenue_mtd.mantissa, stats.revenue_mtd.scale), (175050, 2));
    assert_eq!((stats.expenses_mtd.mantissa, stats.expenses_mtd.scale), (41000, 2));
    assert_eq!((stats.cash_balance.mantissa, stats.cash_balance.scale), (70375, 2));
    assert_eq!(stats.open_invoices_count, 3);
    assert_eq!((stats.total_outstanding.mantissa, stats.total_outstanding.scale), (12550, 2));
    assert_eq!(stats.recent_entries.len(), 1);
    assert_eq!(stats.recent_entries[0].date, "2026-03-02");
    assert_eq!(stats.recent_entries[0].reference.as_deref(), Some("R-1"));
    let empty = DashboardService::cash_balance(&vec![]).unwrap();
    assert_eq!(empty.mantissa, 0);
}
