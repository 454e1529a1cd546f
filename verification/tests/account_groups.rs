use konto::amount::Amount;
use konto::ch_account_groups::{
    build_grouped_sections, ch_balance_sheet_assets, group_accounts_by_range, AccountRange, TrialBalanceRow,
};

fn row(n: i32, cents: i64) -> TrialBalanceRow {
    TrialBalanceRow { account_number: n, balance: Amount::new(cents, 2) }
}

fn value_cents(a: Amount) -> i128 {
    let mut m = a.mantissa;
    let mut s = a.scale;
    while s < 2 {
        m *= 10;
        s += 1;
    }
    m
}

#[test]
fn groups_rows_by_range_and_drops_empty_groups() {
    let rows = vec![row(1000, 10050), row(1020, 2000), row(1100, 5000), row(2000, 7000)];
    let ranges = vec![
        AccountRange { label: "Cash", total_label: "Total Cash", from: 1000, to: 1099 },
        AccountRange { label: "Receivables", total_label: "Total Receivables", from: 1100, to: 1199 },
        AccountRange { label: "Stock", total_label: "Total Stock", from: 1200, to: 1299 },
    ];
    let groups = group_accounts_by_range(&rows, &ranges, false).unwrap();
    assert_eq!(groups.len(), 2);
    assert_eq!(groups[0].label, "Cash");
    assert_eq!(groups[0].total_label, "Total Cash");
    assert_eq!(groups[0].accounts.len(), 2);
    assert_eq!(value_cents(groups[0].subtotal), 12050);
    assert_eq!(groups[1].label, "Receivables");
    assert_eq!(value_cents(groups[1].subtotal), 5000);
}

#[test]
fn negated_groups_and_section_totals() {
    let rows = vec![row(1000, -10050), row(1110, -2000), row(1500, -300)];
    let ranges = vec![
        AccountRange { label: "Cash", total_label: "Total Cash", from: 1000, to: 1099 },
        AccountRange { label: "Receivables", total_label: "Total Receivables", from: 1100, to: 1199 },
    ];
    let groups = group_accounts_by_range(&rows, &ranges, true).unwrap();
    assert_eq!(value_cents(groups[0].subtotal), 10050);
    assert_eq!(value_cents(groups[1].subtotal), 2000);

    let rows = vec![row(1000, 10050), row(1110, 2000), row(1500, 300)];
    let sections = build_grouped_sections(&ch_balance_sheet_assets(), &rows, false).unwrap();
    assert_eq!(sections.len(), 2);
    assert_eq!(sections[0].key, "current_assets");
    assert_eq!(sections[0].groups.len(), 2);
    assert_eq!(value_cents(sections[0].total), 12050);
    assert_eq!(sections[1].key, "fixed_assets");
    assert_eq!(sections[1].groups.len(), 1);
    assert_eq!(value_cents(sections[1].total), 300);
}

#[test]
fn current_asset_groups_follow_the_kmu_ranges() {
    // 1200-1299 is both "Andere kurzfristige Forderungen" and "Vorräte"
    let rows = vec![row(1100, 1000), row(1150, 2000), row(1250, 4000)];
    let sections = build_grouped_sections(&ch_balance_sheet_assets(), &rows, false).unwrap();
    assert_eq!(sections[0].groups.len(), 3);
    assert_eq!(value_cents(sections[0].groups[0].subtotal), 3000);
    assert_eq!(value_cents(sections[0].groups[1].subtotal), 4000);
    assert_eq!(value_cents(sections[0].groups[2].subtotal), 4000);
    assert_eq!(value_cents(sections[0].total), 11000);
}
