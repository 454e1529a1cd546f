use konto::amount::Amount;
use konto::error::AppError;
use konto::invoice_service::{ComputedLine, InvoiceService};
use rust_decimal::Decimal;

fn d(a: Amount) -> Decimal {
    Decimal::from_i128_with_scale(a.mantissa, a.scale)
}

#[test]
fn discounts_and_vat() {
    let (t, v) = InvoiceService::line_amounts(Amount::from_int(3), Amount::new(2000, 2), Some(Amount::from_int(10)), Some(Amount::new(81, 1))).unwrap();
    assert_eq!(d(t), Decimal::new(54, 0));
    assert_eq!(d(v), Decimal::new(4374, 3));
    let (t, v) = InvoiceService::line_amounts(Amount::from_int(2), Amount::from_int(5), None, None).unwrap();
    assert_eq!(d(t), Decimal::from(10));
    assert_eq!(d(v), Decimal::ZERO);
}

#[test]
fn accounts_of_lines() {
    assert_eq!(InvoiceService::resolve_account(Some("a1".into()), None).ok(), Some("a1".to_string()));
    assert_eq!(InvoiceService::resolve_account(Some("".into()), Some("rev".into())).ok(), Some("rev".to_string()));
    match InvoiceService::resolve_account(None, None) {
        Err(AppError::Validation(m)) => assert_eq!(m, "No account selected and no default revenue account configured"),
        _ => panic!(),
    }
    match InvoiceService::vat_rate_not_found("v9") {
        AppError::NotFound(m) => assert_eq!(m, "VAT rate v9 not found"),
        _ => panic!(),
    }
}

#[test]
fn invoice_totals() {
    let line = |t: i64, v: i64| ComputedLine { line_total: Amount::new(t, 2), vat_amount: Amount::new(v, 2), discount_percent: None, account_id: "a".into() };
    let (s, v, t) = InvoiceService::totals(&vec![line(10000, 810), line(5000, 405)]).unwrap();
    assert_eq!((s.mantissa, v.mantissa, t.mantissa), (15000, 1215, 16215));
    let (s, _, t) = InvoiceService::totals(&vec![]).unwrap();
    assert_eq!((s.mantissa, t.mantissa), (0, 0));
}
