use konto::amount::Amount;
use konto::currency_exchange::FxResult;
use konto::error::AppError;
use konto::invoice_workflow::{InvoiceLineInfo, InvoiceWorkflow};

fn il(acc: &str, total: i64, scale: u32) -> InvoiceLineInfo {
    InvoiceLineInfo {
        account_id: acc.into(),
        description: format!("line {acc}"),
        vat_rate_id: Some("vat81".into()),
        line_total: Amount::new(total, scale),
    }
}

#[test]
fn sending_books_the_receivable_for_the_rounded_credits() {
    let lines = vec![il("3200", 10000, 2), il("3400", 0, 0), il("3201", 3333, 2)];
    let out = InvoiceWorkflow::send_journal_lines("1100", "2200", &lines, Amount::new(1080, 2), Some(Amount::new(95, 2))).unwrap();
    // 100.00 * 0.95 = 95.00, 33.33 * 0.95 = 31.6635 -> 31.66, 10.80 * 0.95 = 10.26
    assert_eq!(out.len(), 4);
    assert_eq!(out[0].account_id, "1100");
    let d = rust_decimal::Decimal::from_i128_with_scale(out[0].debit_amount.mantissa, out[0].debit_amount.scale);
    assert_eq!(d, rust_decimal::Decimal::new(13692, 2));
    assert_eq!(out[1].account_id, "3200");
    assert_eq!(out[2].account_id, "3201");
    assert_eq!((out[2].credit_amount.mantissa, out[2].credit_amount.scale), (3166, 2));
    assert_eq!(out[2].vat_rate_id.as_deref(), Some("vat81"));
    assert_eq!(out[3].account_id, "2200");
    assert_eq!(out[3].description.as_deref(), Some("VAT liability"));
}

#[test]
fn payments_in_the_same_currency() {
    assert!(InvoiceWorkflow::same_currency(None, None));
    assert!(InvoiceWorkflow::same_currency(Some("CHF"), Some("CHF")));
    assert!(!InvoiceWorkflow::same_currency(Some("CHF"), None));
    let base = InvoiceWorkflow::cleared_base_amount(Amount::new(5000, 2), None).unwrap();
    assert_eq!((base.mantissa, base.scale), (5000, 2));
}

#[test]
fn converted_payments_book_the_difference() {
    match InvoiceWorkflow::require_actual_amount(None) {
        Err(AppError::Validation(m)) => assert!(m.starts_with("This payment converts currency")),
        _ => panic!(),
    }
    let cleared = InvoiceWorkflow::cleared_base_amount(Amount::from_int(100), Some(Amount::new(94, 2))).unwrap();
    assert_eq!((cleared.mantissa, cleared.scale), (9400, 2));
    let diff = InvoiceWorkflow::payment_difference(Amount::new(9350, 2), cleared).unwrap();
    assert_eq!(diff.mantissa, -50);
    let lines = InvoiceWorkflow::payment_lines("1020", "1100", Amount::new(9350, 2), cleared, &FxResult::Loss(Amount::new(50, 2)), "6950");
    assert_eq!(lines.len(), 3);
    assert_eq!(lines[0].description.as_deref(), Some("Payment received"));
    assert_eq!(lines[2].account_id, "6950");
    assert_eq!(lines[2].debit_amount.mantissa, 50);
}

#[test]
fn payment_booking_choices() {
    let a = |c: i64| Amount::new(c, 2);
    // same currency: cleared amount both sides, rate handed back
    let (lines, rate) = InvoiceWorkflow::build_payment_journal_lines("1020", "1100", Some("CHF"), Some("CHF"), a(10000), None, None, None, None).unwrap().ok().unwrap();
    assert_eq!(lines.len(), 2);
    assert_eq!((lines[0].account_id.as_str(), lines[0].debit_amount.mantissa), ("1020", 10000));
    assert_eq!((lines[1].account_id.as_str(), lines[1].credit_amount.mantissa), ("1100", 10000));
    assert!(rate.is_none());
    // another currency: 100.00 EUR at 0.95 clears 95.00; 96.50 received => gain 1.50
    let (lines, rate) = InvoiceWorkflow::build_payment_journal_lines("1020", "1100", Some("CHF"), Some("EUR"), a(10000), Some(Amount::new(95, 2)), Some(a(9650)), Some("6950"), Some("6940")).unwrap().ok().unwrap();
    assert!(rate.is_none());
    assert_eq!(lines.len(), 3);
    assert_eq!(lines[0].debit_amount.mantissa, 9650);
    assert_eq!((lines[1].credit_amount.mantissa, lines[1].credit_amount.scale), (9500, 2));
    assert_eq!((lines[2].account_id.as_str(), lines[2].credit_amount.mantissa), ("6950", 150));
    // a loss without a loss account
    match InvoiceWorkflow::build_payment_journal_lines("1020", "1100", Some("CHF"), None, a(10000), None, Some(a(9900)), Some("6950"), None).unwrap() {
        Err(AppError::Validation(m)) => assert_eq!(m, "fx_loss_account not configured"),
        _ => panic!(),
    }
    // the received amount missing
    match InvoiceWorkflow::build_payment_journal_lines("1020", "1100", Some("CHF"), None, a(10000), None, None, None, None).unwrap() {
        Err(AppError::Validation(m)) => assert!(m.contains("actual amount received must be provided")),
        _ => panic!(),
    }
}

#[test]
fn invoice_status_changes() {
    assert_eq!(InvoiceWorkflow::check_sendable("draft").ok(), Some("sent"));
    match InvoiceWorkflow::check_sendable("paid") {
        Err(AppError::Validation(m)) => assert_eq!(m, "Only draft invoices can be sent"),
        _ => panic!(),
    }
    assert_eq!(InvoiceWorkflow::check_markable_paid("overdue").ok(), Some("paid"));
    assert_eq!(InvoiceWorkflow::check_cancellable("sent").ok(), Some("cancelled"));
    assert!(InvoiceWorkflow::check_cancellable("draft").is_err());
    assert!(InvoiceWorkflow::check_payment("partial", Amount::new(1, 2)).is_ok());
    match InvoiceWorkflow::check_payment("sent", Amount::zero()) {
        Err(AppError::Validation(m)) => assert_eq!(m, "Payment amount must be positive"),
        _ => panic!(),
    }
    assert_eq!(InvoiceWorkflow::status_after_payment(Amount::new(5000, 2), Amount::from_int(50)), "paid");
    assert_eq!(InvoiceWorkflow::status_after_payment(Amount::new(4999, 2), Amount::from_int(50)), "partial");
}
