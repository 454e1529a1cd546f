use konto::amount::Amount;
use konto::credit_note_service::{CreditNoteLineInput, CreditNoteService};
use konto::expense_service::compute_vat;

#[test]
fn credit_note_totals_with_vat() {
    let inputs = vec![
        CreditNoteLineInput { quantity: Amount::new(2, 0), unit_price: Amount::new(5000, 2), vat_rate: Some(Amount::new(81, 1)) },
        CreditNoteLineInput { quantity: Amount::new(1, 0), unit_price: Amount::new(2000, 2), vat_rate: None },
    ];
    let t = CreditNoteService::compute_lines(&inputs).unwrap();
    assert_eq!(t.lines.len(), 2);
    // 2 * 50.00 = 100.00, VAT 8.1% = 8.100
    assert_eq!((t.lines[0].line_total.mantissa, t.lines[0].line_total.scale), (10000, 2));
    assert_eq!((t.lines[0].vat_amount.mantissa, t.lines[0].vat_amount.scale), (8100, 3));
    assert_eq!(t.lines[1].vat_amount.mantissa, 0);
    assert_eq!((t.subtotal.mantissa, t.subtotal.scale), (12000, 2));
    assert_eq!((t.total_vat.mantissa, t.total_vat.scale), (8100, 3));
    assert_eq!((t.total.mantissa, t.total.scale), (128100, 3));
}

#[test]
fn expense_vat() {
    let v = compute_vat(Amount::new(20000, 2), Some(Amount::new(77, 1))).unwrap();
    // 200.00 * 7.7 / 100 = 15.400
    assert_eq!((v.mantissa, v.scale), (15400, 3));
    assert_eq!(compute_vat(Amount::new(20000, 2), None).unwrap().mantissa, 0);
}

#[test]
fn a_zero_factor_gives_zero_with_scale_zero() {
    let (t, v) = konto::invoice_service::InvoiceService::line_amounts(Amount::new(0, 2), Amount::from_int(5), None, None).unwrap();
    assert_eq!((t.mantissa, t.scale), (0, 0));
    assert_eq!(v.mantissa, 0);
}
