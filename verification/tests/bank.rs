use konto::amount::Amount;
use konto::bank_reconciliation::{
    str_contains, AutoMatchResult, BankReconciliationService, MatchTarget, OpenInvoice,
};
use konto::error::AppError;

fn inv(r: Option<&str>, total: i64) -> OpenInvoice {
    OpenInvoice { creditor_reference: r.map(|s| s.to_string()), total: Amount::from_int(total) }
}

#[test]
fn substring_search() {
    assert!(str_contains("payment RF18539007547034 thanks", "RF18539007547034"));
    assert!(str_contains("abc", ""));
    assert!(!str_contains("ab", "abc"));
    assert!(!str_contains("abcabd", "abe"));
}

#[test]
fn candidates_by_reference_then_amount() {
    let invoices = vec![inv(None, 50), inv(Some("RF11"), 70), inv(Some("RF22"), 50)];
    let r = BankReconciliationService::match_candidates(Amount::from_int(50), Some("x RF22 y"), &invoices);
    assert_eq!(r, (Some(2), Some(0)));
    let r = BankReconciliationService::match_candidates(Amount::from_int(70), None, &invoices);
    assert_eq!(r, (None, Some(1)));
    let r = BankReconciliationService::match_candidates(Amount::from_int(-50), Some("RF22"), &invoices);
    assert_eq!(r, (None, None));
    let r = BankReconciliationService::match_candidates(Amount::new(5000, 2), Some("RF11"), &invoices);
    assert_eq!(r, (Some(1), Some(0)));
}

#[test]
fn matching_checks() {
    assert!(BankReconciliationService::check_unmatched("unmatched").is_ok());
    match BankReconciliationService::check_unmatched("matched") {
        Err(AppError::Validation(m)) => assert_eq!(m, "Transaction is already matched or ignored"),
        _ => panic!(),
    }
    assert_eq!(BankReconciliationService::parse_target("expense").ok(), Some(MatchTarget::Expense));
    match BankReconciliationService::parse_target("bill") {
        Err(AppError::Validation(m)) => assert_eq!(m, "target_type must be 'invoice' or 'expense'"),
        _ => panic!(),
    }
    match BankReconciliationService::payment_account(None) {
        Err(AppError::Validation(m)) => assert_eq!(m, "Bank account has no linked ledger account"),
        _ => panic!(),
    }
}

#[test]
fn booking_and_tally() {
    let lines = BankReconciliationService::booking_lines(Amount::new(-1250, 2), "Fee", "d", "c");
    assert_eq!(lines[0].debit_amount.mantissa, 1250);
    assert_eq!(lines[1].credit_amount.mantissa, 1250);
    assert_eq!(BankReconciliationService::booking_description("Fee"), "Bank: Fee");
    let t = AutoMatchResult::tally(5, 2);
    assert_eq!((t.matched_count, t.unmatched_count), (2, 3));
}
