use konto::amount::Amount;
use konto::error::AppError;
use konto::journal_service::{JournalLineInput, JournalService};

fn line(account: &str, debit: Amount, credit: Amount) -> JournalLineInput {
    JournalLineInput {
        account_id: account.to_string(),
        debit_amount: debit,
        credit_amount: credit,
        description: Some("d".to_string()),
        vat_rate_id: None,
    }
}

fn validation_message(r: Option<Result<(), AppError>>) -> String {
    match r {
        Some(Err(AppError::Validation(m))) => m,
        _ => panic!("expected a validation error"),
    }
}

#[test]
fn balanced_lines_are_accepted() {
    let lines = vec![
        line("a", Amount::new(10000, 2), Amount::zero()),
        line("b", Amount::zero(), Amount::new(100, 0)),
    ];
    assert!(matches!(JournalService::validate_lines(&lines), Some(Ok(()))));
}

#[test]
fn unbalanced_lines_name_both_totals() {
    let lines = vec![
        line("a", Amount::new(10000, 2), Amount::zero()),
        line("b", Amount::zero(), Amount::new(50, 0)),
    ];
    assert_eq!(
        validation_message(JournalService::validate_lines(&lines)),
        "Debits (100.00) must equal credits (50)"
    );
}

#[test]
fn empty_entry_is_refused() {
    assert_eq!(
        validation_message(JournalService::validate_lines(&vec![])),
        "At least one journal line is required"
    );
}

#[test]
fn zero_and_negative_lines_are_refused() {
    let lines = vec![
        line("a", Amount::new(5, 0), Amount::zero()),
        line("b", Amount::zero(), Amount::zero()),
        line("c", Amount::zero(), Amount::new(5, 0)),
    ];
    assert_eq!(
        validation_message(JournalService::validate_lines(&lines)),
        "Line 2: debit or credit amount must be non-zero"
    );
    let lines = vec![
        line("a", Amount::new(-5, 0), Amount::zero()),
        line("b", Amount::zero(), Amount::new(-5, 0)),
    ];
    assert_eq!(
        validation_message(JournalService::validate_lines(&lines)),
        "Line 1: amounts cannot be negative"
    );
}

#[test]
fn reversal_swaps_debit_and_credit() {
    let lines = vec![
        line("a", Amount::new(5, 0), Amount::zero()),
        line("b", Amount::zero(), Amount::new(5, 0)),
    ];
    let rev = JournalService::reversal_lines(&lines);
    assert_eq!(rev.len(), 2);
    assert_eq!(rev[0].account_id, "a");
    assert_eq!(rev[0].debit_amount.mantissa, 0);
    assert_eq!(rev[0].credit_amount.mantissa, 5);
    assert_eq!(rev[1].debit_amount.mantissa, 5);
    assert_eq!(rev[1].description.as_deref(), Some("d"));
    let back = JournalService::reversal_lines(&rev);
    assert_eq!(back[0].debit_amount.mantissa, 5);
    assert!(matches!(JournalService::validate_lines(&rev), Some(Ok(()))));
}

#[test]
fn reversal_texts() {
    assert_eq!(JournalService::reversal_description("Rent"), "Reversal of: Rent");
    assert_eq!(JournalService::reversal_reference(Some("R-1"), "id9"), "REV-R-1");
    assert_eq!(JournalService::reversal_reference(None, "id9"), "REV-id9");
}

#[test]
fn posting_and_reversing_statuses() {
    assert!(JournalService::check_postable("draft").is_ok());
    match JournalService::check_postable("posted") {
        Err(AppError::Validation(m)) => assert_eq!(m, "Cannot post entry with status 'posted'"),
        _ => panic!(),
    }
    assert!(JournalService::check_reversible("posted").is_ok());
    match JournalService::check_reversible("draft") {
        Err(AppError::Validation(m)) => assert_eq!(m, "Cannot reverse entry with status 'draft'"),
        _ => panic!(),
    }
}

#[test]
fn overflowing_totals_are_reported() {
    let big = Amount::new(i64::MAX, 0);
    let huge = Amount { mantissa: 79228162514264337593543950335, scale: 0 };
    let lines = vec![line("a", huge, Amount::zero()), line("b", big, Amount::zero())];
    assert!(JournalService::validate_lines(&lines).is_none());
}
