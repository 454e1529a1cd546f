use konto::amount::Amount;
use konto::contacts_import::ContactsTally;
use konto::credit_note_service::{CreditNoteLineInput, CreditNoteService};
use konto::dunning_service::DunningService;
use konto::error::AppError;
use konto::expense_service::ExpenseService;
use konto::fixed_asset_service::FixedAssetService;
use konto::invoice_service::{InvoiceService, LineInput};

fn validation(r: Result<(), AppError>) -> String {
    match r {
        Err(AppError::Validation(m)) => m,
        Err(_) => panic!("another error kind"),
        Ok(()) => panic!("accepted"),
    }
}

fn line(quantity: i64, price: i64) -> LineInput {
    LineInput {
        description: "Work".to_string(),
        quantity: Amount::from_int(quantity),
        unit_price: Amount::new(price, 2),
        vat_rate_id: None,
        account_id: None,
        discount_percent: None,
    }
}

fn credit_line() -> CreditNoteLineInput {
    CreditNoteLineInput { quantity: Amount::from_int(1), unit_price: Amount::new(1000, 2), vat_rate: None }
}

#[test]
fn invoice_input_is_checked_in_order() {
    let d1 = (2024, 3, 1);
    let d2 = (2024, 3, 31);
    assert!(InvoiceService::check_input(d1, d2, &vec![line(1, 100)]).is_ok());
    assert!(InvoiceService::check_input(d1, d1, &vec![line(2, 0)]).is_ok());
    assert_eq!(validation(InvoiceService::check_input(d1, d2, &vec![])), "At least one line is required");
    assert_eq!(
        validation(InvoiceService::check_input(d2, d1, &vec![line(0, -1)])),
        "Due date must be on or after issue date"
    );
    assert_eq!(
        validation(InvoiceService::check_input(d1, d2, &vec![line(1, 100), line(0, 100)])),
        "Line 2: quantity must be greater than 0"
    );
    assert_eq!(
        validation(InvoiceService::check_input(d1, d2, &vec![line(1, -5), line(0, 100)])),
        "Line 1: unit price cannot be negative"
    );
    assert_eq!(
        validation(InvoiceService::check_input(d1, d2, &vec![line(-3, -5)])),
        "Line 1: quantity must be greater than 0"
    );
}

#[test]
fn only_draft_invoices_are_updated_or_deleted() {
    let d = (2024, 3, 1);
    assert!(InvoiceService::check_update("draft", d, d, &vec![line(1, 1)]).is_ok());
    assert_eq!(
        validation(InvoiceService::check_update("sent", d, d, &vec![])),
        "Only draft invoices can be updated"
    );
    assert_eq!(
        validation(InvoiceService::check_update("draft", d, d, &vec![])),
        "At least one line is required"
    );
    assert!(InvoiceService::check_deletable("draft").is_ok());
    assert_eq!(validation(InvoiceService::check_deletable("paid")), "Only draft invoices can be deleted");
}

#[test]
fn credit_notes_need_lines_and_a_draft() {
    assert!(CreditNoteService::check_lines(&vec![credit_line()]).is_ok());
    assert_eq!(validation(CreditNoteService::check_lines(&vec![])), "At least one line is required");
    assert!(CreditNoteService::check_update("draft", &vec![credit_line()]).is_ok());
    assert_eq!(
        validation(CreditNoteService::check_update("issued", &vec![credit_line()])),
        "Only draft credit notes can be updated"
    );
    assert_eq!(
        validation(CreditNoteService::check_update("draft", &vec![])),
        "At least one line is required"
    );
    assert!(CreditNoteService::check_deletable("draft").is_ok());
    assert_eq!(
        validation(CreditNoteService::check_deletable("applied")),
        "Only draft credit notes can be deleted"
    );
}

#[test]
fn expense_input_is_checked_in_order() {
    let d1 = (2024, 5, 10);
    let d0 = (2024, 5, 9);
    assert!(ExpenseService::check_input(Amount::new(1, 2), d1, None).is_ok());
    assert!(ExpenseService::check_input(Amount::from_int(10), d1, Some(d1)).is_ok());
    assert_eq!(
        validation(ExpenseService::check_input(Amount::zero(), d1, Some(d0))),
        "Amount must be greater than 0"
    );
    assert_eq!(
        validation(ExpenseService::check_input(Amount::from_int(-4), d1, None)),
        "Amount must be greater than 0"
    );
    assert_eq!(
        validation(ExpenseService::check_input(Amount::from_int(10), d1, Some(d0))),
        "Due date must be on or after expense date"
    );
    assert_eq!(
        validation(ExpenseService::check_update("approved", Amount::from_int(10), d1, None)),
        "Only pending expenses can be updated"
    );
    assert!(ExpenseService::check_update("pending", Amount::from_int(10), d1, None).is_ok());
    assert!(ExpenseService::check_deletable("pending").is_ok());
    assert_eq!(validation(ExpenseService::check_deletable("paid")), "Only pending expenses can be deleted");
}

#[test]
fn fixed_asset_input_is_checked_in_order() {
    let c = Amount::from_int(10000);
    let r = Amount::from_int(1000);
    assert!(FixedAssetService::check_input(c, r, 5, "straight_line", None).is_ok());
    assert!(FixedAssetService::check_input(c, c, 5, "declining_balance", Some(Amount::new(20, 2))).is_ok());
    assert_eq!(
        validation(FixedAssetService::check_input(Amount::from_int(-1), r, 0, "straight_line", None)),
        "Useful life must be positive"
    );
    assert_eq!(
        validation(FixedAssetService::check_input(Amount::from_int(-1), Amount::from_int(-2), 5, "straight_line", None)),
        "Acquisition cost cannot be negative"
    );
    assert_eq!(
        validation(FixedAssetService::check_input(c, Amount::from_int(-2), 5, "straight_line", None)),
        "Residual value cannot be negative"
    );
    assert_eq!(
        validation(FixedAssetService::check_input(r, c, 5, "declining_balance", None)),
        "Residual value cannot exceed acquisition cost"
    );
    assert_eq!(
        validation(FixedAssetService::check_input(c, r, 5, "declining_balance", None)),
        "Declining rate is required for declining balance method"
    );
}

#[test]
fn reminders_need_an_email_address() {
    assert_eq!(DunningService::reminder_address(Some("a@b.ch")).unwrap(), "a@b.ch");
    for e in [None, Some("")] {
        match DunningService::reminder_address(e) {
            Err(AppError::BadRequest(m)) => assert_eq!(m, "Contact has no email address"),
            _ => panic!("a contact without an address must be refused"),
        }
    }
}

#[test]
fn contacts_import_counts_rows_and_logs_failures() {
    let mut t = ContactsTally::new();
    t.contact_created();
    t.contact_failed("ACME", "Name is required");
    t.contact_created();
    assert!(!ContactsTally::processes_person(""));
    assert!(ContactsTally::processes_person("Anna Muster"));
    t.person_failed("Bea", "invalid email");
    t.relationship_created();
    t.relationship_failed("Carl", "UNIQUE constraint failed");
    t.relationship_failed("Dora", "timeout");
    let (imported, errors, log) = t.finish();
    assert_eq!(imported, 3);
    assert_eq!(errors, 1);
    assert_eq!(
        log,
        vec![
            "Created 1 contact relationships".to_string(),
            "Contact 'ACME': Name is required".to_string(),
            "Kontaktperson 'Bea': invalid email".to_string(),
            "Relationship 'Dora' <-> company: timeout".to_string(),
        ]
    );
    let (i, e, l) = ContactsTally::new().finish();
    assert_eq!((i, e, l.len()), (0, 0, 0));
}
