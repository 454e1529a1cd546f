use konto::amount::Amount;
use konto::dunning_service::{render_template, DunningLevelInfo, DunningRunResult, DunningService};
use konto::error::AppError;

fn level(id: &str, n: i32, days: i32) -> DunningLevelInfo {
    DunningLevelInfo { id: id.to_string(), level: n, days_after_due: days, fee_amount: Amount::new(2000, 2) }
}

#[test]
fn the_last_passed_level_applies() {
    let levels = vec![level("l1", 1, 10), level("l2", 2, 30), level("l3", 3, 60)];
    assert_eq!(DunningService::applicable_level(&levels, 5), None);
    assert_eq!(DunningService::applicable_level(&levels, 10), Some(0));
    assert_eq!(DunningService::applicable_level(&levels, 45), Some(1));
    assert_eq!(DunningService::applicable_level(&levels, 400), Some(2));
}

#[test]
fn an_invoice_is_not_reminded_twice_at_a_level() {
    let levels = vec![level("l1", 1, 10), level("l2", 2, 30)];
    assert_eq!(DunningService::run_action(&levels, 35, Some("l2")), None);
    assert_eq!(DunningService::run_action(&levels, 35, Some("l1")), Some(1));
    assert_eq!(DunningService::run_action(&levels, 35, None), Some(1));
    assert_eq!(DunningService::run_action(&levels, 3, None), None);
}

#[test]
fn fee_texts_and_lines() {
    assert_eq!(DunningService::fee_description(2, Some("RE-2024-7")), "Dunning fee L2 for RE-2024-7");
    assert_eq!(DunningService::fee_description(1, None), "Dunning fee L1 for ?");
    assert!(DunningService::charges_fee(Amount::new(1, 2)));
    assert!(!DunningService::charges_fee(Amount::zero()));
    let lines = DunningService::fee_journal_lines("acc-1100", "acc-8590", Amount::new(2000, 2), "fee");
    assert_eq!(lines.len(), 2);
    assert_eq!(lines[0].account_id, "acc-1100");
    assert_eq!(lines[0].debit_amount.mantissa, 2000);
    assert_eq!(lines[1].credit_amount.mantissa, 2000);
}

#[test]
fn fee_account_choice() {
    assert_eq!(DunningService::choose_fee_account(Some("a".into()), Some("b".into())).ok(), Some("a".to_string()));
    assert_eq!(DunningService::choose_fee_account(None, Some("b".into())).ok(), Some("b".to_string()));
    match DunningService::choose_fee_account(None, None) {
        Err(AppError::Internal(m)) => assert_eq!(m, "No fee income account found (8590 or 8000)"),
        _ => panic!(),
    }
}

#[test]
fn reminders_only_for_sent_invoices() {
    assert!(DunningService::check_reminder_status("sent").is_ok());
    match DunningService::check_reminder_status("paid") {
        Err(AppError::BadRequest(m)) => assert_eq!(m, "Can only send reminders for sent (unpaid) invoices"),
        _ => panic!(),
    }
}

#[test]
fn run_result_tally() {
    let mut r = DunningRunResult::new();
    r.record_sent();
    r.record_sent();
    r.record_error("Fee journal", "inv-1", "boom");
    assert_eq!(r.reminders_sent, 2);
    assert_eq!(r.errors, vec!["Fee journal for inv-1: boom".to_string()]);
}

#[test]
fn reminder_template_is_filled() {
    let t = "{{company_name}}: {{contact_name}}, {{invoice_number}} {{amount}} due {{due_date}} {{amount}}";
    assert_eq!(
        render_template(t, "ACME", "Muster", "RE-1", "100.00", "2024-01-31"),
        "ACME: Muster, RE-1 100.00 due 2024-01-31 100.00"
    );
}
