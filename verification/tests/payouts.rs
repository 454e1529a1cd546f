use konto::error::AppError;
use konto::payout_service::PayoutService;

#[test]
fn payout_references_and_checks() {
    assert_eq!(PayoutService::payment_reference(2024, 5, "Muster"), "LOHN-2024-05-Muster");
    assert_eq!(PayoutService::payment_reference(999, 12, "X"), "LOHN-0999-12-X");
    assert_eq!(PayoutService::payment_reference(2024, -1, "X"), "LOHN-2024--1-X");
    assert_eq!(PayoutService::payment_reference(-5, 1, "X"), "LOHN--005-01-X");
    assert_eq!(PayoutService::recipient_name("Anna", "Muster"), "Anna Muster");
    assert!(PayoutService::check_run_status("paid").is_ok());
    match PayoutService::check_run_status("draft") {
        Err(AppError::Validation(m)) => assert_eq!(m, "Cannot generate payouts for run with status 'draft'. Must be 'approved' or 'paid'."),
        _ => panic!(),
    }
    match PayoutService::check_lines(0) {
        Err(AppError::Validation(m)) => assert_eq!(m, "No payroll lines found for this run"),
        _ => panic!(),
    }
    match PayoutService::check_unpaid("paid") {
        Err(AppError::Validation(m)) => assert_eq!(m, "Entry is already paid"),
        _ => panic!(),
    }
    assert!(PayoutService::check_unpaid("pending").is_ok());
}
