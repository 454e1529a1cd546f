use konto::contact_service::ContactService;
use konto::employee_service::{next_number, year_prefix, EmployeeService};

fn s(x: &str) -> Option<String> {
    Some(x.to_string())
}

#[test]
fn next_customer_number_after_largest() {
    let existing = vec![s("K-0007"), None, s("K-0012"), s("X-0099"), s("K-abc"), s("K2026-0003")];
    assert_eq!(ContactService::auto_assign_customer_number(true, &existing, "K-", "2026", false, 1, 4), Some("K-0013".to_string()));
    assert_eq!(ContactService::auto_assign_customer_number(false, &existing, "K-", "2026", false, 1, 4), None);
    // restarting yearly: only the numbers of this year's prefix count
    assert_eq!(ContactService::auto_assign_customer_number(true, &existing, "K", "2026", true, 1, 4), Some("K2026-0004".to_string()));
}

#[test]
fn next_employee_number_from_start() {
    assert_eq!(EmployeeService::auto_assign_number(true, &vec![], "M", "2026", false, 100, 2), Some("M100".to_string()));
    assert_eq!(next_number(&vec![s("E5")], "E", 1, 0), Some("E6".to_string()));
    assert_eq!(next_number(&vec![s("E2147483647")], "E", 1, 0), None);
    assert_eq!(next_number(&vec![], "E", i32::MIN, 3), None);
    assert_eq!(year_prefix("P", "2026", true), "P2026-");
    assert_eq!(year_prefix("P", "2026", false), "P");
}
