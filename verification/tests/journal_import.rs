use std::collections::HashMap;

use konto::amount::Amount;
use konto::contacts_import::ContactsImport;
use konto::journal_import::{ImportTally, JournalImport, VatRepair};

#[test]
fn row_dates_and_amounts() {
    assert_eq!(JournalImport::parse_row_date("2024-03-05"), Some((2024, 3, 5)));
    assert_eq!(JournalImport::parse_row_date("05.03.2024"), Some((2024, 3, 5)));
    assert_eq!(JournalImport::parse_row_date("2024-02-30"), None);
    assert_eq!(JournalImport::parse_row_date("yesterday"), None);
    let a = JournalImport::parse_row_amount(Some("12.50")).unwrap();
    assert_eq!((a.mantissa, a.scale), (1250, 2));
    assert!(JournalImport::parse_row_amount(Some("x")).is_none());
    assert!(JournalImport::parse_row_amount(None).is_none());
}

#[test]
fn vat_rates_by_code() {
    let rates = vec![("UN81".to_string(), "r1".to_string()), ("VB81".to_string(), "r2".to_string()), ("UN81".to_string(), "r3".to_string())];
    assert_eq!(JournalImport::vat_rate_id(Some("UN81 (8.1%)"), &rates), Some("r3".to_string()));
    assert_eq!(JournalImport::vat_rate_id(Some("VB81"), &rates), Some("r2".to_string()));
    assert_eq!(JournalImport::vat_rate_id(Some("XX"), &rates), None);
    assert_eq!(JournalImport::vat_rate_id(None, &rates), None);
}

#[test]
fn vat_repairs() {
    assert_eq!(JournalImport::vat_repair(3200, false, true), VatRepair::SetRate);
    assert_eq!(JournalImport::vat_repair(3200, true, true), VatRepair::Keep);
    assert_eq!(JournalImport::vat_repair(3200, false, false), VatRepair::Keep);
    assert_eq!(JournalImport::vat_repair(1020, true, true), VatRepair::ClearRate);
    assert_eq!(JournalImport::vat_repair(0, false, true), VatRepair::Keep);
}

#[test]
fn entry_lines_need_both_accounts() {
    let mut accounts = HashMap::new();
    accounts.insert(1020, "a1020".to_string());
    accounts.insert(3200, "a3200".to_string());
    let desc = Some("Sale".to_string());
    let vat = Some("r1".to_string());
    let lines = JournalImport::entry_lines(Some(1020), Some(3200), &accounts, Amount::new(5000, 2), &desc, &vat).unwrap();
    assert_eq!(lines[0].account_id, "a1020");
    assert_eq!(lines[0].vat_rate_id, None);
    assert_eq!(lines[1].account_id, "a3200");
    assert_eq!(lines[1].vat_rate_id.as_deref(), Some("r1"));
    assert_eq!(lines[1].credit_amount.mantissa, 5000);
    assert!(JournalImport::entry_lines(Some(1020), Some(9999), &accounts, Amount::zero(), &desc, &vat).is_none());
    assert!(JournalImport::entry_lines(None, Some(3200), &accounts, Amount::zero(), &desc, &vat).is_none());
    assert_eq!(JournalImport::entry_description(&None), "Imported entry");
}

#[test]
fn import_messages() {
    assert_eq!(JournalImport::invalid_date_message("32.1.2024"), "Row '32.1.2024': invalid date");
    assert_eq!(JournalImport::invalid_amount_message("2024-01-01"), "Row date=2024-01-01: invalid amount");
    assert_eq!(
        JournalImport::unresolved_accounts_message(&Some("R\"1".to_string()), "2024-01-01", Some(1020), None),
        "Row ref=Some(\"R\\\"1\") date=2024-01-01: could not resolve both accounts (debit=Some(1020) credit=None)"
    );
    assert_eq!(JournalImport::refused_entry_message(&None, "d", "Validation error: x"), "Row ref=None date=d: Validation error: x");
    let mut t = ImportTally::new();
    t.record_imported();
    t.record_error("e1".to_string());
    assert_eq!((t.imported, t.errors), (1, 1));
    assert_eq!(t.error_log, vec!["e1".to_string()]);
}

#[test]
fn contacts_import_decisions() {
    assert_eq!(ContactsImport::category("company"), "company");
    assert_eq!(ContactsImport::category("person"), "person");
    assert!(ContactsImport::skips_relationship_error("UNIQUE constraint failed"));
    assert!(ContactsImport::skips_relationship_error("a duplicate key"));
    assert!(!ContactsImport::skips_relationship_error("timeout"));
    assert_eq!(ContactsImport::contact_error("ACME", "bad"), "Contact 'ACME': bad");
    assert_eq!(ContactsImport::person_error("Anna", "bad"), "Kontaktperson 'Anna': bad");
    assert_eq!(ContactsImport::relationship_error("Anna", "x"), "Relationship 'Anna' <-> company: x");
    assert_eq!(
        ContactsImport::final_log(2, vec!["e".to_string()]),
        vec!["Created 2 contact relationships".to_string(), "e".to_string()]
    );
    assert_eq!(ContactsImport::final_log(0, vec!["e".to_string()]), vec!["e".to_string()]);
    assert_eq!(ContactsImport::queued_persons("person", &vec![]), vec![]);
}
