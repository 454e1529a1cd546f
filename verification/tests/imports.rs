use std::collections::HashMap;

use konto::accounts_csv::parse_accounts_csv;
use konto::contacts_csv::parse_contacts_csv;
use konto::csv_table::clean;
use konto::error::AppError;
use konto::import_service::{
    extract_vat_code, find_parent_id, is_taxable_account, parse_account_number, ImportKind,
    ImportService,
};
use konto::time_entries_csv::parse_time_entries_csv;

#[test]
fn accounts_csv_with_commas() {
    let data = b"number,name,type\n1020,Bank UBS,\n3200,Sales,revenue\n,skipped,\n";
    let rows = parse_accounts_csv(data).ok().unwrap();
    assert_eq!(rows.len(), 2);
    assert_eq!(rows[0].number, 1020);
    assert_eq!(rows[0].name, "Bank UBS");
    assert_eq!(rows[0].account_type, "asset");
    assert_eq!(rows[1].account_type, "revenue");
}

#[test]
fn accounts_csv_falls_back_to_semicolons() {
    let data = "Konto;Bezeichnung\n2000 - Kreditoren;Kreditoren\n2800;Eigenkapital\n4400;Aufwand\n".as_bytes();
    let rows = parse_accounts_csv(data).ok().unwrap();
    assert_eq!(rows.len(), 3);
    assert_eq!(rows[0].number, 2000);
    assert_eq!(rows[0].account_type, "liability");
    assert_eq!(rows[1].account_type, "equity");
    assert_eq!(rows[2].account_type, "expense");
    assert_eq!(rows[2].name, "Aufwand");
}

#[test]
fn accounts_csv_default_name() {
    let rows = parse_accounts_csv(b"Nr\n'1000\n").ok().unwrap();
    assert_eq!(rows.len(), 1);
    assert_eq!(rows[0].number, 1000);
    assert_eq!(rows[0].name, "Account 1000");
    assert!(rows[0].description.is_none());
}

#[test]
fn time_entries_csv_durations() {
    let data = "Datum;Name 1;Effektiver Aufwand;Reisezeit;Geschätzter Aufwand\n01.02.2024;ACME;02:30;00:00;1:5\n".as_bytes();
    let rows = parse_time_entries_csv(data).unwrap().ok().unwrap();
    assert_eq!(rows.len(), 1);
    assert_eq!(rows[0].date, "01.02.2024");
    assert_eq!(rows[0].contact_name.as_deref(), Some("ACME"));
    assert_eq!(rows[0].actual_minutes, 150);
    assert_eq!(rows[0].travel_minutes, None);
    assert_eq!(rows[0].estimated_minutes, Some(65));
}

#[test]
fn time_entries_missing_actual_is_zero() {
    let rows = parse_time_entries_csv("Datum;Effektiver Aufwand\n;abc\n".as_bytes()).unwrap().ok().unwrap();
    assert_eq!(rows[0].actual_minutes, 0);
    assert_eq!(rows[0].date, "");
}

#[test]
fn time_entries_overflowing_duration_is_refused() {
    let r = parse_time_entries_csv("Effektiver Aufwand\n99999999:00\n".as_bytes());
    assert!(r.is_none());
}

#[test]
fn contacts_csv_reads_a_company() {
    let data = "Datensatz ID,Kontaktart,Name 1,Ort,Kontaktperson 1 Vorname,Kontaktperson 1 Nachname,Kontaktperson 2 Vorname\n17,Firma,ACME AG,Bern,Anna,Muster, \n".as_bytes();
    let rows = parse_contacts_csv(data).ok().unwrap();
    assert_eq!(rows.len(), 1);
    assert_eq!(rows[0].bexio_id, Some(17));
    assert_eq!(rows[0].contact_type, "company");
    assert_eq!(rows[0].name1, "ACME AG");
    assert_eq!(rows[0].city.as_deref(), Some("Bern"));
    assert_eq!(rows[0].contact_persons.len(), 1);
    assert_eq!(rows[0].contact_persons[0].full_name(), "Anna Muster");
    let people = parse_contacts_csv("Name 1\nMeier\n".as_bytes()).ok().unwrap();
    assert_eq!(people[0].contact_type, "person");
}

#[test]
fn clean_strips_apostrophes_and_blanks() {
    assert_eq!(clean("  'abc  "), Some("abc".to_string()));
    assert_eq!(clean("   "), None);
    assert_eq!(clean("''"), None);
}

#[test]
fn parent_ids_follow_the_kmu_hierarchy() {
    let mut m = HashMap::new();
    m.insert(10, "g10".to_string());
    m.insert(1, "g1".to_string());
    assert_eq!(find_parent_id(1020, &m), Some("g10".to_string()));
    assert_eq!(find_parent_id(10, &m), Some("g1".to_string()));
    assert_eq!(find_parent_id(2000, &m), None);
    assert_eq!(find_parent_id(1, &m), None);
}

#[test]
fn vat_codes_and_taxable_accounts() {
    assert_eq!(extract_vat_code("UN81 (8.1%)"), "UN81");
    assert!(is_taxable_account(3200));
    assert!(is_taxable_account(4000));
    assert!(!is_taxable_account(1020));
    assert_eq!(parse_account_number("1020"), Some(1020));
    assert_eq!(parse_account_number("abc"), None);
}

#[test]
fn import_kinds_and_statuses() {
    assert_eq!(ImportService::parse_kind("journal").ok(), Some(ImportKind::Journal));
    assert_eq!(ImportService::parse_kind("time_entries").ok(), Some(ImportKind::TimeEntries));
    match ImportService::parse_kind("other") {
        Err(AppError::BadRequest(m)) => assert_eq!(m, "Unknown import type"),
        _ => panic!("expected a bad request"),
    }
    assert!(ImportService::check_executable("uploaded").is_ok());
    assert!(ImportService::check_executable("previewed").is_ok());
    match ImportService::check_executable("executed") {
        Err(AppError::BadRequest(m)) => assert_eq!(m, "Import already executed or failed"),
        _ => panic!("expected a bad request"),
    }
}

#[test]
fn preview_keeps_twenty_rows() {
    let (total, rows) = ImportService::preview_of((0..25).collect::<Vec<i32>>());
    assert_eq!(total, 25);
    assert_eq!(rows, (0..20).collect::<Vec<i32>>());
    let (total, rows) = ImportService::preview_of(vec![1, 2]);
    assert_eq!(total, 2);
    assert_eq!(rows, vec![1, 2]);
}
