use konto::error::AppError;
use konto::journal_xlsx::journal_rows_from_sheet;
use konto::projects_xlsx::projects_from_sheet;
use konto::sheet::{cell_to_string, Cell, SheetOutcome};

fn t(s: &str) -> Cell {
    Cell::Text(s.to_string())
}

#[test]
fn journal_rows_from_cells() {
    let rows = vec![
        vec![t("Id"), t("Datum"), t(" Soll "), t("Haben"), t("Betrag")],
        vec![Cell::Int(7), t("2024-01-31"), t("1020 - Bank"), Cell::Int(3200), Cell::FloatText("12.5".into())],
        vec![Cell::Other, Cell::Other, t("  "), t("x"), Cell::Other],
    ];
    let r = journal_rows_from_sheet(&SheetOutcome::Rows(rows)).ok().unwrap();
    assert_eq!(r.len(), 2);
    assert_eq!(r[0].bexio_id, Some(7));
    assert_eq!(r[0].date, "2024-01-31");
    assert_eq!(r[0].debit_account, Some(1020));
    assert_eq!(r[0].credit_account, Some(3200));
    assert_eq!(r[0].amount.as_deref(), Some("12.5"));
    assert_eq!(r[1].date, "");
    assert_eq!(r[1].debit_account, None);
}

#[test]
fn sheet_failures() {
    let msg = |o: SheetOutcome| match journal_rows_from_sheet(&o) {
        Err(AppError::BadRequest(m)) => m,
        _ => panic!("expected a bad request"),
    };
    assert_eq!(msg(SheetOutcome::Rows(vec![])), "Empty spreadsheet");
    assert_eq!(msg(SheetOutcome::NoSheets), "No sheets in workbook");
    assert_eq!(msg(SheetOutcome::OpenError("zip".into())), "Cannot open XLSX: zip");
    assert_eq!(msg(SheetOutcome::SheetError("bad".into())), "Cannot read sheet: bad");
}

#[test]
fn projects_need_a_name() {
    let rows = vec![
        vec![t("Projekt"), t("Nr"), t("Kontakt")],
        vec![t("Website"), Cell::Int(12), t("ACME")],
        vec![t(" "), Cell::Int(13), t("ACME")],
    ];
    let r = projects_from_sheet(&SheetOutcome::Rows(rows)).ok().unwrap();
    assert_eq!(r.len(), 1);
    assert_eq!(r[0].name, "Website");
    assert_eq!(r[0].number.as_deref(), Some("12"));
    assert_eq!(r[0].contact_name.as_deref(), Some("ACME"));
}

#[test]
fn cell_texts() {
    assert_eq!(cell_to_string(&t("  a ")), Some("a".to_string()));
    assert_eq!(cell_to_string(&t("  ")), None);
    assert_eq!(cell_to_string(&Cell::Int(-3)), Some("-3".to_string()));
    assert_eq!(cell_to_string(&Cell::Other), None);
}
