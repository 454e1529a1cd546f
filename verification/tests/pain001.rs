use konto::amount::Amount;
use konto::error::AppError;
use konto::pain001::{Pain001Header, Pain001Service, PayoutLine};

fn header(clearing: &str, bic: Option<&str>) -> Pain001Header {
    Pain001Header {
        msg_id: "M1".into(),
        created_at: "2024-05-25T10:00:00".into(),
        ctrl_sum: "100.00".into(),
        legal_name: "Müller & Söhne AG".into(),
        street: "Bahnhofstr. 1".into(),
        postal_code: "8000".into(),
        city: "Zürich".into(),
        country: "CH".into(),
        debtor_iban: "CH9300762011623852957".into(),
        clearing_number: clearing.into(),
        debtor_bic: bic.map(|b| b.to_string()),
        pmt_inf_id: "P1".into(),
        exec_date: "2024-05-31".into(),
        period_month: 5,
        period_year: 2024,
    }
}

fn payout(bic: Option<&str>) -> PayoutLine {
    PayoutLine {
        instr_id: "I1".into(),
        payment_reference: "REF-1".into(),
        amount_text: "100.00".into(),
        bic: bic.map(|b| b.to_string()),
        recipient_name: "Anna <Muster>".into(),
        recipient_street: "Weg 1".into(),
        recipient_postal_code: "3000".into(),
        recipient_city: "Bern".into(),
        recipient_country: "CH".into(),
        iban: "CH5604835012345678009".into(),
    }
}

#[test]
fn the_execution_date_is_the_last_weekday() {
    assert_eq!(Pain001Service::last_business_day(2024, 5), "2024-05-31");
    assert_eq!(Pain001Service::last_business_day(2024, 8), "2024-08-30");
    assert_eq!(Pain001Service::last_business_day(2024, 6), "2024-06-28");
    assert_eq!(Pain001Service::last_business_day(2023, 12), "2023-12-29");
    assert_eq!(Pain001Service::last_business_day(2024, 2), "2024-02-29");
}

#[test]
fn export_checks() {
    assert!(Pain001Service::check_run_status("approved").is_ok());
    assert!(Pain001Service::check_run_status("paid").is_ok());
    match Pain001Service::check_run_status("draft") {
        Err(AppError::Validation(m)) => assert_eq!(
            m,
            "Cannot export pain.001 for run with status 'draft'. Must be 'approved' or 'paid'."
        ),
        _ => panic!(),
    }
    match Pain001Service::check_entries(0) {
        Err(AppError::Validation(m)) => assert_eq!(m, "No payout entries found. Generate payouts first."),
        _ => panic!(),
    }
    assert!(Pain001Service::check_entries(3).is_ok());
    match Pain001Service::payment_bank_account(None) {
        Err(AppError::Validation(m)) => assert_eq!(m, "Payment bank account not configured in payroll settings"),
        _ => panic!(),
    }
}

#[test]
fn totals_of_payouts() {
    let t = Pain001Service::total_amount(&vec![Amount::new(10050, 2), Amount::new(4950, 2)]).unwrap();
    assert_eq!(t.mantissa, 15000);
    assert_eq!(t.scale, 2);
}

#[test]
fn the_document_escapes_text_and_skips_empty_fields() {
    let doc = Pain001Service::document(&header("", Some("")), &vec![payout(None)]);
    assert!(doc.starts_with("<?xml version=\"1.0\" encoding=\"UTF-8\"?><Document xmlns=\"urn:iso:std:iso:20022:tech:xsd:pain.001.001.09.ch.03\"><CstmrCdtTrfInitn><GrpHdr><MsgId>M1</MsgId>"));
    assert!(doc.contains("<NbOfTxs>1</NbOfTxs><CtrlSum>100.00</CtrlSum>"));
    assert!(doc.contains("<Nm>Müller &amp; Söhne AG</Nm>"));
    assert!(doc.contains("<Nm>Anna &lt;Muster&gt;</Nm>"));
    assert!(doc.contains("<InstdAmt Ccy=\"CHF\">100.00</InstdAmt>"));
    assert!(doc.contains("<Ustrd>Lohn 05 2024</Ustrd>"));
    assert!(!doc.contains("ClrSysMmbId"));
    assert!(!doc.contains("BICFI"));
    assert!(doc.ends_with("</CdtTrfTxInf></PmtInf></CstmrCdtTrfInitn></Document>"));
}

#[test]
fn the_document_names_clearing_number_and_bics() {
    let doc = Pain001Service::document(&header("700", Some("UBSWCHZH80A")), &vec![payout(Some("POFICHBEXXX")), payout(None)]);
    assert!(doc.contains("<ClrSysMmbId><ClrSysId><Cd>CHBCC</Cd></ClrSysId><MmbId>700</MmbId></ClrSysMmbId><BICFI>UBSWCHZH80A</BICFI>"));
    assert!(doc.contains("<CdtrAgt><FinInstnId><BICFI>POFICHBEXXX</BICFI></FinInstnId></CdtrAgt>"));
    assert_eq!(doc.matches("<CdtTrfTxInf>").count(), 2);
    assert!(doc.contains("<NbOfTxs>2</NbOfTxs>"));
}
