use konto::bank_import::{path_tail, BankImportService, EntryBuilder, XmlEvent};
use konto::error::AppError;

const STATEMENT: &str = r#"<?xml version="1.0" encoding="UTF-8"?>
<Document xmlns="urn:iso:std:iso:20022:tech:xsd:camt.053.001.04">
  <BkToCstmrStmt>
    <Stmt>
      <Ntry>
        <Amt Ccy="CHF">1250.50</Amt>
        <CdtDbtInd>CRDT</CdtDbtInd>
        <BookgDt><Dt>2024-03-15</Dt></BookgDt>
        <ValDt><Dt>2024-03-16</Dt></ValDt>
        <AcctSvcrRef>BANK-1</AcctSvcrRef>
        <NtryDtls><TxDtls>
          <RltdPties><Dbtr><Nm>ACME AG</Nm></Dbtr><DbtrAcct><Id><IBAN>CH9300762011623852957</IBAN></Id></DbtrAcct></RltdPties>
          <RmtInf><Strd><CdtrRefInf><Ref>RF18539007547034</Ref></CdtrRefInf></Strd><Ustrd>Invoice 42</Ustrd></RmtInf>
        </TxDtls></NtryDtls>
        <AddtlNtryInf>ignored as the description is set</AddtlNtryInf>
      </Ntry>
      <Ntry>
        <Amt Ccy="CHF">80.00</Amt>
        <CdtDbtInd>DBIT</CdtDbtInd>
        <BookgDt><Dt>2024-03-17</Dt></BookgDt>
        <AddtlNtryInf>Card payment</AddtlNtryInf>
      </Ntry>
      <Ntry>
        <Amt>5</Amt>
      </Ntry>
    </Stmt>
  </BkToCstmrStmt>
</Document>"#;

#[test]
fn statements_become_transactions() {
    let txs = BankImportService::parse_camt053(STATEMENT).ok().unwrap();
    assert_eq!(txs.len(), 2);
    let t = &txs[0];
    assert_eq!(t.transaction_date, (2024, 3, 15));
    assert_eq!(t.value_date, (2024, 3, 16));
    assert_eq!((t.amount.mantissa, t.amount.scale), (125050, 2));
    assert_eq!(t.currency, "CHF");
    assert_eq!(t.description, "Invoice 42");
    assert_eq!(t.counterparty_name.as_deref(), Some("ACME AG"));
    assert_eq!(t.counterparty_iban.as_deref(), Some("CH9300762011623852957"));
    assert_eq!(t.reference.as_deref(), Some("RF18539007547034"));
    assert_eq!(t.bank_reference.as_deref(), Some("BANK-1"));
    let d = &txs[1];
    assert_eq!((d.amount.mantissa, d.amount.scale), (-8000, 2));
    assert_eq!(d.value_date, (2024, 3, 17));
    assert_eq!(d.description, "Card payment");
}

#[test]
fn broken_xml_is_refused() {
    match BankImportService::parse_camt053("<Document><Ntry></Document>") {
        Err(AppError::Validation(m)) => assert!(m.starts_with("Invalid CAMT.053 XML: ")),
        _ => panic!("expected a validation error"),
    }
}

#[test]
fn events_are_read_in_order() {
    let ev = |v: Vec<XmlEvent>| BankImportService::parse_events(&v);
    let r = ev(vec![
        XmlEvent::Start("Ntry".into(), String::new()),
        XmlEvent::Start("BookgDt".into(), String::new()),
        XmlEvent::Start("Dt".into(), String::new()),
        XmlEvent::Text("2024-01-02".into()),
        XmlEvent::End("Dt".into()),
        XmlEvent::End("BookgDt".into()),
        XmlEvent::Start("Amt".into(), String::new()),
        XmlEvent::Text("7".into()),
        XmlEvent::End("Amt".into()),
        XmlEvent::End("Ntry".into()),
        XmlEvent::Eof,
        XmlEvent::Error("after the end".into()),
    ]).ok().unwrap();
    assert_eq!(r.len(), 1);
    assert_eq!(r[0].amount.mantissa, 7);
    assert_eq!(r[0].description, "");
    match ev(vec![XmlEvent::Other, XmlEvent::Error("bad".into())]) {
        Err(AppError::Validation(m)) => assert_eq!(m, "Invalid CAMT.053 XML: bad"),
        _ => panic!(),
    }
}

#[test]
fn paths_from_the_entry() {
    let p = |v: &[&str]| path_tail(&v.iter().map(|s| s.to_string()).collect());
    assert_eq!(p(&["Document", "Stmt", "Ntry", "Amt"]), "Ntry|Amt");
    assert_eq!(p(&["A", "B"]), "A|B");
    assert_eq!(p(&[]), "");
    let mut b = EntryBuilder::new();
    let path: Vec<String> = ["Ntry", "CdtDbtInd"].iter().map(|s| s.to_string()).collect();
    b.handle_end(&path, "DBIT");
    assert_eq!(b.credit_debit.as_deref(), Some("DBIT"));
    assert_eq!(b.currency.as_deref(), Some("CHF"));
    assert!(b.build().is_none());
}
