use konto::amount::Amount;
use konto::document_service::{DocumentLine, DocumentWorkflow};
use konto::document_service::{compute_totals, line_total, resolve_document_language, LineInput};
use konto::invoice_service::resolve_invoice_language;

fn line(q: i64, qs: u32, p: i64, ps: u32, d: i64) -> LineInput {
    LineInput {
        description: "Work".to_string(),
        quantity: Amount::new(q, qs),
        unit: Some("h".to_string()),
        unit_price: Amount::new(p, ps),
        discount_pct: Amount::new(d, 0),
    }
}

fn cents(a: Amount) -> i128 {
    let mut m = a.mantissa;
    let mut s = a.scale;
    while s > 2 {
        assert_eq!(m % 10, 0);
        m /= 10;
        s -= 1;
    }
    while s < 2 {
        m *= 10;
        s += 1;
    }
    m
}

#[test]
fn document_totals_with_discount() {
    // 2.5 h at 120.00 less 10% = 270.00; 3 at 19.90 = 59.70
    let lines = vec![line(25, 1, 12000, 2, 10), line(3, 0, 1990, 2, 0)];
    assert_eq!(cents(line_total(&lines[0]).unwrap()), 27000);
    let t = compute_totals(&lines).unwrap();
    assert_eq!(cents(t.subtotal), 32970);
    assert_eq!(cents(t.total), 32970);
    assert_eq!(cents(t.vat_rate), 0);
    assert_eq!(cents(t.vat_amount), 0);
    let empty = compute_totals(&[]).unwrap();
    assert_eq!(cents(empty.total), 0);
}

#[test]
fn document_language_fallbacks() {
    assert_eq!(resolve_document_language(Some("German"), Some("fr"), None, None), "de");
    assert_eq!(resolve_document_language(Some("klingon"), None, Some("fr-CH"), Some("it")), "fr");
    assert_eq!(resolve_document_language(None, Some(" "), None, Some("Italiano")), "it");
    assert_eq!(resolve_document_language(None, None, None, Some("xx")), "en");
    assert_eq!(resolve_document_language(None, None, None, None), "en");
    assert_eq!(resolve_invoice_language(None, Some("de_CH"), Some("fr"), None), "de");
}

#[test]
fn document_status_changes() {
    let w = konto::document_service::DocumentWorkflow::send_document;
    assert_eq!(w("draft").ok(), Some("sent"));
    assert!(w("sent").is_err());
    assert_eq!(konto::document_service::DocumentWorkflow::accept_document("sent", "sow").ok(), Some("signed"));
    assert_eq!(konto::document_service::DocumentWorkflow::accept_document("sent", "quote").ok(), Some("accepted"));
    assert!(konto::document_service::DocumentWorkflow::accept_document("draft", "quote").is_err());
    assert_eq!(konto::document_service::DocumentWorkflow::reject_document("sent").ok(), Some("rejected"));
}

fn record(doc_type: &str) -> konto::document_service::DocumentRecord {
    konto::document_service::DocumentRecord {
        doc_type: doc_type.to_string(),
        doc_number: Some("AN-00001".to_string()),
        title: "Website".to_string(),
        status: "accepted".to_string(),
        contact_id: "c1".to_string(),
        project_id: Some("p1".to_string()),
        template_id: None,
        content_json: "{}".to_string(),
        language: Some("de".to_string()),
        currency_id: Some("CHF".to_string()),
        subtotal: Amount::new(100000, 2),
        vat_rate: Amount::new(81, 1),
        vat_amount: Amount::new(8100, 2),
        total: Amount::new(108100, 2),
        valid_until: Some((2026, 5, 1)),
        issued_at: Some("2026-04-01T10:00:00".to_string()),
        signed_at: None,
        converted_from: None,
        created_by: Some("u0".to_string()),
    }
}

#[test]
fn converting_a_document_copies_it_as_a_draft() {
    let lines = vec![DocumentLine {
        position: 1,
        description: "Design".to_string(),
        quantity: Amount::new(10, 0),
        unit: Some("h".to_string()),
        unit_price: Amount::new(10000, 2),
        discount_pct: Amount::zero(),
        total: Amount::new(100000, 2),
    }];
    let (d, ls) = DocumentWorkflow::convert_document(&record("offer"), "doc-1", "sow", &lines, "u7").ok().unwrap();
    assert_eq!(d.doc_type, "sow");
    assert_eq!(d.doc_number, None);
    assert_eq!(d.status, "draft");
    assert_eq!(d.title, "Website");
    assert_eq!(d.total.mantissa, 108100);
    assert_eq!(d.valid_until, None);
    assert_eq!(d.issued_at, None);
    assert_eq!(d.converted_from.as_deref(), Some("doc-1"));
    assert_eq!(d.created_by.as_deref(), Some("u7"));
    assert_eq!(ls.len(), 1);
    assert_eq!(ls[0].description, "Design");
    match DocumentWorkflow::convert_document(&record("contract"), "doc-1", "sow", &lines, "u7") {
        Err(konto::error::AppError::Validation(m)) => assert_eq!(m, "Cannot convert contract to sow"),
        _ => panic!(),
    }
}
