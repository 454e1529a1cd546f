//! Documents (quotes, order confirmations and the like): the totals of a
//! document's lines, and the language a document is written in.
use vstd::prelude::*;

use crate::amount::{dec_checked_add, dec_checked_div, dec_checked_mul, dec_checked_sub, Amount};
use crate::error::{AppError, ErrorKind};
use crate::text::str_eq;
use crate::language::{
    lemma_normalization_idempotent, normalize_language, normalize_or_default, normalized,
};

verus! {

/// One line of a document to be created.
pub struct LineInput {
    pub description: String,
    pub quantity: Amount,
    pub unit: Option<String>,
    pub unit_price: Amount,
    pub discount_pct: Amount,
}

impl LineInput {
    pub open spec fn wf(&self) -> bool {
        self.quantity.wf() && self.unit_price.wf() && self.discount_pct.wf()
    }
}

/// The totals of a document. The VAT is set at the document level, so the
/// lines give none.
pub struct Totals {
    pub subtotal: Amount,
    pub vat_rate: Amount,
    pub vat_amount: Amount,
    pub total: Amount,
}

/// The net amount of a line: `quantity * unit_price` less `discount_pct`
/// percent of it; `None` where `Decimal` arithmetic overflows.
pub open spec fn line_net(quantity: (int, nat), unit_price: (int, nat), discount_pct: (int, nat)) -> Option<
    (int, nat),
> {
    match dec_checked_mul(quantity, unit_price) {
        None => None,
        Some(t) => match dec_checked_mul(t, discount_pct) {
            None => None,
            Some(u) => match dec_checked_div(u, (100int, 0nat)) {
                None => None,
                Some(discount) => dec_checked_sub(t, discount),
            },
        },
    }
}

/// The sum of the lines' net amounts, from zero up; `None` where an
/// operation overflows.
pub open spec fn lines_subtotal(lines: Seq<LineInput>) -> Option<(int, nat)>
    decreases lines.len(),
{
    if lines.len() == 0 {
        Some((0int, 0nat))
    } else {
        let l = lines.last();
        match (lines_subtotal(lines.drop_last()), line_net(l.quantity@, l.unit_price@, l.discount_pct@)) {
            (Some(s), Some(n)) => dec_checked_add(s, n),
            _ => None,
        }
    }
}

/// The first of the candidates that names a supported language, in the
/// order given; else English.
pub open spec fn language_choice(
    explicit: Option<Seq<char>>,
    project: Option<Seq<char>>,
    contact: Option<Seq<char>>,
    settings: Option<Seq<char>>,
) -> Seq<char> {
    match normalized(explicit) {
        Some(l) => l,
        None => match normalized(project) {
            Some(l) => l,
            None => match normalized(contact) {
                Some(l) => l,
                None => match normalized(settings) {
                    Some(l) => l,
                    None => "en"@,
                },
            },
        },
    }
}

pub open spec fn opt_view(o: Option<&str>) -> Option<Seq<char>> {
    match o {
        Some(s) => Some(s@),
        None => None,
    }
}

/// The net amount of one line.
pub fn line_total(line: &LineInput) -> (r: Option<Amount>)
    requires
        line.wf(),
    ensures
        match line_net(line.quantity@, line.unit_price@, line.discount_pct@) {
            Some(n) => r matches Some(a) && a@ == n && a.wf(),
            None => r is None,
        },
{
    let t = match line.quantity.checked_mul(line.unit_price) {
        Some(t) => t,
        None => return None,
    };
    let u = match t.checked_mul(line.discount_pct) {
        Some(u) => u,
        None => return None,
    };
    let discount = match u.checked_div(Amount::from_int(100)) {
        Some(d) => d,
        None => return None,
    };
    t.checked_sub(discount)
}

/// The totals of a document's lines: the subtotal is the sum of the lines'
/// net amounts, the VAT rate and amount are zero, the total is the
/// subtotal. `None` where `Decimal` arithmetic overflows.
pub fn compute_totals(lines: &[LineInput]) -> (r: Option<Totals>)
    requires
        forall|i: int| 0 <= i < lines@.len() ==> (#[trigger] lines@[i]).wf(),
    ensures
        match lines_subtotal(lines@) {
            Some(s) => r matches Some(t) && t.subtotal@ == s && t.total@ == s && t.vat_rate@ == (
                0int,
                0nat,
            ) && t.vat_amount@ == (0int, 0nat),
            None => r is None,
        },
{
    let mut subtotal = Amount::zero();
    let mut i: usize = 0;
    while i < lines.len()
        invariant
            i <= lines@.len(),
            forall|k: int| 0 <= k < lines@.len() ==> (#[trigger] lines@[k]).wf(),
            lines_subtotal(lines@.take(i as int)) == Some(subtotal@),
            subtotal.wf(),
        decreases lines.len() - i,
    {
        assert(lines@.take(i + 1).drop_last() =~= lines@.take(i as int));
        let net = match line_total(&lines[i]) {
            Some(n) => n,
            None => {
                proof {
                    lemma_subtotal_none_extends(lines@, i + 1);
                }
                return None;
            },
        };
        match subtotal.checked_add(net) {
            Some(s) => subtotal = s,
            None => {
                proof {
                    lemma_subtotal_none_extends(lines@, i + 1);
                }
                return None;
            },
        }
        i += 1;
    }
    assert(lines@.take(lines@.len() as int) =~= lines@);
    Some(Totals { subtotal, vat_rate: Amount::zero(), vat_amount: Amount::zero(), total: subtotal })
}

/// Once the running subtotal has failed, the subtotal of any longer prefix
/// fails too.
proof fn lemma_subtotal_none_extends(lines: Seq<LineInput>, k: int)
    requires
        0 <= k <= lines.len(),
        lines_subtotal(lines.take(k)) is None,
    ensures
        lines_subtotal(lines) is None,
    decreases lines.len() - k,
{
    if k < lines.len() {
        assert(lines.take(k + 1).drop_last() =~= lines.take(k));
        lemma_subtotal_none_extends(lines, k + 1);
    } else {
        assert(lines.take(k) =~= lines);
    }
}

/// The language of a document: the explicitly requested one, else the
/// project's, else the contact's, else the interface language of the
/// settings, else English. Each candidate counts only where it names a
/// supported language. The caller looks up the project and contact only
/// as far as needed; a missing record or language is `None`.
pub fn resolve_document_language(
    explicit_language: Option<&str>,
    project_language: Option<&str>,
    contact_language: Option<&str>,
    settings_ui_language: Option<&str>,
) -> (r: String)
    ensures
        r@ == language_choice(
            opt_view(explicit_language),
            opt_view(project_language),
            opt_view(contact_language),
            opt_view(settings_ui_language),
        ),
{
    if let Some(lang) = normalize_language(explicit_language) {
        return lang;
    }
    if let Some(lang) = normalize_language(project_language) {
        return lang;
    }
    if let Some(lang) = normalize_language(contact_language) {
        return lang;
    }
    proof {
        lemma_normalization_idempotent("en"@);
    }
    match settings_ui_language {
        Some(ui) => normalize_or_default(Some(ui), "en"),
        None => "en".to_owned(),
    }
}

/// A document as the workflow reads and writes it (its id aside).
pub struct DocumentRecord {
    pub doc_type: String,
    pub doc_number: Option<String>,
    pub title: String,
    pub status: String,
    pub contact_id: String,
    pub project_id: Option<String>,
    pub template_id: Option<String>,
    pub content_json: String,
    pub language: Option<String>,
    pub currency_id: Option<String>,
    pub subtotal: Amount,
    pub vat_rate: Amount,
    pub vat_amount: Amount,
    pub total: Amount,
    pub valid_until: Option<(i32, u32, u32)>,
    pub issued_at: Option<String>,
    pub signed_at: Option<String>,
    pub converted_from: Option<String>,
    pub created_by: Option<String>,
}

/// A line item of a document.
pub struct DocumentLine {
    pub position: i32,
    pub description: String,
    pub quantity: Amount,
    pub unit: Option<String>,
    pub unit_price: Amount,
    pub discount_pct: Amount,
    pub total: Amount,
}

/// The workflow of documents: which status changes and conversions are
/// allowed.
pub struct DocumentWorkflow;

/// The conversions allowed: an offer or a quote into a statement of work,
/// a statement of work into a contract.
pub open spec fn conversion_allowed(from: Seq<char>, to: Seq<char>) -> bool {
    (from == "offer"@ && to == "sow"@) || (from == "sow"@ && to == "contract"@) || (from == "quote"@
        && to == "sow"@)
}

impl DocumentWorkflow {
    /// Only a draft document can be sent; it then is "sent".
    pub fn send_document(status: &str) -> (r: Result<&'static str, AppError>)
        ensures
            status@ == "draft"@ ==> (r matches Ok(s) && s@ == "sent"@),
            status@ != "draft"@ ==> (r matches Err(e) && e.kind_and_message() == (
                ErrorKind::Validation,
                "Only draft documents can be sent"@,
            )),
    {
        if str_eq(status, "draft") {
            Ok("sent")
        } else {
            Err(AppError::Validation("Only draft documents can be sent".to_owned()))
        }
    }

    /// Only a sent document can be accepted or signed: a statement of work
    /// or a contract is then "signed", any other document "accepted".
    pub fn accept_document(status: &str, doc_type: &str) -> (r: Result<&'static str, AppError>)
        ensures
            status@ != "sent"@ ==> (r matches Err(e) && e.kind_and_message() == (
                ErrorKind::Validation,
                "Only sent documents can be accepted/signed"@,
            )),
            status@ == "sent"@ ==> (r matches Ok(s) && s@ == if doc_type@ == "sow"@ || doc_type@
                == "contract"@ {
                "signed"@
            } else {
                "accepted"@
            }),
    {
        if !str_eq(status, "sent") {
            return Err(AppError::Validation("Only sent documents can be accepted/signed".to_owned()));
        }
        if str_eq(doc_type, "sow") || str_eq(doc_type, "contract") {
            Ok("signed")
        } else {
            Ok("accepted")
        }
    }

    /// Only a sent document can be rejected; it then is "rejected".
    pub fn reject_document(status: &str) -> (r: Result<&'static str, AppError>)
        ensures
            status@ == "sent"@ ==> (r matches Ok(s) && s@ == "rejected"@),
            status@ != "sent"@ ==> (r matches Err(e) && e.kind_and_message() == (
                ErrorKind::Validation,
                "Only sent documents can be rejected"@,
            )),
    {
        if str_eq(status, "sent") {
            Ok("rejected")
        } else {
            Err(AppError::Validation("Only sent documents can be rejected".to_owned()))
        }
    }

    /// Converting a document into another type: only along the allowed
    /// paths (see `conversion_allowed`), else the error "Cannot convert
    /// {doc_type} to {target_type}". The new document has the target type,
    /// no number, status "draft", the source's title, contact, project,
    /// template, content, language, currency and amounts, no validity,
    /// issue or signing date, the source as the document it was converted
    /// from, and the converting user as its author; its lines are copies of
    /// the source's lines. The source itself is left as it is.
    pub fn convert_document(
        source: &DocumentRecord,
        source_id: &str,
        target_type: &str,
        source_lines: &Vec<DocumentLine>,
        user_id: &str,
    ) -> (r: Result<(DocumentRecord, Vec<DocumentLine>), AppError>)
        ensures
            !conversion_allowed(source.doc_type@, target_type@) ==> (r matches Err(e)
                && e.kind_and_message() == (
                ErrorKind::Validation,
                "Cannot convert "@ + source.doc_type@ + " to "@ + target_type@,
            )),
            conversion_allowed(source.doc_type@, target_type@) ==> (r matches Ok((d, ls)) && {
                &&& d.doc_type@ == target_type@
                &&& d.doc_number is None
                &&& d.status@ == "draft"@
                &&& d.title == source.title
                &&& d.contact_id == source.contact_id
                &&& d.project_id == source.project_id
                &&& d.template_id == source.template_id
                &&& d.content_json == source.content_json
                &&& d.language == source.language
                &&& d.currency_id == source.currency_id
                &&& d.subtotal == source.subtotal
                &&& d.vat_rate == source.vat_rate
                &&& d.vat_amount == source.vat_amount
                &&& d.total == source.total
                &&& d.valid_until is None
                &&& d.issued_at is None
                &&& d.signed_at is None
                &&& d.converted_from matches Some(x) && x@ == source_id@
                &&& d.created_by matches Some(u) && u@ == user_id@
                &&& ls@.len() == source_lines@.len()
                &&& forall|i: int| 0 <= i < ls@.len() ==> (#[trigger] ls@[i]) == source_lines@[i]
            }),
    {
        let ok = (str_eq(source.doc_type.as_str(), "offer") && str_eq(target_type, "sow")) || (str_eq(
            source.doc_type.as_str(),
            "sow",
        ) && str_eq(target_type, "contract")) || (str_eq(source.doc_type.as_str(), "quote") && str_eq(
            target_type,
            "sow",
        ));
        if !ok {
            let mut m = "Cannot convert ".to_owned();
            m.append(source.doc_type.as_str());
            m.append(" to ");
            m.append(target_type);
            return Err(AppError::Validation(m));
        }
        let d = DocumentRecord {
            doc_type: target_type.to_owned(),
            doc_number: None,
            title: source.title.clone(),
            status: "draft".to_owned(),
            contact_id: source.contact_id.clone(),
            project_id: source.project_id.clone(),
            template_id: source.template_id.clone(),
            content_json: source.content_json.clone(),
            language: source.language.clone(),
            currency_id: source.currency_id.clone(),
            subtotal: source.subtotal,
            vat_rate: source.vat_rate,
            vat_amount: source.vat_amount,
            total: source.total,
            valid_until: None,
            issued_at: None,
            signed_at: None,
            converted_from: Some(source_id.to_owned()),
            created_by: Some(user_id.to_owned()),
        };
        let mut lines: Vec<DocumentLine> = Vec::new();
        let mut i: usize = 0;
        while i < source_lines.len()
            invariant
                i <= source_lines.len(),
                lines@.len() == i,
                forall|j: int| 0 <= j < i ==> (#[trigger] lines@[j]) == source_lines@[j],
            decreases source_lines.len() - i,
        {
            let l = &source_lines[i];
            lines.push(
                DocumentLine {
                    position: l.position,
                    description: l.description.clone(),
                    quantity: l.quantity,
                    unit: l.unit.clone(),
                    unit_price: l.unit_price,
                    discount_pct: l.discount_pct,
                    total: l.total,
                },
            );
            i += 1;
        }
        Ok((d, lines))
    }
}

} // verus!
