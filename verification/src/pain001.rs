//! The pain.001 (ISO 20022 credit transfer initiation, Swiss profile)
//! document that pays out a payroll run: the checks before exporting it,
//! the execution date, and the XML text itself.
use vstd::prelude::*;

use crate::amount::Amount;
use crate::date::{
    day_number, from_ymd, iso_date, iso_text, max_year, min_year, pred, pred_date, valid_date, weekday,
    weekday_of,
};
use crate::depreciation_service::{amounts_total, lemma_total_none_extends};
use crate::error::{AppError, ErrorKind};
use crate::numeric::{int_text, nat_digits, push_digits, push_i64};
use crate::text::{push_str, string_of, str_eq};

verus! {

/// The pain.001 service: the payment file of a payroll run.
pub struct Pain001Service;

/// The company and payment data of the file's header.
pub struct Pain001Header {
    pub msg_id: String,
    pub created_at: String,
    pub ctrl_sum: String,
    pub legal_name: String,
    pub street: String,
    pub postal_code: String,
    pub city: String,
    pub country: String,
    pub debtor_iban: String,
    pub clearing_number: String,
    pub debtor_bic: Option<String>,
    pub pmt_inf_id: String,
    pub exec_date: String,
    pub period_month: i32,
    pub period_year: i32,
}

/// One payment of the file.
pub struct PayoutLine {
    pub instr_id: String,
    pub payment_reference: String,
    pub amount_text: String,
    pub bic: Option<String>,
    pub recipient_name: String,
    pub recipient_street: String,
    pub recipient_postal_code: String,
    pub recipient_city: String,
    pub recipient_country: String,
    pub iban: String,
}

/// One character as `quick_xml::escape::escape` writes it.
pub open spec fn esc_xml_char(c: char) -> Seq<char> {
    if c == '<' {
        "&lt;"@
    } else if c == '>' {
        "&gt;"@
    } else if c == '&' {
        "&amp;"@
    } else if c == '\'' {
        "&apos;"@
    } else if c == '"' {
        "&quot;"@
    } else if c == '\r' {
        "&#13;"@
    } else {
        seq![c]
    }
}

/// `quick_xml::escape::escape`: each character replaced as above.
pub open spec fn esc_xml(s: Seq<char>) -> Seq<char>
    decreases s.len(),
{
    if s.len() == 0 {
        Seq::empty()
    } else {
        esc_xml(s.drop_last()) + esc_xml_char(s.last())
    }
}

/// `quick_xml::escape::escape`: replaces `<`, `>`, `&`, `'`, `"` and
/// carriage return by their character references.
#[verifier::external_body]
fn escape_text(s: &str) -> (r: String)
    ensures
        r@ == esc_xml(s@),
{
    quick_xml::escape::escape(s).into_owned()
}

/// A start tag appended to `s`.
pub open spec fn x_open(s: Seq<char>, tag: Seq<char>) -> Seq<char> {
    s + "<"@ + tag + ">"@
}

/// An end tag appended to `s`.
pub open spec fn x_close(s: Seq<char>, tag: Seq<char>) -> Seq<char> {
    s + "</"@ + tag + ">"@
}

/// An element holding escaped text, appended to `s`.
pub open spec fn x_el(s: Seq<char>, tag: Seq<char>, text: Seq<char>) -> Seq<char> {
    x_close(x_open(s, tag) + esc_xml(text), tag)
}

/// A BIC, where one is given and it is not empty.
pub open spec fn some_bic(b: Option<String>) -> Option<Seq<char>> {
    match b {
        Some(x) => if x@.len() > 0 {
            Some(x@)
        } else {
            None
        },
        None => None,
    }
}

/// `format!("{:02}", n)`.
pub open spec fn two_digits(n: int) -> Seq<char> {
    if 0 <= n < 10 {
        "0"@ + int_text(n)
    } else {
        int_text(n)
    }
}

/// The remittance text of a salary payment: "Lohn {mm} {yyyy}".
pub open spec fn remittance(month: int, year: int) -> Seq<char> {
    "Lohn "@ + two_digits(month) + " "@ + int_text(year)
}

/// The group header.
#[verifier::opaque]
pub open spec fn group_header_xml(s: Seq<char>, h: Pain001Header, n: nat) -> Seq<char> {
    let s = x_open(s, "GrpHdr"@);
    let s = x_el(s, "MsgId"@, h.msg_id@);
    let s = x_el(s, "CreDtTm"@, h.created_at@);
    let s = x_el(s, "NbOfTxs"@, nat_digits(n));
    let s = x_el(s, "CtrlSum"@, h.ctrl_sum@);
    let s = x_open(s, "InitgPty"@);
    let s = x_el(s, "Nm"@, h.legal_name@);
    let s = x_close(s, "InitgPty"@);
    x_close(s, "GrpHdr"@)
}

/// The payment information up to the first transaction.
#[verifier::opaque]
pub open spec fn payment_info_xml(s: Seq<char>, h: Pain001Header, n: nat) -> Seq<char> {
    let s = x_open(s, "PmtInf"@);
    let s = x_el(s, "PmtInfId"@, h.pmt_inf_id@);
    let s = x_el(s, "PmtMtd"@, "TRF"@);
    let s = x_el(s, "NbOfTxs"@, nat_digits(n));
    let s = x_el(s, "CtrlSum"@, h.ctrl_sum@);
    let s = x_open(s, "PmtTpInf"@);
    let s = x_open(s, "CtgyPurp"@);
    let s = x_el(s, "Cd"@, "SALA"@);
    let s = x_close(s, "CtgyPurp"@);
    let s = x_close(s, "PmtTpInf"@);
    let s = x_open(s, "ReqdExctnDt"@);
    let s = x_el(s, "Dt"@, h.exec_date@);
    x_close(s, "ReqdExctnDt"@)
}

/// The debtor (the company), its account and its agent.
#[verifier::opaque]
pub open spec fn debtor_xml(s: Seq<char>, h: Pain001Header) -> Seq<char> {
    let s = x_open(s, "Dbtr"@);
    let s = x_el(s, "Nm"@, h.legal_name@);
    let s = x_open(s, "PstlAdr"@);
    let s = x_el(s, "StrtNm"@, h.street@);
    let s = x_el(s, "PstCd"@, h.postal_code@);
    let s = x_el(s, "TwnNm"@, h.city@);
    let s = x_el(s, "Ctry"@, h.country@);
    let s = x_close(s, "PstlAdr"@);
    let s = x_close(s, "Dbtr"@);
    let s = x_open(s, "DbtrAcct"@);
    let s = x_open(s, "Id"@);
    let s = x_el(s, "IBAN"@, h.debtor_iban@);
    let s = x_close(s, "Id"@);
    let s = x_close(s, "DbtrAcct"@);
    let s = x_open(s, "DbtrAgt"@);
    let s = x_open(s, "FinInstnId"@);
    let s = if h.clearing_number@.len() > 0 {
        let s = x_open(s, "ClrSysMmbId"@);
        let s = x_open(s, "ClrSysId"@);
        let s = x_el(s, "Cd"@, "CHBCC"@);
        let s = x_close(s, "ClrSysId"@);
        let s = x_el(s, "MmbId"@, h.clearing_number@);
        x_close(s, "ClrSysMmbId"@)
    } else {
        s
    };
    let s = match some_bic(h.debtor_bic) {
        Some(b) => x_el(s, "BICFI"@, b),
        None => s,
    };
    let s = x_close(s, "FinInstnId"@);
    x_close(s, "DbtrAgt"@)
}

/// One credit transfer transaction.
#[verifier::opaque]
pub open spec fn transaction_xml(s: Seq<char>, e: PayoutLine, month: int, year: int) -> Seq<char> {
    let s = x_open(s, "CdtTrfTxInf"@);
    let s = x_open(s, "PmtId"@);
    let s = x_el(s, "InstrId"@, e.instr_id@);
    let s = x_el(s, "EndToEndId"@, e.payment_reference@);
    let s = x_close(s, "PmtId"@);
    let s = x_open(s, "Amt"@);
    let s = s + "<InstdAmt Ccy=\"CHF\">"@ + esc_xml(e.amount_text@);
    let s = x_close(s, "InstdAmt"@);
    let s = x_close(s, "Amt"@);
    let s = match some_bic(e.bic) {
        Some(b) => {
            let s = x_open(s, "CdtrAgt"@);
            let s = x_open(s, "FinInstnId"@);
            let s = x_el(s, "BICFI"@, b);
            let s = x_close(s, "FinInstnId"@);
            x_close(s, "CdtrAgt"@)
        },
        None => s,
    };
    let s = x_open(s, "Cdtr"@);
    let s = x_el(s, "Nm"@, e.recipient_name@);
    let s = x_open(s, "PstlAdr"@);
    let s = x_el(s, "StrtNm"@, e.recipient_street@);
    let s = x_el(s, "PstCd"@, e.recipient_postal_code@);
    let s = x_el(s, "TwnNm"@, e.recipient_city@);
    let s = x_el(s, "Ctry"@, e.recipient_country@);
    let s = x_close(s, "PstlAdr"@);
    let s = x_close(s, "Cdtr"@);
    let s = x_open(s, "CdtrAcct"@);
    let s = x_open(s, "Id"@);
    let s = x_el(s, "IBAN"@, e.iban@);
    let s = x_close(s, "Id"@);
    let s = x_close(s, "CdtrAcct"@);
    let s = x_open(s, "RmtInf"@);
    let s = x_el(s, "Ustrd"@, remittance(month, year));
    let s = x_close(s, "RmtInf"@);
    x_close(s, "CdtTrfTxInf"@)
}

/// The first `k` transactions.
pub open spec fn transactions_xml(
    s: Seq<char>,
    entries: Seq<PayoutLine>,
    k: int,
    month: int,
    year: int,
) -> Seq<char>
    decreases k,
{
    if k <= 0 {
        s
    } else {
        transaction_xml(transactions_xml(s, entries, k - 1, month, year), entries[k - 1], month, year)
    }
}

/// The XML declaration and the document's root start tag.
pub open spec fn prologue() -> Seq<char> {
    "<?xml version=\"1.0\" encoding=\"UTF-8\"?>"@
        + "<Document xmlns=\"urn:iso:std:iso:20022:tech:xsd:pain.001.001.09.ch.03\">"@
}

/// The whole pain.001 document.
pub open spec fn document_xml(h: Pain001Header, entries: Seq<PayoutLine>) -> Seq<char> {
    let n = entries.len();
    let s = x_open(prologue(), "CstmrCdtTrfInitn"@);
    let s = group_header_xml(s, h, n);
    let s = payment_info_xml(s, h, n);
    let s = debtor_xml(s, h);
    let s = transactions_xml(s, entries, n as int, h.period_month as int, h.period_year as int);
    let s = x_close(s, "PmtInf"@);
    let s = x_close(s, "CstmrCdtTrfInitn"@);
    x_close(s, "Document"@)
}

fn open_tag(out: &mut Vec<char>, tag: &str)
    ensures
        final(out)@ == x_open(old(out)@, tag@),
{
    push_str(out, "<");
    push_str(out, tag);
    push_str(out, ">");
}

fn close_tag(out: &mut Vec<char>, tag: &str)
    ensures
        final(out)@ == x_close(old(out)@, tag@),
{
    push_str(out, "</");
    push_str(out, tag);
    push_str(out, ">");
}

fn push_escaped(out: &mut Vec<char>, text: &str)
    ensures
        final(out)@ == old(out)@ + esc_xml(text@),
{
    let e = escape_text(text);
    push_str(out, e.as_str());
}

fn element(out: &mut Vec<char>, tag: &str, text: &str)
    ensures
        final(out)@ == x_el(old(out)@, tag@, text@),
{
    open_tag(out, tag);
    push_escaped(out, text);
    close_tag(out, tag);
}

fn count_text(n: usize) -> (r: String)
    ensures
        r@ == nat_digits(n as nat),
{
    let mut v: Vec<char> = Vec::new();
    push_digits(&mut v, n as u64);
    string_of(&v)
}

fn remittance_text(month: i32, year: i32) -> (r: String)
    ensures
        r@ == remittance(month as int, year as int),
{
    let mut v: Vec<char> = Vec::new();
    push_str(&mut v, "Lohn ");
    if 0 <= month && month < 10 {
        push_str(&mut v, "0");
    }
    push_i64(&mut v, month as i64);
    push_str(&mut v, " ");
    push_i64(&mut v, year as i64);
    string_of(&v)
}

fn nonempty_bic(b: &Option<String>) -> (r: Option<&String>)
    ensures
        match some_bic(*b) {
            Some(x) => r matches Some(s) && s@ == x,
            None => r is None,
        },
{
    match b {
        Some(x) => if x.as_str().unicode_len() > 0 {
            Some(x)
        } else {
            None
        },
        None => None,
    }
}

/// The statuses a run may be exported in.
pub open spec fn exportable(status: Seq<char>) -> bool {
    status == "approved"@ || status == "paid"@
}

/// The weekday, counted from Monday, of a Saturday or a Sunday.
pub open spec fn weekend(wd: int) -> bool {
    wd == 5 || wd == 6
}

/// Walking back from a date over at most `n` days while the day falls on a
/// weekend (staying put where there is no previous day).
pub open spec fn walk_back(d: (int, int, int), n: nat) -> (int, int, int)
    decreases n,
{
    if n == 0 || !weekend(weekday_of(d.0, d.1, d.2)) {
        d
    } else {
        match pred_date(d.0, d.1, d.2) {
            Some(p) => walk_back(p, (n - 1) as nat),
            None => walk_back(d, (n - 1) as nat),
        }
    }
}

/// The last day of the month (year, month): the day before the first of
/// the next month. For a month outside 1-12, the 28th of that month does
/// not exist, and the 28th of January of the year stands in.
pub open spec fn month_last_day(year: int, month: int) -> (int, int, int) {
    let fallback = if valid_date(year, month, 28) {
        (year, month, 28)
    } else {
        (year, 1, 28)
    };
    let next = if month == 12 {
        (year + 1, 1, 1)
    } else {
        (year, month + 1, 1)
    };
    let base = if valid_date(next.0, next.1, next.2) {
        next
    } else {
        fallback
    };
    match pred_date(base.0, base.1, base.2) {
        Some(p) => p,
        None => fallback,
    }
}

/// The last day of a month is a valid date no earlier than the 27th.
proof fn lemma_month_last_day(year: int, month: int)
    requires
        min_year() <= year <= max_year(),
    ensures
        ({
            let e = month_last_day(year, month);
            valid_date(e.0, e.1, e.2) && e.2 >= 27
        }),
{
}

/// Walking back over a weekend from a day no earlier than the 3rd stops
/// on a Monday to Friday of the same month, at most two days earlier.
proof fn lemma_walk_back_weekday(d: (int, int, int), n: nat)
    requires
        valid_date(d.0, d.1, d.2),
        d.2 >= 3,
        n >= 2,
    ensures
        ({
            let w = walk_back(d, n);
            &&& valid_date(w.0, w.1, w.2)
            &&& !weekend(weekday_of(w.0, w.1, w.2))
            &&& w.0 == d.0 && w.1 == d.1 && d.2 - 2 <= w.2 <= d.2
        }),
{
    let x = day_number(d.0, d.1, d.2);
    assert(day_number(d.0, d.1, d.2 - 1) == x - 1);
    assert(day_number(d.0, d.1, d.2 - 2) == x - 2);
    let n1 = (n - 1) as nat;
    let n2 = (n - 2) as nat;
    if weekend(weekday_of(d.0, d.1, d.2)) {
        assert(pred_date(d.0, d.1, d.2) == Some((d.0, d.1, d.2 - 1)));
        assert(walk_back(d, n) == walk_back((d.0, d.1, d.2 - 1), n1));
        if (x - 1) % 7 == 5 {
            assert((x - 2) % 7 == 4);
            assert(walk_back((d.0, d.1, d.2 - 1), n1) == (d.0, d.1, d.2 - 1));
        } else {
            assert((x - 1) % 7 == 6);
            assert((x - 2) % 7 == 5);
            assert((x - 3) % 7 == 4);
            assert(pred_date(d.0, d.1, d.2 - 1) == Some((d.0, d.1, d.2 - 2)));
            assert(walk_back((d.0, d.1, d.2 - 1), n1) == walk_back((d.0, d.1, d.2 - 2), n2));
            assert(walk_back((d.0, d.1, d.2 - 2), n2) == (d.0, d.1, d.2 - 2));
        }
    }
}

/// The execution date of a payroll falls on a business day: walking back
/// from the month's last day reaches a Monday to Friday of the same month,
/// at most two days before its end.
pub proof fn lemma_last_business_day_is_a_weekday(year: int, month: int)
    requires
        min_year() <= year <= max_year(),
    ensures
        ({
            let e = month_last_day(year, month);
            let d = walk_back(e, 7);
            &&& valid_date(d.0, d.1, d.2)
            &&& !weekend(weekday_of(d.0, d.1, d.2))
            &&& d.0 == e.0 && d.1 == e.1 && e.2 - 2 <= d.2 <= e.2
        }),
{
    lemma_month_last_day(year, month);
    lemma_walk_back_weekday(month_last_day(year, month), 7);
}

impl Pain001Service {
    /// Only approved or paid runs can be exported.
    pub fn check_run_status(status: &str) -> (r: Result<(), AppError>)
        ensures
            exportable(status@) ==> r is Ok,
            !exportable(status@) ==> (r matches Err(e) && e.kind_and_message() == (
                ErrorKind::Validation,
                "Cannot export pain.001 for run with status '"@ + status@
                    + "'. Must be 'approved' or 'paid'."@,
            )),
    {
        if str_eq(status, "approved") || str_eq(status, "paid") {
            Ok(())
        } else {
            let mut m = "Cannot export pain.001 for run with status '".to_owned();
            m.append(status);
            m.append("'. Must be 'approved' or 'paid'.");
            Err(AppError::Validation(m))
        }
    }

    /// A run without payout entries cannot be exported.
    pub fn check_entries(count: usize) -> (r: Result<(), AppError>)
        ensures
            count > 0 ==> r is Ok,
            count == 0 ==> (r matches Err(e) && e.kind_and_message() == (
                ErrorKind::Validation,
                "No payout entries found. Generate payouts first."@,
            )),
    {
        if count > 0 {
            Ok(())
        } else {
            Err(AppError::Validation("No payout entries found. Generate payouts first.".to_owned()))
        }
    }

    /// The bank account payments are made from, which the payroll settings
    /// must name.
    pub fn payment_bank_account(id: Option<String>) -> (r: Result<String, AppError>)
        ensures
            match id {
                Some(a) => r matches Ok(s) && s@ == a@,
                None => r matches Err(e) && e.kind_and_message() == (
                    ErrorKind::Validation,
                    "Payment bank account not configured in payroll settings"@,
                ),
            },
    {
        match id {
            Some(a) => Ok(a),
            None => Err(
                AppError::Validation(
                    "Payment bank account not configured in payroll settings".to_owned(),
                ),
            ),
        }
    }

    /// The total of the payout amounts, summed from zero up; `None` where
    /// an addition overflows.
    pub fn total_amount(amounts: &Vec<Amount>) -> (r: Option<Amount>)
        requires
            forall|i: int| 0 <= i < amounts.len() ==> (#[trigger] amounts[i]).wf(),
        ensures
            match amounts_total(amounts@.map_values(|a: Amount| a@)) {
                Some(t) => r matches Some(x) && x@ == t && x.wf(),
                None => r is None,
            },
    {
        let ghost v = amounts@.map_values(|a: Amount| a@);
        let mut total = Amount::zero();
        let mut i: usize = 0;
        while i < amounts.len()
            invariant
                i <= amounts.len(),
                v == amounts@.map_values(|a: Amount| a@),
                forall|j: int| 0 <= j < amounts.len() ==> (#[trigger] amounts[j]).wf(),
                total.wf(),
                amounts_total(v.take(i as int)) == Some(total@),
            decreases amounts.len() - i,
        {
            assert(v.take(i + 1).drop_last() =~= v.take(i as int));
            match total.checked_add(amounts[i]) {
                Some(t) => {
                    total = t;
                },
                None => {
                    proof {
                        lemma_total_none_extends(v, i as int + 1);
                    }
                    return None;
                },
            }
            i = i + 1;
        }
        assert(v.take(amounts.len() as int) =~= v);
        Some(total)
    }

    /// The execution date of a payroll's payments: the last business day
    /// (Monday to Friday) of the payroll month, as `%Y-%m-%d`. From the
    /// month's last day it walks back over the weekend (at most a week,
    /// within which a weekday always falls).
    pub fn last_business_day(year: i32, month: u32) -> (r: String)
        requires
            -262143 <= year <= 262142,
            month < u32::MAX,
        ensures
            ({
                let d = walk_back(month_last_day(year as int, month as int), 7);
                r@ == iso_text(d.0, d.1, d.2)
            }),
    {
        let fallback = match from_ymd(year, month, 28) {
            Some(d) => d,
            None => (year, 1, 28),
        };
        let next = if month == 12 {
            from_ymd(year + 1, 1, 1)
        } else {
            from_ymd(year, month + 1, 1)
        };
        let base = match next {
            Some(n) => n,
            None => fallback,
        };
        let mut d = match pred(base) {
            Some(p) => p,
            None => fallback,
        };
        assert((d.0 as int, d.1 as int, d.2 as int) == month_last_day(year as int, month as int));
        let mut n: u32 = 7;
        while n > 0
            invariant
                n <= 7,
                valid_date(d.0 as int, d.1 as int, d.2 as int),
                walk_back(month_last_day(year as int, month as int), 7) == walk_back(
                    (d.0 as int, d.1 as int, d.2 as int),
                    n as nat,
                ),
            ensures
                valid_date(d.0 as int, d.1 as int, d.2 as int),
                walk_back(month_last_day(year as int, month as int), 7) == (
                    d.0 as int,
                    d.1 as int,
                    d.2 as int,
                ),
            decreases n,
        {
            let wd = weekday(d);
            if wd != 5 && wd != 6 {
                break;
            }
            match pred(d) {
                Some(p) => {
                    d = p;
                },
                None => {},
            }
            n = n - 1;
        }
        iso_date(d)
    }

    /// The pain.001 document: the XML declaration, the group header, the
    /// payment information with the debtor (its clearing number and BIC
    /// only where given), and one credit transfer per payout line.
    pub fn document(header: &Pain001Header, entries: &Vec<PayoutLine>) -> (r: String)
        ensures
            r@ == document_xml(*header, entries@),
    {
        proof {
            reveal(group_header_xml);
            reveal(payment_info_xml);
        }
        let h = header;
        let n = entries.len();
        let mut out: Vec<char> = Vec::new();
        push_str(&mut out, "<?xml version=\"1.0\" encoding=\"UTF-8\"?>");
        push_str(
            &mut out,
            "<Document xmlns=\"urn:iso:std:iso:20022:tech:xsd:pain.001.001.09.ch.03\">",
        );
        assert(out@ == prologue());
        open_tag(&mut out, "CstmrCdtTrfInitn");
        let count = count_text(n);
        open_tag(&mut out, "GrpHdr");
        element(&mut out, "MsgId", h.msg_id.as_str());
        element(&mut out, "CreDtTm", h.created_at.as_str());
        element(&mut out, "NbOfTxs", count.as_str());
        element(&mut out, "CtrlSum", h.ctrl_sum.as_str());
        open_tag(&mut out, "InitgPty");
        element(&mut out, "Nm", h.legal_name.as_str());
        close_tag(&mut out, "InitgPty");
        close_tag(&mut out, "GrpHdr");
        open_tag(&mut out, "PmtInf");
        element(&mut out, "PmtInfId", h.pmt_inf_id.as_str());
        element(&mut out, "PmtMtd", "TRF");
        element(&mut out, "NbOfTxs", count.as_str());
        element(&mut out, "CtrlSum", h.ctrl_sum.as_str());
        open_tag(&mut out, "PmtTpInf");
        open_tag(&mut out, "CtgyPurp");
        element(&mut out, "Cd", "SALA");
        close_tag(&mut out, "CtgyPurp");
        close_tag(&mut out, "PmtTpInf");
        open_tag(&mut out, "ReqdExctnDt");
        element(&mut out, "Dt", h.exec_date.as_str());
        close_tag(&mut out, "ReqdExctnDt");
        Self::push_debtor(&mut out, h);
        let ghost base = out@;
        let mut i: usize = 0;
        while i < n
            invariant
                i <= n,
                n == entries.len(),
                out@ == transactions_xml(
                    base,
                    entries@,
                    i as int,
                    h.period_month as int,
                    h.period_year as int,
                ),
            decreases n - i,
        {
            Self::push_transaction(&mut out, &entries[i], h.period_month, h.period_year);
            assert(entries[i as int] == entries@[i as int]);
            i = i + 1;
        }
        close_tag(&mut out, "PmtInf");
        close_tag(&mut out, "CstmrCdtTrfInitn");
        close_tag(&mut out, "Document");
        string_of(&out)
    }

    fn push_debtor(out: &mut Vec<char>, h: &Pain001Header)
        ensures
            final(out)@ == debtor_xml(old(out)@, *h),
    {
        proof {
            reveal(debtor_xml);
        }
        open_tag(out, "Dbtr");
        element(out, "Nm", h.legal_name.as_str());
        open_tag(out, "PstlAdr");
        element(out, "StrtNm", h.street.as_str());
        element(out, "PstCd", h.postal_code.as_str());
        element(out, "TwnNm", h.city.as_str());
        element(out, "Ctry", h.country.as_str());
        close_tag(out, "PstlAdr");
        close_tag(out, "Dbtr");
        open_tag(out, "DbtrAcct");
        open_tag(out, "Id");
        element(out, "IBAN", h.debtor_iban.as_str());
        close_tag(out, "Id");
        close_tag(out, "DbtrAcct");
        open_tag(out, "DbtrAgt");
        open_tag(out, "FinInstnId");
        if h.clearing_number.as_str().unicode_len() > 0 {
            open_tag(out, "ClrSysMmbId");
            open_tag(out, "ClrSysId");
            element(out, "Cd", "CHBCC");
            close_tag(out, "ClrSysId");
            element(out, "MmbId", h.clearing_number.as_str());
            close_tag(out, "ClrSysMmbId");
        }
        match nonempty_bic(&h.debtor_bic) {
            Some(b) => element(out, "BICFI", b.as_str()),
            None => {},
        }
        close_tag(out, "FinInstnId");
        close_tag(out, "DbtrAgt");
    }

    fn push_transaction(out: &mut Vec<char>, e: &PayoutLine, month: i32, year: i32)
        ensures
            final(out)@ == transaction_xml(old(out)@, *e, month as int, year as int),
    {
        proof {
            reveal(transaction_xml);
        }
        open_tag(out, "CdtTrfTxInf");
        open_tag(out, "PmtId");
        element(out, "InstrId", e.instr_id.as_str());
        element(out, "EndToEndId", e.payment_reference.as_str());
        close_tag(out, "PmtId");
        open_tag(out, "Amt");
        push_str(out, "<InstdAmt Ccy=\"CHF\">");
        push_escaped(out, e.amount_text.as_str());
        close_tag(out, "InstdAmt");
        close_tag(out, "Amt");
        match nonempty_bic(&e.bic) {
            Some(b) => {
                open_tag(out, "CdtrAgt");
                open_tag(out, "FinInstnId");
                element(out, "BICFI", b.as_str());
                close_tag(out, "FinInstnId");
                close_tag(out, "CdtrAgt");
            },
            None => {},
        }
        open_tag(out, "Cdtr");
        element(out, "Nm", e.recipient_name.as_str());
        open_tag(out, "PstlAdr");
        element(out, "StrtNm", e.recipient_street.as_str());
        element(out, "PstCd", e.recipient_postal_code.as_str());
        element(out, "TwnNm", e.recipient_city.as_str());
        element(out, "Ctry", e.recipient_country.as_str());
        close_tag(out, "PstlAdr");
        close_tag(out, "Cdtr");
        open_tag(out, "CdtrAcct");
        open_tag(out, "Id");
        element(out, "IBAN", e.iban.as_str());
        close_tag(out, "Id");
        close_tag(out, "CdtrAcct");
        open_tag(out, "RmtInf");
        let rem = remittance_text(month, year);
        element(out, "Ustrd", rem.as_str());
        close_tag(out, "RmtInf");
        close_tag(out, "CdtTrfTxInf");
    }
}

} // verus!
