//! Reading bank statements in the CAMT.053 format (ISO 20022
//! `BkToCstmrStmt`): each `Ntry` element becomes a transaction, its fields
//! picked from the element paths below it.
use vstd::prelude::*;

use chrono::Datelike;
use quick_xml::events::attributes::Attributes;
use quick_xml::events::Event;
use quick_xml::reader::Reader;
use quick_xml::XmlVersion;
use rust_decimal::Decimal;

use crate::amount::Amount;
use crate::bank_import::RawXmlEvent::{Empty, End, Eof, Error, Other, Start, Text};
use crate::bank_reconciliation::{contains, str_contains};
use crate::date::valid_date;
use crate::error::{AppError, ErrorKind};
use crate::text::{chars_of, find_char_from, push_all, push_str, slice_chars, str_eq, string_of};

verus! {

/// The bank import service: reading CAMT.053 statements.
pub struct BankImportService;

/// One event of the XML reader: the local names of start, end and empty
/// tags (start and empty tags with the raw text of their attributes), text, the end of the document, a reading
/// error (its message), or anything else.
pub enum XmlEvent {
    Start(String, String),
    Empty(String, String),
    End(String),
    Text(String),
    Eof,
    Error(String),
    Other,
}

/// A transaction read from a statement.
pub struct ParsedTransaction {
    pub transaction_date: (i32, u32, u32),
    pub value_date: (i32, u32, u32),
    pub amount: Amount,
    pub currency: String,
    pub description: String,
    pub counterparty_name: Option<String>,
    pub counterparty_iban: Option<String>,
    pub reference: Option<String>,
    pub bank_reference: Option<String>,
}

/// The fields of an entry gathered so far.
pub struct EntryBuilder {
    pub booking_date: Option<(i32, u32, u32)>,
    pub value_date: Option<(i32, u32, u32)>,
    pub amount: Option<Amount>,
    pub currency: Option<String>,
    pub credit_debit: Option<String>,
    pub description: Option<String>,
    pub counterparty_name: Option<String>,
    pub counterparty_iban: Option<String>,
    pub reference: Option<String>,
    pub bank_reference: Option<String>,
}

/// What `Decimal::from_str` gives for a text.
pub uninterp spec fn dec_parse(s: Seq<char>) -> Option<(int, nat)>;

/// What `NaiveDate::parse_from_str(s, "%Y-%m-%d")` gives for a text.
pub uninterp spec fn iso_date_parse(s: Seq<char>) -> Option<(int, int, int)>;

/// The events as the contracts see them in full: a kind (0 start, 1 end,
/// 2 text, 3 end of document, 4 error, 5 other, 6 empty tag), the local
/// name, text or message, and the raw text of a tag's attributes.
pub type FullEvent = (int, Seq<char>, Seq<char>);

/// An event as `quick_xml`'s reader gives it: the content of a start or
/// empty tag (its name and attributes), the qualified name of an end tag,
/// text as its XML 1.0 content, the end of the document, an error (its
/// `Display` text), or anything else.
pub enum RawXmlEvent {
    Start(String),
    Empty(String),
    End(String),
    Text(String),
    Eof,
    Error(String),
    Other,
}

/// A raw event as a kind (as in `FullEvent`) and its text.
pub open spec fn raw_view(e: RawXmlEvent) -> (int, Seq<char>) {
    match e {
        RawXmlEvent::Start(s) => (0, s@),
        RawXmlEvent::End(s) => (1, s@),
        RawXmlEvent::Text(s) => (2, s@),
        RawXmlEvent::Eof => (3, Seq::empty()),
        RawXmlEvent::Error(s) => (4, s@),
        RawXmlEvent::Other => (5, Seq::empty()),
        RawXmlEvent::Empty(s) => (6, s@),
    }
}

pub open spec fn raw_views(events: Seq<RawXmlEvent>) -> Seq<(int, Seq<char>)> {
    events.map_values(|e: RawXmlEvent| raw_view(e))
}

/// The events that `quick_xml`'s reader, with text trimming switched on,
/// gives for a text (see `RawXmlEvent`), read one after the other up to
/// and including the first end of document or error.
pub uninterp spec fn xml_events(xml: Seq<char>) -> Seq<(int, Seq<char>)>;

/// Reads the events of a text with `quick_xml`'s reader (see
/// `xml_events`).
#[verifier::external_body]
pub(crate) fn read_events(xml: &str) -> (r: Vec<RawXmlEvent>)
    ensures
        raw_views(r@) == xml_events(xml@),
{
    let mut reader = Reader::from_str(xml);
    reader.config_mut().trim_text(true);
    let mut events = Vec::new();
    while !matches!(events.last(), Some(Eof | Error(_))) {
        events.push(match reader.read_event() {
            Ok(Event::Start(e)) => Start((*e).into()),
            Ok(Event::Empty(e)) => Empty((*e).into()),
            Ok(Event::End(e)) => End((*e).into()),
            Ok(Event::Text(e)) => Text(e.xml10_content().into()),
            Ok(Event::Eof) => Eof,
            Ok(_) => Other,
            Err(e) => Error(e.to_string()),
        });
    }
    events
}

/// XML whitespace as `quick_xml` splits a tag's name from its attributes.
pub open spec fn xml_ws(c: char) -> bool {
    c == ' ' || c == '\r' || c == '\n' || c == '\t'
}

/// The end of a tag's name: the first whitespace from `k` on, else the end.
pub open spec fn name_end(s: Seq<char>, k: int) -> int
    decreases s.len() - k,
{
    if k < 0 || k >= s.len() {
        s.len() as int
    } else if xml_ws(s[k]) {
        k
    } else {
        name_end(s, k + 1)
    }
}

/// A qualified name without its prefix: all up to and including the first
/// `:` removed.
pub open spec fn local_name_of(q: Seq<char>) -> Seq<char> {
    match find_char_from(q, 0, ':') {
        Some(i) => q.skip(i + 1),
        None => q,
    }
}

/// A raw event with the local name of its tag and its attributes apart.
pub open spec fn cooked(e: (int, Seq<char>)) -> FullEvent {
    if e.0 == 0 || e.0 == 6 {
        let n = name_end(e.1, 0);
        (e.0, local_name_of(e.1.take(n)), e.1.skip(n))
    } else if e.0 == 1 {
        (1, local_name_of(e.1), Seq::empty())
    } else {
        (e.0, e.1, Seq::empty())
    }
}

/// The events of a text with the tags' local names and attributes apart.
pub open spec fn document_events(xml: Seq<char>) -> Seq<FullEvent> {
    xml_events(xml).map_values(|e: (int, Seq<char>)| cooked(e))
}

/// The local name of a qualified name.
fn local_name(q: &Vec<char>) -> (r: String)
    ensures
        r@ == local_name_of(q@),
{
    let mut i: usize = 0;
    while i < q.len() && q[i] != ':'
        invariant
            i <= q.len(),
            find_char_from(q@, 0, ':') == find_char_from(q@, i as int, ':'),
        decreases q.len() - i,
    {
        i += 1;
    }
    if i < q.len() {
        let rest = slice_chars(q, i + 1, q.len());
        assert(rest@ =~= q@.skip(i + 1));
        string_of(&rest)
    } else {
        string_of(q)
    }
}

/// A raw event with the local name of its tag and its attributes apart.
fn cook(e: &RawXmlEvent) -> (r: XmlEvent)
    ensures
        full_view(r) == cooked(raw_view(*e)),
{
    match e {
        RawXmlEvent::Start(c) | RawXmlEvent::Empty(c) => {
            let cs = chars_of(c.as_str());
            let mut k: usize = 0;
            while k < cs.len() && !(cs[k] == ' ' || cs[k] == '\r' || cs[k] == '\n' || cs[k] == '\t')
                invariant
                    k <= cs.len(),
                    name_end(cs@, 0) == name_end(cs@, k as int),
                decreases cs.len() - k,
            {
                k += 1;
            }
            let name = slice_chars(&cs, 0, k);
            let attrs = slice_chars(&cs, k, cs.len());
            assert(name@ =~= cs@.take(k as int));
            assert(attrs@ =~= cs@.skip(k as int));
            let local = local_name(&name);
            let raw = string_of(&attrs);
            match e {
                RawXmlEvent::Start(_) => XmlEvent::Start(local, raw),
                _ => XmlEvent::Empty(local, raw),
            }
        },
        RawXmlEvent::End(q) => XmlEvent::End(local_name(&chars_of(q.as_str()))),
        RawXmlEvent::Text(t) => XmlEvent::Text(t.clone()),
        RawXmlEvent::Eof => XmlEvent::Eof,
        RawXmlEvent::Error(m) => XmlEvent::Error(m.clone()),
        RawXmlEvent::Other => XmlEvent::Other,
    }
}

/// The events of a text, tags with their local names and attributes apart
/// (see `document_events`).
pub fn xml_document_events(xml: &str) -> (r: Vec<XmlEvent>)
    ensures
        full_views(r@) == document_events(xml@),
{
    let raw = read_events(xml);
    let ghost rv = raw_views(raw@);
    let mut out: Vec<XmlEvent> = Vec::new();
    let mut i: usize = 0;
    while i < raw.len()
        invariant
            i <= raw.len(),
            rv == raw_views(raw@),
            rv == xml_events(xml@),
            full_views(out@) == rv.take(i as int).map_values(|e: (int, Seq<char>)| cooked(e)),
        decreases raw.len() - i,
    {
        let c = cook(&raw[i]);
        assert(rv[i as int] == raw_view(raw@[i as int]));
        let ghost before = out@;
        out.push(c);
        assert(rv.take(i + 1) =~= rv.take(i as int).push(rv[i as int]));
        assert(full_views(out@) =~= full_views(before).push(full_view(c)));
        assert(rv.take(i + 1).map_values(|e: (int, Seq<char>)| cooked(e)) =~= rv.take(i as int).map_values(
            |e: (int, Seq<char>)| cooked(e),
        ).push(cooked(rv[i as int])));
        assert(full_views(out@) =~= rv.take(i + 1).map_values(|e: (int, Seq<char>)| cooked(e)));
        i += 1;
    }
    assert(rv.take(raw.len() as int) =~= rv);
    out
}

/// The attributes `quick_xml` reads from the raw attribute text of a tag,
/// in order, as qualified name and value (normalised and unescaped as XML
/// 1.0; empty where that fails), attributes it cannot read left out.
pub uninterp spec fn xml_attributes(raw: Seq<char>) -> Seq<(Seq<char>, Seq<char>)>;

/// The attributes of a tag from their raw text (see `xml_attributes`).
#[verifier::external_body]
pub(crate) fn attributes_of(raw: &str) -> (r: Vec<(String, String)>)
    ensures
        attrs_view(r@) == xml_attributes(raw@),
{
    Attributes::new(raw, 0).flatten().map(|a| (a.key.as_ref().to_owned(), a.normalized_value(XmlVersion::Implicit1_0).unwrap_or_default().into_owned())).collect()
}

/// `Decimal::from_str`.
#[verifier::external_body]
pub(crate) fn parse_decimal(s: &str) -> (r: Option<Amount>)
    ensures
        match r {
            Some(a) => dec_parse(s@) == Some(a@) && a.wf(),
            None => dec_parse(s@) is None,
        },
{
    match s.parse::<Decimal>() {
        Ok(d) => Some(Amount { mantissa: d.mantissa(), scale: d.scale() }),
        Err(_) => None,
    }
}

/// `NaiveDate::parse_from_str(s, "%Y-%m-%d")`, as (year, month, day).
#[verifier::external_body]
pub(crate) fn parse_iso_date(s: &str) -> (r: Option<(i32, u32, u32)>)
    ensures
        match r {
            Some(d) => iso_date_parse(s@) == Some((d.0 as int, d.1 as int, d.2 as int))
                && valid_date(d.0 as int, d.1 as int, d.2 as int),
            None => iso_date_parse(s@) is None,
        },
{
    match chrono::NaiveDate::parse_from_str(s, "%Y-%m-%d") {
        Ok(d) => Some((d.year(), d.month(), d.day())),
        Err(_) => None,
    }
}

/// The entry as the contracts see it: booking date, value date, amount,
/// currency, credit/debit indicator, description, counterparty name and
/// IBAN, reference, bank reference.
pub struct EntryView {
    pub booking: Option<(int, int, int)>,
    pub value: Option<(int, int, int)>,
    pub amount: Option<(int, nat)>,
    pub currency: Option<Seq<char>>,
    pub credit_debit: Option<Seq<char>>,
    pub description: Option<Seq<char>>,
    pub counterparty_name: Option<Seq<char>>,
    pub counterparty_iban: Option<Seq<char>>,
    pub reference: Option<Seq<char>>,
    pub bank_reference: Option<Seq<char>>,
}

pub open spec fn os(o: Option<String>) -> Option<Seq<char>> {
    match o {
        Some(s) => Some(s@),
        None => None,
    }
}

pub open spec fn od(o: Option<(i32, u32, u32)>) -> Option<(int, int, int)> {
    match o {
        Some(d) => Some((d.0 as int, d.1 as int, d.2 as int)),
        None => None,
    }
}

impl EntryBuilder {
    /// The amount read, if any, is a valid decimal.
    pub open spec fn wf(&self) -> bool {
        self.amount matches Some(a) ==> a.wf()
    }

    pub open spec fn view(&self) -> EntryView {
        EntryView {
            booking: od(self.booking_date),
            value: od(self.value_date),
            amount: match self.amount {
                Some(a) => Some(a@),
                None => None,
            },
            currency: os(self.currency),
            credit_debit: os(self.credit_debit),
            description: os(self.description),
            counterparty_name: os(self.counterparty_name),
            counterparty_iban: os(self.counterparty_iban),
            reference: os(self.reference),
            bank_reference: os(self.bank_reference),
        }
    }

    /// An empty entry.
    pub fn new() -> (r: EntryBuilder)
        ensures
            r.view() == empty_entry(),
    {
        EntryBuilder {
            booking_date: None,
            value_date: None,
            amount: None,
            currency: None,
            credit_debit: None,
            description: None,
            counterparty_name: None,
            counterparty_iban: None,
            reference: None,
            bank_reference: None,
        }
    }
}

pub open spec fn empty_entry() -> EntryView {
    EntryView {
        booking: None,
        value: None,
        amount: None,
        currency: None,
        credit_debit: None,
        description: None,
        counterparty_name: None,
        counterparty_iban: None,
        reference: None,
        bank_reference: None,
    }
}

/// `[..].join("|")`.
pub open spec fn join_bar(s: Seq<Seq<char>>) -> Seq<char>
    decreases s.len(),
{
    if s.len() == 0 {
        Seq::empty()
    } else if s.len() == 1 {
        s[0]
    } else {
        join_bar(s.drop_last()) + "|"@ + s.last()
    }
}

/// The first position of `Ntry` in the path, from `k` on.
pub open spec fn ntry_pos(path: Seq<Seq<char>>, k: int) -> Option<int>
    decreases path.len() - k,
{
    if k < 0 || k >= path.len() {
        None
    } else if path[k] == "Ntry"@ {
        Some(k)
    } else {
        ntry_pos(path, k + 1)
    }
}

/// The path from its first `Ntry` on (all of it where there is none),
/// joined with `|`.
pub open spec fn path_tail_spec(path: Seq<Seq<char>>) -> Seq<char> {
    match ntry_pos(path, 0) {
        Some(p) => join_bar(path.skip(p)),
        None => join_bar(path),
    }
}

pub open spec fn ends_with(s: Seq<char>, suffix: Seq<char>) -> bool {
    suffix.len() <= s.len() && s.skip(s.len() - suffix.len()) == suffix
}

/// What the end of an element inside an entry records: by the path from
/// `Ntry`, the amount, the credit/debit indicator, the booking and value
/// dates and the bank reference; below it, the structured reference, the
/// first unstructured remittance or additional information as the
/// description, the counterparty's name and IBAN; and CHF as the currency
/// where none is set. Empty text records nothing.
pub open spec fn handle_end_spec(b: EntryView, path: Seq<Seq<char>>, text: Seq<char>) -> EntryView {
    if text.len() == 0 {
        b
    } else {
        let tail = path_tail_spec(path);
        let b1 = if tail == "Ntry|Amt"@ {
            EntryView { amount: dec_parse(text), ..b }
        } else if tail == "Ntry|CdtDbtInd"@ {
            EntryView { credit_debit: Some(text), ..b }
        } else if tail == "Ntry|BookgDt|Dt"@ {
            EntryView { booking: iso_date_parse(text), ..b }
        } else if tail == "Ntry|ValDt|Dt"@ {
            EntryView { value: iso_date_parse(text), ..b }
        } else if tail == "Ntry|AcctSvcrRef"@ {
            EntryView { bank_reference: Some(text), ..b }
        } else {
            b
        };
        let b2 = if ends_with(tail, "RmtInf|Strd|CdtrRefInf|Ref"@) {
            EntryView { reference: Some(text), ..b1 }
        } else if ends_with(tail, "RmtInf|Ustrd"@) || ends_with(tail, "AddtlNtryInf"@) {
            if b1.description is None {
                EntryView { description: Some(text), ..b1 }
            } else {
                b1
            }
        } else if contains(tail, "RltdPties|Dbtr|Nm"@) || contains(tail, "RltdPties|Cdtr|Nm"@) {
            EntryView { counterparty_name: Some(text), ..b1 }
        } else if contains(tail, "RltdPties|DbtrAcct|Id|IBAN"@) || contains(
            tail,
            "RltdPties|CdtrAcct|Id|IBAN"@,
        ) {
            EntryView { counterparty_iban: Some(text), ..b1 }
        } else {
            b1
        };
        if b2.currency is None {
            EntryView { currency: Some("CHF"@), ..b2 }
        } else {
            b2
        }
    }
}

/// A transaction as the contracts see it: dates, amount, currency,
/// description, counterparty name and IBAN, reference, bank reference.
pub struct TxView {
    pub transaction_date: (int, int, int),
    pub value_date: (int, int, int),
    pub amount: (int, nat),
    pub currency: Seq<char>,
    pub description: Seq<char>,
    pub counterparty_name: Option<Seq<char>>,
    pub counterparty_iban: Option<Seq<char>>,
    pub reference: Option<Seq<char>>,
    pub bank_reference: Option<Seq<char>>,
}

impl ParsedTransaction {
    pub open spec fn view(&self) -> TxView {
        TxView {
            transaction_date: (
                self.transaction_date.0 as int,
                self.transaction_date.1 as int,
                self.transaction_date.2 as int,
            ),
            value_date: (
                self.value_date.0 as int,
                self.value_date.1 as int,
                self.value_date.2 as int,
            ),
            amount: self.amount@,
            currency: self.currency@,
            description: self.description@,
            counterparty_name: os(self.counterparty_name),
            counterparty_iban: os(self.counterparty_iban),
            reference: os(self.reference),
            bank_reference: os(self.bank_reference),
        }
    }
}

/// The transaction of a finished entry: none without a booking date or an
/// amount; the value date defaults to the booking date, a debit (`DBIT`)
/// turns the amount negative, the currency defaults to CHF and the
/// description to empty.
pub open spec fn build_spec(b: EntryView) -> Option<TxView> {
    match (b.booking, b.amount) {
        (Some(booking), Some(amount)) => Some(
            TxView {
                transaction_date: booking,
                value_date: match b.value {
                    Some(v) => v,
                    None => booking,
                },
                amount: if b.credit_debit == Some("DBIT"@) {
                    (-amount.0, amount.1)
                } else {
                    amount
                },
                currency: match b.currency {
                    Some(c) => c,
                    None => "CHF"@,
                },
                description: match b.description {
                    Some(d) => d,
                    None => Seq::empty(),
                },
                counterparty_name: b.counterparty_name,
                counterparty_iban: b.counterparty_iban,
                reference: b.reference,
                bank_reference: b.bank_reference,
            },
        ),
        _ => None,
    }
}

/// An event as the contracts see it: its kind (0 start, 1 end, 2 text,
/// 3 end of document, 4 error, 5 other) and its text.
pub open spec fn event_view(e: XmlEvent) -> (int, Seq<char>) {
    match e {
        XmlEvent::Start(s, _) => (0, s@),
        XmlEvent::End(s) => (1, s@),
        XmlEvent::Text(s) => (2, s@),
        XmlEvent::Eof => (3, Seq::empty()),
        XmlEvent::Error(s) => (4, s@),
        XmlEvent::Other => (5, Seq::empty()),
        XmlEvent::Empty(_, _) => (5, Seq::empty()),
    }
}

pub open spec fn attrs_view(a: Seq<(String, String)>) -> Seq<(Seq<char>, Seq<char>)> {
    a.map_values(|p: (String, String)| (p.0@, p.1@))
}

/// An event in full (see `FullEvent`).
pub open spec fn full_view(e: XmlEvent) -> FullEvent {
    match e {
        XmlEvent::Start(s, a) => (0, s@, a@),
        XmlEvent::End(s) => (1, s@, Seq::empty()),
        XmlEvent::Text(s) => (2, s@, Seq::empty()),
        XmlEvent::Eof => (3, Seq::empty(), Seq::empty()),
        XmlEvent::Error(s) => (4, s@, Seq::empty()),
        XmlEvent::Other => (5, Seq::empty(), Seq::empty()),
        XmlEvent::Empty(s, a) => (6, s@, a@),
    }
}

pub open spec fn full_views(events: Seq<XmlEvent>) -> Seq<FullEvent> {
    events.map_values(|e: XmlEvent| full_view(e))
}

/// The events as a statement reads them: names and texts, an empty tag
/// counting as an event of no interest.
pub open spec fn statement_events(events: Seq<FullEvent>) -> Seq<(int, Seq<char>)> {
    events.map_values(
        |e: FullEvent|
            if e.0 == 6 {
                (5int, Seq::<char>::empty())
            } else {
                (e.0, e.1)
            },
    )
}

/// The reading state: the open elements, whether inside an entry, the
/// entry so far, the last text, and the transactions read.
pub struct ReadState {
    pub path: Seq<Seq<char>>,
    pub in_ntry: bool,
    pub entry: EntryView,
    pub text: Seq<char>,
    pub txs: Seq<TxView>,
}

pub open spec fn initial_state() -> ReadState {
    ReadState { path: Seq::empty(), in_ntry: false, entry: empty_entry(), text: Seq::empty(), txs: Seq::empty() }
}

/// One event applied to the state (the end of the document and errors
/// stop reading before this is applied).
pub open spec fn step(st: ReadState, e: (int, Seq<char>)) -> ReadState {
    if e.0 == 0 {
        ReadState {
            path: st.path.push(e.1),
            in_ntry: if e.1 == "Ntry"@ {
                true
            } else {
                st.in_ntry
            },
            entry: if e.1 == "Ntry"@ {
                empty_entry()
            } else {
                st.entry
            },
            text: Seq::empty(),
            ..st
        }
    } else if e.0 == 1 {
        let entry = if st.in_ntry {
            handle_end_spec(st.entry, st.path, st.text)
        } else {
            st.entry
        };
        let path = if st.path.len() > 0 {
            st.path.drop_last()
        } else {
            st.path
        };
        if e.1 == "Ntry"@ {
            ReadState {
                path,
                in_ntry: false,
                entry: empty_entry(),
                text: Seq::empty(),
                txs: match build_spec(entry) {
                    Some(t) => st.txs.push(t),
                    None => st.txs,
                },
            }
        } else {
            ReadState { path, entry, text: Seq::empty(), ..st }
        }
    } else if e.0 == 2 {
        ReadState { text: e.1, ..st }
    } else {
        st
    }
}

/// The state after the first `k` events, where none of them ended the
/// reading.
pub open spec fn state_after(events: Seq<(int, Seq<char>)>, k: int) -> ReadState
    decreases k,
{
    if k <= 0 {
        initial_state()
    } else {
        step(state_after(events, k - 1), events[k - 1])
    }
}

/// The first event, from `k` on, that ends the reading (end of document or
/// error).
pub open spec fn first_stop(events: Seq<(int, Seq<char>)>, k: int) -> Option<int>
    decreases events.len() - k,
{
    if k < 0 || k >= events.len() {
        None
    } else if events[k].0 == 3 || events[k].0 == 4 {
        Some(k)
    } else {
        first_stop(events, k + 1)
    }
}

/// What a statement's events give: at the first error, the error's
/// message; else the transactions read up to the end of the document.
pub open spec fn statement_of(events: Seq<(int, Seq<char>)>) -> Result<Seq<TxView>, Seq<char>> {
    match first_stop(events, 0) {
        Some(k) => if events[k].0 == 4 {
            Err("Invalid CAMT.053 XML: "@ + events[k].1)
        } else {
            Ok(state_after(events, k).txs)
        },
        None => Ok(state_after(events, events.len() as int).txs),
    }
}

fn clone_opt(o: &Option<String>) -> (r: Option<String>)
    ensures
        os(r) == os(*o),
{
    match o {
        Some(s) => Some(s.clone()),
        None => None,
    }
}

proof fn lemma_ntry_pos_range(path: Seq<Seq<char>>, k: int)
    ensures
        ntry_pos(path, k) matches Some(p) ==> k <= p < path.len(),
    decreases path.len() - k,
{
    if 0 <= k < path.len() {
        lemma_ntry_pos_range(path, k + 1);
    }
}

/// The texts of the path's elements.
pub open spec fn names(path: Seq<String>) -> Seq<Seq<char>> {
    path.map_values(|s: String| s@)
}

fn find_ntry(path: &Vec<String>) -> (r: Option<usize>)
    ensures
        match ntry_pos(names(path@), 0) {
            Some(p) => r == Some(p as usize) && p < path.len(),
            None => r is None,
        },
{
    let ghost pv = names(path@);
    let mut pos: usize = 0;
    while pos < path.len()
        invariant
            pos <= path.len(),
            pv == names(path@),
            ntry_pos(pv, 0) == ntry_pos(pv, pos as int),
        decreases path.len() - pos,
    {
        assert(pv[pos as int] == path@[pos as int]@);
        if str_eq(path[pos].as_str(), "Ntry") {
            return Some(pos);
        }
        pos = pos + 1;
    }
    None
}

/// The path from its first `Ntry` on (all of it where there is none),
/// joined with `|`.
pub fn path_tail(path: &Vec<String>) -> (r: String)
    ensures
        r@ == path_tail_spec(names(path@)),
{
    let ghost pv = names(path@);
    let found = find_ntry(path);
    let start = match found {
        Some(p) => p,
        None => 0,
    };
    proof {
        lemma_ntry_pos_range(pv, 0);
        match ntry_pos(pv, 0) {
            Some(p) => {
                assert(found == Some(p as usize));
                assert(start == p);
            },
            None => {},
        }
    }
    assert(start <= path.len());
    let ghost parts = pv.skip(start as int);
    let mut out: Vec<char> = Vec::new();
    let mut k: usize = start;
    assert(parts.take(0) =~= Seq::<Seq<char>>::empty());
    while k < path.len()
        invariant
            start <= k <= path.len(),
            pv == names(path@),
            parts == pv.skip(start as int),
            out@ == join_bar(parts.take(k - start)),
        decreases path.len() - k,
    {
        assert(parts.take(k + 1 - start).drop_last() =~= parts.take(k - start));
        if k > start {
            push_str(&mut out, "|");
        } else {
            assert(parts.take(k + 1 - start).len() == 1);
        }
        let part = chars_of(path[k].as_str());
        push_all(&mut out, &part);
        assert(parts.take(k + 1 - start).last() == path@[k as int]@);
        k = k + 1;
    }
    assert(parts.take(path.len() - start) =~= parts);
    assert(pv.skip(0) =~= pv);
    string_of(&out)
}

fn ends_with_str(s: &str, suffix: &str) -> (b: bool)
    ensures
        b == ends_with(s@, suffix@),
{
    let v = chars_of(s);
    let w = chars_of(suffix);
    if w.len() > v.len() {
        return false;
    }
    let off = v.len() - w.len();
    let mut i: usize = 0;
    while i < w.len()
        invariant
            w.len() <= v.len(),
            off == v.len() - w.len(),
            v@ == s@,
            w@ == suffix@,
            i <= w.len(),
            forall|j: int| 0 <= j < i ==> v@[off + j] == w@[j],
        decreases w.len() - i,
    {
        if v[off + i] != w[i] {
            assert(v@.skip(off as int)[i as int] != w@[i as int]);
            return false;
        }
        i = i + 1;
    }
    assert(v@.skip(off as int) =~= w@);
    true
}

impl EntryBuilder {
    /// Records the end of an element inside an entry (see
    /// `handle_end_spec`).
    pub fn handle_end(&mut self, path: &Vec<String>, text: &str)
        requires
            old(self).wf(),
        ensures
            final(self).wf(),
            final(self).view() == handle_end_spec(
                old(self).view(),
                names(path@),
                text@,
            ),
    {
        if text.unicode_len() == 0 {
            return;
        }
        let tail = path_tail(path);
        let t = tail.as_str();
        proof {
            reveal_strlit("Ntry|Amt");
            reveal_strlit("Ntry|CdtDbtInd");
            reveal_strlit("Ntry|BookgDt|Dt");
            reveal_strlit("Ntry|ValDt|Dt");
            reveal_strlit("Ntry|AcctSvcrRef");
        }
        if str_eq(t, "Ntry|Amt") {
            self.amount = parse_decimal(text);
        } else if str_eq(t, "Ntry|CdtDbtInd") {
            self.credit_debit = Some(text.to_owned());
        } else if str_eq(t, "Ntry|BookgDt|Dt") {
            self.booking_date = parse_iso_date(text);
        } else if str_eq(t, "Ntry|ValDt|Dt") {
            self.value_date = parse_iso_date(text);
        } else if str_eq(t, "Ntry|AcctSvcrRef") {
            self.bank_reference = Some(text.to_owned());
        }
        if ends_with_str(t, "RmtInf|Strd|CdtrRefInf|Ref") {
            self.reference = Some(text.to_owned());
        } else if ends_with_str(t, "RmtInf|Ustrd") || ends_with_str(t, "AddtlNtryInf") {
            if self.description.is_none() {
                self.description = Some(text.to_owned());
            }
        } else if str_contains(t, "RltdPties|Dbtr|Nm") || str_contains(t, "RltdPties|Cdtr|Nm") {
            self.counterparty_name = Some(text.to_owned());
        } else if str_contains(t, "RltdPties|DbtrAcct|Id|IBAN") || str_contains(
            t,
            "RltdPties|CdtrAcct|Id|IBAN",
        ) {
            self.counterparty_iban = Some(text.to_owned());
        }
        if self.currency.is_none() {
            self.currency = Some("CHF".to_owned());
        }
    }

    /// The transaction of a finished entry (see `build_spec`).
    pub fn build(&self) -> (r: Option<ParsedTransaction>)
        requires
            self.wf(),
        ensures
            match build_spec(self.view()) {
                Some(t) => r matches Some(x) && x.view() == t,
                None => r is None,
            },
    {
        let booking = match self.booking_date {
            Some(d) => d,
            None => return None,
        };
        let mut amount = match self.amount {
            Some(a) => a,
            None => return None,
        };
        let value = match self.value_date {
            Some(v) => v,
            None => booking,
        };
        let debit = match &self.credit_debit {
            Some(cd) => str_eq(cd.as_str(), "DBIT"),
            None => false,
        };
        if debit {
            amount = Amount { mantissa: -amount.mantissa, scale: amount.scale };
        }
        Some(
            ParsedTransaction {
                transaction_date: booking,
                value_date: value,
                amount,
                currency: match &self.currency {
                    Some(c) => c.clone(),
                    None => "CHF".to_owned(),
                },
                description: match &self.description {
                    Some(d) => d.clone(),
                    None => String::new(),
                },
                counterparty_name: clone_opt(&self.counterparty_name),
                counterparty_iban: clone_opt(&self.counterparty_iban),
                reference: clone_opt(&self.reference),
                bank_reference: clone_opt(&self.bank_reference),
            },
        )
    }
}

/// The events as the contracts see them.
pub open spec fn event_views(events: Seq<XmlEvent>) -> Seq<(int, Seq<char>)> {
    events.map_values(|e: XmlEvent| event_view(e))
}

pub open spec fn tx_views(txs: Seq<ParsedTransaction>) -> Seq<TxView> {
    txs.map_values(|t: ParsedTransaction| t.view())
}

/// A reading's result as the contracts see it: the transactions, or the
/// error's message.
pub open spec fn outcome(r: Result<Vec<ParsedTransaction>, AppError>) -> Result<Seq<TxView>, Seq<char>> {
    match r {
        Ok(v) => Ok(tx_views(v@)),
        Err(e) => Err(e.kind_and_message().1),
    }
}

impl BankImportService {
    /// The transactions of a statement's events (see `statement_of`): the
    /// events are read in order up to the end of the document; the first
    /// reading error makes the statement invalid.
    pub fn parse_events(events: &Vec<XmlEvent>) -> (r: Result<Vec<ParsedTransaction>, AppError>)
        ensures
            match statement_of(event_views(events@)) {
                Ok(txs) => r matches Ok(v) && tx_views(v@) == txs,
                Err(m) => r matches Err(e) && e.kind_and_message() == (ErrorKind::Validation, m),
            },
            statement_of(event_views(events@)) == outcome(r),
    {
        let ghost ev = event_views(events@);
        let mut path: Vec<String> = Vec::new();
        let mut in_ntry = false;
        let mut entry = EntryBuilder::new();
        let mut text = String::new();
        let mut txs: Vec<ParsedTransaction> = Vec::new();
        let mut k: usize = 0;
        while k < events.len()
            invariant
                k <= events.len(),
                ev == event_views(events@),
                first_stop(ev, 0) == first_stop(ev, k as int),
                entry.wf(),
                ({
                    let st = state_after(ev, k as int);
                    &&& names(path@) == st.path
                    &&& in_ntry == st.in_ntry
                    &&& entry.view() == st.entry
                    &&& text@ == st.text
                    &&& tx_views(txs@) == st.txs
                }),
            decreases events.len() - k,
        {
            assert(ev[k as int] == event_view(events@[k as int]));
            match &events[k] {
                XmlEvent::Eof => {
                    proof {
                        assert(first_stop(ev, k as int) == Some(k as int));
                    }
                    return Ok(txs);
                },
                XmlEvent::Error(m) => {
                    proof {
                        assert(first_stop(ev, k as int) == Some(k as int));
                    }
                    let mut msg = "Invalid CAMT.053 XML: ".to_owned();
                    msg.append(m.as_str());
                    return Err(AppError::Validation(msg));
                },
                XmlEvent::Start(name, _) => {
                    path.push(name.clone());
                    if str_eq(name.as_str(), "Ntry") {
                        in_ntry = true;
                        entry = EntryBuilder::new();
                    }
                    text = String::new();
                    proof {
                        assert(names(path@) =~= state_after(ev, k as int).path.push(name@));
                    }
                },
                XmlEvent::End(name) => {
                    if in_ntry {
                        entry.handle_end(&path, text.as_str());
                    }
                    if str_eq(name.as_str(), "Ntry") {
                        let built = entry.build();
                        let ghost txs0 = txs@;
                        match built {
                            Some(t) => {
                                txs.push(t);
                                proof {
                                    assert(tx_views(txs@) =~= tx_views(txs0).push(t.view()));
                                }
                            },
                            None => {},
                        }
                        entry = EntryBuilder::new();
                        in_ntry = false;
                    }
                    let ghost p0 = path@;
                    let _ = path.pop();
                    proof {
                        if p0.len() > 0 {
                            assert(names(path@) =~= names(p0).drop_last());
                        }
                    }
                    text = String::new();
                },
                XmlEvent::Text(t) => {
                    text = t.clone();
                },
                XmlEvent::Other => {},
                XmlEvent::Empty(_, _) => {},
            }
            k = k + 1;
        }
        Ok(txs)
    }

    /// Reads a CAMT.053 statement: the events of the text (see
    /// `document_events`), in order, are handed to `parse_events`.
    pub fn parse_camt053(xml: &str) -> (r: Result<Vec<ParsedTransaction>, AppError>)
        ensures
            statement_of(statement_events(document_events(xml@))) == outcome(r),
            match statement_of(statement_events(document_events(xml@))) {
                Ok(txs) => r matches Ok(v) && tx_views(v@) == txs,
                Err(m) => r matches Err(e) && e.kind_and_message() == (ErrorKind::Validation, m),
            },
    {
        let events = xml_document_events(xml);
        proof {
            assert(event_views(events@) =~= statement_events(full_views(events@)));
        }
        Self::parse_events(&events)
    }
}

/// The text of a related party's name, the debtor's or the creditor's,
/// ends up as the entry's counterparty name: wherever the path from `Ntry`
/// runs through `RltdPties|Dbtr|Nm` or `RltdPties|Cdtr|Nm` and the element
/// is no reference or description element.
pub proof fn lemma_party_name_is_counterparty(b: EntryView, path: Seq<Seq<char>>, text: Seq<char>)
    requires
        text.len() > 0,
        contains(path_tail_spec(path), "RltdPties|Dbtr|Nm"@) || contains(
            path_tail_spec(path),
            "RltdPties|Cdtr|Nm"@,
        ),
        !ends_with(path_tail_spec(path), "RmtInf|Strd|CdtrRefInf|Ref"@),
        !ends_with(path_tail_spec(path), "RmtInf|Ustrd"@),
        !ends_with(path_tail_spec(path), "AddtlNtryInf"@),
    ensures
        handle_end_spec(b, path, text).counterparty_name == Some(text),
        handle_end_spec(b, path, text).counterparty_iban == b.counterparty_iban,
        handle_end_spec(b, path, text).description == b.description,
        handle_end_spec(b, path, text).reference == b.reference,
{
}

/// The text of a related party's account IBAN, the debtor's or the
/// creditor's, ends up as the entry's counterparty IBAN, where the element
/// is no name, reference or description element.
pub proof fn lemma_party_iban_is_counterparty(b: EntryView, path: Seq<Seq<char>>, text: Seq<char>)
    requires
        text.len() > 0,
        contains(path_tail_spec(path), "RltdPties|DbtrAcct|Id|IBAN"@) || contains(
            path_tail_spec(path),
            "RltdPties|CdtrAcct|Id|IBAN"@,
        ),
        !contains(path_tail_spec(path), "RltdPties|Dbtr|Nm"@),
        !contains(path_tail_spec(path), "RltdPties|Cdtr|Nm"@),
        !ends_with(path_tail_spec(path), "RmtInf|Strd|CdtrRefInf|Ref"@),
        !ends_with(path_tail_spec(path), "RmtInf|Ustrd"@),
        !ends_with(path_tail_spec(path), "AddtlNtryInf"@),
    ensures
        handle_end_spec(b, path, text).counterparty_iban == Some(text),
        handle_end_spec(b, path, text).counterparty_name == b.counterparty_name,
{
}

/// A structured creditor reference is recorded as the reference; the
/// first unstructured remittance or additional information is recorded as
/// the description, and a later one leaves it as it was.
pub proof fn lemma_reference_and_description(b: EntryView, path: Seq<Seq<char>>, text: Seq<char>)
    requires
        text.len() > 0,
    ensures
        ends_with(path_tail_spec(path), "RmtInf|Strd|CdtrRefInf|Ref"@) ==> handle_end_spec(
            b,
            path,
            text,
        ).reference == Some(text),
        !ends_with(path_tail_spec(path), "RmtInf|Strd|CdtrRefInf|Ref"@) && (ends_with(
            path_tail_spec(path),
            "RmtInf|Ustrd"@,
        ) || ends_with(path_tail_spec(path), "AddtlNtryInf"@)) ==> handle_end_spec(
            b,
            path,
            text,
        ).description == (if b.description is None {
            Some(text)
        } else {
            b.description
        }),
{
}

/// Empty text records nothing; otherwise an entry without a currency gets
/// CHF, and one with a currency keeps it.
pub proof fn lemma_empty_text_and_currency(b: EntryView, path: Seq<Seq<char>>, text: Seq<char>)
    ensures
        text.len() == 0 ==> handle_end_spec(b, path, text) == b,
        text.len() > 0 && b.currency is None ==> handle_end_spec(b, path, text).currency == Some(
            "CHF"@,
        ),
        b.currency is Some ==> handle_end_spec(b, path, text).currency == b.currency,
{
}

/// The elements directly below an entry record its fields: the amount, the
/// credit/debit indicator, the booking and value dates, and the bank
/// reference, each from its own element and from no other.
pub proof fn lemma_entry_fields(b: EntryView, path: Seq<Seq<char>>, text: Seq<char>)
    requires
        text.len() > 0,
    ensures
        path_tail_spec(path) == "Ntry|Amt"@ ==> handle_end_spec(b, path, text).amount == dec_parse(
            text,
        ),
        path_tail_spec(path) != "Ntry|Amt"@ ==> handle_end_spec(b, path, text).amount == b.amount,
        path_tail_spec(path) == "Ntry|CdtDbtInd"@ ==> handle_end_spec(b, path, text).credit_debit
            == Some(text),
        path_tail_spec(path) != "Ntry|CdtDbtInd"@ ==> handle_end_spec(b, path, text).credit_debit
            == b.credit_debit,
        path_tail_spec(path) == "Ntry|BookgDt|Dt"@ ==> handle_end_spec(b, path, text).booking
            == iso_date_parse(text),
        path_tail_spec(path) != "Ntry|BookgDt|Dt"@ ==> handle_end_spec(b, path, text).booking
            == b.booking,
        path_tail_spec(path) == "Ntry|ValDt|Dt"@ ==> handle_end_spec(b, path, text).value
            == iso_date_parse(text),
        path_tail_spec(path) != "Ntry|ValDt|Dt"@ ==> handle_end_spec(b, path, text).value == b.value,
        path_tail_spec(path) == "Ntry|AcctSvcrRef"@ ==> handle_end_spec(b, path, text).bank_reference
            == Some(text),
        path_tail_spec(path) != "Ntry|AcctSvcrRef"@ ==> handle_end_spec(
            b,
            path,
            text,
        ).bank_reference == b.bank_reference,
{
    reveal_strlit("Ntry|Amt");
    reveal_strlit("Ntry|CdtDbtInd");
    reveal_strlit("Ntry|BookgDt|Dt");
    reveal_strlit("Ntry|ValDt|Dt");
    reveal_strlit("Ntry|AcctSvcrRef");
}

} // verus!
