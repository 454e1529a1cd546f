//! Import of journal entries from a spreadsheet export.
use vstd::prelude::*;

use crate::accounts_csv::opt_view;
use crate::error::{AppError, ErrorKind};
use crate::import_service::{account_number_of, parse_account_number};
use crate::numeric::{parse_i32, parse_i32_spec};
use crate::sheet::{get_field, sheet_error, sheet_failure, sheet_field, Cell, SheetOutcome};
use crate::text::chars_of;

verus! {

/// A journal entry read from the spreadsheet.
pub struct JournalRow {
    pub bexio_id: Option<i32>,
    pub date: String,
    pub reference: Option<String>,
    pub debit_account: Option<i32>,
    pub credit_account: Option<i32>,
    pub description: Option<String>,
    pub amount: Option<String>,
    pub currency: Option<String>,
    pub exchange_rate: Option<String>,
    pub base_amount: Option<String>,
    pub base_currency: Option<String>,
    pub vat_code: Option<String>,
}

/// `(bexio id, date, debit account, credit account, [reference,
/// description, amount, currency, exchange rate, base amount, base
/// currency, VAT code])`.
pub type JournalRowView = (Option<i32>, Seq<char>, Option<i32>, Option<i32>, Seq<Option<Seq<char>>>);

impl View for JournalRow {
    type V = JournalRowView;

    open spec fn view(&self) -> JournalRowView {
        (
            self.bexio_id,
            self.date@,
            self.debit_account,
            self.credit_account,
            seq![
                opt_view(self.reference),
                opt_view(self.description),
                opt_view(self.amount),
                opt_view(self.currency),
                opt_view(self.exchange_rate),
                opt_view(self.base_amount),
                opt_view(self.base_currency),
                opt_view(self.vat_code),
            ],
        )
    }
}

pub open spec fn parsed_i32(t: Option<Seq<char>>) -> Option<i32> {
    match t {
        Some(s) => parse_i32_spec(s),
        None => None,
    }
}

pub open spec fn parsed_account(t: Option<Seq<char>>) -> Option<i32> {
    match t {
        Some(s) => account_number_of(s),
        None => None,
    }
}

/// The journal entry of one row: accounts are the numbers at the start of
/// the "Soll" and "Haben" cells.
pub open spec fn journal_row_of(h: Seq<Cell>, row: Seq<Cell>) -> JournalRowView {
    (
        parsed_i32(sheet_field(h, row, "Id"@)),
        match sheet_field(h, row, "Datum"@) {
            Some(d) => d,
            None => seq![],
        },
        parsed_account(sheet_field(h, row, "Soll"@)),
        parsed_account(sheet_field(h, row, "Haben"@)),
        seq![
            sheet_field(h, row, "Referenz"@),
            sheet_field(h, row, "Beschreibung"@),
            sheet_field(h, row, "Betrag"@),
            sheet_field(h, row, "Buchungswährung"@),
            sheet_field(h, row, "Umrechnungsfaktor"@),
            sheet_field(h, row, "Betrag in Basiswährung"@),
            sheet_field(h, row, "Währung in Basiswährung"@),
            sheet_field(h, row, "MWST"@),
        ],
    )
}

/// The entries of all rows after the header row.
pub open spec fn journal_rows_of(rows: Seq<Vec<Cell>>) -> Seq<JournalRowView> {
    rows.skip(1).map_values(|r: Vec<Cell>| journal_row_of(rows[0]@, r@))
}

pub open spec fn journal_view(v: Seq<JournalRow>) -> Seq<JournalRowView> {
    v.map_values(|r: JournalRow| r@)
}

fn parse_opt_i32(t: Option<String>) -> (r: Option<i32>)
    ensures
        r == parsed_i32(opt_view(t)),
{
    match t {
        Some(s) => parse_i32(&chars_of(s.as_str())),
        None => None,
    }
}

fn parse_opt_account(t: Option<String>) -> (r: Option<i32>)
    ensures
        r == parsed_account(opt_view(t)),
{
    match t {
        Some(s) => parse_account_number(s.as_str()),
        None => None,
    }
}

fn journal_row(h: &Vec<Cell>, row: &Vec<Cell>) -> (r: JournalRow)
    ensures
        r@ == journal_row_of(h@, row@),
{
    let date = match get_field(h, row, "Datum") {
        Some(d) => d,
        None => String::new(),
    };
    let r = JournalRow {
        bexio_id: parse_opt_i32(get_field(h, row, "Id")),
        date,
        reference: get_field(h, row, "Referenz"),
        debit_account: parse_opt_account(get_field(h, row, "Soll")),
        credit_account: parse_opt_account(get_field(h, row, "Haben")),
        description: get_field(h, row, "Beschreibung"),
        amount: get_field(h, row, "Betrag"),
        currency: get_field(h, row, "Buchungswährung"),
        exchange_rate: get_field(h, row, "Umrechnungsfaktor"),
        base_amount: get_field(h, row, "Betrag in Basiswährung"),
        base_currency: get_field(h, row, "Währung in Basiswährung"),
        vat_code: get_field(h, row, "MWST"),
    };
    assert(r@.4 =~= journal_row_of(h@, row@).4);
    r
}

/// The journal entries of a read workbook, or the bad request for a
/// workbook that could not be read or has no header row.
pub fn journal_rows_from_sheet(sheet: &SheetOutcome) -> (r: Result<Vec<JournalRow>, AppError>)
    ensures
        match sheet_error(*sheet) {
            Some(m) => r matches Err(e) && e.kind_and_message() == (ErrorKind::BadRequest, m),
            None => sheet matches SheetOutcome::Rows(rows) && r matches Ok(v) && journal_view(v@)
                == journal_rows_of(rows@),
        },
{
    if let Some(e) = sheet_failure(sheet) {
        return Err(e);
    }
    match sheet {
        SheetOutcome::Rows(rows) => {
            let header = &rows[0];
            let ghost f = |r: Vec<Cell>| journal_row_of(rows@[0]@, r@);
            let mut out: Vec<JournalRow> = Vec::new();
            let mut i: usize = 1;
            while i < rows.len()
                invariant
                    1 <= i <= rows.len(),
                    header@ == rows@[0]@,
                    f == (|r: Vec<Cell>| journal_row_of(rows@[0]@, r@)),
                    journal_view(out@) == rows@.subrange(1, i as int).map_values(f),
                decreases rows.len() - i,
            {
                let j = journal_row(header, &rows[i]);
                let ghost before = out@;
                out.push(j);
                assert(rows@.subrange(1, i + 1) =~= rows@.subrange(1, i as int).push(rows@[i as int]));
                assert(journal_view(out@) =~= journal_view(before).push(j@));
                assert(rows@.subrange(1, i + 1).map_values(f) =~= rows@.subrange(1, i as int).map_values(
                    f,
                ).push(f(rows@[i as int])));
                i = i + 1;
            }
            assert(rows@.subrange(1, rows.len() as int) =~= rows@.skip(1));
            Ok(out)
        },
        _ => {
            assert(false);
            Err(AppError::BadRequest(String::new()))
        },
    }
}

} // verus!
