//! Import of a chart of accounts from CSV (comma- or semicolon-separated).
use vstd::prelude::*;

use crate::csv_table::{
    csv_read, first_word, first_word_of, lookup, lookup_spec, names_view, read_csv, CsvOutcome,
    CsvOutcomeView,
};
use crate::error::{message, AppError, ErrorKind};
use crate::numeric::{int_text, parse_i32, parse_i32_spec, push_i64};
use crate::text::{chars_of, push_str, str_eq, string_of};

verus! {

/// One account read from the file.
pub struct AccountRow {
    pub number: i32,
    pub name: String,
    pub account_type: String,
    pub description: Option<String>,
}

/// `(number, name, account type, description)`.
pub type AccountRowView = (i32, Seq<char>, Seq<char>, Option<Seq<char>>);

pub open spec fn opt_view(o: Option<String>) -> Option<Seq<char>> {
    match o {
        Some(s) => Some(s@),
        None => None,
    }
}

impl View for AccountRow {
    type V = AccountRowView;

    open spec fn view(&self) -> AccountRowView {
        (self.number, self.name@, self.account_type@, opt_view(self.description))
    }
}

/// The Swiss KMU account type of an account number.
pub open spec fn account_type_of(number: i32) -> Seq<char> {
    if 1 <= number <= 1999 {
        "asset"@
    } else if 2000 <= number <= 2799 {
        "liability"@
    } else if 2800 <= number <= 2999 {
        "equity"@
    } else if 3000 <= number <= 3999 {
        "revenue"@
    } else {
        "expense"@
    }
}

/// Infers the Swiss KMU account type from an account number.
fn infer_account_type(number: i32) -> (r: &'static str)
    ensures
        r@ == account_type_of(number),
{
    if 1 <= number && number <= 1999 {
        "asset"
    } else if 2000 <= number && number <= 2799 {
        "liability"
    } else if 2800 <= number && number <= 2999 {
        "equity"
    } else if 3000 <= number && number <= 3999 {
        "revenue"
    } else {
        "expense"
    }
}

pub open spec fn number_columns() -> Seq<Seq<char>> {
    seq!["number"@, "Number"@, "Konto"@, "Nr"@, "Nr."@, "Account"@]
}

pub open spec fn name_columns() -> Seq<Seq<char>> {
    seq!["name"@, "Name"@, "Bezeichnung"@, "Description"@]
}

pub open spec fn type_columns() -> Seq<Seq<char>> {
    seq!["type"@, "Type"@, "Typ"@, "account_type"@]
}

pub open spec fn description_columns() -> Seq<Seq<char>> {
    seq!["description"@, "Description"@, "Beschreibung"@]
}

/// The account that one record describes: its number is the first word of
/// the number column ("1020 - Bank UBS" gives 1020); a record without a
/// readable number is skipped. The name defaults to "Account <number>",
/// the type to the one the number implies.
pub open spec fn account_of(h: Seq<Seq<char>>, rec: Seq<Seq<char>>) -> Option<AccountRowView> {
    match lookup_spec(h, rec, number_columns()) {
        None => None,
        Some(ns) => match first_word(ns) {
            None => None,
            Some(w) => match parse_i32_spec(w) {
                None => None,
                Some(n) => Some(
                    (
                        n,
                        match lookup_spec(h, rec, name_columns()) {
                            Some(v) => v,
                            None => "Account "@ + int_text(n as int),
                        },
                        match lookup_spec(h, rec, type_columns()) {
                            Some(v) => v,
                            None => account_type_of(n),
                        },
                        lookup_spec(h, rec, description_columns()),
                    ),
                ),
            },
        },
    }
}

/// The accounts of all records, in order, skipping records without a number.
pub open spec fn accounts_of(h: Seq<Seq<char>>, recs: Seq<Seq<Seq<char>>>) -> Seq<AccountRowView>
    decreases recs.len(),
{
    if recs.len() == 0 {
        seq![]
    } else {
        match account_of(h, recs.last()) {
            Some(a) => accounts_of(h, recs.drop_last()).push(a),
            None => accounts_of(h, recs.drop_last()),
        }
    }
}

/// Whether a header row names the number column in one of the forms that
/// select the comma-separated reading.
pub open spec fn has_number_header(h: Seq<Seq<char>>) -> bool {
    exists|i: int|
        0 <= i < h.len() && (h[i] == "number"@ || h[i] == "Number"@ || h[i] == "Konto"@ || h[i]
            == "Nr"@)
}

/// The accounts read from a table, or the message of a bad request.
pub open spec fn accounts_from_table(t: CsvOutcomeView) -> Result<Seq<AccountRowView>, Seq<char>> {
    if t.0 == 1 {
        Err("Invalid CSV: "@ + t.3)
    } else if t.0 == 2 {
        Err("CSV parse error: "@ + t.3)
    } else {
        Ok(accounts_of(t.1, t.2))
    }
}

/// The accounts of a file read with commas, or, when its header row has no
/// number column, read with semicolons.
pub open spec fn accounts_from_csv(comma: CsvOutcomeView, semicolon: CsvOutcomeView) -> Result<
    Seq<AccountRowView>,
    Seq<char>,
> {
    if comma.0 == 1 {
        Err("Invalid CSV: "@ + comma.3)
    } else if !has_number_header(comma.1) {
        accounts_from_table(semicolon)
    } else {
        accounts_from_table(comma)
    }
}

pub open spec fn rows_view(rows: Seq<AccountRow>) -> Seq<AccountRowView> {
    rows.map_values(|r: AccountRow| r@)
}

/// Parses a chart of accounts; the file is read with commas, and with
/// semicolons when its header row has no number column.
pub fn parse_accounts_csv(data: &[u8]) -> (r: Result<Vec<AccountRow>, AppError>)
    ensures
        match accounts_from_csv(csv_read(data@, 44u8), csv_read(data@, 59u8)) {
            Ok(rows) => r matches Ok(v) && rows_view(v@) == rows,
            Err(m) => r matches Err(e) && e.kind_and_message() == (ErrorKind::BadRequest, m),
        },
{
    let comma = read_csv(data, 44u8);
    let has_number = match &comma {
        CsvOutcome::HeaderError(m) => {
            return Err(AppError::BadRequest(message("Invalid CSV: ", m.as_str())));
        },
        CsvOutcome::Table(h, _) => has_number_column(h),
        CsvOutcome::RecordError(h, _) => has_number_column(h),
    };
    if !has_number {
        let semicolon = read_csv(data, 59u8);
        return rows_from_table(&semicolon);
    }
    rows_from_table(&comma)
}

/// Whether the header row holds "number", "Number", "Konto" or "Nr".
fn has_number_column(h: &Vec<String>) -> (b: bool)
    ensures
        b == has_number_header(h.deep_view()),
{
    let ghost hv = h.deep_view();
    let mut i: usize = 0;
    while i < h.len()
        invariant
            i <= h.len(),
            hv == h.deep_view(),
            hv.len() == h.len(),
            forall|j: int|
                0 <= j < i ==> !(hv[j] == "number"@ || hv[j] == "Number"@ || hv[j] == "Konto"@
                    || hv[j] == "Nr"@),
        decreases h.len() - i,
    {
        assert(hv[i as int] == h@[i as int]@);
        let s = h[i].as_str();
        if str_eq(s, "number") || str_eq(s, "Number") || str_eq(s, "Konto") || str_eq(s, "Nr") {
            return true;
        }
        i = i + 1;
    }
    false
}

pub fn rows_from_table(t: &CsvOutcome) -> (r: Result<Vec<AccountRow>, AppError>)
    ensures
        match accounts_from_table(t@) {
            Ok(rows) => r matches Ok(v) && rows_view(v@) == rows,
            Err(m) => r matches Err(e) && e.kind_and_message() == (ErrorKind::BadRequest, m),
        },
{
    match t {
        CsvOutcome::HeaderError(m) => Err(AppError::BadRequest(message("Invalid CSV: ", m.as_str()))),
        CsvOutcome::RecordError(_, m) => Err(
            AppError::BadRequest(message("CSV parse error: ", m.as_str())),
        ),
        CsvOutcome::Table(h, recs) => Ok(parse_rows(h, recs)),
    }
}

fn number_column_names() -> (r: Vec<&'static str>)
    ensures
        names_view(r@) == number_columns(),
{
    let r = vec!["number", "Number", "Konto", "Nr", "Nr.", "Account"];
    assert(names_view(r@) =~= number_columns());
    r
}

fn name_column_names() -> (r: Vec<&'static str>)
    ensures
        names_view(r@) == name_columns(),
{
    let r = vec!["name", "Name", "Bezeichnung", "Description"];
    assert(names_view(r@) =~= name_columns());
    r
}

fn type_column_names() -> (r: Vec<&'static str>)
    ensures
        names_view(r@) == type_columns(),
{
    let r = vec!["type", "Type", "Typ", "account_type"];
    assert(names_view(r@) =~= type_columns());
    r
}

fn description_column_names() -> (r: Vec<&'static str>)
    ensures
        names_view(r@) == description_columns(),
{
    let r = vec!["description", "Description", "Beschreibung"];
    assert(names_view(r@) =~= description_columns());
    r
}

/// The account of one record, if it has a readable number.
fn account_row(headers: &Vec<String>, record: &Vec<String>) -> (r: Option<AccountRow>)
    ensures
        match account_of(headers.deep_view(), record.deep_view()) {
            Some(a) => r matches Some(x) && x@ == a,
            None => r is None,
        },
{
    let number_str = match lookup(headers, record, number_column_names().as_slice()) {
        Some(s) => s,
        None => return None,
    };
    let word = match first_word_of(&chars_of(number_str.as_str())) {
        Some(w) => w,
        None => return None,
    };
    let number = match parse_i32(&word) {
        Some(n) => n,
        None => return None,
    };
    let name = match lookup(headers, record, name_column_names().as_slice()) {
        Some(v) => v,
        None => {
            let mut out: Vec<char> = Vec::new();
            push_str(&mut out, "Account ");
            push_i64(&mut out, number as i64);
            string_of(&out)
        },
    };
    let account_type = match lookup(headers, record, type_column_names().as_slice()) {
        Some(v) => v,
        None => infer_account_type(number).to_owned(),
    };
    let description = lookup(headers, record, description_column_names().as_slice());
    Some(AccountRow { number, name, account_type, description })
}

/// The accounts of all records that carry a readable account number.
pub fn parse_rows(headers: &Vec<String>, records: &Vec<Vec<String>>) -> (r: Vec<AccountRow>)
    ensures
        rows_view(r@) == accounts_of(headers.deep_view(), records.deep_view()),
{
    let ghost hv = headers.deep_view();
    let ghost rv = records.deep_view();
    let mut rows: Vec<AccountRow> = Vec::new();
    let mut i: usize = 0;
    while i < records.len()
        invariant
            i <= records.len(),
            hv == headers.deep_view(),
            rv == records.deep_view(),
            rv.len() == records.len(),
            rows_view(rows@) == accounts_of(hv, rv.take(i as int)),
        decreases records.len() - i,
    {
        assert(rv[i as int] == records@[i as int].deep_view());
        assert(rv.take(i + 1).drop_last() =~= rv.take(i as int));
        let ghost before = rows@;
        match account_row(headers, &records[i]) {
            Some(a) => {
                rows.push(a);
                assert(rows_view(rows@) =~= rows_view(before).push(a@));
            },
            None => {},
        }
        i = i + 1;
    }
    assert(rv.take(records.len() as int) =~= rv);
    rows
}

} // verus!
