//! Spreadsheet contents as plain values: the cells of the first worksheet,
//! and the lookup of a row's cell by the title in the header row.
use vstd::prelude::*;

use crate::error::{message, AppError, ErrorKind};
use crate::numeric::{int_text, push_i64};
use crate::text::{chars_of, str_eq, string_of, trim, trim_chars};

verus! {

/// One cell of a worksheet. Floating-point cells arrive as the text that
/// their `Display` gives.
pub enum Cell {
    Text(String),
    FloatText(String),
    Int(i64),
    Other,
}

/// The result of opening a workbook and reading its first worksheet.
pub enum SheetOutcome {
    /// The rows of the first worksheet, the header row first.
    Rows(Vec<Vec<Cell>>),
    /// The workbook could not be opened (the reader's message).
    OpenError(String),
    /// The workbook has no worksheet.
    NoSheets,
    /// The first worksheet could not be read (the reader's message).
    SheetError(String),
}

/// The text of a cell: trimmed non-blank text, the text of a number, or
/// nothing.
pub open spec fn cell_text(c: Cell) -> Option<Seq<char>> {
    match c {
        Cell::Text(s) => if trim(s@).len() > 0 {
            Some(trim(s@))
        } else {
            None
        },
        Cell::FloatText(s) => Some(s@),
        Cell::Int(i) => Some(int_text(i as int)),
        Cell::Other => None,
    }
}

pub fn cell_to_string(cell: &Cell) -> (r: Option<String>)
    ensures
        match cell_text(*cell) {
            Some(t) => r matches Some(x) && x@ == t,
            None => r is None,
        },
{
    match cell {
        Cell::Text(s) => {
            let t = trim_chars(&chars_of(s.as_str()));
            if t.len() > 0 {
                Some(string_of(&t))
            } else {
                None
            }
        },
        Cell::FloatText(s) => Some(s.clone()),
        Cell::Int(i) => {
            let mut out: Vec<char> = Vec::new();
            push_i64(&mut out, *i);
            Some(string_of(&out))
        },
        Cell::Other => None,
    }
}

/// Whether a header cell is the text `name` (after trimming).
pub open spec fn titled(c: Cell, name: Seq<char>) -> bool {
    match c {
        Cell::Text(s) => trim(s@) == name,
        _ => false,
    }
}

/// The first column from `start` on whose header cell is titled `name`.
pub open spec fn column_from(header: Seq<Cell>, name: Seq<char>, start: int) -> Option<int>
    decreases header.len() - start,
{
    if start < 0 || start >= header.len() {
        None
    } else if titled(header[start], name) {
        Some(start)
    } else {
        column_from(header, name, start + 1)
    }
}

/// The text of the cell of `row` under the column titled `name`.
pub open spec fn sheet_field(header: Seq<Cell>, row: Seq<Cell>, name: Seq<char>) -> Option<
    Seq<char>,
> {
    match column_from(header, name, 0) {
        Some(i) => if 0 <= i < row.len() {
            cell_text(row[i])
        } else {
            None
        },
        None => None,
    }
}

fn is_titled(c: &Cell, name: &str) -> (b: bool)
    ensures
        b == titled(*c, name@),
{
    match c {
        Cell::Text(s) => {
            let t = trim_chars(&chars_of(s.as_str()));
            str_eq(string_of(&t).as_str(), name)
        },
        _ => false,
    }
}

pub fn column_index(header: &Vec<Cell>, name: &str) -> (r: Option<usize>)
    ensures
        match r {
            Some(i) => column_from(header@, name@, 0) == Some(i as int),
            None => column_from(header@, name@, 0) is None,
        },
{
    let mut i: usize = 0;
    while i < header.len()
        invariant
            i <= header.len(),
            column_from(header@, name@, 0) == column_from(header@, name@, i as int),
        decreases header.len() - i,
    {
        if is_titled(&header[i], name) {
            return Some(i);
        }
        i = i + 1;
    }
    None
}

/// The text of the cell of `row` under the column titled `name`.
pub fn get_field(header: &Vec<Cell>, row: &Vec<Cell>, name: &str) -> (r: Option<String>)
    ensures
        match sheet_field(header@, row@, name@) {
            Some(t) => r matches Some(x) && x@ == t,
            None => r is None,
        },
{
    match column_index(header, name) {
        Some(i) => {
            if i < row.len() {
                cell_to_string(&row[i])
            } else {
                None
            }
        },
        None => None,
    }
}

/// The error that reading a workbook met, as the message of a bad request;
/// `None` when it gave rows.
pub open spec fn sheet_error(s: SheetOutcome) -> Option<Seq<char>> {
    match s {
        SheetOutcome::Rows(rows) => if rows@.len() == 0 {
            Some("Empty spreadsheet"@)
        } else {
            None
        },
        SheetOutcome::OpenError(m) => Some("Cannot open XLSX: "@ + m@),
        SheetOutcome::NoSheets => Some("No sheets in workbook"@),
        SheetOutcome::SheetError(m) => Some("Cannot read sheet: "@ + m@),
    }
}

/// The bad request for a workbook that gave no header row.
pub fn sheet_failure(s: &SheetOutcome) -> (r: Option<AppError>)
    ensures
        match sheet_error(*s) {
            Some(m) => r matches Some(e) && e.kind_and_message() == (ErrorKind::BadRequest, m),
            None => r is None,
        },
{
    match s {
        SheetOutcome::Rows(rows) => if rows.len() == 0 {
            Some(AppError::BadRequest("Empty spreadsheet".to_owned()))
        } else {
            None
        },
        SheetOutcome::OpenError(m) => Some(
            AppError::BadRequest(message("Cannot open XLSX: ", m.as_str())),
        ),
        SheetOutcome::NoSheets => Some(AppError::BadRequest("No sheets in workbook".to_owned())),
        SheetOutcome::SheetError(m) => Some(
            AppError::BadRequest(message("Cannot read sheet: ", m.as_str())),
        ),
    }
}

} // verus!
