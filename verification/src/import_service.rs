//! Rules that the import of accounts and journals follows: the parent of an
//! account in the Swiss KMU hierarchy, VAT codes and taxable accounts.
use vstd::prelude::*;
use std::collections::HashMap;

use crate::csv_table::{first_word, first_word_of};
use crate::numeric::{parse_i32, parse_i32_spec};
use crate::error::{AppError, ErrorKind};
use crate::text::{chars_of, str_eq, string_of, trim, trim_chars};

verus! {

broadcast use vstd::std_specs::hash::group_hash_axioms;

/// The first of `candidate`, `candidate / 10`, `candidate / 100`, ... (while
/// positive) that the map holds.
pub open spec fn parent_from(candidate: int, map: Map<i32, String>) -> Option<String>
    decreases candidate,
{
    if candidate <= 0 {
        None
    } else if map.contains_key(candidate as i32) {
        Some(map[candidate as i32])
    } else {
        parent_from(candidate / 10, map)
    }
}

/// The parent of an account: for 1020 the first of the groups 102, 10 and 1
/// that exists.
pub open spec fn parent_of(number: i32, map: Map<i32, String>) -> Option<String> {
    if number <= 0 {
        None
    } else {
        parent_from(number / 10, map)
    }
}

/// Finds the parent account id using the Swiss KMU hierarchy convention:
/// a 4-digit account (1020) looks for the groups 102, 10 and 1, in that
/// order.
pub fn find_parent_id(number: i32, map: &HashMap<i32, String>) -> (r: Option<String>)
    ensures
        r == parent_of(number, map@),
{
    if number <= 0 {
        return None;
    }
    let mut candidate: i32 = number / 10;
    while candidate > 0
        invariant
            candidate >= 0,
            parent_of(number, map@) == parent_from(candidate as int, map@),
        decreases candidate,
    {
        match map.get(&candidate) {
            Some(id) => {
                return Some(id.clone());
            },
            None => {},
        }
        candidate = candidate / 10;
    }
    None
}

/// The VAT code at the start of a text such as "UO81 (8.10%)".
pub open spec fn vat_code_of(raw: Seq<char>) -> Seq<char> {
    match first_word(raw) {
        Some(w) => trim(w),
        None => trim(raw),
    }
}

/// Extracts the VAT code from texts like "UO81 (8.10%)" (giving "UO81").
pub fn extract_vat_code(raw: &str) -> (r: String)
    ensures
        r@ == vat_code_of(raw@),
{
    let chars = chars_of(raw);
    let code = match first_word_of(&chars) {
        Some(w) => trim_chars(&w),
        None => trim_chars(&chars),
    };
    string_of(&code)
}

/// Whether an account is an income or expense account (Swiss KMU 3xxx to
/// 8xxx); only these carry a VAT rate on imported journal lines.
pub fn is_taxable_account(account_number: i32) -> (b: bool)
    ensures
        b == (3000 <= account_number <= 8999),
{
    3000 <= account_number && account_number <= 8999
}

/// The account number at the start of a text such as
/// "1020 - Bank UBS (alt) CHF".
pub open spec fn account_number_of(s: Seq<char>) -> Option<i32> {
    match first_word(s) {
        Some(w) => parse_i32_spec(w),
        None => None,
    }
}

/// Parses the account number from texts like "1020 - Bank UBS (alt) CHF".
pub fn parse_account_number(s: &str) -> (r: Option<i32>)
    ensures
        r == account_number_of(s@),
{
    match first_word_of(&chars_of(s)) {
        Some(w) => parse_i32(&w),
        None => None,
    }
}

/// The import service: the decisions of previewing and executing an
/// import job.
pub struct ImportService;

/// What an import job imports.
#[derive(Clone, Copy, Debug, PartialEq, Eq, Structural)]
pub enum ImportKind {
    Accounts,
    Contacts,
    TimeEntries,
    Projects,
    Journal,
}

pub open spec fn kind_of(t: Seq<char>) -> Option<ImportKind> {
    if t == "accounts"@ {
        Some(ImportKind::Accounts)
    } else if t == "contacts"@ {
        Some(ImportKind::Contacts)
    } else if t == "time_entries"@ {
        Some(ImportKind::TimeEntries)
    } else if t == "projects"@ {
        Some(ImportKind::Projects)
    } else if t == "journal"@ {
        Some(ImportKind::Journal)
    } else {
        None
    }
}

impl ImportService {
    /// The kind of an import job by its type name; an unknown one is a bad
    /// request.
    pub fn parse_kind(import_type: &str) -> (r: Result<ImportKind, AppError>)
        ensures
            match kind_of(import_type@) {
                Some(k) => r == Ok::<ImportKind, AppError>(k),
                None => r matches Err(e) && e.kind_and_message() == (
                    ErrorKind::BadRequest,
                    "Unknown import type"@,
                ),
            },
    {
        if str_eq(import_type, "accounts") {
            Ok(ImportKind::Accounts)
        } else if str_eq(import_type, "contacts") {
            Ok(ImportKind::Contacts)
        } else if str_eq(import_type, "time_entries") {
            Ok(ImportKind::TimeEntries)
        } else if str_eq(import_type, "projects") {
            Ok(ImportKind::Projects)
        } else if str_eq(import_type, "journal") {
            Ok(ImportKind::Journal)
        } else {
            Err(AppError::BadRequest("Unknown import type".to_owned()))
        }
    }

    /// Only an uploaded or previewed job can be executed.
    pub fn check_executable(status: &str) -> (r: Result<(), AppError>)
        ensures
            status@ == "previewed"@ || status@ == "uploaded"@ ==> r is Ok,
            !(status@ == "previewed"@ || status@ == "uploaded"@) ==> (r matches Err(e)
                && e.kind_and_message() == (
                ErrorKind::BadRequest,
                "Import already executed or failed"@,
            )),
    {
        if str_eq(status, "previewed") || str_eq(status, "uploaded") {
            Ok(())
        } else {
            Err(AppError::BadRequest("Import already executed or failed".to_owned()))
        }
    }

    /// The preview of parsed rows: their number and the first twenty.
    pub fn preview_of<T>(rows: Vec<T>) -> (r: (usize, Vec<T>))
        ensures
            r.0 == rows.len(),
            r.1@ == rows@.take(if rows.len() < 20 {
                rows.len() as int
            } else {
                20
            }),
    {
        let total = rows.len();
        let mut out = rows;
        out.truncate(20);
        (total, out)
    }
}

} // verus!
