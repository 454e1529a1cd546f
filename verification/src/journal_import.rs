//! Importing journal rows from a bexio export: reading each row's date and
//! amount, resolving its VAT rate and accounts, the lines of the new entry,
//! the VAT repair of entries imported before, and the messages of rejected
//! rows.
use vstd::prelude::*;
use std::collections::HashMap;

use crate::amount::Amount;
use crate::bank_import::{dec_parse, iso_date_parse};
use crate::date::valid_date;
use crate::import_service::{extract_vat_code, is_taxable_account, vat_code_of};
use crate::journal_service::{opt_seq, JournalLineInput};
use crate::numeric::{int_text, push_i64};
use crate::text::{push_str, str_eq, string_of};

verus! {

broadcast use vstd::std_specs::hash::group_hash_axioms;

/// The journal import: the decisions taken for each imported row.
pub struct JournalImport;

/// What the import does with a line of an entry imported before.
#[derive(Clone, Copy, Debug, PartialEq, Eq, Structural)]
pub enum VatRepair {
    /// Give the taxable line the row's VAT rate.
    SetRate,
    /// Take the VAT rate off a line that is not taxable.
    ClearRate,
    /// Leave the line.
    Keep,
}

/// The counts and messages of an import run.
pub struct ImportTally {
    pub imported: i32,
    pub errors: i32,
    pub error_log: Vec<String>,
}

/// What `NaiveDate::parse_from_str(s, "%d.%m.%Y")` gives for a text.
pub uninterp spec fn dmy_date_parse(s: Seq<char>) -> Option<(int, int, int)>;

/// What `format!("{:?}", s)` gives for an optional text.
pub uninterp spec fn debug_opt_text(s: Option<Seq<char>>) -> Seq<char>;

/// `NaiveDate::parse_from_str(s, "%d.%m.%Y")`, as (year, month, day).
#[verifier::external_body]
fn parse_dmy_date(s: &str) -> (r: Option<(i32, u32, u32)>)
    ensures
        match r {
            Some(d) => dmy_date_parse(s@) == Some((d.0 as int, d.1 as int, d.2 as int))
                && valid_date(d.0 as int, d.1 as int, d.2 as int),
            None => dmy_date_parse(s@) is None,
        },
{
    match chrono::NaiveDate::parse_from_str(s, "%d.%m.%Y") {
        Ok(d) => Some((chrono::Datelike::year(&d), chrono::Datelike::month(&d), chrono::Datelike::day(&d))),
        Err(_) => None,
    }
}

/// `format!("{:?}", s)` of an optional text: `None`, or `Some(` and the
/// text quoted and escaped as `str`'s `Debug` does, and `)`.
#[verifier::external_body]
fn debug_text(s: &Option<String>) -> (r: String)
    ensures
        r@ == debug_opt_text(opt_seq(*s)),
{
    format!("{:?}", s)
}

/// `ISO` first, then the Swiss `dd.mm.yyyy`.
pub open spec fn row_date(s: Seq<char>) -> Option<(int, int, int)> {
    match iso_date_parse(s) {
        Some(d) => Some(d),
        None => dmy_date_parse(s),
    }
}

/// `format!("{:?}", n)` of an optional number.
pub open spec fn debug_opt_number(n: Option<i32>) -> Seq<char> {
    match n {
        Some(x) => "Some("@ + int_text(x as int) + ")"@,
        None => "None"@,
    }
}

/// The VAT rate of a code: the id of the last rate with that code (as a
/// map built from the list keeps it).
pub open spec fn rate_for(code: Seq<char>, rates: Seq<(String, String)>) -> Option<Seq<char>>
    decreases rates.len(),
{
    if rates.len() == 0 {
        None
    } else if rates.last().0@ == code {
        Some(rates.last().1@)
    } else {
        rate_for(code, rates.drop_last())
    }
}

/// What the import does with a line of an existing entry: a taxable line
/// (accounts 3000-8999) without a rate gets the row's rate, where it has
/// one; a line that is not taxable loses its rate.
pub open spec fn repair_of(account_number: int, has_rate: bool, row_has_rate: bool) -> VatRepair {
    if 3000 <= account_number <= 8999 {
        if !has_rate && row_has_rate {
            VatRepair::SetRate
        } else {
            VatRepair::Keep
        }
    } else if has_rate {
        VatRepair::ClearRate
    } else {
        VatRepair::Keep
    }
}

impl JournalImport {
    /// The date of a row: `yyyy-mm-dd`, else `dd.mm.yyyy`.
    pub fn parse_row_date(s: &str) -> (r: Option<(i32, u32, u32)>)
        ensures
            match row_date(s@) {
                Some(d) => r matches Some(x) && (x.0 as int, x.1 as int, x.2 as int) == d,
                None => r is None,
            },
    {
        match crate::bank_import::parse_iso_date(s) {
            Some(d) => Some(d),
            None => parse_dmy_date(s),
        }
    }

    /// The amount of a row, where it has one that reads as a decimal.
    pub fn parse_row_amount(amount: Option<&str>) -> (r: Option<Amount>)
        ensures
            match amount {
                Some(s) => match dec_parse(s@) {
                    Some(a) => r matches Some(x) && x@ == a && x.wf(),
                    None => r is None,
                },
                None => r is None,
            },
    {
        match amount {
            Some(s) => crate::bank_import::parse_decimal(s),
            None => None,
        }
    }

    /// The VAT rate of a row's VAT column ("UN81 (8.1%)" names the code
    /// "UN81"), among the rates (code, id).
    pub fn vat_rate_id(vat_column: Option<&str>, rates: &Vec<(String, String)>) -> (r: Option<String>)
        ensures
            match vat_column {
                Some(raw) => crate::accounts_csv::opt_view(r) == rate_for(vat_code_of(raw@), rates@),
                None => r is None,
            },
    {
        match vat_column {
            Some(raw) => {
                let code = extract_vat_code(raw);
                let mut k: usize = rates.len();
                assert(rates@.take(k as int) =~= rates@);
                while k > 0
                    invariant
                        k <= rates.len(),
                        code@ == vat_code_of(raw@),
                        vat_column == Some(raw),
                        rate_for(code@, rates@) == rate_for(code@, rates@.take(k as int)),
                    decreases k,
                {
                    assert(rates@.take(k as int).drop_last() =~= rates@.take(k - 1));
                    assert(rates@.take(k as int).last() == rates@[k - 1]);
                    if str_eq(rates[k - 1].0.as_str(), code.as_str()) {
                        let id = rates[k - 1].1.clone();
                        return Some(id);
                    }
                    k = k - 1;
                }
                None
            },
            None => None,
        }
    }

    /// What to do with a line of an entry imported before (see
    /// `repair_of`; a line whose account is unknown counts as account 0).
    pub fn vat_repair(account_number: i32, has_rate: bool, row_has_rate: bool) -> (r: VatRepair)
        ensures
            r == repair_of(account_number as int, has_rate, row_has_rate),
    {
        if is_taxable_account(account_number) {
            if !has_rate && row_has_rate {
                VatRepair::SetRate
            } else {
                VatRepair::Keep
            }
        } else if has_rate {
            VatRepair::ClearRate
        } else {
            VatRepair::Keep
        }
    }

    /// The lines of a new entry for a row: the amount debited to the debit
    /// account and credited to the credit account, each where the account
    /// number is known; taxable accounts carry the row's VAT rate. `None`
    /// where either account cannot be resolved.
    pub fn entry_lines(
        debit_account: Option<i32>,
        credit_account: Option<i32>,
        accounts: &HashMap<i32, String>,
        amount: Amount,
        description: &Option<String>,
        vat_rate_id: &Option<String>,
    ) -> (r: Option<Vec<JournalLineInput>>)
        ensures
            match (debit_account, credit_account) {
                (Some(d), Some(c)) => if accounts@.contains_key(d) && accounts@.contains_key(c) {
                    r matches Some(v) && v@.len() == 2 && v@[0]@ == (
                        accounts@[d]@,
                        amount@,
                        (0int, 0nat),
                        opt_seq(*description),
                        if 3000 <= d <= 8999 {
                            opt_seq(*vat_rate_id)
                        } else {
                            None
                        },
                    ) && v@[1]@ == (
                        accounts@[c]@,
                        (0int, 0nat),
                        amount@,
                        opt_seq(*description),
                        if 3000 <= c <= 8999 {
                            opt_seq(*vat_rate_id)
                        } else {
                            None
                        },
                    )
                } else {
                    r is None
                },
                _ => r is None,
            },
    {
        let (d, c) = match (debit_account, credit_account) {
            (Some(d), Some(c)) => (d, c),
            _ => return None,
        };
        let did = match accounts.get(&d) {
            Some(id) => id.clone(),
            None => return None,
        };
        let cid = match accounts.get(&c) {
            Some(id) => id.clone(),
            None => return None,
        };
        let mut v: Vec<JournalLineInput> = Vec::new();
        v.push(
            JournalLineInput {
                account_id: did,
                debit_amount: amount,
                credit_amount: Amount::zero(),
                description: clone_opt(description),
                vat_rate_id: if is_taxable_account(d) {
                    clone_opt(vat_rate_id)
                } else {
                    None
                },
            },
        );
        v.push(
            JournalLineInput {
                account_id: cid,
                debit_amount: Amount::zero(),
                credit_amount: amount,
                description: clone_opt(description),
                vat_rate_id: if is_taxable_account(c) {
                    clone_opt(vat_rate_id)
                } else {
                    None
                },
            },
        );
        Some(v)
    }

    /// The description of a new entry: the row's, else "Imported entry".
    pub fn entry_description(description: &Option<String>) -> (r: String)
        ensures
            r@ == match opt_seq(*description) {
                Some(d) => d,
                None => "Imported entry"@,
            },
    {
        match description {
            Some(d) => d.clone(),
            None => "Imported entry".to_owned(),
        }
    }

    /// The message of a row whose date cannot be read.
    pub fn invalid_date_message(date: &str) -> (r: String)
        ensures
            r@ == "Row '"@ + date@ + "': invalid date"@,
    {
        let mut m = "Row '".to_owned();
        m.append(date);
        m.append("': invalid date");
        m
    }

    /// The message of a row whose amount cannot be read.
    pub fn invalid_amount_message(date: &str) -> (r: String)
        ensures
            r@ == "Row date="@ + date@ + ": invalid amount"@,
    {
        let mut m = "Row date=".to_owned();
        m.append(date);
        m.append(": invalid amount");
        m
    }

    /// The message of a row whose accounts cannot both be resolved.
    pub fn unresolved_accounts_message(
        reference: &Option<String>,
        date: &str,
        debit_account: Option<i32>,
        credit_account: Option<i32>,
    ) -> (r: String)
        ensures
            r@ == "Row ref="@ + debug_opt_text(opt_seq(*reference)) + " date="@ + date@
                + ": could not resolve both accounts (debit="@ + debug_opt_number(debit_account)
                + " credit="@ + debug_opt_number(credit_account) + ")"@,
    {
        let mut v: Vec<char> = Vec::new();
        push_str(&mut v, "Row ref=");
        push_str(&mut v, debug_text(reference).as_str());
        push_str(&mut v, " date=");
        push_str(&mut v, date);
        push_str(&mut v, ": could not resolve both accounts (debit=");
        push_debug_number(&mut v, debit_account);
        push_str(&mut v, " credit=");
        push_debug_number(&mut v, credit_account);
        push_str(&mut v, ")");
        string_of(&v)
    }

    /// The message of a row whose entry was refused: "Row ref={:?}
    /// date={}: {error}".
    pub fn refused_entry_message(reference: &Option<String>, date: &str, error: &str) -> (r: String)
        ensures
            r@ == "Row ref="@ + debug_opt_text(opt_seq(*reference)) + " date="@ + date@ + ": "@
                + error@,
    {
        let mut v: Vec<char> = Vec::new();
        push_str(&mut v, "Row ref=");
        push_str(&mut v, debug_text(reference).as_str());
        push_str(&mut v, " date=");
        push_str(&mut v, date);
        push_str(&mut v, ": ");
        push_str(&mut v, error);
        string_of(&v)
    }
}

fn push_debug_number(out: &mut Vec<char>, n: Option<i32>)
    ensures
        final(out)@ == old(out)@ + debug_opt_number(n),
{
    match n {
        Some(x) => {
            push_str(out, "Some(");
            push_i64(out, x as i64);
            push_str(out, ")");
        },
        None => push_str(out, "None"),
    }
}

fn clone_opt(o: &Option<String>) -> (r: Option<String>)
    ensures
        opt_seq(r) == opt_seq(*o),
{
    match o {
        Some(s) => Some(s.clone()),
        None => None,
    }
}

impl ImportTally {
    /// An import that has done nothing yet.
    pub fn new() -> (r: ImportTally)
        ensures
            r.imported == 0,
            r.errors == 0,
            r.error_log@.len() == 0,
    {
        ImportTally { imported: 0, errors: 0, error_log: Vec::new() }
    }

    /// Counts one imported row.
    pub fn record_imported(&mut self)
        requires
            old(self).imported < i32::MAX,
        ensures
            final(self).imported == old(self).imported + 1,
            final(self).errors == old(self).errors,
            final(self).error_log@ == old(self).error_log@,
    {
        self.imported = self.imported + 1;
    }

    /// Counts one rejected row with its message.
    pub fn record_error(&mut self, message: String)
        requires
            old(self).errors < i32::MAX,
        ensures
            final(self).imported == old(self).imported,
            final(self).errors == old(self).errors + 1,
            final(self).error_log@ == old(self).error_log@.push(message),
    {
        self.errors = self.errors + 1;
        self.error_log.push(message);
    }
}

} // verus!
