//! Expenses: the checks on an expense's input and the VAT of an expense.
use vstd::prelude::*;

use crate::amount::Amount;
use crate::date::{before, date_lt};
use crate::error::{AppError, ErrorKind};
use crate::fiscal_year::di;
use crate::text::str_eq;
use crate::invoice_service::{opt_amount, vat_of};

verus! {

/// The VAT of an expense: `amount * rate / 100` with the rate of its VAT
/// code (looked up by the caller), zero without one; `None` where
/// `Decimal` arithmetic overflows.
pub fn compute_vat(amount: Amount, vat_rate: Option<Amount>) -> (r: Option<Amount>)
    requires
        amount.wf(),
        vat_rate matches Some(x) ==> x.wf(),
    ensures
        match vat_of(amount@, opt_amount(vat_rate)) {
            Some(v) => r matches Some(a) && a@ == v,
            None => r is None,
        },
{
    match vat_rate {
        None => Some(Amount::zero()),
        Some(rate) => match amount.checked_mul(rate) {
            Some(p) => p.checked_div(Amount::from_int(100)),
            None => None,
        },
    }
}

/// The expense service: the checks on an expense's input.
pub struct ExpenseService;

/// Why the input of an expense is refused, if it is: for an amount that is
/// not positive, then for a due date before the expense date.
pub open spec fn expense_input_refusal(
    amount: int,
    expense_date: (int, int, int),
    due_date: Option<(int, int, int)>,
) -> Option<Seq<char>> {
    if amount <= 0 {
        Some("Amount must be greater than 0"@)
    } else if due_date matches Some(d) && date_lt(d, expense_date) {
        Some("Due date must be on or after expense date"@)
    } else {
        None
    }
}

/// A date as the contracts see it, where there is one.
pub open spec fn opt_date(d: Option<(i32, u32, u32)>) -> Option<(int, int, int)> {
    match d {
        Some(x) => Some(di(x)),
        None => None,
    }
}

impl ExpenseService {
    /// The checks on the input of a new expense (see
    /// `expense_input_refusal`).
    pub fn check_input(
        amount: Amount,
        expense_date: (i32, u32, u32),
        due_date: Option<(i32, u32, u32)>,
    ) -> (r: Result<(), AppError>)
        requires
            amount.wf(),
        ensures
            match expense_input_refusal(amount.value(), di(expense_date), opt_date(due_date)) {
                None => r is Ok,
                Some(m) => r matches Err(e) && e.kind_and_message() == (ErrorKind::Validation, m),
            },
    {
        if !Amount::zero().lt(amount) {
            return Err(AppError::Validation("Amount must be greater than 0".to_owned()));
        }
        match due_date {
            Some(d) => if before(d, expense_date) {
                return Err(
                    AppError::Validation("Due date must be on or after expense date".to_owned()),
                );
            },
            None => {},
        }
        Ok(())
    }

    /// The checks on an expense that is updated: only a pending one can
    /// be, then as for a new expense.
    pub fn check_update(
        status: &str,
        amount: Amount,
        expense_date: (i32, u32, u32),
        due_date: Option<(i32, u32, u32)>,
    ) -> (r: Result<(), AppError>)
        requires
            amount.wf(),
        ensures
            status@ != "pending"@ ==> (r matches Err(e) && e.kind_and_message() == (
                ErrorKind::Validation,
                "Only pending expenses can be updated"@,
            )),
            status@ == "pending"@ ==> match expense_input_refusal(
                amount.value(),
                di(expense_date),
                opt_date(due_date),
            ) {
                None => r is Ok,
                Some(m) => r matches Err(e) && e.kind_and_message() == (ErrorKind::Validation, m),
            },
    {
        if !str_eq(status, "pending") {
            return Err(AppError::Validation("Only pending expenses can be updated".to_owned()));
        }
        Self::check_input(amount, expense_date, due_date)
    }

    /// Only a pending expense can be deleted.
    pub fn check_deletable(status: &str) -> (r: Result<(), AppError>)
        ensures
            status@ == "pending"@ ==> r is Ok,
            status@ != "pending"@ ==> (r matches Err(e) && e.kind_and_message() == (
                ErrorKind::Validation,
                "Only pending expenses can be deleted"@,
            )),
    {
        if str_eq(status, "pending") {
            Ok(())
        } else {
            Err(AppError::Validation("Only pending expenses can be deleted".to_owned()))
        }
    }
}

} // verus!
