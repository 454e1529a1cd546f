//! Payouts of a payroll run: the checks, the payment reference and the
//! recipient of each employee's payout.
use vstd::prelude::*;

use crate::error::{AppError, ErrorKind};
use crate::numeric::{int_text, push_i64};
use crate::pain001::exportable;
use crate::text::{push_str, str_eq, string_of};

verus! {

/// The payout service: the decisions of generating and paying payouts.
pub struct PayoutService;

/// `format!("{:0w$}", n)`: the number padded with zeros after its sign to
/// `w` characters.
pub open spec fn zero_padded(n: int, w: nat) -> Seq<char> {
    let digits = if n < 0 {
        int_text(-n)
    } else {
        int_text(n)
    };
    let sign = if n < 0 {
        "-"@
    } else {
        Seq::<char>::empty()
    };
    let pad = if sign.len() + digits.len() < w {
        (w - sign.len() - digits.len()) as nat
    } else {
        0nat
    };
    sign + Seq::new(pad, |i: int| '0') + digits
}

/// The payment reference of a payout: "LOHN-{yyyy}-{mm}-{last name}".
pub open spec fn payment_reference_text(year: int, month: int, last_name: Seq<char>) -> Seq<char> {
    "LOHN-"@ + zero_padded(year, 4) + "-"@ + zero_padded(month, 2) + "-"@ + last_name
}

fn push_padded(out: &mut Vec<char>, n: i32, w: usize)
    ensures
        final(out)@ == old(out)@ + zero_padded(n as int, w as nat),
{
    let mut digits: Vec<char> = Vec::new();
    let neg = n < 0;
    if neg {
        push_i64(&mut digits, -(n as i64));
    } else {
        push_i64(&mut digits, n as i64);
    }
    let used: usize = if neg {
        1
    } else {
        0
    };
    let pad: usize = if digits.len() < w && used < w - digits.len() {
        w - digits.len() - used
    } else {
        0
    };
    let ghost o0 = out@;
    if neg {
        push_str(out, "-");
    }
    let ghost start = out@;
    let mut added: usize = 0;
    while added < pad
        invariant
            added <= pad,
            out@ == start + Seq::new(added as nat, |i: int| '0'),
        decreases pad - added,
    {
        out.push('0');
        assert(out@ =~= start + Seq::new((added + 1) as nat, |i: int| '0'));
        added = added + 1;
    }
    push_all_chars(out, &digits);
    proof {
        reveal_strlit("-");
        let sign = if n < 0 {
            "-"@
        } else {
            Seq::<char>::empty()
        };
        assert(start == o0 + sign);
        assert(out@ =~= o0 + sign + Seq::new(pad as nat, |i: int| '0') + digits@);
    }
}

fn push_all_chars(out: &mut Vec<char>, v: &Vec<char>)
    ensures
        final(out)@ == old(out)@ + v@,
{
    crate::text::push_all(out, v);
}

impl PayoutService {
    /// Payouts are generated only for approved or paid runs.
    pub fn check_run_status(status: &str) -> (r: Result<(), AppError>)
        ensures
            exportable(status@) ==> r is Ok,
            !exportable(status@) ==> (r matches Err(e) && e.kind_and_message() == (
                ErrorKind::Validation,
                "Cannot generate payouts for run with status '"@ + status@
                    + "'. Must be 'approved' or 'paid'."@,
            )),
    {
        if str_eq(status, "approved") || str_eq(status, "paid") {
            Ok(())
        } else {
            let mut m = "Cannot generate payouts for run with status '".to_owned();
            m.append(status);
            m.append("'. Must be 'approved' or 'paid'.");
            Err(AppError::Validation(m))
        }
    }

    /// A run without payroll lines has nothing to pay out.
    pub fn check_lines(count: usize) -> (r: Result<(), AppError>)
        ensures
            count > 0 ==> r is Ok,
            count == 0 ==> (r matches Err(e) && e.kind_and_message() == (
                ErrorKind::Validation,
                "No payroll lines found for this run"@,
            )),
    {
        if count > 0 {
            Ok(())
        } else {
            Err(AppError::Validation("No payroll lines found for this run".to_owned()))
        }
    }

    /// The payment reference of an employee's payout.
    pub fn payment_reference(period_year: i32, period_month: i32, last_name: &str) -> (r: String)
        ensures
            r@ == payment_reference_text(period_year as int, period_month as int, last_name@),
    {
        let mut out: Vec<char> = Vec::new();
        push_str(&mut out, "LOHN-");
        push_padded(&mut out, period_year, 4);
        push_str(&mut out, "-");
        push_padded(&mut out, period_month, 2);
        push_str(&mut out, "-");
        push_str(&mut out, last_name);
        string_of(&out)
    }

    /// The recipient of a payout: first and last name.
    pub fn recipient_name(first_name: &str, last_name: &str) -> (r: String)
        ensures
            r@ == first_name@ + " "@ + last_name@,
    {
        let mut out = first_name.to_owned();
        out.append(" ");
        out.append(last_name);
        out
    }

    /// A paid payout cannot be paid again.
    pub fn check_unpaid(status: &str) -> (r: Result<(), AppError>)
        ensures
            status@ != "paid"@ ==> r is Ok,
            status@ == "paid"@ ==> (r matches Err(e) && e.kind_and_message() == (
                ErrorKind::Validation,
                "Entry is already paid"@,
            )),
    {
        if str_eq(status, "paid") {
            Err(AppError::Validation("Entry is already paid".to_owned()))
        } else {
            Ok(())
        }
    }
}

} // verus!
