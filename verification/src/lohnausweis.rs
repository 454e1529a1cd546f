//! The Lohnausweis (annual salary certificate): which payroll runs count
//! for a year, and the yearly totals of an employee's payroll lines.
use vstd::prelude::*;

use crate::amount::{dec_checked_add, Amount};
use crate::depreciation_service::{amounts_total, lemma_total_none_extends};
use crate::text::str_eq;

verus! {

/// The Lohnausweis service: the yearly aggregation of payroll lines.
pub struct LohnausweisService;

/// The employee as the certificate shows them (dates as `dd.mm.yyyy`).
pub struct EmployeeSummary {
    pub id: String,
    pub first_name: String,
    pub last_name: String,
    pub ahv_number: String,
    pub date_of_birth: String,
    pub street: String,
    pub postal_code: String,
    pub city: String,
    pub country: String,
    pub employment_start: String,
    pub employment_end: Option<String>,
    pub marital_status: String,
}

/// The amounts of one monthly payroll line that the certificate adds up.
pub struct PayrollLineAmounts {
    pub gross_salary: Amount,
    pub ahv_employee: Amount,
    pub alv_employee: Amount,
    pub bvg_employee: Amount,
    pub nbu_employee: Amount,
    pub ktg_employee: Amount,
    pub quellensteuer: Amount,
    pub child_allowance: Amount,
    pub net_salary: Amount,
    pub payout_amount: Amount,
}

/// The yearly data of one employee's certificate.
pub struct LohnausweisData {
    pub employee: EmployeeSummary,
    pub year: i32,
    pub months_worked: i32,
    pub total_gross: Amount,
    pub total_ahv_employee: Amount,
    pub total_alv_employee: Amount,
    pub total_bvg_employee: Amount,
    pub total_nbu_employee: Amount,
    pub total_ktg_employee: Amount,
    pub total_quellensteuer: Amount,
    pub total_child_allowance: Amount,
    pub total_net: Amount,
    pub total_payout: Amount,
    pub total_social_deductions: Amount,
}

/// The `f`-th amount of a line, in the order of the fields.
pub open spec fn field(l: PayrollLineAmounts, f: int) -> Amount {
    if f == 0 {
        l.gross_salary
    } else if f == 1 {
        l.ahv_employee
    } else if f == 2 {
        l.alv_employee
    } else if f == 3 {
        l.bvg_employee
    } else if f == 4 {
        l.nbu_employee
    } else if f == 5 {
        l.ktg_employee
    } else if f == 6 {
        l.quellensteuer
    } else if f == 7 {
        l.child_allowance
    } else if f == 8 {
        l.net_salary
    } else {
        l.payout_amount
    }
}

/// The `f`-th column of the lines.
pub open spec fn column(lines: Seq<PayrollLineAmounts>, f: int) -> Seq<(int, nat)> {
    lines.map_values(|l: PayrollLineAmounts| field(l, f)@)
}

/// The yearly total of the `f`-th amount (see `amounts_total`).
pub open spec fn column_sum(lines: Seq<PayrollLineAmounts>, f: int) -> Option<(int, nat)> {
    amounts_total(column(lines, f))
}

/// The social deductions: AHV, ALV, NBU and KTG added in that order.
pub open spec fn social_sum(
    ahv: (int, nat),
    alv: (int, nat),
    nbu: (int, nat),
    ktg: (int, nat),
) -> Option<(int, nat)> {
    match dec_checked_add(ahv, alv) {
        Some(a) => match dec_checked_add(a, nbu) {
            Some(b) => dec_checked_add(b, ktg),
            None => None,
        },
        None => None,
    }
}

/// Whether every yearly total, and the social deductions, can be computed
/// without overflow.
pub open spec fn totals_ok(lines: Seq<PayrollLineAmounts>) -> bool {
    &&& forall|f: int| 0 <= f < 10 ==> #[trigger] column_sum(lines, f) is Some
    &&& social_sum(
        column_sum(lines, 1)->0,
        column_sum(lines, 2)->0,
        column_sum(lines, 4)->0,
        column_sum(lines, 5)->0,
    ) is Some
}

pub open spec fn lines_wf(lines: Seq<PayrollLineAmounts>) -> bool {
    forall|i: int, f: int| 0 <= i < lines.len() && 0 <= f < 10 ==> #[trigger] field(lines[i], f).wf()
}

fn field_of(l: &PayrollLineAmounts, f: usize) -> (r: Amount)
    requires
        f < 10,
    ensures
        r == field(*l, f as int),
{
    if f == 0 {
        l.gross_salary
    } else if f == 1 {
        l.ahv_employee
    } else if f == 2 {
        l.alv_employee
    } else if f == 3 {
        l.bvg_employee
    } else if f == 4 {
        l.nbu_employee
    } else if f == 5 {
        l.ktg_employee
    } else if f == 6 {
        l.quellensteuer
    } else if f == 7 {
        l.child_allowance
    } else if f == 8 {
        l.net_salary
    } else {
        l.payout_amount
    }
}

impl LohnausweisService {
    /// Whether a payroll run counts for the certificates of `year`: a run
    /// of that year that is approved or paid.
    pub fn run_counts(period_year: i32, status: &str, year: i32) -> (b: bool)
        ensures
            b == (period_year == year && (status@ == "approved"@ || status@ == "paid"@)),
    {
        period_year == year && (str_eq(status, "approved") || str_eq(status, "paid"))
    }

    /// The total of the `f`-th amount over the lines.
    fn column_total(lines: &Vec<PayrollLineAmounts>, f: usize) -> (r: Option<Amount>)
        requires
            f < 10,
            lines_wf(lines@),
        ensures
            match column_sum(lines@, f as int) {
                Some(t) => r matches Some(a) && a@ == t && a.wf(),
                None => r is None,
            },
    {
        let ghost col = column(lines@, f as int);
        let mut total = Amount::zero();
        let mut i: usize = 0;
        while i < lines.len()
            invariant
                f < 10,
                i <= lines.len(),
                col == column(lines@, f as int),
                lines_wf(lines@),
                total.wf(),
                amounts_total(col.take(i as int)) == Some(total@),
            decreases lines.len() - i,
        {
            assert(col.take(i + 1).drop_last() =~= col.take(i as int));
            assert(col.take(i + 1).last() == field(lines[i as int], f as int)@);
            assert(field(lines[i as int], f as int).wf());
            match total.checked_add(field_of(&lines[i], f)) {
                Some(t) => {
                    total = t;
                },
                None => {
                    proof {
                        lemma_total_none_extends(col, i as int + 1);
                    }
                    return None;
                },
            }
            i = i + 1;
        }
        assert(col.take(lines.len() as int) =~= col);
        Some(total)
    }

    /// The certificate of `employee` for `year` from their payroll lines of
    /// that year: the number of months (lines), the total of each amount,
    /// and the social deductions (AHV, ALV, NBU and KTG). `None` where an
    /// addition overflows (where the original panics).
    pub fn aggregate(employee: EmployeeSummary, year: i32, lines: &Vec<PayrollLineAmounts>) -> (r:
        Option<LohnausweisData>)
        requires
            lines_wf(lines@),
            lines.len() <= i32::MAX,
        ensures
            totals_ok(lines@) <==> r is Some,
            r matches Some(d) ==> {
                &&& d.year == year
                &&& d.months_worked == lines.len()
                &&& d.employee == employee
                &&& column_sum(lines@, 0) == Some(d.total_gross@)
                &&& column_sum(lines@, 1) == Some(d.total_ahv_employee@)
                &&& column_sum(lines@, 2) == Some(d.total_alv_employee@)
                &&& column_sum(lines@, 3) == Some(d.total_bvg_employee@)
                &&& column_sum(lines@, 4) == Some(d.total_nbu_employee@)
                &&& column_sum(lines@, 5) == Some(d.total_ktg_employee@)
                &&& column_sum(lines@, 6) == Some(d.total_quellensteuer@)
                &&& column_sum(lines@, 7) == Some(d.total_child_allowance@)
                &&& column_sum(lines@, 8) == Some(d.total_net@)
                &&& column_sum(lines@, 9) == Some(d.total_payout@)
                &&& social_sum(
                    d.total_ahv_employee@,
                    d.total_alv_employee@,
                    d.total_nbu_employee@,
                    d.total_ktg_employee@,
                ) == Some(d.total_social_deductions@)
            },
    {
        let mut totals: Vec<Amount> = Vec::new();
        let mut f: usize = 0;
        while f < 10
            invariant
                f <= 10,
                lines_wf(lines@),
                totals@.len() == f,
                forall|g: int|
                    0 <= g < f ==> #[trigger] column_sum(lines@, g) == Some(totals@[g]@)
                        && totals@[g].wf(),
            decreases 10 - f,
        {
            match Self::column_total(lines, f) {
                Some(t) => totals.push(t),
                None => {
                    assert(!totals_ok(lines@)) by {
                        assert(column_sum(lines@, f as int) is None);
                    }
                    return None;
                },
            }
            f = f + 1;
        }
        assert(column_sum(lines@, 0) == Some(totals@[0]@));
        assert(column_sum(lines@, 1) == Some(totals@[1]@));
        assert(column_sum(lines@, 2) == Some(totals@[2]@));
        assert(column_sum(lines@, 3) == Some(totals@[3]@));
        assert(column_sum(lines@, 4) == Some(totals@[4]@));
        assert(column_sum(lines@, 5) == Some(totals@[5]@));
        assert(column_sum(lines@, 6) == Some(totals@[6]@));
        assert(column_sum(lines@, 7) == Some(totals@[7]@));
        assert(column_sum(lines@, 8) == Some(totals@[8]@));
        assert(column_sum(lines@, 9) == Some(totals@[9]@));
        let a = match totals[1].checked_add(totals[2]) {
            Some(x) => x,
            None => return None,
        };
        let b = match a.checked_add(totals[4]) {
            Some(x) => x,
            None => return None,
        };
        let social = match b.checked_add(totals[5]) {
            Some(x) => x,
            None => return None,
        };
        Some(
            LohnausweisData {
                employee,
                year,
                months_worked: lines.len() as i32,
                total_gross: totals[0],
                total_ahv_employee: totals[1],
                total_alv_employee: totals[2],
                total_bvg_employee: totals[3],
                total_nbu_employee: totals[4],
                total_ktg_employee: totals[5],
                total_quellensteuer: totals[6],
                total_child_allowance: totals[7],
                total_net: totals[8],
                total_payout: totals[9],
                total_social_deductions: social,
            },
        )
    }
}

} // verus!
