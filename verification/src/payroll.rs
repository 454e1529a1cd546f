//! Swiss payroll: the social insurance contributions (AHV/IV/EO, ALV,
//! BVG, NBU/BU, KTG, FAK), withholding tax, child allowance, and the net
//! salary, payout and employer cost of one employee's month.
use vstd::prelude::*;

use crate::amount::{
    dec_checked_add, dec_checked_div, dec_checked_mul, dec_checked_sub, fits_at, round_dp_spec,
    value, Amount,
};
use crate::currency_exchange::lemma_difference_fits;

verus! {

/// The payroll settings the calculation reads (rates in percent, amounts
/// per year).
pub struct PayrollSettings {
    pub ahv_iv_eo_rate_employee: Amount,
    pub ahv_iv_eo_rate_employer: Amount,
    pub alv_rate_employee: Amount,
    pub alv_rate_employer: Amount,
    pub alv_salary_cap: Amount,
    pub bvg_entry_threshold: Amount,
    pub bvg_coordination_deduction: Amount,
    pub bvg_min_insured_salary: Amount,
    pub bvg_max_insured_salary: Amount,
    pub bvg_rate_25_34: Amount,
    pub bvg_rate_35_44: Amount,
    pub bvg_rate_45_54: Amount,
    pub bvg_rate_55_65: Amount,
    pub bvg_risk_rate: Amount,
    pub bvg_employer_share_pct: Amount,
    pub nbu_rate_employee: Amount,
    pub bu_rate_employer: Amount,
    pub uvg_max_salary: Amount,
    pub ktg_rate_employee: Amount,
    pub ktg_rate_employer: Amount,
    pub fak_rate_employer: Amount,
}

impl PayrollSettings {
    pub open spec fn wf(&self) -> bool {
        &&& self.ahv_iv_eo_rate_employee.wf()
        &&& self.ahv_iv_eo_rate_employer.wf()
        &&& self.alv_rate_employee.wf()
        &&& self.alv_rate_employer.wf()
        &&& self.alv_salary_cap.wf()
        &&& self.bvg_entry_threshold.wf()
        &&& self.bvg_coordination_deduction.wf()
        &&& self.bvg_min_insured_salary.wf()
        &&& self.bvg_max_insured_salary.wf()
        &&& self.bvg_rate_25_34.wf()
        &&& self.bvg_rate_35_44.wf()
        &&& self.bvg_rate_45_54.wf()
        &&& self.bvg_rate_55_65.wf()
        &&& self.bvg_risk_rate.wf()
        &&& self.bvg_employer_share_pct.wf()
        &&& self.nbu_rate_employee.wf()
        &&& self.bu_rate_employer.wf()
        &&& self.uvg_max_salary.wf()
        &&& self.ktg_rate_employee.wf()
        &&& self.ktg_rate_employer.wf()
        &&& self.fak_rate_employer.wf()
    }
}

/// `round_dp(2)`.
pub open spec fn r2(x: (int, nat)) -> (int, nat) {
    round_dp_spec(x, 2)
}

/// `Ord::max` on decimals: the second where they are equal.
pub open spec fn max_dec(a: (int, nat), b: (int, nat)) -> (int, nat) {
    if value(a) <= value(b) {
        b
    } else {
        a
    }
}

/// `Ord::min` on decimals: the first where they are equal.
pub open spec fn min_dec(a: (int, nat), b: (int, nat)) -> (int, nat) {
    if value(a) <= value(b) {
        a
    } else {
        b
    }
}

/// `round2(x * rate / 100)`; `None` where an operation overflows.
pub open spec fn pct_of(x: (int, nat), rate: (int, nat)) -> Option<(int, nat)> {
    match dec_checked_mul(x, rate) {
        Some(p) => match dec_checked_div(p, (100int, 0nat)) {
            Some(q) => Some(r2(q)),
            None => None,
        },
        None => None,
    }
}

/// The basis of a capped contribution: a twelfth of the cap where the
/// annual salary exceeds it, else the monthly salary.
pub open spec fn capped_basis(gross_monthly: (int, nat), gross_annual: (int, nat), cap: (int, nat)) -> Option<
    (int, nat),
> {
    if value(gross_annual) > value(cap) {
        dec_checked_div(cap, (12int, 0nat))
    } else {
        Some(gross_monthly)
    }
}

/// A contribution on a capped basis (ALV, NBU, BU).
pub open spec fn capped_contribution(
    gross_monthly: (int, nat),
    gross_annual: (int, nat),
    rate: (int, nat),
    cap: (int, nat),
) -> Option<(int, nat)> {
    match capped_basis(gross_monthly, gross_annual, cap) {
        Some(b) => pct_of(b, rate),
        None => None,
    }
}

/// The BVG savings rate for an age: by age band from 25 to 65, zero
/// outside.
pub open spec fn bvg_savings_rate(age: int, s: PayrollSettings) -> (int, nat) {
    if 25 <= age <= 34 {
        s.bvg_rate_25_34@
    } else if 35 <= age <= 44 {
        s.bvg_rate_35_44@
    } else if 45 <= age <= 54 {
        s.bvg_rate_45_54@
    } else if 55 <= age <= 65 {
        s.bvg_rate_55_65@
    } else {
        (0int, 0nat)
    }
}

/// The coordinated salary: the annual salary less the coordination
/// deduction, raised to the minimum and lowered to the maximum insured
/// salary.
pub open spec fn coordinated_salary(gross_annual: (int, nat), s: PayrollSettings) -> Option<(int, nat)> {
    match dec_checked_sub(gross_annual, s.bvg_coordination_deduction@) {
        Some(c) => Some(
            min_dec(max_dec(c, s.bvg_min_insured_salary@), s.bvg_max_insured_salary@),
        ),
        None => None,
    }
}

/// The monthly BVG contribution: nothing below the entry threshold; else
/// `round2(coordinated * (savings + risk) / 100 / 12)`. `None` where
/// `Decimal` arithmetic overflows.
pub open spec fn bvg_monthly_total(gross_annual: (int, nat), age: int, s: PayrollSettings) -> Option<
    (int, nat),
> {
    if value(gross_annual) < value(s.bvg_entry_threshold@) {
        Some((0int, 0nat))
    } else {
        match coordinated_salary(gross_annual, s) {
            None => None,
            Some(c) => match dec_checked_add(bvg_savings_rate(age, s), s.bvg_risk_rate@) {
                None => None,
                Some(rate) => match dec_checked_mul(c, rate) {
                    None => None,
                    Some(p) => match dec_checked_div(p, (100int, 0nat)) {
                        None => None,
                        Some(q) => match dec_checked_div(q, (12int, 0nat)) {
                            None => None,
                            Some(m) => Some(r2(m)),
                        },
                    },
                },
            },
        }
    }
}

/// The monthly BVG contribution split (employee share, employer share):
/// none below the entry threshold; else the employer pays
/// `round2(total * share / 100)` of the monthly total and the employee
/// the rest.
pub open spec fn bvg_shares(gross_annual: (int, nat), age: int, s: PayrollSettings) -> Option<
    ((int, nat), (int, nat)),
> {
    if value(gross_annual) < value(s.bvg_entry_threshold@) {
        Some(((0int, 0nat), (0int, 0nat)))
    } else {
        match bvg_monthly_total(gross_annual, age, s) {
            None => None,
            Some(total) => match dec_checked_div(s.bvg_employer_share_pct@, (100int, 0nat)) {
                None => None,
                Some(share) => match dec_checked_mul(total, share) {
                    None => None,
                    Some(e) => {
                        let employer = r2(e);
                        match dec_checked_sub(total, employer) {
                            None => None,
                            Some(employee) => Some((employee, employer)),
                        }
                    },
                },
            },
        }
    }
}

/// The age on a date of someone born on `dob`: the difference of the
/// years, less one before the birthday.
pub open spec fn age_on(dob: (int, int, int), on: (int, int, int)) -> int {
    if on.1 < dob.1 || (on.1 == dob.1 && on.2 < dob.2) {
        on.0 - dob.0 - 1
    } else {
        on.0 - dob.0
    }
}

/// The payroll calculation.
pub struct PayrollService;

impl PayrollService {
    fn percent(x: Amount, rate: Amount) -> (r: Option<Amount>)
        requires
            x.wf(),
            rate.wf(),
        ensures
            match pct_of(x@, rate@) {
                Some(v) => r matches Some(a) && a@ == v && a.wf(),
                None => r is None,
            },
    {
        let p = match x.checked_mul(rate) {
            Some(p) => p,
            None => return None,
        };
        match p.checked_div(Amount::from_int(100)) {
            Some(q) => Some(q.round_dp(2)),
            None => None,
        }
    }

    /// AHV/IV/EO: `round2(gross * rate / 100)`; `None` where `Decimal`
    /// arithmetic overflows.
    pub fn calculate_ahv(gross_monthly: Amount, rate_pct: Amount) -> (r: Option<Amount>)
        requires
            gross_monthly.wf(),
            rate_pct.wf(),
        ensures
            match pct_of(gross_monthly@, rate_pct@) {
                Some(v) => r matches Some(a) && a@ == v && a.wf(),
                None => r is None,
            },
    {
        Self::percent(gross_monthly, rate_pct)
    }

    /// ALV: the rate on the monthly salary, or on a twelfth of the salary
    /// cap where the annual salary exceeds the cap.
    pub fn calculate_alv(
        gross_monthly: Amount,
        gross_annual: Amount,
        rate_pct: Amount,
        salary_cap: Amount,
    ) -> (r: Option<Amount>)
        requires
            gross_monthly.wf(),
            gross_annual.wf(),
            rate_pct.wf(),
            salary_cap.wf(),
        ensures
            match capped_contribution(gross_monthly@, gross_annual@, rate_pct@, salary_cap@) {
                Some(v) => r matches Some(a) && a@ == v && a.wf(),
                None => r is None,
            },
    {
        let basis = if salary_cap.lt(gross_annual) {
            match salary_cap.checked_div(Amount::from_int(12)) {
                Some(b) => b,
                None => return None,
            }
        } else {
            gross_monthly
        };
        Self::percent(basis, rate_pct)
    }

    /// NBU (and BU): the rate on the monthly salary, or on a twelfth of the
    /// UVG maximum where the annual salary exceeds it.
    pub fn calculate_nbu(
        gross_monthly: Amount,
        gross_annual: Amount,
        rate_pct: Amount,
        uvg_max_salary: Amount,
    ) -> (r: Option<Amount>)
        requires
            gross_monthly.wf(),
            gross_annual.wf(),
            rate_pct.wf(),
            uvg_max_salary.wf(),
        ensures
            match capped_contribution(gross_monthly@, gross_annual@, rate_pct@, uvg_max_salary@) {
                Some(v) => r matches Some(a) && a@ == v && a.wf(),
                None => r is None,
            },
    {
        Self::calculate_alv(gross_monthly, gross_annual, rate_pct, uvg_max_salary)
    }

    /// The age on `on_date` of someone born on `dob` (dates as year, month,
    /// day).
    pub fn calculate_age(dob: (i32, u32, u32), on_date: (i32, u32, u32)) -> (r: i32)
        requires
            -262143 <= dob.0 <= 262142,
            -262143 <= on_date.0 <= 262142,
        ensures
            r == age_on(
                (dob.0 as int, dob.1 as int, dob.2 as int),
                (on_date.0 as int, on_date.1 as int, on_date.2 as int),
            ),
    {
        let mut age = on_date.0 - dob.0;
        if on_date.1 < dob.1 || (on_date.1 == dob.1 && on_date.2 < dob.2) {
            age = age - 1;
        }
        age
    }

    /// The BVG savings rate for an age: the rate of its age band from 25 to
    /// 65, zero outside.
    pub fn get_bvg_savings_rate(age: i32, settings: &PayrollSettings) -> (r: Amount)
        ensures
            r@ == bvg_savings_rate(age as int, *settings),
            25 <= age <= 34 ==> r@ == settings.bvg_rate_25_34@,
            35 <= age <= 44 ==> r@ == settings.bvg_rate_35_44@,
            45 <= age <= 54 ==> r@ == settings.bvg_rate_45_54@,
            55 <= age <= 65 ==> r@ == settings.bvg_rate_55_65@,
            (age < 25 || age > 65) ==> r@ == (0int, 0nat),
    {
        if 25 <= age && age <= 34 {
            settings.bvg_rate_25_34
        } else if 35 <= age && age <= 44 {
            settings.bvg_rate_35_44
        } else if 45 <= age && age <= 54 {
            settings.bvg_rate_45_54
        } else if 55 <= age && age <= 65 {
            settings.bvg_rate_55_65
        } else {
            Amount::zero()
        }
    }

    fn max_of(a: Amount, b: Amount) -> (r: Amount)
        requires
            a.wf(),
            b.wf(),
        ensures
            r@ == max_dec(a@, b@),
            r.wf(),
    {
        if b.lt(a) {
            a
        } else {
            b
        }
    }

    fn min_of(a: Amount, b: Amount) -> (r: Amount)
        requires
            a.wf(),
            b.wf(),
        ensures
            r@ == min_dec(a@, b@),
            r.wf(),
    {
        if b.lt(a) {
            b
        } else {
            a
        }
    }

    /// The monthly BVG shares (employee, employer) for an annual salary and
    /// an age (see `bvg_shares`).
    pub fn calculate_bvg(gross_annual: Amount, age: i32, settings: &PayrollSettings) -> (r: Option<
        (Amount, Amount),
    >)
        requires
            gross_annual.wf(),
            settings.wf(),
        ensures
            match bvg_shares(gross_annual@, age as int, *settings) {
                Some((ee, er)) => r matches Some((a, b)) && a@ == ee && b@ == er && a.wf() && b.wf(),
                None => r is None,
            },
            match (r, bvg_monthly_total(gross_annual@, age as int, *settings)) {
                (Some((ee, er)), Some(t)) => fits_at(value(t) - er.value(), 2) ==> ee.value()
                    + er.value() == value(t),
                _ => true,
            },
    {
        if gross_annual.lt(settings.bvg_entry_threshold) {
            proof {
                let p = crate::amount::pow10(28);
                assert(0 * p == 0) by (nonlinear_arith);
            }
            return Some((Amount::zero(), Amount::zero()));
        }
        let c = match gross_annual.checked_sub(settings.bvg_coordination_deduction) {
            Some(c) => c,
            None => return None,
        };
        let c = Self::min_of(
            Self::max_of(c, settings.bvg_min_insured_salary),
            settings.bvg_max_insured_salary,
        );
        let savings = Self::get_bvg_savings_rate(age, settings);
        assert(savings.wf());
        let rate = match savings.checked_add(settings.bvg_risk_rate) {
            Some(x) => x,
            None => return None,
        };
        let p = match c.checked_mul(rate) {
            Some(x) => x,
            None => return None,
        };
        let q = match p.checked_div(Amount::from_int(100)) {
            Some(x) => x,
            None => return None,
        };
        let m = match q.checked_div(Amount::from_int(12)) {
            Some(x) => x,
            None => return None,
        };
        let total = m.round_dp(2);
        let share = match settings.bvg_employer_share_pct.checked_div(Amount::from_int(100)) {
            Some(x) => x,
            None => return None,
        };
        let e = match total.checked_mul(share) {
            Some(x) => x,
            None => return None,
        };
        let employer = e.round_dp(2);
        match total.checked_sub(employer) {
            Some(employee) => {
                proof {
                    if fits_at(total.value() - employer.value(), 2) {
                        lemma_difference_fits(total@, employer@);
                    }
                }
                Some((employee, employer))
            },
            None => None,
        }
    }
}

/// An employee as the payroll reads them.
pub struct EmployeePay {
    pub employment_percentage: Amount,
    pub gross_monthly_salary: Amount,
    pub date_of_birth: (i32, u32, u32),
    pub is_quellensteuer: bool,
    pub quellensteuer_rate: Option<Amount>,
    pub has_children: bool,
    pub child_allowance_amount: Amount,
    pub number_of_children: i32,
}

impl EmployeePay {
    pub open spec fn wf(&self) -> bool {
        &&& self.employment_percentage.wf()
        &&& self.gross_monthly_salary.wf()
        &&& self.child_allowance_amount.wf()
        &&& (self.quellensteuer_rate matches Some(q) ==> q.wf())
        &&& -262143 <= self.date_of_birth.0 <= 262142
    }
}

/// One employee's payroll month.
pub struct PayrollLineCalc {
    pub gross_salary: Amount,
    pub ahv_employee: Amount,
    pub ahv_employer: Amount,
    pub alv_employee: Amount,
    pub alv_employer: Amount,
    pub bvg_employee: Amount,
    pub bvg_employer: Amount,
    pub nbu_employee: Amount,
    pub bu_employer: Amount,
    pub ktg_employee: Amount,
    pub ktg_employer: Amount,
    pub fak_employer: Amount,
    pub quellensteuer: Amount,
    pub child_allowance: Amount,
    pub net_salary: Amount,
    pub payout_amount: Amount,
    pub total_employer_cost: Amount,
}

impl PayrollLineCalc {
    /// The amounts in the order of the fields.
    pub open spec fn amounts(&self) -> Seq<(int, nat)> {
        seq![
            self.gross_salary@,
            self.ahv_employee@,
            self.ahv_employer@,
            self.alv_employee@,
            self.alv_employer@,
            self.bvg_employee@,
            self.bvg_employer@,
            self.nbu_employee@,
            self.bu_employer@,
            self.ktg_employee@,
            self.ktg_employer@,
            self.fak_employer@,
            self.quellensteuer@,
            self.child_allowance@,
            self.net_salary@,
            self.payout_amount@,
            self.total_employer_cost@,
        ]
    }
}

/// The monthly gross salary: `round2(salary * percentage / 100)`.
pub open spec fn gross_of(e: EmployeePay) -> Option<(int, nat)> {
    match dec_checked_div(e.employment_percentage@, (100int, 0nat)) {
        Some(p) => match dec_checked_mul(e.gross_monthly_salary@, p) {
            Some(g) => Some(r2(g)),
            None => None,
        },
        None => None,
    }
}

/// Withholding tax: the employee's rate (zero where none) on the monthly
/// salary, for employees subject to it.
pub open spec fn quellensteuer_of(e: EmployeePay, gm: (int, nat)) -> Option<(int, nat)> {
    if e.is_quellensteuer {
        pct_of(
            gm,
            match e.quellensteuer_rate {
                Some(q) => q@,
                None => (0int, 0nat),
            },
        )
    } else {
        Some((0int, 0nat))
    }
}

/// Child allowance: `round2(amount * children)` for employees with
/// children.
pub open spec fn child_allowance_of(e: EmployeePay) -> Option<(int, nat)> {
    if e.has_children {
        match dec_checked_mul(e.child_allowance_amount@, (e.number_of_children as int, 0nat)) {
            Some(c) => Some(r2(c)),
            None => None,
        }
    } else {
        Some((0int, 0nat))
    }
}

/// `a + b + c + ...` from the first amount on.
pub open spec fn add_chain(s: Seq<(int, nat)>) -> Option<(int, nat)>
    decreases s.len(),
{
    if s.len() <= 1 {
        if s.len() == 1 {
            Some(s[0])
        } else {
            None
        }
    } else {
        match add_chain(s.drop_last()) {
            Some(t) => dec_checked_add(t, s.last()),
            None => None,
        }
    }
}

/// The payroll month of an employee for an age: gross salary, the
/// contributions of employee and employer, withholding tax and child
/// allowance; the net salary is the gross less the employee's AHV, ALV,
/// BVG, NBU and KTG and less withholding tax; the payout adds the child
/// allowance; the employer cost adds the employer's AHV, ALV, BVG, BU, KTG
/// and FAK to the gross. In the order of the fields; `None` where
/// `Decimal` arithmetic overflows.
pub open spec fn payroll_line(e: EmployeePay, s: PayrollSettings, age: int) -> Option<Seq<(int, nat)>> {
    match gross_of(e) {
        None => None,
        Some(gm) => match dec_checked_mul(gm, (12int, 0nat)) {
            None => None,
            Some(ga) => match (
                pct_of(gm, s.ahv_iv_eo_rate_employee@),
                pct_of(gm, s.ahv_iv_eo_rate_employer@),
                capped_contribution(gm, ga, s.alv_rate_employee@, s.alv_salary_cap@),
                capped_contribution(gm, ga, s.alv_rate_employer@, s.alv_salary_cap@),
                bvg_shares(ga, age, s),
                capped_contribution(gm, ga, s.nbu_rate_employee@, s.uvg_max_salary@),
                capped_contribution(gm, ga, s.bu_rate_employer@, s.uvg_max_salary@),
                pct_of(gm, s.ktg_rate_employee@),
                pct_of(gm, s.ktg_rate_employer@),
                pct_of(gm, s.fak_rate_employer@),
                quellensteuer_of(e, gm),
                child_allowance_of(e),
            ) {
                (
                    Some(ahv_e),
                    Some(ahv_r),
                    Some(alv_e),
                    Some(alv_r),
                    Some((bvg_e, bvg_r)),
                    Some(nbu_e),
                    Some(bu_r),
                    Some(ktg_e),
                    Some(ktg_r),
                    Some(fak_r),
                    Some(qst),
                    Some(child),
                ) => match add_chain(seq![ahv_e, alv_e, bvg_e, nbu_e, ktg_e]) {
                    None => None,
                    Some(ded) => match dec_checked_sub(gm, ded) {
                        None => None,
                        Some(n1) => match dec_checked_sub(n1, qst) {
                            None => None,
                            Some(net) => match dec_checked_add(net, child) {
                                None => None,
                                Some(payout) => match add_chain(
                                    seq![ahv_r, alv_r, bvg_r, bu_r, ktg_r, fak_r],
                                ) {
                                    None => None,
                                    Some(er) => match dec_checked_add(gm, er) {
                                        None => None,
                                        Some(total) => Some(
                                            seq![
                                                gm,
                                                ahv_e,
                                                ahv_r,
                                                alv_e,
                                                alv_r,
                                                bvg_e,
                                                bvg_r,
                                                nbu_e,
                                                bu_r,
                                                ktg_e,
                                                ktg_r,
                                                fak_r,
                                                qst,
                                                child,
                                                net,
                                                payout,
                                                total,
                                            ],
                                        ),
                                    },
                                },
                            },
                        },
                    },
                },
                _ => None,
            },
        },
    }
}

impl PayrollService {
    fn chain_add(v: &Vec<Amount>) -> (r: Option<Amount>)
        requires
            v.len() >= 1,
            forall|i: int| 0 <= i < v.len() ==> (#[trigger] v[i]).wf(),
        ensures
            match add_chain(v@.map_values(|a: Amount| a@)) {
                Some(t) => r matches Some(x) && x@ == t && x.wf(),
                None => r is None,
            },
    {
        let ghost s = v@.map_values(|a: Amount| a@);
        let mut total = v[0];
        let mut i: usize = 1;
        assert(s.take(1) =~= seq![s[0]]);
        while i < v.len()
            invariant
                1 <= i <= v.len(),
                s == v@.map_values(|a: Amount| a@),
                forall|j: int| 0 <= j < v.len() ==> (#[trigger] v[j]).wf(),
                total.wf(),
                add_chain(s.take(i as int)) == Some(total@),
            decreases v.len() - i,
        {
            assert(s.take(i + 1).drop_last() =~= s.take(i as int));
            match total.checked_add(v[i]) {
                Some(t) => {
                    total = t;
                },
                None => {
                    proof {
                        lemma_chain_none_extends(s, i as int + 1);
                    }
                    return None;
                },
            }
            i = i + 1;
        }
        assert(s.take(v.len() as int) =~= s);
        Some(total)
    }

    /// The payroll month of an employee on `run_date` (see
    /// `payroll_line`, with the employee's age on the run date); `None`
    /// where `Decimal` arithmetic overflows.
    pub fn calculate_payroll_line(
        employee: &EmployeePay,
        settings: &PayrollSettings,
        run_date: (i32, u32, u32),
    ) -> (r: Option<PayrollLineCalc>)
        requires
            employee.wf(),
            settings.wf(),
            -262143 <= run_date.0 <= 262142,
        ensures
            match payroll_line(
                *employee,
                *settings,
                age_on(
                    (
                        employee.date_of_birth.0 as int,
                        employee.date_of_birth.1 as int,
                        employee.date_of_birth.2 as int,
                    ),
                    (run_date.0 as int, run_date.1 as int, run_date.2 as int),
                ),
            ) {
                Some(v) => r matches Some(l) && l.amounts() == v,
                None => r is None,
            },
    {
        let s = settings;
        let e = employee;
        let age = Self::calculate_age(e.date_of_birth, run_date);
        let pct = match e.employment_percentage.checked_div(Amount::from_int(100)) {
            Some(x) => x,
            None => return None,
        };
        let gm = match e.gross_monthly_salary.checked_mul(pct) {
            Some(x) => x.round_dp(2),
            None => return None,
        };
        let ga = match gm.checked_mul(Amount::from_int(12)) {
            Some(x) => x,
            None => return None,
        };
        let o_ahv_e = Self::calculate_ahv(gm, s.ahv_iv_eo_rate_employee);
        let o_ahv_r = Self::calculate_ahv(gm, s.ahv_iv_eo_rate_employer);
        let o_alv_e = Self::calculate_alv(gm, ga, s.alv_rate_employee, s.alv_salary_cap);
        let o_alv_r = Self::calculate_alv(gm, ga, s.alv_rate_employer, s.alv_salary_cap);
        let o_bvg = Self::calculate_bvg(ga, age, s);
        let o_nbu_e = Self::calculate_nbu(gm, ga, s.nbu_rate_employee, s.uvg_max_salary);
        let o_bu_r = Self::calculate_nbu(gm, ga, s.bu_rate_employer, s.uvg_max_salary);
        let o_ktg_e = Self::percent(gm, s.ktg_rate_employee);
        let o_ktg_r = Self::percent(gm, s.ktg_rate_employer);
        let o_fak_r = Self::percent(gm, s.fak_rate_employer);
        let o_qst = if e.is_quellensteuer {
            let rate = match e.quellensteuer_rate {
                Some(q) => q,
                None => Amount::zero(),
            };
            Self::percent(gm, rate)
        } else {
            Some(Amount::zero())
        };
        let o_child = if e.has_children {
            match e.child_allowance_amount.checked_mul(Amount::from_int(e.number_of_children as i64)) {
                Some(c) => Some(c.round_dp(2)),
                None => None,
            }
        } else {
            Some(Amount::zero())
        };
        let (ahv_e, ahv_r, alv_e, alv_r, bvg, nbu_e, bu_r, ktg_e, ktg_r, fak_r, qst, child) = match (
            o_ahv_e,
            o_ahv_r,
            o_alv_e,
            o_alv_r,
            o_bvg,
            o_nbu_e,
            o_bu_r,
            o_ktg_e,
            o_ktg_r,
            o_fak_r,
            o_qst,
            o_child,
        ) {
            (
                Some(a),
                Some(b),
                Some(c),
                Some(d),
                Some(f),
                Some(g),
                Some(h),
                Some(i),
                Some(j),
                Some(k),
                Some(l),
                Some(m),
            ) => (a, b, c, d, f, g, h, i, j, k, l, m),
            _ => return None,
        };
        let (bvg_e, bvg_r) = bvg;
        let mut dv: Vec<Amount> = Vec::new();
        dv.push(ahv_e);
        dv.push(alv_e);
        dv.push(bvg_e);
        dv.push(nbu_e);
        dv.push(ktg_e);
        assert(dv@.map_values(|a: Amount| a@) =~= seq![ahv_e@, alv_e@, bvg_e@, nbu_e@, ktg_e@]);
        let ded = match Self::chain_add(&dv) {
            Some(x) => x,
            None => return None,
        };
        let n1 = match gm.checked_sub(ded) {
            Some(x) => x,
            None => return None,
        };
        let net = match n1.checked_sub(qst) {
            Some(x) => x,
            None => return None,
        };
        let payout = match net.checked_add(child) {
            Some(x) => x,
            None => return None,
        };
        let mut ev: Vec<Amount> = Vec::new();
        ev.push(ahv_r);
        ev.push(alv_r);
        ev.push(bvg_r);
        ev.push(bu_r);
        ev.push(ktg_r);
        ev.push(fak_r);
        assert(ev@.map_values(|a: Amount| a@) =~= seq![
            ahv_r@,
            alv_r@,
            bvg_r@,
            bu_r@,
            ktg_r@,
            fak_r@,
        ]);
        let er = match Self::chain_add(&ev) {
            Some(x) => x,
            None => return None,
        };
        let total = match gm.checked_add(er) {
            Some(x) => x,
            None => return None,
        };
        let line = PayrollLineCalc {
            gross_salary: gm,
            ahv_employee: ahv_e,
            ahv_employer: ahv_r,
            alv_employee: alv_e,
            alv_employer: alv_r,
            bvg_employee: bvg_e,
            bvg_employer: bvg_r,
            nbu_employee: nbu_e,
            bu_employer: bu_r,
            ktg_employee: ktg_e,
            ktg_employer: ktg_r,
            fak_employer: fak_r,
            quellensteuer: qst,
            child_allowance: child,
            net_salary: net,
            payout_amount: payout,
            total_employer_cost: total,
        };
        Some(line)
    }
}

proof fn lemma_chain_none_extends(s: Seq<(int, nat)>, k: int)
    requires
        1 <= k <= s.len(),
        add_chain(s.take(k)) is None,
    ensures
        add_chain(s) is None,
    decreases s.len() - k,
{
    if k < s.len() {
        assert(s.take(k + 1).drop_last() =~= s.take(k));
        lemma_chain_none_extends(s, k + 1);
    } else {
        assert(s.take(k) =~= s);
    }
}

/// The BVG savings rate follows the age bands: each age from 25 to 65 gets
/// the rate set for its band (25-34, 35-44, 45-54, 55-65), and an age
/// below 25 or above 65 saves nothing.
pub proof fn lemma_bvg_rate_by_age_band(age: int, s: PayrollSettings)
    ensures
        25 <= age <= 34 ==> bvg_savings_rate(age, s) == s.bvg_rate_25_34@,
        35 <= age <= 44 ==> bvg_savings_rate(age, s) == s.bvg_rate_35_44@,
        45 <= age <= 54 ==> bvg_savings_rate(age, s) == s.bvg_rate_45_54@,
        55 <= age <= 65 ==> bvg_savings_rate(age, s) == s.bvg_rate_55_65@,
        (age < 25 || age > 65) ==> bvg_savings_rate(age, s) == (0int, 0nat),
{
}

/// The rate of an age depends on the setting of its own band alone: two
/// settings that agree on that band's rate give the same rate for the age,
/// whatever the other bands' rates are.
pub proof fn lemma_bvg_rate_uses_own_band(age: int, s: PayrollSettings, t: PayrollSettings)
    requires
        25 <= age <= 34 ==> s.bvg_rate_25_34@ == t.bvg_rate_25_34@,
        35 <= age <= 44 ==> s.bvg_rate_35_44@ == t.bvg_rate_35_44@,
        45 <= age <= 54 ==> s.bvg_rate_45_54@ == t.bvg_rate_45_54@,
        55 <= age <= 65 ==> s.bvg_rate_55_65@ == t.bvg_rate_55_65@,
    ensures
        bvg_savings_rate(age, s) == bvg_savings_rate(age, t),
{
}

} // verus!
