use konto::amount::Amount;
use konto::lohnausweis::{EmployeeSummary, LohnausweisService, PayrollLineAmounts};
use konto::payroll::{EmployeePay, PayrollService, PayrollSettings};
use rust_decimal::Decimal;
use std::str::FromStr;

fn a(s: &str) -> Amount {
    let d = Decimal::from_str(s).unwrap();
    Amount { mantissa: d.mantissa(), scale: d.scale() }
}

fn d(x: Amount) -> Decimal {
    Decimal::from_i128_with_scale(x.mantissa, x.scale)
}

fn settings() -> PayrollSettings {
    PayrollSettings {
        ahv_iv_eo_rate_employee: a("5.3"),
        ahv_iv_eo_rate_employer: a("5.3"),
        alv_rate_employee: a("1.1"),
        alv_rate_employer: a("1.1"),
        alv_salary_cap: a("148200"),
        bvg_entry_threshold: a("22050"),
        bvg_coordination_deduction: a("25725"),
        bvg_min_insured_salary: a("3675"),
        bvg_max_insured_salary: a("62475"),
        bvg_rate_25_34: a("7"),
        bvg_rate_35_44: a("10"),
        bvg_rate_45_54: a("15"),
        bvg_rate_55_65: a("18"),
        bvg_risk_rate: a("1"),
        bvg_employer_share_pct: a("50"),
        nbu_rate_employee: a("1.5"),
        bu_rate_employer: a("0.5"),
        uvg_max_salary: a("148200"),
        ktg_rate_employee: a("0.5"),
        ktg_rate_employer: a("0.5"),
        fak_rate_employer: a("1.2"),
    }
}

#[test]
fn ahv_is_a_rounded_percentage() {
    let r = PayrollService::calculate_ahv(a("5000"), a("5.3")).unwrap();
    assert_eq!(d(r), Decimal::from_str("265.00").unwrap());
    let r = PayrollService::calculate_ahv(a("3333.33"), a("5.3")).unwrap();
    assert_eq!(d(r), Decimal::from_str("176.67").unwrap());
}

#[test]
fn alv_is_capped() {
    let r = PayrollService::calculate_alv(a("20000"), a("240000"), a("1.1"), a("148200")).unwrap();
    assert_eq!(d(r), Decimal::from_str("135.85").unwrap());
    let r = PayrollService::calculate_alv(a("5000"), a("60000"), a("1.1"), a("148200")).unwrap();
    assert_eq!(d(r), Decimal::from_str("55.00").unwrap());
    let r = PayrollService::calculate_nbu(a("5000"), a("60000"), a("1.5"), a("148200")).unwrap();
    assert_eq!(d(r), Decimal::from_str("75.00").unwrap());
}

#[test]
fn ages_and_bvg_rates() {
    assert_eq!(PayrollService::calculate_age((1990, 6, 15), (2024, 6, 14)), 33);
    assert_eq!(PayrollService::calculate_age((1990, 6, 15), (2024, 6, 15)), 34);
    let s = settings();
    assert_eq!(d(PayrollService::get_bvg_savings_rate(24, &s)), Decimal::ZERO);
    assert_eq!(d(PayrollService::get_bvg_savings_rate(34, &s)), Decimal::from(7));
    assert_eq!(d(PayrollService::get_bvg_savings_rate(65, &s)), Decimal::from(18));
    assert_eq!(d(PayrollService::get_bvg_savings_rate(66, &s)), Decimal::ZERO);
}

#[test]
fn bvg_shares_add_up() {
    let s = settings();
    let (e, r) = PayrollService::calculate_bvg(a("60000"), 40, &s).unwrap();
    // coordinated 34275, rate 11% => 3770.25 / 12 = 314.1875 -> 314.19
    assert_eq!(d(e) + d(r), Decimal::from_str("314.19").unwrap());
    assert_eq!(d(r), Decimal::from_str("157.10").unwrap());
    let (e, r) = PayrollService::calculate_bvg(a("20000"), 40, &s).unwrap();
    assert_eq!((d(e), d(r)), (Decimal::ZERO, Decimal::ZERO));
}

#[test]
fn a_payroll_line() {
    let emp = EmployeePay {
        employment_percentage: a("100"),
        gross_monthly_salary: a("5000"),
        date_of_birth: (1984, 3, 1),
        is_quellensteuer: false,
        quellensteuer_rate: None,
        has_children: true,
        child_allowance_amount: a("215"),
        number_of_children: 2,
    };
    let l = PayrollService::calculate_payroll_line(&emp, &settings(), (2024, 5, 25)).unwrap();
    assert_eq!(d(l.gross_salary), Decimal::from(5000));
    assert_eq!(d(l.ahv_employee), Decimal::from_str("265").unwrap());
    assert_eq!(d(l.child_allowance), Decimal::from(430));
    let deductions = d(l.ahv_employee) + d(l.alv_employee) + d(l.bvg_employee) + d(l.nbu_employee) + d(l.ktg_employee);
    assert_eq!(d(l.net_salary), Decimal::from(5000) - deductions);
    assert_eq!(d(l.payout_amount), d(l.net_salary) + Decimal::from(430));
    let employer = d(l.ahv_employer) + d(l.alv_employer) + d(l.bvg_employer) + d(l.bu_employer) + d(l.ktg_employer) + d(l.fak_employer);
    assert_eq!(d(l.total_employer_cost), Decimal::from(5000) + employer);
}

fn summary() -> EmployeeSummary {
    EmployeeSummary {
        id: "e1".into(),
        first_name: "Anna".into(),
        last_name: "Muster".into(),
        ahv_number: "756.1234.5678.97".into(),
        date_of_birth: "01.03.1984".into(),
        street: "Weg 1".into(),
        postal_code: "3000".into(),
        city: "Bern".into(),
        country: "CH".into(),
        employment_start: "01.01.2020".into(),
        employment_end: None,
        marital_status: "single".into(),
    }
}

fn line(g: &str) -> PayrollLineAmounts {
    PayrollLineAmounts {
        gross_salary: a(g),
        ahv_employee: a("10"),
        alv_employee: a("2"),
        bvg_employee: a("30"),
        nbu_employee: a("1.5"),
        ktg_employee: a("0.5"),
        quellensteuer: a("0"),
        child_allowance: a("0"),
        net_salary: a("100"),
        payout_amount: a("100"),
    }
}

#[test]
fn lohnausweis_totals() {
    assert!(LohnausweisService::run_counts(2024, "approved", 2024));
    assert!(LohnausweisService::run_counts(2024, "paid", 2024));
    assert!(!LohnausweisService::run_counts(2024, "draft", 2024));
    assert!(!LohnausweisService::run_counts(2023, "paid", 2024));
    let data = LohnausweisService::aggregate(summary(), 2024, &vec![line("5000"), line("5000.50")]).unwrap();
    assert_eq!(data.months_worked, 2);
    assert_eq!(data.year, 2024);
    assert_eq!(d(data.total_gross), Decimal::from_str("10000.50").unwrap());
    assert_eq!(d(data.total_social_deductions), Decimal::from(28));
    assert_eq!(d(data.total_bvg_employee), Decimal::from(60));
    assert_eq!(data.employee.last_name, "Muster");
}
