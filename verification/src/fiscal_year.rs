//! Fiscal years: the checks on creating, editing and closing one, its
//! monthly periods, the closing entry, and whether a date may be posted to.
use vstd::prelude::*;

use crate::amount::Amount;
use crate::cash_flow::abs_dec;
use crate::date::{
    before, date_lt, from_ymd, iso_date, iso_text, month_year, month_year_text, pred, pred_date,
    succ, succ_date, valid_date,
};
use crate::error::{AppError, ErrorKind};
use crate::journal_service::JournalLineInput;
use crate::text::str_eq;

verus! {

/// The fiscal year service: the decisions about fiscal years.
pub struct FiscalYearService;

/// One monthly period of a new fiscal year.
pub struct PeriodPlan {
    pub name: String,
    pub start: (i32, u32, u32),
    pub end: (i32, u32, u32),
    pub number: i32,
}

/// A fiscal year as the posting check reads it.
pub struct FiscalYearInfo {
    pub name: String,
    pub start: (i32, u32, u32),
    pub end: (i32, u32, u32),
    pub closed: bool,
}

pub open spec fn di(d: (i32, u32, u32)) -> (int, int, int) {
    (d.0 as int, d.1 as int, d.2 as int)
}

pub open spec fn valid(d: (int, int, int)) -> bool {
    valid_date(d.0, d.1, d.2)
}

/// The last day of the period that starts on `cur`: the end of its month,
/// but not after the year's end.
pub open spec fn period_end(cur: (int, int, int), end: (int, int, int)) -> (int, int, int) {
    let next = if cur.1 == 12 {
        (cur.0 + 1, 1, 1)
    } else {
        (cur.0, cur.1 + 1, 1)
    };
    let pe = if valid(next) {
        match pred_date(next.0, next.1, next.2) {
            Some(p) => p,
            None => next,
        }
    } else {
        end
    };
    if date_lt(end, pe) {
        end
    } else {
        pe
    }
}

/// The day after a period's end, or the year's end where there is none.
pub open spec fn after(pe: (int, int, int), end: (int, int, int)) -> (int, int, int) {
    match succ_date(pe.0, pe.1, pe.2) {
        Some(n) => n,
        None => end,
    }
}

/// The periods (start, end, number) from `cur` on: one per month while the
/// start is before the year's end, at most twelve in all.
pub open spec fn periods(cur: (int, int, int), end: (int, int, int), num: int) -> Seq<
    ((int, int, int), (int, int, int), int),
>
    decreases 13 - num,
{
    if num < 1 || num > 12 || !date_lt(cur, end) {
        Seq::empty()
    } else {
        let pe = period_end(cur, end);
        seq![(cur, pe, num)] + periods(after(pe, end), end, num + 1)
    }
}

/// The line texts of a closing entry.
pub open spec fn result_text() -> Seq<char> {
    "Closing entry - annual result"@
}

pub open spec fn retained_text() -> Seq<char> {
    "Closing entry - retained earnings"@
}

/// Whether the date falls in the fiscal year.
pub open spec fn in_year(d: (int, int, int), fy: FiscalYearInfo) -> bool {
    !date_lt(d, di(fy.start)) && !date_lt(di(fy.end), d)
}

/// The first fiscal year, from `k` on, that holds the date.
pub open spec fn year_of(years: Seq<FiscalYearInfo>, d: (int, int, int), k: int) -> Option<int>
    decreases years.len() - k,
{
    if k < 0 || k >= years.len() {
        None
    } else if in_year(d, years[k]) {
        Some(k)
    } else {
        year_of(years, d, k + 1)
    }
}

impl FiscalYearService {
    /// A fiscal year must end after it starts.
    pub fn check_dates(start: (i32, u32, u32), end: (i32, u32, u32)) -> (r: Result<(), AppError>)
        ensures
            date_lt(di(start), di(end)) ==> r is Ok,
            !date_lt(di(start), di(end)) ==> (r matches Err(e) && e.kind_and_message() == (
                ErrorKind::Validation,
                "End date must be after start date"@,
            )),
    {
        if before(start, end) {
            Ok(())
        } else {
            Err(AppError::Validation("End date must be after start date".to_owned()))
        }
    }

    /// A closed fiscal year cannot be edited.
    pub fn check_editable(status: &str) -> (r: Result<(), AppError>)
        ensures
            status@ != "closed"@ ==> r is Ok,
            status@ == "closed"@ ==> (r matches Err(e) && e.kind_and_message() == (
                ErrorKind::Validation,
                "Cannot edit a closed fiscal year"@,
            )),
    {
        if str_eq(status, "closed") {
            Err(AppError::Validation("Cannot edit a closed fiscal year".to_owned()))
        } else {
            Ok(())
        }
    }

    /// A closed fiscal year cannot be closed again.
    pub fn check_closable(status: &str) -> (r: Result<(), AppError>)
        ensures
            status@ != "closed"@ ==> r is Ok,
            status@ == "closed"@ ==> (r matches Err(e) && e.kind_and_message() == (
                ErrorKind::Validation,
                "Fiscal year is already closed"@,
            )),
    {
        if str_eq(status, "closed") {
            Err(AppError::Validation("Fiscal year is already closed".to_owned()))
        } else {
            Ok(())
        }
    }

    fn end_of_period(cur: (i32, u32, u32), end: (i32, u32, u32)) -> (r: (i32, u32, u32))
        requires
            valid(di(cur)),
            valid(di(end)),
        ensures
            di(r) == period_end(di(cur), di(end)),
            valid(di(r)),
    {
        let next = if cur.1 == 12 {
            from_ymd(cur.0 + 1, 1, 1)
        } else {
            from_ymd(cur.0, cur.1 + 1, 1)
        };
        let pe = match next {
            Some(n) => match pred(n) {
                Some(p) => p,
                None => n,
            },
            None => end,
        };
        if before(end, pe) {
            end
        } else {
            pe
        }
    }

    /// The monthly periods of a new fiscal year from `start` to `end`: each
    /// from its start to the end of its month (the last one to the year's
    /// end), named by month and year, numbered from one, at most twelve.
    pub fn monthly_periods(start: (i32, u32, u32), end: (i32, u32, u32)) -> (r: Vec<PeriodPlan>)
        requires
            valid(di(start)),
            valid(di(end)),
        ensures
            r@.len() == periods(di(start), di(end), 1).len(),
            forall|i: int|
                0 <= i < r@.len() ==> {
                    let p = periods(di(start), di(end), 1)[i];
                    &&& di((#[trigger] r@[i]).start) == p.0
                    &&& di(r@[i].end) == p.1
                    &&& r@[i].number == p.2
                    &&& r@[i].name@ == month_year_text(p.0.0, p.0.1, p.0.2)
                },
    {
        let ghost all = periods(di(start), di(end), 1);
        let mut out: Vec<PeriodPlan> = Vec::new();
        let mut cur = start;
        let mut num: i32 = 1;
        while num <= 12 && before(cur, end)
            invariant
                1 <= num <= 13,
                valid(di(cur)),
                valid(di(end)),
                out@.len() == num - 1,
                all == periods(di(start), di(end), 1),
                all == out@.map_values(
                    |p: PeriodPlan| (di(p.start), di(p.end), p.number as int),
                ) + periods(di(cur), di(end), num as int),
                forall|i: int|
                    0 <= i < out@.len() ==> (#[trigger] out@[i]).name@ == month_year_text(
                        out@[i].start.0 as int,
                        out@[i].start.1 as int,
                        out@[i].start.2 as int,
                    ),
            decreases 13 - num,
        {
            let pe = Self::end_of_period(cur, end);
            let name = month_year(cur);
            let ghost before_push = out@;
            out.push(PeriodPlan { name, start: cur, end: pe, number: num });
            let next = match succ(pe) {
                Some(n) => n,
                None => end,
            };
            proof {
                let f = |p: PeriodPlan| (di(p.start), di(p.end), p.number as int);
                assert(out@.map_values(f) =~= before_push.map_values(f).push(
                    (di(cur), di(pe), num as int),
                ));
                assert(periods(di(cur), di(end), num as int) == seq![
                    (di(cur), di(pe), num as int),
                ] + periods(di(next), di(end), num as int + 1));
                assert(before_push.map_values(f).push((di(cur), di(pe), num as int)) + periods(
                    di(next),
                    di(end),
                    num as int + 1,
                ) =~= before_push.map_values(f) + (seq![(di(cur), di(pe), num as int)] + periods(
                    di(next),
                    di(end),
                    num as int + 1,
                )));
            }
            cur = next;
            num = num + 1;
        }
        proof {
            let f = |p: PeriodPlan| (di(p.start), di(p.end), p.number as int);
            assert(periods(di(cur), di(end), num as int) =~= Seq::empty());
            assert(all =~= out@.map_values(f));
            assert forall|i: int| 0 <= i < out@.len() implies di((#[trigger] out@[i]).start) == all[i].0
                && di(out@[i].end) == all[i].1 && out@[i].number == all[i].2 by {
                assert(all[i] == out@.map_values(f)[i]);
            }
        }
        out
    }

    /// The lines of the closing entry for a year's net income: none for a
    /// zero result; a profit debited to the annual result (2979) and
    /// credited to retained earnings (2970); a loss the other way round.
    pub fn closing_lines(net_income: Amount) -> (r: Option<Vec<JournalLineInput>>)
        requires
            net_income.wf(),
        ensures
            net_income.value() == 0 ==> r is None,
            net_income.value() > 0 ==> (r matches Some(v) && v@.len() == 2 && v@[0]@ == (
                "acct-2979"@,
                abs_dec(net_income@),
                (0int, 0nat),
                Some(result_text()),
                None::<Seq<char>>,
            ) && v@[1]@ == (
                "acct-2970"@,
                (0int, 0nat),
                abs_dec(net_income@),
                Some(retained_text()),
                None::<Seq<char>>,
            )),
            net_income.value() < 0 ==> (r matches Some(v) && v@.len() == 2 && v@[0]@ == (
                "acct-2970"@,
                abs_dec(net_income@),
                (0int, 0nat),
                Some(retained_text()),
                None::<Seq<char>>,
            ) && v@[1]@ == (
                "acct-2979"@,
                (0int, 0nat),
                abs_dec(net_income@),
                Some(result_text()),
                None::<Seq<char>>,
            )),
    {
        let zero = Amount::zero();
        if net_income.eq(zero) {
            return None;
        }
        let a = net_income.abs();
        let (first, first_text, second, second_text) = if zero.lt(net_income) {
            ("acct-2979", "Closing entry - annual result", "acct-2970", "Closing entry - retained earnings")
        } else {
            ("acct-2970", "Closing entry - retained earnings", "acct-2979", "Closing entry - annual result")
        };
        let mut v: Vec<JournalLineInput> = Vec::new();
        v.push(
            JournalLineInput {
                account_id: first.to_owned(),
                debit_amount: a,
                credit_amount: Amount::zero(),
                description: Some(first_text.to_owned()),
                vat_rate_id: None,
            },
        );
        v.push(
            JournalLineInput {
                account_id: second.to_owned(),
                debit_amount: Amount::zero(),
                credit_amount: a,
                description: Some(second_text.to_owned()),
                vat_rate_id: None,
            },
        );
        Some(v)
    }

    /// The description and reference of a closing entry.
    pub fn closing_texts(name: &str) -> (r: (String, String))
        ensures
            r.0@ == "Closing entry for "@ + name@,
            r.1@ == "CLOSE-"@ + name@,
    {
        let mut d = "Closing entry for ".to_owned();
        d.append(name);
        let mut f = "CLOSE-".to_owned();
        f.append(name);
        (d, f)
    }

    /// Whether a posting date is allowed: any date where no fiscal year is
    /// defined; else the first fiscal year holding the date must be open.
    pub fn check_posting_date(years: &Vec<FiscalYearInfo>, date: (i32, u32, u32)) -> (r: Result<
        (),
        AppError,
    >)
        requires
            valid(di(date)),
            forall|i: int|
                0 <= i < years.len() ==> valid(di((#[trigger] years[i]).start)) && valid(
                    di(years[i].end),
                ),
        ensures
            years.len() == 0 ==> r is Ok,
            years.len() > 0 ==> match year_of(years@, di(date), 0) {
                Some(k) => if years@[k].closed {
                    r matches Err(e) && e.kind_and_message() == (
                        ErrorKind::Validation,
                        "Posting period is closed: "@ + years@[k].name@ + " ("@ + iso_text(
                            years@[k].start.0 as int,
                            years@[k].start.1 as int,
                            years@[k].start.2 as int,
                        ) + " to "@ + iso_text(
                            years@[k].end.0 as int,
                            years@[k].end.1 as int,
                            years@[k].end.2 as int,
                        ) + ")"@,
                    )
                } else {
                    r is Ok
                },
                None => r matches Err(e) && e.kind_and_message() == (
                    ErrorKind::Validation,
                    "No fiscal year found for date "@ + iso_text(
                        date.0 as int,
                        date.1 as int,
                        date.2 as int,
                    ),
                ),
            },
    {
        if years.len() == 0 {
            return Ok(());
        }
        let mut i: usize = 0;
        while i < years.len()
            invariant
                i <= years.len(),
                year_of(years@, di(date), 0) == year_of(years@, di(date), i as int),
                forall|j: int|
                    0 <= j < years.len() ==> valid(di((#[trigger] years[j]).start)) && valid(
                        di(years[j].end),
                    ),
            decreases years.len() - i,
        {
            let fy = &years[i];
            if !before(date, fy.start) && !before(fy.end, date) {
                if fy.closed {
                    let mut m = "Posting period is closed: ".to_owned();
                    m.append(fy.name.as_str());
                    m.append(" (");
                    m.append(iso_date(fy.start).as_str());
                    m.append(" to ");
                    m.append(iso_date(fy.end).as_str());
                    m.append(")");
                    return Err(AppError::Validation(m));
                }
                return Ok(());
            }
            i = i + 1;
        }
        let mut m = "No fiscal year found for date ".to_owned();
        m.append(iso_date(date).as_str());
        Err(AppError::Validation(m))
    }
}

/// A new fiscal year has at most twelve periods, numbered consecutively
/// from the first number given, each starting before the year's end.
pub proof fn lemma_periods_numbered(cur: (int, int, int), end: (int, int, int), num: int)
    requires
        1 <= num,
    ensures
        periods(cur, end, num).len() <= if num <= 12 {
            13 - num
        } else {
            0
        },
        forall|i: int|
            0 <= i < periods(cur, end, num).len() ==> (#[trigger] periods(cur, end, num)[i]).2
                == num + i && date_lt(periods(cur, end, num)[i].0, end),
    decreases 13 - num,
{
    if num <= 12 && date_lt(cur, end) {
        let pe = period_end(cur, end);
        lemma_periods_numbered(after(pe, end), end, num + 1);
        let rest = periods(after(pe, end), end, num + 1);
        assert forall|i: int| 0 < i < periods(cur, end, num).len() implies (#[trigger] periods(
            cur,
            end,
            num,
        )[i]).2 == num + i && date_lt(periods(cur, end, num)[i].0, end) by {
            assert(periods(cur, end, num)[i] == rest[i - 1]);
        }
    }
}

/// A fiscal year holds every day from its start to its end, both ends
/// included, and no day before its start or after its end.
pub proof fn lemma_fiscal_year_bounds(d: (int, int, int), fy: FiscalYearInfo)
    ensures
        !date_lt(di(fy.end), di(fy.start)) ==> in_year(di(fy.start), fy) && in_year(di(fy.end), fy),
        date_lt(di(fy.start), d) && date_lt(d, di(fy.end)) ==> in_year(d, fy),
        date_lt(d, di(fy.start)) ==> !in_year(d, fy),
        date_lt(di(fy.end), d) ==> !in_year(d, fy),
        d == di(fy.start) && !date_lt(di(fy.end), d) ==> in_year(d, fy),
        d == di(fy.end) && !date_lt(d, di(fy.start)) ==> in_year(d, fy),
{
}

/// The fiscal year a date is posted in: the first in the list whose days,
/// start and end included, hold it.
pub proof fn lemma_posting_year(years: Seq<FiscalYearInfo>, d: (int, int, int), k: int)
    requires
        0 <= k < years.len(),
        d == di(years[k].start) || date_lt(di(years[k].start), d),
        d == di(years[k].end) || date_lt(d, di(years[k].end)),
        forall|j: int|
            0 <= j < k ==> date_lt(d, di((#[trigger] years[j]).start)) || date_lt(
                di(years[j].end),
                d,
            ),
    ensures
        year_of(years, d, 0) == Some(k),
{
    lemma_posting_year_from(years, d, k, 0);
}

proof fn lemma_posting_year_from(years: Seq<FiscalYearInfo>, d: (int, int, int), k: int, i: int)
    requires
        0 <= i <= k < years.len(),
        d == di(years[k].start) || date_lt(di(years[k].start), d),
        d == di(years[k].end) || date_lt(d, di(years[k].end)),
        forall|j: int|
            0 <= j < k ==> date_lt(d, di((#[trigger] years[j]).start)) || date_lt(
                di(years[j].end),
                d,
            ),
    ensures
        year_of(years, d, i) == Some(k),
    decreases k - i,
{
    if i < k {
        assert(date_lt(d, di(years[i].start)) || date_lt(di(years[i].end), d));
        lemma_posting_year_from(years, d, k, i + 1);
    }
}

} // verus!
