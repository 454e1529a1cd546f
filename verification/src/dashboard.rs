//! The dashboard's yearly overview: income and expenses per month with
//! their running totals, and the years there is something to show for.
use vstd::prelude::*;

use crate::amount::{dec_checked_add, dec_checked_sub, Amount};
use crate::date::{from_ymd, valid_date};
use crate::depreciation_service::amounts_total;
use crate::employee_service::zero_padded;
use crate::error::{AppError, ErrorKind};
use crate::numeric::{nat_digits, push_digits};
use crate::text::{push_str, str_eq, string_of};

verus! {

/// The dashboard charts: the computations of the overview.
pub struct DashboardChartsService;

/// One month of the overview.
pub struct OverviewMonth {
    pub month: String,
    pub income: Amount,
    pub expenses: Amount,
    pub cumulative_income: Amount,
    pub cumulative_expenses: Amount,
}

/// The overview of a year.
pub struct OverviewData {
    pub year: i32,
    pub months: Vec<OverviewMonth>,
    pub total_income: Amount,
    pub total_expenses: Amount,
    pub difference: Amount,
    pub available_years: Vec<i32>,
}

/// The amounts of the lines booked in month `m`, in order.
pub open spec fn month_amounts(lines: Seq<(u32, Amount)>, m: int) -> Seq<(int, nat)>
    decreases lines.len(),
{
    if lines.len() == 0 {
        Seq::empty()
    } else if lines.last().0 == m {
        month_amounts(lines.drop_last(), m).push(lines.last().1@)
    } else {
        month_amounts(lines.drop_last(), m)
    }
}

/// The total of month `m`, from zero up.
pub open spec fn month_total(lines: Seq<(u32, Amount)>, m: int) -> Option<(int, nat)> {
    amounts_total(month_amounts(lines, m))
}

/// `format!("{:04}", year)`: the year's digits zero-padded to four
/// characters, the sign counting as one of them.
pub open spec fn year_text(year: int) -> Seq<char> {
    if year >= 0 {
        zero_padded(nat_digits(year as nat), 4)
    } else {
        "-"@ + zero_padded(nat_digits((-year) as nat), 3)
    }
}

/// `format!("{:04}-{:02}", year, month)` for a month from 1 to 12.
pub open spec fn month_label(year: int, month: int) -> Seq<char> {
    year_text(year) + "-"@ + if month < 10 {
        "0"@ + nat_digits(month as nat)
    } else {
        nat_digits(month as nat)
    }
}

/// The years to choose from: those of the entries and the current one,
/// each once, latest first.
pub open spec fn years_ok(r: Seq<i32>, years: Seq<i32>, current: i32) -> bool {
    &&& forall|i: int, j: int| 0 <= i < j < r.len() ==> r[i] > r[j]
    &&& forall|y: i32| r.contains(y) <==> (years.contains(y) || y == current)
}

pub open spec fn lines_wf(lines: Seq<(u32, Amount)>) -> bool {
    forall|i: int| 0 <= i < lines.len() ==> (#[trigger] lines[i]).1.wf()
}

/// The number of invoices in each status and their total.
pub struct InvoiceAgingBucket {
    pub status: String,
    pub count: i64,
    pub total: Amount,
}

/// `(status, count, total)`.
pub type BucketView = (Seq<char>, int, (int, nat));

impl View for InvoiceAgingBucket {
    type V = BucketView;

    open spec fn view(&self) -> BucketView {
        (self.status@, self.count as int, self.total@)
    }
}

/// An invoice as the aging reads it: its status and its total.
pub open spec fn invoice_view(i: (String, Amount)) -> (Seq<char>, (int, nat)) {
    (i.0@, i.1@)
}

/// The statuses reported first, in this order.
pub open spec fn standard_statuses() -> Seq<Seq<char>> {
    seq!["draft"@, "sent"@, "overdue"@, "paid"@, "cancelled"@]
}

/// The totals of the invoices in status `s`, in order.
pub open spec fn status_amounts(inv: Seq<(String, Amount)>, s: Seq<char>) -> Seq<(int, nat)>
    decreases inv.len(),
{
    if inv.len() == 0 {
        Seq::empty()
    } else if inv.last().0@ == s {
        status_amounts(inv.drop_last(), s).push(inv.last().1@)
    } else {
        status_amounts(inv.drop_last(), s)
    }
}

/// The statuses of `cands` that some invoice is in, in the order of
/// `cands`.
pub open spec fn present_statuses(cands: Seq<Seq<char>>, inv: Seq<(String, Amount)>) -> Seq<
    Seq<char>,
>
    decreases cands.len(),
{
    if cands.len() == 0 {
        Seq::empty()
    } else {
        let p = present_statuses(cands.drop_last(), inv);
        if status_amounts(inv, cands.last()).len() > 0 {
            p.push(cands.last())
        } else {
            p
        }
    }
}

/// The other statuses the invoices are in, each once, in the order they
/// first occur.
pub open spec fn other_statuses(inv: Seq<(String, Amount)>) -> Seq<Seq<char>>
    decreases inv.len(),
{
    if inv.len() == 0 {
        Seq::empty()
    } else {
        let o = other_statuses(inv.drop_last());
        let s = inv.last().0@;
        if standard_statuses().contains(s) || o.contains(s) {
            o
        } else {
            o.push(s)
        }
    }
}

/// The buckets of the statuses: each status with its number of invoices
/// and their total from zero up; `None` where a total overflows.
pub open spec fn buckets_of(statuses: Seq<Seq<char>>, inv: Seq<(String, Amount)>) -> Option<
    Seq<BucketView>,
>
    decreases statuses.len(),
{
    if statuses.len() == 0 {
        Some(Seq::empty())
    } else {
        let s = statuses.last();
        match (buckets_of(statuses.drop_last(), inv), amounts_total(status_amounts(inv, s))) {
            (Some(bs), Some(t)) => Some(bs.push((s, status_amounts(inv, s).len() as int, t))),
            _ => None,
        }
    }
}

/// The invoice aging: a bucket for each standard status that some invoice
/// is in, in the standard order, then one for each other status in the
/// order it first occurs.
pub open spec fn invoice_aging_buckets(inv: Seq<(String, Amount)>) -> Option<Seq<BucketView>> {
    buckets_of(present_statuses(standard_statuses(), inv) + other_statuses(inv), inv)
}

pub open spec fn invoices_wf(inv: Seq<(String, Amount)>) -> bool {
    forall|i: int| 0 <= i < inv.len() ==> (#[trigger] inv[i]).1.wf()
}

impl DashboardChartsService {
    /// The total of month `m` over the lines (month, amount).
    pub fn month_sum(lines: &Vec<(u32, Amount)>, m: u32) -> (r: Option<Amount>)
        requires
            lines_wf(lines@),
        ensures
            match month_total(lines@, m as int) {
                Some(t) => r matches Some(x) && x@ == t && x.wf(),
                None => r is None,
            },
    {
        let mut total = Amount::zero();
        let mut i: usize = 0;
        while i < lines.len()
            invariant
                i <= lines.len(),
                lines_wf(lines@),
                total.wf(),
                month_total(lines@.take(i as int), m as int) == Some(total@),
            decreases lines.len() - i,
        {
            assert(lines@.take(i + 1).drop_last() =~= lines@.take(i as int));
            assert(lines@.take(i + 1).last() == lines@[i as int]);
            assert(lines@[i as int].1.wf());
            if lines[i].0 == m {
                let ghost a = month_amounts(lines@.take(i as int), m as int);
                assert(month_amounts(lines@.take(i + 1), m as int) == a.push(lines@[i as int].1@));
                assert(a.push(lines@[i as int].1@).drop_last() =~= a);
                match total.checked_add(lines[i].1) {
                    Some(t) => {
                        total = t;
                    },
                    None => {
                        proof {
                            lemma_month_none_extends(lines@, m as int, i as int + 1);
                        }
                        return None;
                    },
                }
            }
            i = i + 1;
        }
        assert(lines@.take(lines.len() as int) =~= lines@);
        Some(total)
    }

    /// The number and total of the invoices in status `s`.
    fn status_bucket(invoices: &Vec<(String, Amount)>, s: &str) -> (r: Option<(i64, Amount)>)
        requires
            invoices_wf(invoices@),
            invoices@.len() < 0x7FFF_FFFF_FFFF_FFFF,
        ensures
            match amounts_total(status_amounts(invoices@, s@)) {
                Some(t) => r matches Some((c, a)) && c == status_amounts(invoices@, s@).len()
                    && a@ == t,
                None => r is None,
            },
    {
        let mut total = Amount::zero();
        let mut count: i64 = 0;
        let mut i: usize = 0;
        while i < invoices.len()
            invariant
                i <= invoices.len(),
                invoices_wf(invoices@),
                invoices@.len() < 0x7FFF_FFFF_FFFF_FFFF,
                total.wf(),
                amounts_total(status_amounts(invoices@.take(i as int), s@)) == Some(total@),
                count == status_amounts(invoices@.take(i as int), s@).len(),
                count <= i,
            decreases invoices.len() - i,
        {
            assert(invoices@.take(i + 1).drop_last() =~= invoices@.take(i as int));
            assert(invoices@.take(i + 1).last() == invoices@[i as int]);
            assert(invoices@[i as int].1.wf());
            if str_eq(invoices[i].0.as_str(), s) {
                let ghost a = status_amounts(invoices@.take(i as int), s@);
                assert(a.push(invoices@[i as int].1@).drop_last() =~= a);
                match total.checked_add(invoices[i].1) {
                    Some(t) => {
                        total = t;
                        count = count + 1;
                    },
                    None => {
                        proof {
                            lemma_status_none_extends(invoices@, s@, i as int + 1);
                        }
                        return None;
                    },
                }
            }
            i = i + 1;
        }
        assert(invoices@.take(invoices.len() as int) =~= invoices@);
        Some((count, total))
    }

    /// The invoice aging over the invoices (status, total): for each
    /// standard status (draft, sent, overdue, paid, cancelled) that some
    /// invoice is in, in that order, the number of such invoices and their
    /// total; then the same for each other status, in the order it first
    /// occurs. `None` where a total overflows.
    pub fn invoice_aging(invoices: &Vec<(String, Amount)>) -> (r: Option<Vec<InvoiceAgingBucket>>)
        requires
            invoices_wf(invoices@),
            invoices@.len() < 0x7FFF_FFFF_FFFF_FFFF,
        ensures
            match invoice_aging_buckets(invoices@) {
                Some(bs) => r matches Some(v) && v@.map_values(|b: InvoiceAgingBucket| b@) == bs,
                None => r is None,
            },
    {
        let mut statuses = Self::present_standard(invoices);
        let mut others = Self::other_status_list(invoices);
        let ghost a = statuses@;
        let ghost b = others@;
        statuses.append(&mut others);
        assert((a + b).map_values(|x: String| x@) =~= a.map_values(|x: String| x@) + b.map_values(
            |x: String| x@,
        ));
        Self::buckets_for(invoices, &statuses)
    }

    /// The standard statuses some invoice is in, in the standard order.
    fn present_standard(invoices: &Vec<(String, Amount)>) -> (r: Vec<String>)
        ensures
            r@.map_values(|x: String| x@) == present_statuses(standard_statuses(), invoices@),
    {
        let standard: Vec<&str> = vec!["draft", "sent", "overdue", "paid", "cancelled"];
        let ghost sv = standard_statuses();
        assert(standard@.map_values(|x: &str| x@) =~= sv);
        let mut statuses: Vec<String> = Vec::new();
        let mut k: usize = 0;
        while k < standard.len()
            invariant
                k <= standard@.len(),
                sv == standard_statuses(),
                standard@.map_values(|x: &str| x@) == sv,
                statuses@.map_values(|x: String| x@) == present_statuses(sv.take(k as int), invoices@),
            decreases standard.len() - k,
        {
            assert(sv.take(k + 1).drop_last() =~= sv.take(k as int));
            assert(sv.take(k + 1).last() == standard@[k as int]@);
            if Self::has_status(invoices, standard[k]) {
                let ghost before = statuses@;
                statuses.push(standard[k].to_owned());
                assert(statuses@.map_values(|x: String| x@) =~= before.map_values(|x: String| x@).push(
                    standard@[k as int]@,
                ));
            }
            k += 1;
        }
        assert(sv.take(5) =~= sv);
        statuses
    }

    /// The other statuses of the invoices, each once, in order of first
    /// occurrence.
    fn other_status_list(invoices: &Vec<(String, Amount)>) -> (r: Vec<String>)
        ensures
            r@.map_values(|x: String| x@) == other_statuses(invoices@),
    {
        let mut others: Vec<String> = Vec::new();
        let mut i: usize = 0;
        while i < invoices.len()
            invariant
                i <= invoices.len(),
                others@.map_values(|x: String| x@) == other_statuses(invoices@.take(i as int)),
            decreases invoices.len() - i,
        {
            assert(invoices@.take(i + 1).drop_last() =~= invoices@.take(i as int));
            assert(invoices@.take(i + 1).last() == invoices@[i as int]);
            let st = invoices[i].0.as_str();
            let is_std = str_eq(st, "draft") || str_eq(st, "sent") || str_eq(st, "overdue")
                || str_eq(st, "paid") || str_eq(st, "cancelled");
            proof {
                let sts = standard_statuses();
                assert(is_std <==> sts.contains(st@)) by {
                    if st@ == "draft"@ {
                        assert(sts[0] == st@);
                    }
                    if st@ == "sent"@ {
                        assert(sts[1] == st@);
                    }
                    if st@ == "overdue"@ {
                        assert(sts[2] == st@);
                    }
                    if st@ == "paid"@ {
                        assert(sts[3] == st@);
                    }
                    if st@ == "cancelled"@ {
                        assert(sts[4] == st@);
                    }
                }
            }
            if !is_std && !Self::listed(&others, st) {
                let ghost before = others@;
                others.push(st.to_owned());
                assert(others@.map_values(|x: String| x@) =~= before.map_values(|x: String| x@).push(
                    st@,
                ));
            }
            i += 1;
        }
        assert(invoices@.take(invoices.len() as int) =~= invoices@);
        others
    }

    /// The buckets of the statuses, in their order.
    fn buckets_for(invoices: &Vec<(String, Amount)>, statuses: &Vec<String>) -> (r: Option<
        Vec<InvoiceAgingBucket>,
    >)
        requires
            invoices_wf(invoices@),
            invoices@.len() < 0x7FFF_FFFF_FFFF_FFFF,
        ensures
            match buckets_of(statuses@.map_values(|x: String| x@), invoices@) {
                Some(bs) => r matches Some(v) && v@.map_values(|b: InvoiceAgingBucket| b@) == bs,
                None => r is None,
            },
    {
        let ghost all = statuses@.map_values(|x: String| x@);
        let mut out: Vec<InvoiceAgingBucket> = Vec::new();
        let mut b: usize = 0;
        while b < statuses.len()
            invariant
                b <= statuses.len(),
                invoices_wf(invoices@),
                invoices@.len() < 0x7FFF_FFFF_FFFF_FFFF,
                all == statuses@.map_values(|x: String| x@),
                buckets_of(all.take(b as int), invoices@) == Some(
                    out@.map_values(|x: InvoiceAgingBucket| x@),
                ),
            decreases statuses.len() - b,
        {
            assert(all.take(b + 1).drop_last() =~= all.take(b as int));
            assert(all.take(b + 1).last() == statuses@[b as int]@);
            match Self::status_bucket(invoices, statuses[b].as_str()) {
                Some((count, total)) => {
                    let bucket = InvoiceAgingBucket { status: statuses[b].clone(), count, total };
                    let ghost before = out@;
                    out.push(bucket);
                    assert(out@.map_values(|x: InvoiceAgingBucket| x@) =~= before.map_values(
                        |x: InvoiceAgingBucket| x@,
                    ).push(bucket@));
                },
                None => {
                    proof {
                        lemma_buckets_none_extends(all, invoices@, b as int + 1);
                    }
                    return None;
                },
            }
            b += 1;
        }
        assert(all.take(all.len() as int) =~= all);
        Some(out)
    }

    /// Whether some invoice is in status `s`.
    fn has_status(invoices: &Vec<(String, Amount)>, s: &str) -> (r: bool)
        ensures
            r == (status_amounts(invoices@, s@).len() > 0),
    {
        let mut i: usize = 0;
        while i < invoices.len()
            invariant
                i <= invoices.len(),
                status_amounts(invoices@.take(i as int), s@).len() == 0,
            decreases invoices.len() - i,
        {
            assert(invoices@.take(i + 1).drop_last() =~= invoices@.take(i as int));
            assert(invoices@.take(i + 1).last() == invoices@[i as int]);
            if str_eq(invoices[i].0.as_str(), s) {
                proof {
                    lemma_status_present_extends(invoices@, s@, i as int + 1);
                }
                return true;
            }
            i += 1;
        }
        assert(invoices@.take(invoices.len() as int) =~= invoices@);
        false
    }

    /// Whether `s` is one of the statuses listed.
    fn listed(statuses: &Vec<String>, s: &str) -> (r: bool)
        ensures
            r == statuses@.map_values(|x: String| x@).contains(s@),
    {
        let ghost v = statuses@.map_values(|x: String| x@);
        let mut i: usize = 0;
        while i < statuses.len()
            invariant
                i <= statuses.len(),
                v == statuses@.map_values(|x: String| x@),
                forall|k: int| 0 <= k < i ==> v[k] != s@,
            decreases statuses.len() - i,
        {
            if str_eq(statuses[i].as_str(), s) {
                assert(v[i as int] == s@);
                return true;
            }
            i += 1;
        }
        false
    }

    /// `format!("{:04}-{:02}", year, month)`.
    pub fn month_label(year: i32, month: u32) -> (r: String)
        requires
            1 <= month <= 12,
        ensures
            r@ == month_label(year as int, month as int),
    {
        let neg = year < 0;
        let mag: u64 = if neg {
            (0 - (year as i64)) as u64
        } else {
            year as u64
        };
        let mut y: Vec<char> = Vec::new();
        push_digits(&mut y, mag);
        let width: usize = if neg {
            3
        } else {
            4
        };
        let mut out: Vec<char> = Vec::new();
        if neg {
            out.push('-');
        }
        let ghost sign = out@;
        let mut k: usize = y.len();
        while k < width
            invariant
                y.len() <= k <= width || k == y.len(),
                out@ == sign + Seq::new((k - y.len()) as nat, |i: int| '0'),
            decreases width - k,
        {
            out.push('0');
            assert(out@ =~= sign + Seq::new((k + 1 - y.len()) as nat, |i: int| '0'));
            k = k + 1;
        }
        crate::text::push_all(&mut out, &y);
        proof {
            let z = nat_digits(mag as nat);
            if y.len() < width {
                assert(out@ =~= sign + zero_padded(z, width as int));
            } else {
                assert(out@ =~= sign + zero_padded(z, width as int));
            }
            if neg {
                assert(sign =~= "-"@) by {
                    reveal_strlit("-");
                }
                assert((-year) as nat == mag as nat);
            } else {
                assert(sign =~= Seq::<char>::empty());
            }
            assert(out@ =~= year_text(year as int));
        }
        push_str(&mut out, "-");
        if month < 10 {
            push_str(&mut out, "0");
        }
        push_digits(&mut out, month as u64);
        string_of(&out)
    }

    /// The overview of `year` from the income lines (credits to 3000-3999)
    /// and expense lines (debits to 4000-8999) of the year, each as (month,
    /// amount): per month the totals and the running totals; the year's
    /// totals are the last running totals, the difference is income less
    /// expenses. A year that has no 1 January or 31 December as a date is
    /// answered with `Validation("Invalid year")`; `Ok(None)` where `Decimal`
    /// arithmetic overflows.
    pub fn overview(
        year: i32,
        income_lines: &Vec<(u32, Amount)>,
        expense_lines: &Vec<(u32, Amount)>,
        available_years: Vec<i32>,
    ) -> (r: Result<Option<OverviewData>, AppError>)
        requires
            lines_wf(income_lines@),
            lines_wf(expense_lines@),
        ensures
            !(valid_date(year as int, 1, 1) && valid_date(year as int, 12, 31)) <==> (r matches Err(e)
                && e.kind_and_message() == (ErrorKind::Validation, "Invalid year"@)),
            r matches Ok(o) ==> (o is Some <==> (cumulative(income_lines@, expense_lines@, 12) matches Some((ci, ce))
                && dec_checked_sub(ci, ce) is Some)),
            r matches Ok(Some(d)) ==> {
                &&& d.year == year
                &&& d.months@.len() == 12
                &&& d.available_years@ == available_years@
                &&& forall|i: int|
                    0 <= i < 12 ==> {
                        &&& Some((#[trigger] d.months@[i]).income@) == month_total(
                            income_lines@,
                            i + 1,
                        )
                        &&& Some(d.months@[i].expenses@) == month_total(expense_lines@, i + 1)
                        &&& d.months@[i].month@ == month_label(year as int, i + 1)
                        &&& cumulative(income_lines@, expense_lines@, i + 1) == Some(
                            (d.months@[i].cumulative_income@, d.months@[i].cumulative_expenses@),
                        )
                    }
                &&& d.total_income == d.months@[11].cumulative_income
                &&& d.total_expenses == d.months@[11].cumulative_expenses
                &&& dec_checked_sub(d.total_income@, d.total_expenses@) == Some(d.difference@)
            },
    {
        if from_ymd(year, 1, 1).is_none() || from_ymd(year, 12, 31).is_none() {
            return Err(AppError::Validation("Invalid year".to_owned()));
        }
        let mut months: Vec<OverviewMonth> = Vec::new();
        let mut cum_income = Amount::zero();
        let mut cum_expenses = Amount::zero();
        let mut m: u32 = 1;
        while m <= 12
            invariant
                1 <= m <= 13,
                valid_date(year as int, 1, 1) && valid_date(year as int, 12, 31),
                lines_wf(income_lines@),
                lines_wf(expense_lines@),
                months@.len() == m - 1,
                cum_income.wf(),
                cum_expenses.wf(),
                cumulative(income_lines@, expense_lines@, m - 1) == Some((cum_income@, cum_expenses@)),
                m > 1 ==> cum_income == months@[m - 2].cumulative_income && cum_expenses
                    == months@[m - 2].cumulative_expenses,
                forall|i: int|
                    0 <= i < m - 1 ==> {
                        &&& Some((#[trigger] months@[i]).income@) == month_total(
                            income_lines@,
                            i + 1,
                        )
                        &&& Some(months@[i].expenses@) == month_total(expense_lines@, i + 1)
                        &&& months@[i].month@ == month_label(year as int, i + 1)
                        &&& cumulative(income_lines@, expense_lines@, i + 1) == Some(
                            (months@[i].cumulative_income@, months@[i].cumulative_expenses@),
                        )
                    },
            decreases 13 - m,
        {
            let inc = match Self::month_sum(income_lines, m) {
                Some(x) => x,
                None => {
                    proof {
                        lemma_cumulative_none_extends(income_lines@, expense_lines@, m as int);
                    }
                    return Ok(None);
                },
            };
            let exp = match Self::month_sum(expense_lines, m) {
                Some(x) => x,
                None => {
                    proof {
                        lemma_cumulative_none_extends(income_lines@, expense_lines@, m as int);
                    }
                    return Ok(None);
                },
            };
            let ci = match cum_income.checked_add(inc) {
                Some(x) => x,
                None => {
                    proof {
                        lemma_cumulative_none_extends(income_lines@, expense_lines@, m as int);
                    }
                    return Ok(None);
                },
            };
            let ce = match cum_expenses.checked_add(exp) {
                Some(x) => x,
                None => {
                    proof {
                        lemma_cumulative_none_extends(income_lines@, expense_lines@, m as int);
                    }
                    return Ok(None);
                },
            };
            let label = Self::month_label(year, m);
            let ghost before = months@;
            months.push(
                OverviewMonth {
                    month: label,
                    income: inc,
                    expenses: exp,
                    cumulative_income: ci,
                    cumulative_expenses: ce,
                },
            );
            proof {
                assert forall|i: int| 0 <= i < m - 1 implies months@[i] == before[i] by {}
            }
            cum_income = ci;
            cum_expenses = ce;
            m = m + 1;
        }
        let difference = match cum_income.checked_sub(cum_expenses) {
            Some(x) => x,
            None => return Ok(None),
        };
        Ok(
            Some(
            OverviewData {
                year,
                months,
                total_income: cum_income,
                total_expenses: cum_expenses,
                difference,
                available_years,
            },
            ),
        )
    }

    /// The years to choose from: the years of the posted entries and the
    /// current year, each once, latest first.
    pub fn available_years(entry_years: &Vec<i32>, current_year: i32) -> (r: Vec<i32>)
        ensures
            years_ok(r@, entry_years@, current_year),
    {
        let mut out: Vec<i32> = Vec::new();
        out = insert_year(out, current_year);
        let mut i: usize = 0;
        while i < entry_years.len()
            invariant
                i <= entry_years.len(),
                forall|a: int, b: int| 0 <= a < b < out@.len() ==> out@[a] > out@[b],
                forall|y: i32|
                    out@.contains(y) <==> ((exists|j: int| 0 <= j < i && #[trigger] entry_years@[j] == y)
                        || y == current_year),
            decreases entry_years.len() - i,
        {
            let ghost before = out@;
            out = insert_year(out, entry_years[i]);
            proof {
                assert forall|y: i32|
                    out@.contains(y) <==> ((exists|j: int| 0 <= j < i + 1 && #[trigger] entry_years@[j] == y)
                        || y == current_year) by {
                    if y == entry_years@[i as int] {
                        assert(entry_years@[i as int] == y);
                    }
                    if exists|j: int| 0 <= j < i + 1 && #[trigger] entry_years@[j] == y {
                        let j = choose|j: int| 0 <= j < i + 1 && #[trigger] entry_years@[j] == y;
                        if j < i {
                            assert(before.contains(y));
                        }
                    }
                }
            }
            i = i + 1;
        }
        out
    }
}

/// Inserts a year into a list held latest first, unless it is there.
fn insert_year(v: Vec<i32>, y: i32) -> (r: Vec<i32>)
    requires
        forall|a: int, b: int| 0 <= a < b < v@.len() ==> v@[a] > v@[b],
    ensures
        forall|a: int, b: int| 0 <= a < b < r@.len() ==> r@[a] > r@[b],
        forall|x: i32| r@.contains(x) <==> (v@.contains(x) || x == y),
{
    let mut k: usize = 0;
    while k < v.len() && v[k] > y
        invariant
            k <= v.len(),
            forall|j: int| 0 <= j < k ==> v@[j] > y,
        decreases v.len() - k,
    {
        k = k + 1;
    }
    if k < v.len() && v[k] == y {
        assert(v@.contains(y));
        return v;
    }
    let mut out: Vec<i32> = Vec::new();
    let mut j: usize = 0;
    while j < k
        invariant
            j <= k <= v.len(),
            out@ == v@.take(j as int),
        decreases k - j,
    {
        out.push(v[j]);
        assert(v@.take(j + 1) =~= v@.take(j as int).push(v@[j as int]));
        j = j + 1;
    }
    out.push(y);
    let mut t: usize = k;
    while t < v.len()
        invariant
            k <= t <= v.len(),
            out@ == v@.take(k as int).push(y) + v@.subrange(k as int, t as int),
        decreases v.len() - t,
    {
        out.push(v[t]);
        assert(v@.subrange(k as int, t + 1) =~= v@.subrange(k as int, t as int).push(v@[t as int]));
        t = t + 1;
    }
    proof {
        let r = out@;
        assert(r =~= v@.take(k as int).push(y) + v@.skip(k as int));
        assert(r.len() == v@.len() + 1);
        assert forall|a: int| 0 <= a < r.len() implies r[a] == (if a < k {
            v@[a]
        } else if a == k {
            y
        } else {
            v@[a - 1]
        }) by {}
        assert forall|x: i32| r.contains(x) <==> (v@.contains(x) || x == y) by {
            if r.contains(x) {
                let a = choose|a: int| 0 <= a < r.len() && r[a] == x;
                if a < k {
                    assert(v@[a] == x);
                } else if a > k {
                    assert(v@[a - 1] == x);
                }
            }
            if v@.contains(x) {
                let a = choose|a: int| 0 <= a < v@.len() && v@[a] == x;
                if a < k {
                    assert(r[a] == x);
                } else {
                    assert(r[a + 1] == x);
                }
            }
            if x == y {
                assert(r[k as int] == x);
            }
        }
    }
    out
}

/// The running totals of income and expenses after the first `k`
/// months, from zero up; `None` where a sum overflows.
pub open spec fn cumulative(income: Seq<(u32, Amount)>, expenses: Seq<(u32, Amount)>, k: int) -> Option<
    ((int, nat), (int, nat)),
>
    decreases k,
{
    if k <= 0 {
        Some(((0int, 0nat), (0int, 0nat)))
    } else {
        match (cumulative(income, expenses, k - 1), month_total(income, k), month_total(expenses, k)) {
            (Some((ci, ce)), Some(i), Some(e)) => match (dec_checked_add(ci, i), dec_checked_add(ce, e)) {
                (Some(a), Some(b)) => Some((a, b)),
                _ => None,
            },
            _ => None,
        }
    }
}

proof fn lemma_cumulative_none_extends(income: Seq<(u32, Amount)>, expenses: Seq<(u32, Amount)>, k: int)
    requires
        1 <= k <= 12,
        cumulative(income, expenses, k) is None,
    ensures
        cumulative(income, expenses, 12) is None,
    decreases 12 - k,
{
    if k < 12 {
        lemma_cumulative_none_extends(income, expenses, k + 1);
    }
}

proof fn lemma_month_none_extends(lines: Seq<(u32, Amount)>, m: int, k: int)
    requires
        0 <= k <= lines.len(),
        month_total(lines.take(k), m) is None,
    ensures
        month_total(lines, m) is None,
    decreases lines.len() - k,
{
    if k < lines.len() {
        assert(lines.take(k + 1).drop_last() =~= lines.take(k));
        assert(lines.take(k + 1).last() == lines[k]);
        let a = month_amounts(lines.take(k), m);
        if lines[k].0 == m {
            assert(a.push(lines[k].1@).drop_last() =~= a);
        }
        lemma_month_none_extends(lines, m, k + 1);
    } else {
        assert(lines.take(k) =~= lines);
    }
}

proof fn lemma_status_none_extends(inv: Seq<(String, Amount)>, s: Seq<char>, k: int)
    requires
        0 <= k <= inv.len(),
        amounts_total(status_amounts(inv.take(k), s)) is None,
    ensures
        amounts_total(status_amounts(inv, s)) is None,
    decreases inv.len() - k,
{
    if k < inv.len() {
        assert(inv.take(k + 1).drop_last() =~= inv.take(k));
        assert(inv.take(k + 1).last() == inv[k]);
        let a = status_amounts(inv.take(k), s);
        if inv[k].0@ == s {
            assert(a.push(inv[k].1@).drop_last() =~= a);
        }
        lemma_status_none_extends(inv, s, k + 1);
    } else {
        assert(inv.take(k) =~= inv);
    }
}

proof fn lemma_status_present_extends(inv: Seq<(String, Amount)>, s: Seq<char>, k: int)
    requires
        0 <= k <= inv.len(),
        status_amounts(inv.take(k), s).len() > 0,
    ensures
        status_amounts(inv, s).len() > 0,
    decreases inv.len() - k,
{
    if k < inv.len() {
        assert(inv.take(k + 1).drop_last() =~= inv.take(k));
        lemma_status_present_extends(inv, s, k + 1);
    } else {
        assert(inv.take(k) =~= inv);
    }
}

proof fn lemma_buckets_none_extends(statuses: Seq<Seq<char>>, inv: Seq<(String, Amount)>, k: int)
    requires
        0 <= k <= statuses.len(),
        buckets_of(statuses.take(k), inv) is None,
    ensures
        buckets_of(statuses, inv) is None,
    decreases statuses.len() - k,
{
    if k < statuses.len() {
        assert(statuses.take(k + 1).drop_last() =~= statuses.take(k));
        lemma_buckets_none_extends(statuses, inv, k + 1);
    } else {
        assert(statuses.take(k) =~= statuses);
    }
}

} // verus!
