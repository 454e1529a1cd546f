//! The monthly cash flow: per month of a period the cash that came in and
//! went out, with the running balance, from the posted entries of the
//! period.
use vstd::prelude::*;

use crate::amount::{dec_checked_add, Amount};
use crate::cash_flow::{
    cash_net, lemma_rows_none_extends, line_views, lines_wf, month_rows, monthly_entry,
    CashFlowService, CashLine, CashLineView, MonthlyEntry,
};
use crate::date::{date_lt, valid_date, year_month, year_month_text};

verus! {

/// One month of the monthly cash flow.
pub struct MonthlyCashFlow {
    pub month: String,
    pub inflows: Amount,
    pub outflows: Amount,
    pub net: Amount,
    pub cumulative_balance: Amount,
}

/// The monthly cash flow of a period.
pub struct CashFlowMonthlyReport {
    pub months: Vec<MonthlyCashFlow>,
    pub initial_balance: Amount,
    pub ending_balance: Amount,
    pub total_inflows: Amount,
    pub total_outflows: Amount,
    pub net_variation: Amount,
}

/// An entry of the period as the contracts see it: its date and lines.
pub type DatedEntryView = ((int, int, int), Seq<CashLineView>);

pub open spec fn dated_views(v: Seq<((i32, u32, u32), Vec<CashLine>)>) -> Seq<DatedEntryView> {
    v.map_values(
        |e: ((i32, u32, u32), Vec<CashLine>)|
            ((e.0.0 as int, e.0.1 as int, e.0.2 as int), line_views(e.1@)),
    )
}

/// All lines of the entries, in order.
pub open spec fn all_lines(es: Seq<DatedEntryView>) -> Seq<CashLineView>
    decreases es.len(),
{
    if es.len() == 0 {
        Seq::empty()
    } else {
        all_lines(es.drop_last()) + es.last().1
    }
}

/// What each entry contributes (see `monthly_entry`), with the year and
/// month of its date: (year, month, kind, net movement). `None` where
/// `Decimal` arithmetic overflows for some entry.
pub open spec fn entry_kinds(es: Seq<DatedEntryView>) -> Option<Seq<(int, int, int, (int, nat))>>
    decreases es.len(),
{
    if es.len() == 0 {
        Some(Seq::empty())
    } else {
        match (entry_kinds(es.drop_last()), monthly_entry(es.last().1)) {
            (Some(ks), Some((k, n))) => Some(ks.push((es.last().0.0, es.last().0.1, k, n))),
            _ => None,
        }
    }
}

/// The balance at the start: the balance before the period with the
/// entries that moved cash against system accounts only rolled in.
pub open spec fn rolled_initial(initial: (int, nat), ks: Seq<(int, int, int, (int, nat))>) -> Option<(int, nat)>
    decreases ks.len(),
{
    if ks.len() == 0 {
        Some(initial)
    } else {
        match rolled_initial(initial, ks.drop_last()) {
            None => None,
            Some(b) => if ks.last().2 == 1 {
                dec_checked_add(b, ks.last().3)
            } else {
                Some(b)
            },
        }
    }
}

/// The inflows and outflows of month (y, m): the sums, from zero up and in
/// order, of the entries of that month that brought cash in and that took
/// it out.
pub open spec fn month_flows(ks: Seq<(int, int, int, (int, nat))>, y: int, m: int) -> Option<((int, nat), (int, nat))>
    decreases ks.len(),
{
    if ks.len() == 0 {
        Some(((0int, 0nat), (0int, 0nat)))
    } else {
        match month_flows(ks.drop_last(), y, m) {
            None => None,
            Some((i, o)) => {
                let e = ks.last();
                if e.0 == y && e.1 == m && e.2 == 2 {
                    match dec_checked_add(i, e.3) {
                        Some(x) => Some((x, o)),
                        None => None,
                    }
                } else if e.0 == y && e.1 == m && e.2 == 3 {
                    match dec_checked_add(o, e.3) {
                        Some(x) => Some((i, x)),
                        None => None,
                    }
                } else {
                    Some((i, o))
                }
            },
        }
    }
}

/// The `k`-th month of the period: its first day itself, then the first
/// day of each following month.
pub open spec fn nth_month(from: (int, int, int), k: int) -> (int, int, int) {
    if k == 0 {
        from
    } else {
        let t = from.0 * 12 + (from.1 - 1) + k;
        (t / 12, t % 12 + 1, 1)
    }
}

/// The number of months from the month of `from` to that of `to` (none
/// where `to` is earlier).
pub open spec fn month_count(from: (int, int, int), to: (int, int, int)) -> int {
    if date_lt(to, from) {
        0
    } else {
        (to.0 * 12 + to.1) - (from.0 * 12 + from.1) + 1
    }
}

/// The inflows and outflows of the first `n` months of the period.
pub open spec fn month_pairs(ks: Seq<(int, int, int, (int, nat))>, from: (int, int, int), n: int) -> Option<
    Seq<((int, nat), (int, nat))>,
>
    decreases n,
{
    if n <= 0 {
        Some(Seq::empty())
    } else {
        let d = nth_month(from, n - 1);
        match (month_pairs(ks, from, n - 1), month_flows(ks, d.0, d.1)) {
            (Some(ps), Some(p)) => Some(ps.push(p)),
            _ => None,
        }
    }
}

pub open spec fn triple(d: (i32, u32, u32)) -> (int, int, int) {
    (d.0 as int, d.1 as int, d.2 as int)
}

proof fn lemma_kinds_none_extends(es: Seq<DatedEntryView>, k: int)
    requires
        0 <= k <= es.len(),
        entry_kinds(es.take(k)) is None,
    ensures
        entry_kinds(es) is None,
    decreases es.len() - k,
{
    if k < es.len() {
        assert(es.take(k + 1).drop_last() =~= es.take(k));
        lemma_kinds_none_extends(es, k + 1);
    } else {
        assert(es.take(k) =~= es);
    }
}

proof fn lemma_rolled_none_extends(initial: (int, nat), ks: Seq<(int, int, int, (int, nat))>, k: int)
    requires
        0 <= k <= ks.len(),
        rolled_initial(initial, ks.take(k)) is None,
    ensures
        rolled_initial(initial, ks) is None,
    decreases ks.len() - k,
{
    if k < ks.len() {
        assert(ks.take(k + 1).drop_last() =~= ks.take(k));
        lemma_rolled_none_extends(initial, ks, k + 1);
    } else {
        assert(ks.take(k) =~= ks);
    }
}

proof fn lemma_flows_none_extends(ks: Seq<(int, int, int, (int, nat))>, y: int, m: int, k: int)
    requires
        0 <= k <= ks.len(),
        month_flows(ks.take(k), y, m) is None,
    ensures
        month_flows(ks, y, m) is None,
    decreases ks.len() - k,
{
    if k < ks.len() {
        assert(ks.take(k + 1).drop_last() =~= ks.take(k));
        lemma_flows_none_extends(ks, y, m, k + 1);
    } else {
        assert(ks.take(k) =~= ks);
    }
}

proof fn lemma_pairs_none_extends(ks: Seq<(int, int, int, (int, nat))>, from: (int, int, int), k: int, n: int)
    requires
        0 <= k <= n,
        month_pairs(ks, from, k) is None,
    ensures
        month_pairs(ks, from, n) is None,
    decreases n - k,
{
    if k < n {
        lemma_pairs_none_extends(ks, from, k + 1, n);
    }
}

pub open spec fn kinds_wf(ks: Seq<(i32, u32, u32, Amount)>) -> bool {
    forall|i: int| 0 <= i < ks.len() ==> (#[trigger] ks[i]).3.wf()
}

pub open spec fn kinds_view(ks: Seq<(i32, u32, u32, Amount)>) -> Seq<(int, int, int, (int, nat))> {
    ks.map_values(|k: (i32, u32, u32, Amount)| (k.0 as int, k.1 as int, k.2 as int, k.3@))
}

impl CashFlowService {
    /// What each entry contributes, with the year and month of its date.
    fn entry_kinds(entries: &Vec<((i32, u32, u32), Vec<CashLine>)>) -> (r: Option<Vec<(i32, u32, u32, Amount)>>)
        requires
            forall|i: int| 0 <= i < entries@.len() ==> lines_wf((#[trigger] entries@[i]).1@),
        ensures
            match entry_kinds(dated_views(entries@)) {
                Some(ks) => r matches Some(v) && kinds_view(v@) == ks && kinds_wf(v@),
                None => r is None,
            },
    {
        let ghost es = dated_views(entries@);
        let mut out: Vec<(i32, u32, u32, Amount)> = Vec::new();
        let mut i: usize = 0;
        while i < entries.len()
            invariant
                i <= entries.len(),
                es == dated_views(entries@),
                forall|j: int| 0 <= j < entries@.len() ==> lines_wf((#[trigger] entries@[j]).1@),
                entry_kinds(es.take(i as int)) == Some(kinds_view(out@)),
                kinds_wf(out@),
            decreases entries.len() - i,
        {
            assert(es.take(i + 1).drop_last() =~= es.take(i as int));
            assert(es.take(i + 1).last() == es[i as int]);
            assert(lines_wf(entries@[i as int].1@));
            let (d, lines) = &entries[i];
            let (k, n): (u32, Amount) = match Self::monthly_entry(lines) {
                Some(MonthlyEntry::Skip) => (0, Amount::zero()),
                Some(MonthlyEntry::Opening(a)) => (1, a),
                Some(MonthlyEntry::Inflow(a)) => (2, a),
                Some(MonthlyEntry::Outflow(a)) => (3, a),
                None => {
                    proof {
                        lemma_kinds_none_extends(es, i as int + 1);
                    }
                    return None;
                },
            };
            let ghost before = out@;
            out.push((d.0, d.1, k, n));
            assert(kinds_view(out@) =~= kinds_view(before).push((d.0 as int, d.1 as int, k as int, n@)));
            i += 1;
        }
        assert(es.take(entries.len() as int) =~= es);
        Some(out)
    }

    /// The balance at the start (see `rolled_initial`).
    fn rolled_initial(initial: Amount, ks: &Vec<(i32, u32, u32, Amount)>) -> (r: Option<Amount>)
        requires
            initial.wf(),
            kinds_wf(ks@),
        ensures
            match rolled_initial(initial@, kinds_view(ks@)) {
                Some(b) => r matches Some(a) && a@ == b && a.wf(),
                None => r is None,
            },
    {
        let ghost kv = kinds_view(ks@);
        let mut b = initial;
        let mut i: usize = 0;
        while i < ks.len()
            invariant
                i <= ks.len(),
                kv == kinds_view(ks@),
                kinds_wf(ks@),
                b.wf(),
                rolled_initial(initial@, kv.take(i as int)) == Some(b@),
            decreases ks.len() - i,
        {
            assert(kv.take(i + 1).drop_last() =~= kv.take(i as int));
            assert(ks@[i as int].3.wf());
            if ks[i].2 == 1 {
                match b.checked_add(ks[i].3) {
                    Some(x) => b = x,
                    None => {
                        proof {
                            lemma_rolled_none_extends(initial@, kv, i as int + 1);
                        }
                        return None;
                    },
                }
            }
            i += 1;
        }
        assert(kv.take(ks.len() as int) =~= kv);
        Some(b)
    }

    /// The inflows and outflows of month (y, m) (see `month_flows`).
    fn month_flows(ks: &Vec<(i32, u32, u32, Amount)>, y: i32, m: u32) -> (r: Option<(Amount, Amount)>)
        requires
            kinds_wf(ks@),
        ensures
            match month_flows(kinds_view(ks@), y as int, m as int) {
                Some((i, o)) => r matches Some((a, b)) && a@ == i && b@ == o && a.wf() && b.wf(),
                None => r is None,
            },
    {
        let ghost kv = kinds_view(ks@);
        let mut inf = Amount::zero();
        let mut outf = Amount::zero();
        let mut i: usize = 0;
        while i < ks.len()
            invariant
                i <= ks.len(),
                kv == kinds_view(ks@),
                kinds_wf(ks@),
                inf.wf(),
                outf.wf(),
                month_flows(kv.take(i as int), y as int, m as int) == Some((inf@, outf@)),
            decreases ks.len() - i,
        {
            assert(kv.take(i + 1).drop_last() =~= kv.take(i as int));
            assert(ks@[i as int].3.wf());
            let e = ks[i];
            if e.0 == y && e.1 == m && e.2 == 2 {
                match inf.checked_add(e.3) {
                    Some(x) => inf = x,
                    None => {
                        proof {
                            lemma_flows_none_extends(kv, y as int, m as int, i as int + 1);
                        }
                        return None;
                    },
                }
            } else if e.0 == y && e.1 == m && e.2 == 3 {
                match outf.checked_add(e.3) {
                    Some(x) => outf = x,
                    None => {
                        proof {
                            lemma_flows_none_extends(kv, y as int, m as int, i as int + 1);
                        }
                        return None;
                    },
                }
            }
            i += 1;
        }
        assert(kv.take(ks.len() as int) =~= kv);
        Some((inf, outf))
    }

    /// All lines of the entries, in order.
    fn all_lines(entries: &Vec<((i32, u32, u32), Vec<CashLine>)>) -> (r: Vec<CashLine>)
        requires
            forall|i: int| 0 <= i < entries@.len() ==> lines_wf((#[trigger] entries@[i]).1@),
        ensures
            line_views(r@) == all_lines(dated_views(entries@)),
            lines_wf(r@),
    {
        let ghost es = dated_views(entries@);
        let mut out: Vec<CashLine> = Vec::new();
        let mut i: usize = 0;
        while i < entries.len()
            invariant
                i <= entries.len(),
                es == dated_views(entries@),
                forall|j: int| 0 <= j < entries@.len() ==> lines_wf((#[trigger] entries@[j]).1@),
                line_views(out@) == all_lines(es.take(i as int)),
                lines_wf(out@),
            decreases entries.len() - i,
        {
            assert(es.take(i + 1).drop_last() =~= es.take(i as int));
            assert(es.take(i + 1).last() == es[i as int]);
            let lines = &entries[i].1;
            assert(lines_wf(lines@));
            let ghost base = out@;
            let mut j: usize = 0;
            while j < lines.len()
                invariant
                    j <= lines.len(),
                    lines_wf(lines@),
                    lines_wf(out@),
                    line_views(out@) == line_views(base) + line_views(lines@).take(j as int),
                decreases lines.len() - j,
            {
                let ghost before = out@;
                out.push(lines[j]);
                assert(line_views(out@) =~= line_views(before).push(lines@[j as int]@));
                assert(line_views(lines@).take(j + 1) =~= line_views(lines@).take(j as int).push(
                    lines@[j as int]@,
                ));
                assert(line_views(out@) =~= line_views(base) + line_views(lines@).take(j + 1));
                j += 1;
            }
            assert(line_views(lines@).take(lines.len() as int) =~= line_views(lines@));
            assert(es[i as int].1 == line_views(lines@));
            i += 1;
        }
        assert(es.take(entries.len() as int) =~= es);
        out
    }

    /// The monthly cash flow of the period `from`..=`to`. Without cash
    /// accounts it is empty, with all amounts zero. Otherwise: the entries
    /// of the period (each with its date and lines) are read as
    /// `monthly_entry` says; those with no counterpart are rolled into the
    /// balance before the period (`initial`), which gives the initial
    /// balance; each month from that of `from` to that of `to` (labelled
    /// `%Y-%m`) gets its entries' inflows and outflows, their net and the
    /// running balance (see `month_rows`); the ending balance is the cash
    /// actually held: the balance before the period plus the net cash
    /// movement of all lines of the period, those against system accounts
    /// included; the net variation is the total of inflows plus that of
    /// outflows. `None` where `Decimal` arithmetic overflows.
    pub fn monthly_cash_flow(
        has_cash_accounts: bool,
        from: (i32, u32, u32),
        to: (i32, u32, u32),
        initial: Amount,
        entries: &Vec<((i32, u32, u32), Vec<CashLine>)>,
    ) -> (r: Option<CashFlowMonthlyReport>)
        requires
            valid_date(from.0 as int, from.1 as int, from.2 as int),
            valid_date(to.0 as int, to.1 as int, to.2 as int),
            to.0 < 262142,
            initial.wf(),
            forall|i: int| 0 <= i < entries@.len() ==> lines_wf((#[trigger] entries@[i]).1@),
        ensures
            !has_cash_accounts ==> (r matches Some(rep) && rep.months@.len() == 0
                && rep.initial_balance@ == (0int, 0nat) && rep.ending_balance@ == (0int, 0nat)
                && rep.total_inflows@ == (0int, 0nat) && rep.total_outflows@ == (0int, 0nat)
                && rep.net_variation@ == (0int, 0nat)),
            has_cash_accounts ==> match entry_kinds(dated_views(entries@)) {
                None => r is None,
                Some(ks) => match rolled_initial(initial@, ks) {
                    None => r is None,
                    Some(init) => match month_pairs(ks, triple(from), month_count(triple(from), triple(to))) {
                        None => r is None,
                        Some(ps) => match month_rows(init, ps) {
                            None => r is None,
                            Some((rows, _c, ti, tout)) => match cash_net(all_lines(dated_views(entries@))) {
                                None => r is None,
                                Some(moved) => match (dec_checked_add(initial@, moved), dec_checked_add(ti, tout)) {
                                    (Some(end), Some(nv)) => r matches Some(rep)
                                        && rep.initial_balance@ == init && rep.ending_balance@ == end
                                        && rep.total_inflows@ == ti && rep.total_outflows@ == tout
                                        && rep.net_variation@ == nv && rep.months@.len() == ps.len()
                                        && forall|k: int|
                                        0 <= k < ps.len() ==> {
                                            let d = nth_month(triple(from), k);
                                            &&& (#[trigger] rep.months@[k]).month@ == year_month_text(d.0, d.1, d.2)
                                            &&& rep.months@[k].inflows@ == ps[k].0
                                            &&& rep.months@[k].outflows@ == ps[k].1
                                            &&& rep.months@[k].net@ == rows[k].0
                                            &&& rep.months@[k].cumulative_balance@ == rows[k].1
                                        },
                                    _ => r is None,
                                },
                            },
                        },
                    },
                },
            },
    {
        if !has_cash_accounts {
            return Some(
                CashFlowMonthlyReport {
                    months: Vec::new(),
                    initial_balance: Amount::zero(),
                    ending_balance: Amount::zero(),
                    total_inflows: Amount::zero(),
                    total_outflows: Amount::zero(),
                    net_variation: Amount::zero(),
                },
            );
        }
        let ks = match Self::entry_kinds(entries) {
            Some(k) => k,
            None => return None,
        };
        let init = match Self::rolled_initial(initial, &ks) {
            Some(b) => b,
            None => return None,
        };
        let ghost fv = triple(from);
        let ghost kv = kinds_view(ks@);
        let count: i64 = if to.0 < from.0 || (to.0 == from.0 && (to.1 < from.1 || (to.1 == from.1
            && to.2 < from.2))) {
            0
        } else {
            (to.0 as i64 * 12 + to.1 as i64) - (from.0 as i64 * 12 + from.1 as i64) + 1
        };
        assert(count == month_count(fv, triple(to)));
        let mut pairs: Vec<(Amount, Amount)> = Vec::new();
        let mut dates: Vec<(i32, u32, u32)> = Vec::new();
        let mut k: i64 = 0;
        while k < count
            invariant
                has_cash_accounts,
                entry_kinds(dated_views(entries@)) == Some(kv),
                rolled_initial(initial@, kv) == Some(init@),
                0 <= k <= count,
                count == month_count(fv, triple(to)),
                fv == triple(from),
                kv == kinds_view(ks@),
                kinds_wf(ks@),
                valid_date(from.0 as int, from.1 as int, from.2 as int),
                valid_date(to.0 as int, to.1 as int, to.2 as int),
                pairs@.len() == k,
                dates@.len() == k,
                month_pairs(kv, fv, k as int) == Some(pairs@.map_values(|p: (Amount, Amount)| (p.0@, p.1@))),
                forall|j: int| 0 <= j < k ==> triple(#[trigger] dates@[j]) == nth_month(fv, j)
                    && valid_date(dates@[j].0 as int, dates@[j].1 as int, dates@[j].2 as int),
                forall|j: int| 0 <= j < k ==> (#[trigger] pairs@[j]).0.wf() && pairs@[j].1.wf(),
            decreases count - k,
        {
            let d: (i32, u32, u32) = if k == 0 {
                from
            } else {
                let t: i64 = from.0 as i64 * 12 + (from.1 as i64 - 1) + k + 3600000;
                ((t / 12 - 300000) as i32, (t % 12 + 1) as u32, 1u32)
            };
            proof {
                if k > 0 {
                    let t = from.0 * 12 + (from.1 - 1) + k;
                    assert((t + 3600000) / 12 - 300000 == t / 12 && (t + 3600000) % 12 == t % 12);
                    assert(t / 12 <= to.0) by (nonlinear_arith)
                        requires
                            k < (to.0 * 12 + to.1) - (from.0 * 12 + from.1) + 1,
                            t == from.0 * 12 + (from.1 - 1) + k,
                            1 <= to.1 <= 12,
                    ;
                    assert(t / 12 >= from.0) by (nonlinear_arith)
                        requires
                            k > 0,
                            t == from.0 * 12 + (from.1 - 1) + k,
                            1 <= from.1 <= 12,
                    ;
                }
            }
            assert(triple(d) == nth_month(fv, k as int));
            assert(valid_date(d.0 as int, d.1 as int, d.2 as int));
            let p = match Self::month_flows(&ks, d.0, d.1) {
                Some(p) => p,
                None => {
                    proof {
                        lemma_pairs_none_extends(kv, fv, k as int + 1, count as int);
                    }
                    return None;
                },
            };
            let ghost before = pairs@;
            pairs.push(p);
            dates.push(d);
            assert(pairs@.map_values(|p: (Amount, Amount)| (p.0@, p.1@)) =~= before.map_values(
                |p: (Amount, Amount)| (p.0@, p.1@),
            ).push((p.0@, p.1@)));
            k += 1;
        }
        let ghost ps = pairs@.map_values(|p: (Amount, Amount)| (p.0@, p.1@));
        let (rows, tin, tout) = match Self::monthly_rows(init, &pairs) {
            Some(x) => x,
            None => return None,
        };
        assert(month_pairs(kv, fv, count as int) == Some(ps));
        let lines = Self::all_lines(entries);
        let moved = match Self::net_of(&lines) {
            Some(x) => x,
            None => return None,
        };
        let end = match initial.checked_add(moved) {
            Some(x) => x,
            None => return None,
        };
        let nv = match tin.checked_add(tout) {
            Some(x) => x,
            None => return None,
        };
        let mut months: Vec<MonthlyCashFlow> = Vec::new();
        let mut j: usize = 0;
        while j < rows.len()
            invariant
                j <= rows.len(),
                rows@.len() == pairs@.len(),
                dates@.len() == pairs@.len(),
                months@.len() == j,
                forall|i: int| 0 <= i < dates@.len() ==> valid_date(
                    (#[trigger] dates@[i]).0 as int,
                    dates@[i].1 as int,
                    dates@[i].2 as int,
                ),
                forall|i: int|
                    0 <= i < j ==> {
                        &&& (#[trigger] months@[i]).month@ == year_month_text(
                            dates@[i].0 as int,
                            dates@[i].1 as int,
                            dates@[i].2 as int,
                        )
                        &&& months@[i].inflows == rows@[i].inflows
                        &&& months@[i].outflows == rows@[i].outflows
                        &&& months@[i].net == rows@[i].net
                        &&& months@[i].cumulative_balance == rows@[i].cumulative_balance
                    },
            decreases rows.len() - j,
        {
            let label = year_month(dates[j]);
            months.push(
                MonthlyCashFlow {
                    month: label,
                    inflows: rows[j].inflows,
                    outflows: rows[j].outflows,
                    net: rows[j].net,
                    cumulative_balance: rows[j].cumulative_balance,
                },
            );
            j += 1;
        }
        Some(
            CashFlowMonthlyReport {
                months,
                initial_balance: init,
                ending_balance: end,
                total_inflows: tin,
                total_outflows: tout,
                net_variation: nv,
            },
        )
    }
}

} // verus!
