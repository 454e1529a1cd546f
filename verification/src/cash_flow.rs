//! The cash flow statement: which accounts hold cash, how the accounts on
//! the other side of a cash movement are classified (operating, investing,
//! financing), how a journal entry's cash movement is shared out among
//! them, and the monthly running balance.
use vstd::prelude::*;

use crate::amount::{dec_checked_add, dec_checked_div, dec_checked_mul, dec_checked_sub, value, Amount};
use crate::date::{days_between, days_between_of, valid_date};
use crate::depreciation_service::amounts_total;

verus! {

/// The cash flow service: the computations behind the cash flow reports.
pub struct CashFlowService;

/// The section of the cash flow statement an account belongs to.
#[derive(Clone, Copy, PartialEq, Eq, Structural, Debug)]
pub enum FlowCategory {
    Operating,
    Investing,
    Financing,
    Exclude,
}

/// A line of a posted journal entry: the number of its account (`None`
/// where the account is unknown), its debit and its credit.
#[derive(Clone, Copy)]
pub struct CashLine {
    pub account_number: Option<i32>,
    pub debit_amount: Amount,
    pub credit_amount: Amount,
}

/// A line as the contracts see it.
pub type CashLineView = (Option<i32>, (int, nat), (int, nat));

impl View for CashLine {
    type V = CashLineView;

    open spec fn view(&self) -> CashLineView {
        (self.account_number, self.debit_amount@, self.credit_amount@)
    }
}

/// What a journal entry contributes to the cash flow statement.
pub enum EntryFlow {
    /// No cash moved (no cash line, or a net movement of zero).
    Skip,
    /// Cash moved against system accounts only: an opening balance, added
    /// to the balance at the start.
    Opening(Amount),
    /// The net cash movement shared out among the counterpart lines: the
    /// line's index, its section and its share.
    Allocate(Vec<(usize, FlowCategory, Amount)>),
}

/// The contribution of an entry as the contracts see it.
pub enum FlowView {
    Skip,
    Opening((int, nat)),
    Allocate(Seq<(int, FlowCategory, (int, nat))>),
}

/// Cash and bank accounts: numbers 1000 to 1099.
pub open spec fn is_cash(n: Option<i32>) -> bool {
    n matches Some(x) && 1000 <= x <= 1099
}

/// The section of an account by its number (an unknown account counts as
/// operating): cash and the system accounts (9000-9999) are excluded;
/// 1400-1799 (fixed assets) is investing; 2100-2199 (short-term financial
/// liabilities) and 2400-2999 (long-term liabilities, provisions, equity)
/// are financing; everything else is operating.
pub open spec fn classify(n: Option<i32>) -> FlowCategory {
    match n {
        None => FlowCategory::Operating,
        Some(x) => if 1000 <= x <= 1099 {
            FlowCategory::Exclude
        } else if 1400 <= x <= 1799 {
            FlowCategory::Investing
        } else if 2100 <= x <= 2199 {
            FlowCategory::Financing
        } else if 2400 <= x <= 2999 {
            FlowCategory::Financing
        } else if 9000 <= x <= 9999 {
            FlowCategory::Exclude
        } else {
            FlowCategory::Operating
        },
    }
}

/// A counterpart of a cash movement: a line on an account that is neither
/// cash nor excluded.
pub open spec fn is_counterpart(n: Option<i32>) -> bool {
    !is_cash(n) && classify(n) != FlowCategory::Exclude
}

/// The net cash movement of the first lines: the sum, from zero up, of
/// debit minus credit over the cash lines; `None` where `Decimal`
/// arithmetic overflows.
pub open spec fn cash_net(lines: Seq<CashLineView>) -> Option<(int, nat)>
    decreases lines.len(),
{
    if lines.len() == 0 {
        Some((0int, 0nat))
    } else {
        match cash_net(lines.drop_last()) {
            None => None,
            Some(t) => if is_cash(lines.last().0) {
                match dec_checked_sub(lines.last().1, lines.last().2) {
                    Some(d) => dec_checked_add(t, d),
                    None => None,
                }
            } else {
                Some(t)
            },
        }
    }
}

/// The absolute value of a decimal, as `Decimal::abs` gives it.
pub open spec fn abs_dec(x: (int, nat)) -> (int, nat) {
    if x.0 < 0 {
        (-x.0, x.1)
    } else {
        x
    }
}

/// The size of a line: `|debit + credit|`; `None` where the sum overflows.
pub open spec fn line_size(l: CashLineView) -> Option<(int, nat)> {
    match dec_checked_add(l.1, l.2) {
        Some(s) => Some(abs_dec(s)),
        None => None,
    }
}

/// The total size of the counterpart lines among the first lines.
pub open spec fn counterpart_total(lines: Seq<CashLineView>) -> Option<(int, nat)>
    decreases lines.len(),
{
    if lines.len() == 0 {
        Some((0int, 0nat))
    } else {
        match counterpart_total(lines.drop_last()) {
            None => None,
            Some(t) => if is_counterpart(lines.last().0) {
                match line_size(lines.last()) {
                    Some(s) => dec_checked_add(t, s),
                    None => None,
                }
            } else {
                Some(t)
            },
        }
    }
}

/// The share of a counterpart line: `net * (size / total)`.
pub open spec fn share(net: (int, nat), l: CashLineView, total: (int, nat)) -> Option<(int, nat)> {
    match line_size(l) {
        Some(s) => match dec_checked_div(s, total) {
            Some(p) => dec_checked_mul(net, p),
            None => None,
        },
        None => None,
    }
}

/// The shares of the counterpart lines among the first `k` lines, in line
/// order.
pub open spec fn shares(lines: Seq<CashLineView>, k: int, net: (int, nat), total: (int, nat)) -> Option<
    Seq<(int, FlowCategory, (int, nat))>,
>
    decreases k,
{
    if k <= 0 {
        Some(Seq::empty())
    } else {
        match shares(lines, k - 1, net, total) {
            None => None,
            Some(s) => if is_counterpart(lines[k - 1].0) {
                match share(net, lines[k - 1], total) {
                    Some(a) => Some(s.push((k - 1, classify(lines[k - 1].0), a))),
                    None => None,
                }
            } else {
                Some(s)
            },
        }
    }
}

pub open spec fn has_cash_line(lines: Seq<CashLineView>) -> bool {
    exists|i: int| 0 <= i < lines.len() && is_cash(#[trigger] lines[i].0)
}

pub open spec fn has_counterpart(lines: Seq<CashLineView>) -> bool {
    exists|i: int| 0 <= i < lines.len() && is_counterpart(#[trigger] lines[i].0)
}

/// What an entry contributes to the cash flow statement: nothing without a
/// cash line or with a zero net movement; to the opening balance where it
/// has no counterpart (or its counterparts have size zero); else its net
/// movement shared out among the counterparts by size. `None` where
/// `Decimal` arithmetic overflows.
pub open spec fn entry_flow(lines: Seq<CashLineView>) -> Option<FlowView> {
    if !has_cash_line(lines) {
        Some(FlowView::Skip)
    } else {
        match cash_net(lines) {
            None => None,
            Some(net) => if value(net) == 0 {
                Some(FlowView::Skip)
            } else {
                match counterpart_total(lines) {
                    None => None,
                    Some(total) => if value(total) == 0 || !has_counterpart(lines) {
                        Some(FlowView::Opening(net))
                    } else {
                        match shares(lines, lines.len() as int, net, total) {
                            Some(s) => Some(FlowView::Allocate(s)),
                            None => None,
                        }
                    },
                }
            },
        }
    }
}

/// What an entry contributes to the monthly cash flow: `Skip`; `Opening`
/// where it has no counterpart; else an inflow (positive net) or an
/// outflow (negative net).
pub enum MonthlyEntry {
    Skip,
    Opening(Amount),
    Inflow(Amount),
    Outflow(Amount),
}

pub open spec fn monthly_entry(lines: Seq<CashLineView>) -> Option<(int, (int, nat))> {
    if !has_cash_line(lines) {
        Some((0, (0int, 0nat)))
    } else {
        match cash_net(lines) {
            None => None,
            Some(net) => if value(net) == 0 {
                Some((0, (0int, 0nat)))
            } else if !has_counterpart(lines) {
                Some((1, net))
            } else if value(net) > 0 {
                Some((2, net))
            } else {
                Some((3, net))
            },
        }
    }
}

pub open spec fn lines_wf(lines: Seq<CashLine>) -> bool {
    forall|i: int|
        0 <= i < lines.len() ==> (#[trigger] lines[i]).debit_amount.wf()
            && lines[i].credit_amount.wf()
}

pub open spec fn line_views(lines: Seq<CashLine>) -> Seq<CashLineView> {
    lines.map_values(|l: CashLine| l@)
}

impl CashFlowService {
    /// Whether the account with this number holds cash (1000-1099).
    pub fn is_cash_account(number: Option<i32>) -> (b: bool)
        ensures
            b == is_cash(number),
    {
        match number {
            Some(x) => 1000 <= x && x <= 1099,
            None => false,
        }
    }

    /// The section of the account with this number.
    pub fn classify_account_number(number: Option<i32>) -> (r: FlowCategory)
        ensures
            r == classify(number),
    {
        match number {
            None => FlowCategory::Operating,
            Some(x) => if 1000 <= x && x <= 1099 {
                FlowCategory::Exclude
            } else if 1400 <= x && x <= 1799 {
                FlowCategory::Investing
            } else if 2100 <= x && x <= 2199 {
                FlowCategory::Financing
            } else if 2400 <= x && x <= 2999 {
                FlowCategory::Financing
            } else if 9000 <= x && x <= 9999 {
                FlowCategory::Exclude
            } else {
                FlowCategory::Operating
            },
        }
    }

    fn counterpart(number: Option<i32>) -> (b: bool)
        ensures
            b == is_counterpart(number),
    {
        !Self::is_cash_account(number) && Self::classify_account_number(number)
            != FlowCategory::Exclude
    }

    pub(crate) fn net_of(lines: &Vec<CashLine>) -> (r: Option<Amount>)
        requires
            lines_wf(lines@),
        ensures
            match cash_net(line_views(lines@)) {
                Some(t) => r matches Some(x) && x@ == t && x.wf(),
                None => r is None,
            },
    {
        let ghost v = line_views(lines@);
        let mut total = Amount::zero();
        let mut i: usize = 0;
        while i < lines.len()
            invariant
                i <= lines.len(),
                v == line_views(lines@),
                lines_wf(lines@),
                total.wf(),
                cash_net(v.take(i as int)) == Some(total@),
            decreases lines.len() - i,
        {
            assert(v.take(i + 1).drop_last() =~= v.take(i as int));
            assert(v.take(i + 1).last() == lines[i as int]@);
            assert(lines[i as int].debit_amount.wf() && lines[i as int].credit_amount.wf());
            if Self::is_cash_account(lines[i].account_number) {
                let d = match lines[i].debit_amount.checked_sub(lines[i].credit_amount) {
                    Some(d) => d,
                    None => {
                        proof {
                            lemma_net_none_extends(v, i as int + 1);
                        }
                        return None;
                    },
                };
                match total.checked_add(d) {
                    Some(t) => {
                        total = t;
                    },
                    None => {
                        proof {
                            lemma_net_none_extends(v, i as int + 1);
                        }
                        return None;
                    },
                }
            }
            i = i + 1;
        }
        assert(v.take(lines.len() as int) =~= v);
        Some(total)
    }

    fn size_of(l: &CashLine) -> (r: Option<Amount>)
        requires
            l.debit_amount.wf(),
            l.credit_amount.wf(),
        ensures
            match line_size(l@) {
                Some(t) => r matches Some(x) && x@ == t && x.wf(),
                None => r is None,
            },
    {
        match l.debit_amount.checked_add(l.credit_amount) {
            Some(s) => Some(s.abs()),
            None => None,
        }
    }

    fn counterpart_sum(lines: &Vec<CashLine>) -> (r: Option<Amount>)
        requires
            lines_wf(lines@),
        ensures
            match counterpart_total(line_views(lines@)) {
                Some(t) => r matches Some(x) && x@ == t && x.wf(),
                None => r is None,
            },
    {
        let ghost v = line_views(lines@);
        let mut total = Amount::zero();
        let mut i: usize = 0;
        while i < lines.len()
            invariant
                i <= lines.len(),
                v == line_views(lines@),
                lines_wf(lines@),
                total.wf(),
                counterpart_total(v.take(i as int)) == Some(total@),
            decreases lines.len() - i,
        {
            assert(v.take(i + 1).drop_last() =~= v.take(i as int));
            assert(v.take(i + 1).last() == lines[i as int]@);
            assert(lines[i as int].debit_amount.wf() && lines[i as int].credit_amount.wf());
            if Self::counterpart(lines[i].account_number) {
                let s = match Self::size_of(&lines[i]) {
                    Some(s) => s,
                    None => {
                        proof {
                            lemma_cp_none_extends(v, i as int + 1);
                        }
                        return None;
                    },
                };
                match total.checked_add(s) {
                    Some(t) => {
                        total = t;
                    },
                    None => {
                        proof {
                            lemma_cp_none_extends(v, i as int + 1);
                        }
                        return None;
                    },
                }
            }
            i = i + 1;
        }
        assert(v.take(lines.len() as int) =~= v);
        Some(total)
    }

    fn find_cash(lines: &Vec<CashLine>) -> (b: bool)
        ensures
            b == has_cash_line(line_views(lines@)),
    {
        let mut i: usize = 0;
        while i < lines.len()
            invariant
                i <= lines.len(),
                forall|j: int| 0 <= j < i ==> !is_cash(#[trigger] line_views(lines@)[j].0),
            decreases lines.len() - i,
        {
            if Self::is_cash_account(lines[i].account_number) {
                assert(is_cash(line_views(lines@)[i as int].0));
                return true;
            }
            i = i + 1;
        }
        false
    }

    fn find_counterpart(lines: &Vec<CashLine>) -> (b: bool)
        ensures
            b == has_counterpart(line_views(lines@)),
    {
        let mut i: usize = 0;
        while i < lines.len()
            invariant
                i <= lines.len(),
                forall|j: int| 0 <= j < i ==> !is_counterpart(#[trigger] line_views(lines@)[j].0),
            decreases lines.len() - i,
        {
            if Self::counterpart(lines[i].account_number) {
                assert(is_counterpart(line_views(lines@)[i as int].0));
                return true;
            }
            i = i + 1;
        }
        false
    }

    /// What the journal entry with these lines contributes to the cash flow
    /// statement (see `entry_flow`); `None` where `Decimal` arithmetic
    /// overflows (where the computation panics).
    pub fn entry_flow(lines: &Vec<CashLine>) -> (r: Option<EntryFlow>)
        requires
            lines_wf(lines@),
        ensures
            match entry_flow(line_views(lines@)) {
                None => r is None,
                Some(FlowView::Skip) => r matches Some(EntryFlow::Skip),
                Some(FlowView::Opening(n)) => r matches Some(EntryFlow::Opening(a)) && a@ == n,
                Some(FlowView::Allocate(s)) => r matches Some(EntryFlow::Allocate(v)) && v@.len()
                    == s.len() && forall|i: int|
                    0 <= i < s.len() ==> (#[trigger] v@[i]).0 as int == s[i].0 && v@[i].1
                        == s[i].1 && v@[i].2@ == s[i].2,
            },
            r matches Some(EntryFlow::Opening(a)) ==> a.wf(),
            r matches Some(EntryFlow::Allocate(v)) ==> forall|i: int|
                0 <= i < v@.len() ==> (#[trigger] v@[i]).2.wf() && v@[i].0 < lines@.len(),
    {
        let ghost lv = line_views(lines@);
        if !Self::find_cash(lines) {
            return Some(EntryFlow::Skip);
        }
        let net = match Self::net_of(lines) {
            Some(n) => n,
            None => return None,
        };
        if net.eq(Amount::zero()) {
            return Some(EntryFlow::Skip);
        }
        let total = match Self::counterpart_sum(lines) {
            Some(t) => t,
            None => return None,
        };
        if total.eq(Amount::zero()) || !Self::find_counterpart(lines) {
            return Some(EntryFlow::Opening(net));
        }
        assert(value(total@) != 0);
        let mut out: Vec<(usize, FlowCategory, Amount)> = Vec::new();
        let mut i: usize = 0;
        while i < lines.len()
            invariant
                i <= lines.len(),
                lv == line_views(lines@),
                lines_wf(lines@),
                net.wf(),
                total.wf(),
                has_cash_line(lv),
                has_counterpart(lv),
                cash_net(lv) == Some(net@),
                value(net@) != 0,
                counterpart_total(lv) == Some(total@),
                value(total@) != 0,
                shares(lv, i as int, net@, total@) matches Some(s) && out@.len() == s.len()
                    && forall|j: int|
                    0 <= j < s.len() ==> (#[trigger] out@[j]).0 as int == s[j].0 && out@[j].1
                        == s[j].1 && out@[j].2@ == s[j].2,
                forall|j: int| 0 <= j < out@.len() ==> (#[trigger] out@[j]).2.wf() && out@[j].0 < i,
            decreases lines.len() - i,
        {
            assert(lv[i as int] == lines[i as int]@);
            assert(lines[i as int].debit_amount.wf() && lines[i as int].credit_amount.wf());
            if Self::counterpart(lines[i].account_number) {
                let s = match Self::size_of(&lines[i]) {
                    Some(s) => s,
                    None => {
                        proof {
                            lemma_shares_none_extends(lv, i as int + 1, net@, total@);
                        }
                        return None;
                    },
                };
                let p = match s.checked_div(total) {
                    Some(p) => p,
                    None => {
                        proof {
                            lemma_shares_none_extends(lv, i as int + 1, net@, total@);
                        }
                        return None;
                    },
                };
                let a = match net.checked_mul(p) {
                    Some(a) => a,
                    None => {
                        proof {
                            lemma_shares_none_extends(lv, i as int + 1, net@, total@);
                        }
                        return None;
                    },
                };
                out.push((i, Self::classify_account_number(lines[i].account_number), a));
            }
            i = i + 1;
        }
        Some(EntryFlow::Allocate(out))
    }

    /// What the journal entry with these lines contributes to the monthly
    /// cash flow: skipped, an opening balance, an inflow or an outflow (see
    /// `monthly_entry`); `None` where `Decimal` arithmetic overflows.
    pub fn monthly_entry(lines: &Vec<CashLine>) -> (r: Option<MonthlyEntry>)
        requires
            lines_wf(lines@),
        ensures
            match monthly_entry(line_views(lines@)) {
                None => r is None,
                Some((k, n)) => r matches Some(e) && match e {
                    MonthlyEntry::Skip => k == 0,
                    MonthlyEntry::Opening(a) => k == 1 && a@ == n,
                    MonthlyEntry::Inflow(a) => k == 2 && a@ == n,
                    MonthlyEntry::Outflow(a) => k == 3 && a@ == n,
                },
            },
            r matches Some(e) ==> match e {
                MonthlyEntry::Opening(a) => a.wf(),
                MonthlyEntry::Inflow(a) => a.wf(),
                MonthlyEntry::Outflow(a) => a.wf(),
                MonthlyEntry::Skip => true,
            },
    {
        if !Self::find_cash(lines) {
            return Some(MonthlyEntry::Skip);
        }
        let net = match Self::net_of(lines) {
            Some(n) => n,
            None => return None,
        };
        let zero = Amount::zero();
        if net.eq(zero) {
            return Some(MonthlyEntry::Skip);
        }
        if !Self::find_counterpart(lines) {
            return Some(MonthlyEntry::Opening(net));
        }
        if zero.lt(net) {
            Some(MonthlyEntry::Inflow(net))
        } else {
            Some(MonthlyEntry::Outflow(net))
        }
    }
}

impl Amount {
    /// `Decimal::abs`: the magnitude, at the same scale.
    pub fn abs(self) -> (r: Amount)
        requires
            self.wf(),
        ensures
            r@ == abs_dec(self@),
            r.wf(),
            r.value() == crate::amount::abs(self.value()),
    {
        proof {
            crate::amount::lemma_pow10_pos((28 - self@.1) as nat);
            let p = crate::amount::pow10((28 - self@.1) as nat);
            assert(value((-self@.0, self@.1)) == -value(self@)) by (nonlinear_arith)
                requires
                    value((-self@.0, self@.1)) == (-self@.0) * p,
                    value(self@) == self@.0 * p,
            ;
            assert(self@.0 < 0 <==> value(self@) < 0) by (nonlinear_arith)
                requires
                    value(self@) == self@.0 * p,
                    p > 0,
            ;
        }
        if self.mantissa < 0 {
            Amount { mantissa: -self.mantissa, scale: self.scale }
        } else {
            self
        }
    }
}

proof fn lemma_net_none_extends(s: Seq<CashLineView>, k: int)
    requires
        0 <= k <= s.len(),
        cash_net(s.take(k)) is None,
    ensures
        cash_net(s) is None,
    decreases s.len() - k,
{
    if k < s.len() {
        assert(s.take(k + 1).drop_last() =~= s.take(k));
        lemma_net_none_extends(s, k + 1);
    } else {
        assert(s.take(k) =~= s);
    }
}

proof fn lemma_cp_none_extends(s: Seq<CashLineView>, k: int)
    requires
        0 <= k <= s.len(),
        counterpart_total(s.take(k)) is None,
    ensures
        counterpart_total(s) is None,
    decreases s.len() - k,
{
    if k < s.len() {
        assert(s.take(k + 1).drop_last() =~= s.take(k));
        lemma_cp_none_extends(s, k + 1);
    } else {
        assert(s.take(k) =~= s);
    }
}

proof fn lemma_shares_none_extends(
    s: Seq<CashLineView>,
    k: int,
    net: (int, nat),
    total: (int, nat),
)
    requires
        0 <= k <= s.len(),
        shares(s, k, net, total) is None,
    ensures
        shares(s, s.len() as int, net, total) is None,
    decreases s.len() - k,
{
    if k < s.len() {
        lemma_shares_none_extends(s, k + 1, net, total);
    }
}

/// The inflows (sum of the positive items) and outflows (sum of the
/// negative items) of a section, from zero up; `None` where an addition
/// overflows.
pub open spec fn section_sums(items: Seq<(int, nat)>) -> Option<((int, nat), (int, nat))>
    decreases items.len(),
{
    if items.len() == 0 {
        Some(((0int, 0nat), (0int, 0nat)))
    } else {
        match section_sums(items.drop_last()) {
            None => None,
            Some((i, o)) => if value(items.last()) > 0 {
                match dec_checked_add(i, items.last()) {
                    Some(x) => Some((x, o)),
                    None => None,
                }
            } else if value(items.last()) < 0 {
                match dec_checked_add(o, items.last()) {
                    Some(x) => Some((i, x)),
                    None => None,
                }
            } else {
                Some((i, o))
            },
        }
    }
}

/// One month of the monthly cash flow: inflows, outflows, net and the
/// running balance at its end.
pub struct MonthRow {
    pub inflows: Amount,
    pub outflows: Amount,
    pub net: Amount,
    pub cumulative_balance: Amount,
}

/// The rows of the first months given their (inflows, outflows), starting
/// from `initial`, with the totals of inflows and outflows: each month's
/// net is inflows plus outflows, and the running balance adds it. `None`
/// where an addition overflows.
pub open spec fn month_rows(initial: (int, nat), months: Seq<((int, nat), (int, nat))>) -> Option<
    (Seq<((int, nat), (int, nat))>, (int, nat), (int, nat), (int, nat)),
>
    decreases months.len(),
{
    if months.len() == 0 {
        Some((Seq::empty(), initial, (0int, 0nat), (0int, 0nat)))
    } else {
        match month_rows(initial, months.drop_last()) {
            None => None,
            Some((rows, cum, tin, tout)) => {
                let (inf, outf) = months.last();
                match dec_checked_add(inf, outf) {
                    None => None,
                    Some(net) => match dec_checked_add(cum, net) {
                        None => None,
                        Some(c) => match dec_checked_add(tin, inf) {
                            None => None,
                            Some(ti) => match dec_checked_add(tout, outf) {
                                None => None,
                                Some(to) => Some((rows.push((net, c)), c, ti, to)),
                            },
                        },
                    },
                }
            },
        }
    }
}

/// The receivables of one age bracket: how many invoices and their total.
pub struct AgingBucket {
    pub bucket: String,
    pub count: i64,
    pub total: Amount,
}

/// `(bucket, count, total)`.
pub type AgingBucketView = (Seq<char>, int, (int, nat));

impl View for AgingBucket {
    type V = AgingBucketView;

    open spec fn view(&self) -> AgingBucketView {
        (self.bucket@, self.count as int, self.total@)
    }
}

/// The age brackets, in order.
pub open spec fn aging_labels() -> Seq<Seq<char>> {
    seq!["Current"@, "1-30 days"@, "31-60 days"@, "61-90 days"@, "90+ days"@]
}

/// The bracket of an invoice overdue by `days` days (not yet due where
/// `days` is zero or less).
pub open spec fn bucket_index(days: int) -> int {
    if days <= 0 {
        0
    } else if days <= 30 {
        1
    } else if days <= 60 {
        2
    } else if days <= 90 {
        3
    } else {
        4
    }
}

/// The totals of the invoices (days overdue, total) in bracket `k`, in
/// order.
pub open spec fn bucket_amounts(entries: Seq<(int, Amount)>, k: int) -> Seq<(int, nat)>
    decreases entries.len(),
{
    if entries.len() == 0 {
        Seq::empty()
    } else if bucket_index(entries.last().0) == k {
        bucket_amounts(entries.drop_last(), k).push(entries.last().1@)
    } else {
        bucket_amounts(entries.drop_last(), k)
    }
}

/// The first `n` brackets with their counts and totals (from zero up);
/// `None` where a total overflows.
pub open spec fn aging_buckets_upto(entries: Seq<(int, Amount)>, n: nat) -> Option<
    Seq<AgingBucketView>,
>
    decreases n,
{
    if n == 0 {
        Some(Seq::empty())
    } else {
        let k = n - 1;
        match (aging_buckets_upto(entries, (n - 1) as nat), amounts_total(bucket_amounts(entries, k))) {
            (Some(bs), Some(t)) => Some(
                bs.push((aging_labels()[k], bucket_amounts(entries, k).len() as int, t)),
            ),
            _ => None,
        }
    }
}

pub open spec fn days_view(v: Seq<(i64, Amount)>) -> Seq<(int, Amount)> {
    v.map_values(|e: (i64, Amount)| (e.0 as int, e.1))
}

/// The invoices (due date, total) as (days overdue on `today`, total).
pub open spec fn overdue_view(today: (i32, u32, u32), v: Seq<((i32, u32, u32), Amount)>) -> Seq<
    (int, Amount),
> {
    v.map_values(
        |e: ((i32, u32, u32), Amount)|
            (
                days_between_of(
                    (today.0 as int, today.1 as int, today.2 as int),
                    (e.0.0 as int, e.0.1 as int, e.0.2 as int),
                ),
                e.1,
            ),
    )
}

proof fn lemma_bucket_none_extends(entries: Seq<(int, Amount)>, k: int, j: int)
    requires
        0 <= j <= entries.len(),
        amounts_total(bucket_amounts(entries.take(j), k)) is None,
    ensures
        amounts_total(bucket_amounts(entries, k)) is None,
    decreases entries.len() - j,
{
    if j < entries.len() {
        assert(entries.take(j + 1).drop_last() =~= entries.take(j));
        assert(entries.take(j + 1).last() == entries[j]);
        let a = bucket_amounts(entries.take(j), k);
        if bucket_index(entries[j].0) == k {
            assert(a.push(entries[j].1@).drop_last() =~= a);
        }
        lemma_bucket_none_extends(entries, k, j + 1);
    } else {
        assert(entries.take(j) =~= entries);
    }
}

proof fn lemma_aging_none_extends(entries: Seq<(int, Amount)>, k: nat, n: nat)
    requires
        k <= n,
        aging_buckets_upto(entries, k) is None,
    ensures
        aging_buckets_upto(entries, n) is None,
    decreases n - k,
{
    if k < n {
        lemma_aging_none_extends(entries, k + 1, n);
    }
}

impl CashFlowService {
    /// The bracket of an invoice overdue by `days` days.
    fn bucket_of_days(days: i64) -> (r: usize)
        ensures
            r == bucket_index(days as int),
    {
        if days <= 0 {
            0
        } else if days <= 30 {
            1
        } else if days <= 60 {
            2
        } else if days <= 90 {
            3
        } else {
            4
        }
    }

    /// The number and total of the invoices in bracket `k`.
    fn bracket_sum(entries: &Vec<(i64, Amount)>, k: usize) -> (r: Option<(i64, Amount)>)
        requires
            forall|i: int| 0 <= i < entries@.len() ==> (#[trigger] entries@[i]).1.wf(),
            entries@.len() < 0x7FFF_FFFF_FFFF_FFFF,
        ensures
            match amounts_total(bucket_amounts(days_view(entries@), k as int)) {
                Some(t) => r matches Some((c, a)) && c == bucket_amounts(
                    days_view(entries@),
                    k as int,
                ).len() && a@ == t && a.wf(),
                None => r is None,
            },
    {
        let ghost ev = days_view(entries@);
        let mut total = Amount::zero();
        let mut count: i64 = 0;
        let mut i: usize = 0;
        while i < entries.len()
            invariant
                i <= entries.len(),
                ev == days_view(entries@),
                forall|j: int| 0 <= j < entries@.len() ==> (#[trigger] entries@[j]).1.wf(),
                entries@.len() < 0x7FFF_FFFF_FFFF_FFFF,
                total.wf(),
                amounts_total(bucket_amounts(ev.take(i as int), k as int)) == Some(total@),
                count == bucket_amounts(ev.take(i as int), k as int).len(),
                count <= i,
            decreases entries.len() - i,
        {
            assert(ev.take(i + 1).drop_last() =~= ev.take(i as int));
            assert(ev.take(i + 1).last() == ev[i as int]);
            assert(entries@[i as int].1.wf());
            if Self::bucket_of_days(entries[i].0) == k {
                let ghost a = bucket_amounts(ev.take(i as int), k as int);
                assert(a.push(entries@[i as int].1@).drop_last() =~= a);
                match total.checked_add(entries[i].1) {
                    Some(t) => {
                        total = t;
                        count = count + 1;
                    },
                    None => {
                        proof {
                            lemma_bucket_none_extends(ev, k as int, i as int + 1);
                        }
                        return None;
                    },
                }
            }
            i = i + 1;
        }
        assert(ev.take(entries.len() as int) =~= ev);
        Some((count, total))
    }

    /// The receivables aging over the open invoices, given as (days
    /// overdue, total): five brackets (not yet due, 1-30, 31-60, 61-90
    /// and over 90 days overdue), each with its number of invoices and
    /// their total. `None` where a total overflows.
    pub fn aging_from_days(entries: &Vec<(i64, Amount)>) -> (r: Option<Vec<AgingBucket>>)
        requires
            forall|i: int| 0 <= i < entries@.len() ==> (#[trigger] entries@[i]).1.wf(),
            entries@.len() < 0x7FFF_FFFF_FFFF_FFFF,
        ensures
            match aging_buckets_upto(days_view(entries@), 5) {
                Some(bs) => r matches Some(v) && v@.map_values(|b: AgingBucket| b@) == bs,
                None => r is None,
            },
    {
        let labels: Vec<&str> = vec!["Current", "1-30 days", "31-60 days", "61-90 days", "90+ days"];
        assert(labels@.map_values(|x: &str| x@) =~= aging_labels());
        let ghost ev = days_view(entries@);
        let mut out: Vec<AgingBucket> = Vec::new();
        let mut k: usize = 0;
        while k < 5
            invariant
                k <= 5,
                ev == days_view(entries@),
                labels@.len() == 5,
                labels@.map_values(|x: &str| x@) == aging_labels(),
                forall|i: int| 0 <= i < entries@.len() ==> (#[trigger] entries@[i]).1.wf(),
                entries@.len() < 0x7FFF_FFFF_FFFF_FFFF,
                aging_buckets_upto(ev, k as nat) == Some(out@.map_values(|b: AgingBucket| b@)),
            decreases 5 - k,
        {
            assert(labels@[k as int]@ == aging_labels()[k as int]);
            match Self::bracket_sum(entries, k) {
                Some((count, total)) => {
                    let b = AgingBucket { bucket: labels[k].to_owned(), count, total };
                    let ghost before = out@;
                    out.push(b);
                    assert(out@.map_values(|x: AgingBucket| x@) =~= before.map_values(
                        |x: AgingBucket| x@,
                    ).push(b@));
                },
                None => {
                    proof {
                        lemma_aging_none_extends(ev, (k + 1) as nat, 5);
                    }
                    return None;
                },
            }
            k += 1;
        }
        Some(out)
    }

    /// The receivables aging on `today` over the open invoices, given as
    /// (due date, total): each invoice is overdue by the days from its due
    /// date to today (see `aging_from_days`).
    pub fn ar_aging_report(today: (i32, u32, u32), invoices: &Vec<((i32, u32, u32), Amount)>) -> (r:
        Option<Vec<AgingBucket>>)
        requires
            valid_date(today.0 as int, today.1 as int, today.2 as int),
            forall|i: int|
                0 <= i < invoices@.len() ==> valid_date(
                    (#[trigger] invoices@[i]).0.0 as int,
                    invoices@[i].0.1 as int,
                    invoices@[i].0.2 as int,
                ) && invoices@[i].1.wf(),
            invoices@.len() < 0x7FFF_FFFF_FFFF_FFFF,
        ensures
            match aging_buckets_upto(overdue_view(today, invoices@), 5) {
                Some(bs) => r matches Some(v) && v@.map_values(|b: AgingBucket| b@) == bs,
                None => r is None,
            },
    {
        let mut entries: Vec<(i64, Amount)> = Vec::new();
        let mut i: usize = 0;
        while i < invoices.len()
            invariant
                i <= invoices.len(),
                valid_date(today.0 as int, today.1 as int, today.2 as int),
                forall|j: int|
                    0 <= j < invoices@.len() ==> valid_date(
                        (#[trigger] invoices@[j]).0.0 as int,
                        invoices@[j].0.1 as int,
                        invoices@[j].0.2 as int,
                    ) && invoices@[j].1.wf(),
                entries@.len() == i,
                days_view(entries@) == overdue_view(today, invoices@).take(i as int),
                forall|j: int| 0 <= j < entries@.len() ==> (#[trigger] entries@[j]).1.wf(),
            decreases invoices.len() - i,
        {
            let (due, total) = invoices[i];
            assert(valid_date(due.0 as int, due.1 as int, due.2 as int) && total.wf()) by {
                assert(invoices@[i as int].0 == due);
            }
            let days = days_between(today, due);
            let ghost before = entries@;
            entries.push((days, total));
            assert(days_view(entries@) =~= overdue_view(today, invoices@).take(i + 1));
            i += 1;
        }
        assert(overdue_view(today, invoices@).take(invoices.len() as int) =~= overdue_view(
            today,
            invoices@,
        ));
        Self::aging_from_days(&entries)
    }

    /// The payables aging: the same five brackets, all empty, as payables
    /// are not aged yet.
    pub fn ap_aging_report() -> (r: Vec<AgingBucket>)
        ensures
            r@.map_values(|b: AgingBucket| b@) == aging_labels().map_values(
                |l: Seq<char>| (l, 0int, (0int, 0nat)),
            ),
    {
        let labels: Vec<&str> = vec!["Current", "1-30 days", "31-60 days", "61-90 days", "90+ days"];
        assert(labels@.map_values(|x: &str| x@) =~= aging_labels());
        let mut out: Vec<AgingBucket> = Vec::new();
        let mut k: usize = 0;
        while k < 5
            invariant
                k <= 5,
                labels@.len() == 5,
                labels@.map_values(|x: &str| x@) == aging_labels(),
                out@.map_values(|b: AgingBucket| b@) == aging_labels().take(k as int).map_values(
                    |l: Seq<char>| (l, 0int, (0int, 0nat)),
                ),
            decreases 5 - k,
        {
            assert(labels@[k as int]@ == aging_labels()[k as int]);
            let b = AgingBucket { bucket: labels[k].to_owned(), count: 0, total: Amount::zero() };
            let ghost before = out@;
            out.push(b);
            assert(b@ == (aging_labels()[k as int], 0int, (0int, 0nat)));
            assert(aging_labels().take(k + 1) =~= aging_labels().take(k as int).push(
                aging_labels()[k as int],
            ));
            assert(out@.map_values(|x: AgingBucket| x@) =~= before.map_values(|x: AgingBucket| x@).push(
                b@,
            ));
            assert(out@.map_values(|x: AgingBucket| x@) =~= aging_labels().take(k + 1).map_values(
                |l: Seq<char>| (l, 0int, (0int, 0nat)),
            ));
            k += 1;
        }
        assert(aging_labels().take(5) =~= aging_labels());
        out
    }

    /// The inflows and outflows of a section's items (see `section_sums`).
    pub fn section_totals(items: &Vec<Amount>) -> (r: Option<(Amount, Amount)>)
        requires
            forall|i: int| 0 <= i < items.len() ==> (#[trigger] items[i]).wf(),
        ensures
            match section_sums(items@.map_values(|a: Amount| a@)) {
                Some((i, o)) => r matches Some((a, b)) && a@ == i && b@ == o,
                None => r is None,
            },
            r matches Some((a, b)) ==> a.wf() && b.wf(),
    {
        let ghost v = items@.map_values(|a: Amount| a@);
        let zero = Amount::zero();
        let mut inflows = Amount::zero();
        let mut outflows = Amount::zero();
        let mut k: usize = 0;
        while k < items.len()
            invariant
                k <= items.len(),
                v == items@.map_values(|a: Amount| a@),
                forall|i: int| 0 <= i < items.len() ==> (#[trigger] items[i]).wf(),
                zero@ == (0int, 0nat),
                inflows.wf(),
                outflows.wf(),
                section_sums(v.take(k as int)) == Some((inflows@, outflows@)),
            decreases items.len() - k,
        {
            assert(v.take(k + 1).drop_last() =~= v.take(k as int));
            assert(v.take(k + 1).last() == items[k as int]@);
            let a = items[k];
            if zero.lt(a) {
                match inflows.checked_add(a) {
                    Some(x) => {
                        inflows = x;
                    },
                    None => {
                        proof {
                            lemma_section_none_extends(v, k as int + 1);
                        }
                        return None;
                    },
                }
            } else if a.lt(zero) {
                match outflows.checked_add(a) {
                    Some(x) => {
                        outflows = x;
                    },
                    None => {
                        proof {
                            lemma_section_none_extends(v, k as int + 1);
                        }
                        return None;
                    },
                }
            }
            k = k + 1;
        }
        assert(v.take(items.len() as int) =~= v);
        Some((inflows, outflows))
    }

    /// The rows of the monthly cash flow and the totals of inflows and
    /// outflows (see `month_rows`).
    pub fn monthly_rows(initial: Amount, months: &Vec<(Amount, Amount)>) -> (r: Option<
        (Vec<MonthRow>, Amount, Amount),
    >)
        requires
            initial.wf(),
            forall|i: int|
                0 <= i < months.len() ==> (#[trigger] months[i]).0.wf() && months[i].1.wf(),
        ensures
            match month_rows(initial@, months@.map_values(|m: (Amount, Amount)| (m.0@, m.1@))) {
                Some((rows, _c, ti, to)) => r matches Some((v, a, b)) && a@ == ti && b@ == to
                    && v@.len() == rows.len() && forall|i: int|
                    0 <= i < rows.len() ==> (#[trigger] v@[i]).net@ == rows[i].0
                        && v@[i].cumulative_balance@ == rows[i].1 && v@[i].inflows@ == months@[i].0@
                        && v@[i].outflows@ == months@[i].1@,
                None => r is None,
            },
            r matches Some((v, a, b)) ==> v@.len() == months@.len() && a.wf() && b.wf(),
    {
        let ghost m = months@.map_values(|m: (Amount, Amount)| (m.0@, m.1@));
        let mut rows: Vec<MonthRow> = Vec::new();
        let mut cum = initial;
        let mut tin = Amount::zero();
        let mut tout = Amount::zero();
        let mut k: usize = 0;
        while k < months.len()
            invariant
                k <= months.len(),
                m == months@.map_values(|m: (Amount, Amount)| (m.0@, m.1@)),
                forall|i: int|
                    0 <= i < months.len() ==> (#[trigger] months[i]).0.wf() && months[i].1.wf(),
                cum.wf(),
                tin.wf(),
                tout.wf(),
                month_rows(initial@, m.take(k as int)) matches Some((rs, c, ti, to)) && c == cum@
                    && ti == tin@ && to == tout@ && rows@.len() == rs.len() && rs.len() == k && forall|i: int|
                    0 <= i < rs.len() ==> (#[trigger] rows@[i]).net@ == rs[i].0
                        && rows@[i].cumulative_balance@ == rs[i].1 && rows@[i].inflows@
                        == months@[i].0@ && rows@[i].outflows@ == months@[i].1@,
            decreases months.len() - k,
        {
            assert(m.take(k + 1).drop_last() =~= m.take(k as int));
            assert(m.take(k + 1).last() == (months[k as int].0@, months[k as int].1@));
            let inf = months[k].0;
            let outf = months[k].1;
            let net = match inf.checked_add(outf) {
                Some(x) => x,
                None => {
                    proof {
                        lemma_rows_none_extends(initial@, m, k as int + 1);
                    }
                    return None;
                },
            };
            let c = match cum.checked_add(net) {
                Some(x) => x,
                None => {
                    proof {
                        lemma_rows_none_extends(initial@, m, k as int + 1);
                    }
                    return None;
                },
            };
            let ti = match tin.checked_add(inf) {
                Some(x) => x,
                None => {
                    proof {
                        lemma_rows_none_extends(initial@, m, k as int + 1);
                    }
                    return None;
                },
            };
            let to = match tout.checked_add(outf) {
                Some(x) => x,
                None => {
                    proof {
                        lemma_rows_none_extends(initial@, m, k as int + 1);
                    }
                    return None;
                },
            };
            rows.push(MonthRow { inflows: inf, outflows: outf, net, cumulative_balance: c });
            cum = c;
            tin = ti;
            tout = to;
            k = k + 1;
        }
        assert(m.take(months.len() as int) =~= m);
        Some((rows, tin, tout))
    }
}

proof fn lemma_section_none_extends(s: Seq<(int, nat)>, k: int)
    requires
        0 <= k <= s.len(),
        section_sums(s.take(k)) is None,
    ensures
        section_sums(s) is None,
    decreases s.len() - k,
{
    if k < s.len() {
        assert(s.take(k + 1).drop_last() =~= s.take(k));
        lemma_section_none_extends(s, k + 1);
    } else {
        assert(s.take(k) =~= s);
    }
}

pub(crate) proof fn lemma_rows_none_extends(initial: (int, nat), s: Seq<((int, nat), (int, nat))>, k: int)
    requires
        0 <= k <= s.len(),
        month_rows(initial, s.take(k)) is None,
    ensures
        month_rows(initial, s) is None,
    decreases s.len() - k,
{
    if k < s.len() {
        assert(s.take(k + 1).drop_last() =~= s.take(k));
        lemma_rows_none_extends(initial, s, k + 1);
    } else {
        assert(s.take(k) =~= s);
    }
}

} // verus!
