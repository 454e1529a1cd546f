//! The dashboard's key figures: revenue and expenses of the month so far,
//! the cash balance, what is outstanding, and the latest entries.
use vstd::prelude::*;

use crate::amount::{dec_checked_add, dec_checked_sub, Amount};
use crate::date::{iso_date, iso_text, valid_date};
use crate::depreciation_service::amounts_total;

verus! {

/// The dashboard service: the computations of the key figures.
pub struct DashboardService;

/// A journal entry as the dashboard lists it.
pub struct RecentEntry {
    pub id: String,
    pub date: String,
    pub reference: Option<String>,
    pub description: String,
    pub status: String,
}

/// A journal entry as read: its date as (year, month, day).
pub struct EntryRow {
    pub id: String,
    pub date: (i32, u32, u32),
    pub reference: Option<String>,
    pub description: String,
    pub status: String,
}

/// The key figures of the dashboard.
pub struct DashboardStats {
    pub account_count: u64,
    pub active_contacts: u64,
    pub journal_entry_count: u64,
    pub active_projects: u64,
    pub revenue_mtd: Amount,
    pub expenses_mtd: Amount,
    pub cash_balance: Amount,
    pub open_invoices_count: u64,
    pub total_outstanding: Amount,
    pub recent_entries: Vec<RecentEntry>,
}

/// The (debit, credit) amounts of journal lines.
pub open spec fn lines_wf(lines: Seq<(Amount, Amount)>) -> bool {
    forall|i: int| 0 <= i < lines.len() ==> (#[trigger] lines[i]).0.wf() && lines[i].1.wf()
}

/// The debits (`debits` set) or the credits of the lines, in order.
pub open spec fn column(lines: Seq<(Amount, Amount)>, debits: bool) -> Seq<(int, nat)> {
    lines.map_values(
        |l: (Amount, Amount)|
            if debits {
                l.0@
            } else {
                l.1@
            },
    )
}

/// The balance of the lines: from zero, each line's debit added and its
/// credit subtracted, in order; `None` where an operation overflows.
pub open spec fn running_balance(lines: Seq<(Amount, Amount)>) -> Option<(int, nat)>
    decreases lines.len(),
{
    if lines.len() == 0 {
        Some((0int, 0nat))
    } else {
        match running_balance(lines.drop_last()) {
            None => None,
            Some(b) => match dec_checked_add(b, lines.last().0@) {
                None => None,
                Some(x) => dec_checked_sub(x, lines.last().1@),
            },
        }
    }
}

pub open spec fn entry_rows_valid(rows: Seq<EntryRow>) -> bool {
    forall|i: int|
        0 <= i < rows.len() ==> valid_date(
            (#[trigger] rows[i]).date.0 as int,
            rows[i].date.1 as int,
            rows[i].date.2 as int,
        )
}

/// A listed entry shows the row's fields, its date as `%Y-%m-%d`.
pub open spec fn lists_row(e: RecentEntry, row: EntryRow) -> bool {
    &&& e.id@ == row.id@
    &&& e.date@ == iso_text(row.date.0 as int, row.date.1 as int, row.date.2 as int)
    &&& e.reference == row.reference
    &&& e.description@ == row.description@
    &&& e.status@ == row.status@
}

proof fn lemma_sum_none_extends(s: Seq<(int, nat)>, k: int)
    requires
        0 <= k <= s.len(),
        amounts_total(s.take(k)) is None,
    ensures
        amounts_total(s) is None,
    decreases s.len() - k,
{
    if k < s.len() {
        assert(s.take(k + 1).drop_last() =~= s.take(k));
        lemma_sum_none_extends(s, k + 1);
    } else {
        assert(s.take(k) =~= s);
    }
}

proof fn lemma_balance_none_extends(lines: Seq<(Amount, Amount)>, k: int)
    requires
        0 <= k <= lines.len(),
        running_balance(lines.take(k)) is None,
    ensures
        running_balance(lines) is None,
    decreases lines.len() - k,
{
    if k < lines.len() {
        assert(lines.take(k + 1).drop_last() =~= lines.take(k));
        lemma_balance_none_extends(lines, k + 1);
    } else {
        assert(lines.take(k) =~= lines);
    }
}

impl DashboardService {
    /// The first day of the month of `today`.
    pub fn month_start(today: (i32, u32, u32)) -> (r: (i32, u32, u32))
        requires
            valid_date(today.0 as int, today.1 as int, today.2 as int),
        ensures
            r == (today.0, today.1, 1u32),
            valid_date(r.0 as int, r.1 as int, r.2 as int),
    {
        (today.0, today.1, 1)
    }

    /// The sum, from zero up, of the debits (`sum_debits` set) or the
    /// credits of the lines; `None` where an addition overflows.
    pub fn sum_by_account_range(lines: &Vec<(Amount, Amount)>, sum_debits: bool) -> (r: Option<
        Amount,
    >)
        requires
            lines_wf(lines@),
        ensures
            match amounts_total(column(lines@, sum_debits)) {
                Some(t) => r matches Some(a) && a@ == t && a.wf(),
                None => r is None,
            },
    {
        let ghost col = column(lines@, sum_debits);
        let mut total = Amount::zero();
        let mut i: usize = 0;
        while i < lines.len()
            invariant
                i <= lines.len(),
                lines_wf(lines@),
                col == column(lines@, sum_debits),
                amounts_total(col.take(i as int)) == Some(total@),
                total.wf(),
            decreases lines.len() - i,
        {
            assert(col.take(i + 1).drop_last() =~= col.take(i as int));
            let (d, c) = lines[i];
            assert(lines@[i as int] == (d, c));
            let x = if sum_debits {
                d
            } else {
                c
            };
            match total.checked_add(x) {
                Some(t) => total = t,
                None => {
                    proof {
                        lemma_sum_none_extends(col, i as int + 1);
                    }
                    return None;
                },
            }
            i += 1;
        }
        assert(col.take(lines.len() as int) =~= col);
        Some(total)
    }

    /// The balance of the lines: each debit added and each credit
    /// subtracted, from zero, in order; `None` where an operation
    /// overflows.
    pub fn cash_balance(lines: &Vec<(Amount, Amount)>) -> (r: Option<Amount>)
        requires
            lines_wf(lines@),
        ensures
            match running_balance(lines@) {
                Some(b) => r matches Some(a) && a@ == b && a.wf(),
                None => r is None,
            },
    {
        let mut balance = Amount::zero();
        let mut i: usize = 0;
        while i < lines.len()
            invariant
                i <= lines.len(),
                lines_wf(lines@),
                running_balance(lines@.take(i as int)) == Some(balance@),
                balance.wf(),
            decreases lines.len() - i,
        {
            assert(lines@.take(i + 1).drop_last() =~= lines@.take(i as int));
            let (d, c) = lines[i];
            assert(lines@[i as int] == (d, c));
            let x = match balance.checked_add(d) {
                Some(x) => x,
                None => {
                    proof {
                        lemma_balance_none_extends(lines@, i as int + 1);
                    }
                    return None;
                },
            };
            match x.checked_sub(c) {
                Some(b) => balance = b,
                None => {
                    proof {
                        lemma_balance_none_extends(lines@, i as int + 1);
                    }
                    return None;
                },
            }
            i += 1;
        }
        assert(lines@.take(lines.len() as int) =~= lines@);
        Some(balance)
    }

    /// The sum, from zero up, of the amounts; `None` where an addition
    /// overflows.
    pub fn total_outstanding(totals: &Vec<Amount>) -> (r: Option<Amount>)
        requires
            forall|i: int| 0 <= i < totals@.len() ==> (#[trigger] totals@[i]).wf(),
        ensures
            match amounts_total(totals@.map_values(|a: Amount| a@)) {
                Some(t) => r matches Some(a) && a@ == t && a.wf(),
                None => r is None,
            },
    {
        let ghost s = totals@.map_values(|a: Amount| a@);
        let mut total = Amount::zero();
        let mut i: usize = 0;
        while i < totals.len()
            invariant
                i <= totals.len(),
                s == totals@.map_values(|a: Amount| a@),
                forall|j: int| 0 <= j < totals@.len() ==> (#[trigger] totals@[j]).wf(),
                amounts_total(s.take(i as int)) == Some(total@),
                total.wf(),
            decreases totals.len() - i,
        {
            assert(s.take(i + 1).drop_last() =~= s.take(i as int));
            match total.checked_add(totals[i]) {
                Some(t) => total = t,
                None => {
                    proof {
                        lemma_sum_none_extends(s, i as int + 1);
                    }
                    return None;
                },
            }
            i += 1;
        }
        assert(s.take(totals.len() as int) =~= s);
        Some(total)
    }

    /// The latest entries as listed: each row with its date as text.
    pub fn recent_entries(rows: Vec<EntryRow>) -> (r: Vec<RecentEntry>)
        requires
            entry_rows_valid(rows@),
        ensures
            r@.len() == rows@.len(),
            forall|i: int| 0 <= i < rows@.len() ==> lists_row(#[trigger] r@[i], rows@[i]),
    {
        let mut out: Vec<RecentEntry> = Vec::new();
        let mut i: usize = 0;
        while i < rows.len()
            invariant
                i <= rows.len(),
                entry_rows_valid(rows@),
                out@.len() == i,
                forall|k: int| 0 <= k < i ==> lists_row(#[trigger] out@[k], rows@[k]),
            decreases rows.len() - i,
        {
            let row = &rows[i];
            assert(valid_date(row.date.0 as int, row.date.1 as int, row.date.2 as int));
            let e = RecentEntry {
                id: row.id.clone(),
                date: iso_date(row.date),
                reference: row.reference.clone(),
                description: row.description.clone(),
                status: row.status.clone(),
            };
            out.push(e);
            i += 1;
        }
        out
    }

    /// The key figures from what the dashboard reads: the counts as they
    /// are, revenue (credits) and expenses (debits) of the month's posted
    /// lines, the cash balance of the cash accounts' lines, the sum of the
    /// open invoices' totals, and the latest entries. `None` where a sum
    /// overflows.
    pub fn get_stats(
        account_count: u64,
        active_contacts: u64,
        journal_entry_count: u64,
        active_projects: u64,
        revenue_lines: &Vec<(Amount, Amount)>,
        expense_lines: &Vec<(Amount, Amount)>,
        cash_lines: &Vec<(Amount, Amount)>,
        open_invoices_count: u64,
        open_invoice_totals: &Vec<Amount>,
        recent: Vec<EntryRow>,
    ) -> (r: Option<DashboardStats>)
        requires
            lines_wf(revenue_lines@),
            lines_wf(expense_lines@),
            lines_wf(cash_lines@),
            forall|i: int| 0 <= i < open_invoice_totals@.len() ==> (#[trigger] open_invoice_totals@[i]).wf(),
            entry_rows_valid(recent@),
        ensures
            match (
                amounts_total(column(revenue_lines@, false)),
                amounts_total(column(expense_lines@, true)),
                running_balance(cash_lines@),
                amounts_total(open_invoice_totals@.map_values(|a: Amount| a@)),
            ) {
                (Some(rev), Some(exp), Some(cash), Some(out)) => r matches Some(s) && s.account_count
                    == account_count && s.active_contacts == active_contacts
                    && s.journal_entry_count == journal_entry_count && s.active_projects
                    == active_projects && s.revenue_mtd@ == rev && s.expenses_mtd@ == exp
                    && s.cash_balance@ == cash && s.open_invoices_count == open_invoices_count
                    && s.total_outstanding@ == out && s.recent_entries@.len() == recent@.len() && (
                forall|i: int|
                    0 <= i < recent@.len() ==> lists_row(
                        #[trigger] s.recent_entries@[i],
                        recent@[i],
                    )),
                _ => r is None,
            },
    {
        let revenue_mtd = match Self::sum_by_account_range(revenue_lines, false) {
            Some(x) => x,
            None => return None,
        };
        let expenses_mtd = match Self::sum_by_account_range(expense_lines, true) {
            Some(x) => x,
            None => return None,
        };
        let cash_balance = match Self::cash_balance(cash_lines) {
            Some(x) => x,
            None => return None,
        };
        let total_outstanding = match Self::total_outstanding(open_invoice_totals) {
            Some(x) => x,
            None => return None,
        };
        let recent_entries = Self::recent_entries(recent);
        Some(
            DashboardStats {
                account_count,
                active_contacts,
                journal_entry_count,
                active_projects,
                revenue_mtd,
                expenses_mtd,
                cash_balance,
                open_invoices_count,
                total_outstanding,
                recent_entries,
            },
        )
    }
}

} // verus!
