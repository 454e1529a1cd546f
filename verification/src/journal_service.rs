//! Journal entries: the rules an entry's lines must meet, reversal of a
//! posted entry, and the fiscal-year check on a posting date.
use vstd::prelude::*;

use crate::amount::{dec_checked_add, dec_text, value, Amount};
use crate::error::{AppError, ErrorKind};
use crate::numeric::{nat_digits, push_digits};
use crate::text::{chars_of, push_str, string_of};

verus! {

/// The journal service: the decisions behind creating, posting and
/// reversing journal entries.
pub struct JournalService;

/// One line of a journal entry to be created.
pub struct JournalLineInput {
    pub account_id: String,
    pub debit_amount: Amount,
    pub credit_amount: Amount,
    pub description: Option<String>,
    pub vat_rate_id: Option<String>,
}

/// A line as the contracts see it: account, debit, credit, description,
/// VAT rate.
pub type LineView = (Seq<char>, (int, nat), (int, nat), Option<Seq<char>>, Option<Seq<char>>);

pub open spec fn opt_seq(o: Option<String>) -> Option<Seq<char>> {
    match o {
        Some(s) => Some(s@),
        None => None,
    }
}

impl View for JournalLineInput {
    type V = LineView;

    open spec fn view(&self) -> LineView {
        (
            self.account_id@,
            self.debit_amount@,
            self.credit_amount@,
            opt_seq(self.description),
            opt_seq(self.vat_rate_id),
        )
    }
}

/// Every amount of the lines is a valid decimal.
pub open spec fn lines_wf(lines: Seq<JournalLineInput>) -> bool {
    forall|i: int|
        0 <= i < lines.len() ==> (#[trigger] lines[i]).debit_amount.wf()
            && lines[i].credit_amount.wf()
}

/// The views of the lines.
pub open spec fn views(lines: Seq<JournalLineInput>) -> Seq<LineView> {
    lines.map_values(|l: JournalLineInput| l@)
}

/// The sum of one column (`debit` true: debits) over the lines, as
/// `Decimal` addition gives it from zero up; `None` where an addition
/// overflows.
pub open spec fn column_total(lines: Seq<LineView>, debit: bool) -> Option<(int, nat)>
    decreases lines.len(),
{
    if lines.len() == 0 {
        Some((0int, 0nat))
    } else {
        match column_total(lines.drop_last(), debit) {
            Some(t) => dec_checked_add(
                t,
                if debit {
                    lines.last().1
                } else {
                    lines.last().2
                },
            ),
            None => None,
        }
    }
}

/// The first line, from `i` on, that has neither a debit nor a credit
/// (`true`) or a negative amount (`false`).
pub open spec fn first_bad_line(lines: Seq<LineView>, i: int) -> Option<(int, bool)>
    decreases lines.len() - i,
{
    if i < 0 || i >= lines.len() {
        None
    } else if value(lines[i].1) == 0 && value(lines[i].2) == 0 {
        Some((i, true))
    } else if value(lines[i].1) < 0 || value(lines[i].2) < 0 {
        Some((i, false))
    } else {
        first_bad_line(lines, i + 1)
    }
}

/// The message for an entry whose debits and credits differ.
pub open spec fn unbalanced_message(d: (int, nat), c: (int, nat)) -> Seq<char> {
    "Debits ("@ + dec_text(d) + ") must equal credits ("@ + dec_text(c) + ")"@
}

/// The message for a bad line (numbered from one).
pub open spec fn bad_line_message(i: int, zero: bool) -> Seq<char> {
    "Line "@ + nat_digits((i + 1) as nat) + if zero {
        ": debit or credit amount must be non-zero"@
    } else {
        ": amounts cannot be negative"@
    }
}

/// What checking the lines of a new entry gives: `None` where summing a
/// column overflows; else the first rule broken, in the order: debits equal
/// credits, at least one line, each line non-zero and not negative.
pub open spec fn lines_verdict(lines: Seq<LineView>) -> Option<Result<(), Seq<char>>> {
    match (column_total(lines, true), column_total(lines, false)) {
        (Some(d), Some(c)) => Some(
            if value(d) != value(c) {
                Err(unbalanced_message(d, c))
            } else if lines.len() == 0 {
                Err("At least one journal line is required"@)
            } else {
                match first_bad_line(lines, 0) {
                    Some((i, zero)) => Err(bad_line_message(i, zero)),
                    None => Ok(()),
                }
            },
        ),
        _ => None,
    }
}

/// A line with debit and credit swapped.
pub open spec fn swapped(l: LineView) -> LineView {
    (l.0, l.2, l.1, l.3, l.4)
}

/// The line text "Line {n}" with the 1-based number of line `i`.
fn line_message(i: usize, rest: &str) -> (r: String)
    requires
        i < usize::MAX,
    ensures
        r@ == "Line "@ + nat_digits((i + 1) as nat) + rest@,
{
    let mut out: Vec<char> = Vec::new();
    push_str(&mut out, "Line ");
    push_digits(&mut out, (i + 1) as u64);
    push_str(&mut out, rest);
    proof {
        reveal_strlit("Line ");
    }
    string_of(&out)
}

impl JournalService {
    /// Sums one column of the lines with checked additions.
    fn column_sum(lines: &Vec<JournalLineInput>, debit: bool) -> (r: Option<Amount>)
        requires
            lines_wf(lines@),
        ensures
            match r {
                Some(a) => column_total(views(lines@), debit) == Some(a@) && a.wf(),
                None => column_total(views(lines@), debit) is None,
            },
    {
        let mut total = Amount::zero();
        let mut i: usize = 0;
        while i < lines.len()
            invariant
                i <= lines.len(),
                lines_wf(lines@),
                total.wf(),
                column_total(views(lines@).take(i as int), debit) == Some(total@),
            decreases lines.len() - i,
        {
            let amount = if debit {
                lines[i].debit_amount
            } else {
                lines[i].credit_amount
            };
            assert(lines[i as int].debit_amount.wf() && lines[i as int].credit_amount.wf());
            assert(views(lines@).take(i + 1).drop_last() =~= views(lines@).take(i as int));
            assert(views(lines@).take(i + 1).last() == lines[i as int]@);
            match total.checked_add(amount) {
                Some(t) => {
                    total = t;
                },
                None => {
                    proof {
                        lemma_total_none_extends(views(lines@), debit, i as int + 1);
                        assert(views(lines@).take(lines.len() as int) =~= views(lines@));
                    }
                    return None;
                },
            }
            i = i + 1;
        }
        assert(views(lines@).take(lines.len() as int) =~= views(lines@));
        Some(total)
    }

    /// Checks the lines of a new journal entry: debits must equal credits,
    /// there must be at least one line, and each line must have a debit or a
    /// credit and no negative amount. `None` where a column's sum overflows
    /// (where `Decimal` addition panics).
    pub fn validate_lines(lines: &Vec<JournalLineInput>) -> (r: Option<Result<(), AppError>>)
        requires
            lines_wf(lines@),
        ensures
            match lines_verdict(views(lines@)) {
                None => r is None,
                Some(Ok(())) => r == Some(Ok::<(), AppError>(())),
                Some(Err(m)) => r matches Some(Err(e)) && e.kind_and_message() == (
                    ErrorKind::Validation,
                    m,
                ),
            },
    {
        let d = match Self::column_sum(lines, true) {
            Some(d) => d,
            None => return None,
        };
        let c = match Self::column_sum(lines, false) {
            Some(c) => c,
            None => return None,
        };
        if !d.eq(c) {
            let mut out: Vec<char> = Vec::new();
            push_str(&mut out, "Debits (");
            let dt = chars_of(d.to_text().as_str());
            crate::text::push_all(&mut out, &dt);
            push_str(&mut out, ") must equal credits (");
            let ct = chars_of(c.to_text().as_str());
            crate::text::push_all(&mut out, &ct);
            push_str(&mut out, ")");
            proof {
                reveal_strlit("Debits (");
                reveal_strlit(") must equal credits (");
                reveal_strlit(")");
            }
            return Some(Err(AppError::Validation(string_of(&out))));
        }
        if lines.len() == 0 {
            return Some(Err(AppError::Validation("At least one journal line is required".to_owned())));
        }
        let zero = Amount::zero();
        let mut i: usize = 0;
        while i < lines.len()
            invariant
                i <= lines.len(),
                lines.len() > 0,
                lines_wf(lines@),
                zero@ == (0int, 0nat),
                column_total(views(lines@), true) == Some(d@),
                column_total(views(lines@), false) == Some(c@),
                value(d@) == value(c@),
                first_bad_line(views(lines@), 0) == first_bad_line(views(lines@), i as int),
            decreases lines.len() - i,
        {
            assert(lines[i as int].debit_amount.wf() && lines[i as int].credit_amount.wf());
            assert(views(lines@)[i as int] == lines[i as int]@);
            let dz = lines[i].debit_amount.eq(zero);
            let cz = lines[i].credit_amount.eq(zero);
            if dz && cz {
                return Some(
                    Err(
                        AppError::Validation(
                            line_message(i, ": debit or credit amount must be non-zero"),
                        ),
                    ),
                );
            }
            if lines[i].debit_amount.lt(zero) || lines[i].credit_amount.lt(zero) {
                return Some(Err(AppError::Validation(line_message(i, ": amounts cannot be negative"))));
            }
            i = i + 1;
        }
        Some(Ok(()))
    }

    /// The lines that reverse an entry: each line with debit and credit
    /// swapped, in the same order.
    pub fn reversal_lines(lines: &Vec<JournalLineInput>) -> (r: Vec<JournalLineInput>)
        ensures
            r.len() == lines.len(),
            forall|i: int| 0 <= i < lines.len() ==> #[trigger] r[i]@ == swapped(lines[i]@),
            lines_wf(lines@) ==> lines_wf(r@),
    {
        let mut out: Vec<JournalLineInput> = Vec::new();
        let mut i: usize = 0;
        while i < lines.len()
            invariant
                i <= lines.len(),
                out.len() == i,
                forall|j: int| 0 <= j < i ==> #[trigger] out[j]@ == swapped(lines[j]@),
                forall|j: int|
                    0 <= j < i ==> #[trigger] out[j].debit_amount == lines[j].credit_amount
                        && out[j].credit_amount == lines[j].debit_amount,
            decreases lines.len() - i,
        {
            let l = &lines[i];
            out.push(
                JournalLineInput {
                    account_id: l.account_id.clone(),
                    debit_amount: l.credit_amount,
                    credit_amount: l.debit_amount,
                    description: clone_opt(&l.description),
                    vat_rate_id: clone_opt(&l.vat_rate_id),
                },
            );
            i = i + 1;
        }
        out
    }

    /// The description of a reversal entry.
    pub fn reversal_description(description: &str) -> (r: String)
        ensures
            r@ == "Reversal of: "@ + description@,
    {
        let mut out = "Reversal of: ".to_owned();
        out.append(description);
        out
    }

    /// The reference of a reversal entry: `REV-` and the original's
    /// reference, or its id where it has none.
    pub fn reversal_reference(reference: Option<&str>, id: &str) -> (r: String)
        ensures
            r@ == "REV-"@ + match reference {
                Some(s) => s@,
                None => id@,
            },
    {
        let mut out = "REV-".to_owned();
        match reference {
            Some(s) => out.append(s),
            None => out.append(id),
        }
        out
    }

    /// Whether an entry with this status may be posted: only drafts.
    pub fn check_postable(status: &str) -> (r: Result<(), AppError>)
        ensures
            status@ == "draft"@ ==> r is Ok,
            status@ != "draft"@ ==> (r matches Err(e) && e.kind_and_message() == (
                ErrorKind::Validation,
                "Cannot post entry with status '"@ + status@ + "'"@,
            )),
    {
        if crate::text::str_eq(status, "draft") {
            Ok(())
        } else {
            let mut out = "Cannot post entry with status '".to_owned();
            out.append(status);
            out.append("'");
            Err(AppError::Validation(out))
        }
    }

    /// Whether an entry with this status may be reversed: only posted ones.
    pub fn check_reversible(status: &str) -> (r: Result<(), AppError>)
        ensures
            status@ == "posted"@ ==> r is Ok,
            status@ != "posted"@ ==> (r matches Err(e) && e.kind_and_message() == (
                ErrorKind::Validation,
                "Cannot reverse entry with status '"@ + status@ + "'"@,
            )),
    {
        if crate::text::str_eq(status, "posted") {
            Ok(())
        } else {
            let mut out = "Cannot reverse entry with status '".to_owned();
            out.append(status);
            out.append("'");
            Err(AppError::Validation(out))
        }
    }
}

fn clone_opt(o: &Option<String>) -> (r: Option<String>)
    ensures
        opt_seq(r) == opt_seq(*o),
{
    match o {
        Some(s) => Some(s.clone()),
        None => None,
    }
}

/// Once a column's running sum has overflowed, the sum over any longer
/// prefix is undefined too.
proof fn lemma_total_none_extends(lines: Seq<LineView>, debit: bool, k: int)
    requires
        0 <= k <= lines.len(),
        column_total(lines.take(k), debit) is None,
    ensures
        column_total(lines, debit) is None,
    decreases lines.len() - k,
{
    if k < lines.len() {
        assert(lines.take(k + 1).drop_last() =~= lines.take(k));
        lemma_total_none_extends(lines, debit, k + 1);
    } else {
        assert(lines.take(k) =~= lines);
    }
}

/// A posted entry balances: where the lines of a new entry are accepted,
/// its debits and credits have the same total.
pub proof fn lemma_accepted_entry_balances(lines: Seq<LineView>)
    requires
        lines_verdict(lines) == Some(Ok::<(), Seq<char>>(())),
    ensures
        column_total(lines, true) matches Some(d) && column_total(lines, false) matches Some(c)
            && value(d) == value(c),
        lines.len() > 0,
{
}

/// Reversing the lines twice gives the lines back.
pub proof fn lemma_reversal_involutive(l: LineView)
    ensures
        swapped(swapped(l)) == l,
{
}

/// Swapping debit and credit of every line swaps the column totals: the
/// debits of a reversal add up as the credits of the original, and the
/// other way round.
pub proof fn lemma_reversal_swaps_totals(lines: Seq<LineView>)
    ensures
        column_total(lines.map_values(|l: LineView| swapped(l)), true) == column_total(lines, false),
        column_total(lines.map_values(|l: LineView| swapped(l)), false) == column_total(lines, true),
    decreases lines.len(),
{
    let r = lines.map_values(|l: LineView| swapped(l));
    if lines.len() > 0 {
        lemma_reversal_swaps_totals(lines.drop_last());
        assert(r.drop_last() =~= lines.drop_last().map_values(|l: LineView| swapped(l)));
    }
}

/// A reversal of an entry whose debits equal its credits has equal debits
/// and credits too.
pub proof fn lemma_reversal_balances(lines: Seq<LineView>)
    requires
        column_total(lines, true) matches Some(d) && column_total(lines, false) matches Some(c)
            && value(d) == value(c),
    ensures
        column_total(lines.map_values(|l: LineView| swapped(l)), true) matches Some(d2)
            && column_total(lines.map_values(|l: LineView| swapped(l)), false) matches Some(c2)
            && value(d2) == value(c2),
{
    lemma_reversal_swaps_totals(lines);
}

} // verus!
