//! Bank reconciliation: which open invoice an incoming bank transaction
//! pays, the checks before matching a transaction, and the booking of an
//! unmatched one.
use vstd::prelude::*;

use crate::amount::{value, Amount};
use crate::cash_flow::abs_dec;
use crate::error::{AppError, ErrorKind};
use crate::journal_service::JournalLineInput;
use crate::text::{chars_of, str_eq};

verus! {

/// The bank reconciliation service: the decisions of automatic and manual
/// matching.
pub struct BankReconciliationService;

/// The outcome of an automatic matching run.
pub struct AutoMatchResult {
    pub matched_count: u64,
    pub unmatched_count: u64,
}

/// What a transaction is matched with by hand.
#[derive(Clone, Copy, Debug, PartialEq, Eq, Structural)]
pub enum MatchTarget {
    Invoice,
    Expense,
}

/// An open invoice as matching reads it: the creditor reference of its
/// number (`None` for an invoice without a number) and its total.
pub struct OpenInvoice {
    pub creditor_reference: Option<String>,
    pub total: Amount,
}

/// `str::contains`: `needle` occurs somewhere in `hay`.
pub open spec fn contains(hay: Seq<char>, needle: Seq<char>) -> bool {
    exists|i: int|
        0 <= i && i + needle.len() <= hay.len() && #[trigger] hay.subrange(i, i + needle.len())
            == needle
}

/// Whether an invoice's reference matches a transaction's: equal, or
/// contained in it.
pub open spec fn reference_matches(reference: Seq<char>, inv: OpenInvoice) -> bool {
    match inv.creditor_reference {
        Some(scor) => reference == scor@ || contains(reference, scor@),
        None => false,
    }
}

/// The first invoice, from `k` on, whose creditor reference matches.
pub open spec fn first_by_reference(invoices: Seq<OpenInvoice>, reference: Seq<char>, k: int) -> Option<
    int,
>
    decreases invoices.len() - k,
{
    if k < 0 || k >= invoices.len() {
        None
    } else if reference_matches(reference, invoices[k]) {
        Some(k)
    } else {
        first_by_reference(invoices, reference, k + 1)
    }
}

/// The first invoice, from `k` on, whose total equals the amount.
pub open spec fn first_by_amount(invoices: Seq<OpenInvoice>, amount: (int, nat), k: int) -> Option<int>
    decreases invoices.len() - k,
{
    if k < 0 || k >= invoices.len() {
        None
    } else if value(invoices[k].total@) == value(amount) {
        Some(k)
    } else {
        first_by_amount(invoices, amount, k + 1)
    }
}

fn contains_at(h: &Vec<char>, n: &Vec<char>, i: usize) -> (b: bool)
    requires
        i + n.len() <= h.len(),
    ensures
        b == (h@.subrange(i as int, i + n.len()) == n@),
{
    let mut j: usize = 0;
    while j < n.len()
        invariant
            i + n.len() <= h.len(),
            j <= n.len(),
            forall|k: int| 0 <= k < j ==> h@[i + k] == n@[k],
        decreases n.len() - j,
    {
        if h[i + j] != n[j] {
            assert(h@.subrange(i as int, i + n.len())[j as int] != n@[j as int]);
            return false;
        }
        j = j + 1;
    }
    assert(h@.subrange(i as int, i + n.len()) =~= n@);
    true
}

/// Whether `needle` occurs in `hay`.
pub fn str_contains(hay: &str, needle: &str) -> (b: bool)
    ensures
        b == contains(hay@, needle@),
{
    let h = chars_of(hay);
    let n = chars_of(needle);
    if n.len() > h.len() {
        return false;
    }
    let last = h.len() - n.len();
    let mut i: usize = 0;
    loop
        invariant
            n.len() <= h.len(),
            last == h.len() - n.len(),
            h@ == hay@,
            n@ == needle@,
            i <= last,
            forall|k: int| 0 <= k < i ==> #[trigger] h@.subrange(k, k + n.len()) != n@,
        ensures
            forall|k: int| 0 <= k <= last ==> #[trigger] h@.subrange(k, k + n.len()) != n@,
        decreases last - i,
    {
        if contains_at(&h, &n, i) {
            return true;
        }
        if i == last {
            break;
        }
        i = i + 1;
    }
    assert forall|k: int|
        0 <= k && k + needle@.len() <= hay@.len() implies #[trigger] hay@.subrange(
        k,
        k + needle@.len(),
    ) != needle@ by {
        assert(k <= last);
    }
    false
}

impl BankReconciliationService {
    /// The invoices an incoming transaction may pay, in the order in which
    /// they are tried: the first whose creditor reference matches the
    /// transaction's reference, then the first whose total equals the
    /// amount. An outgoing transaction (amount not positive) matches none.
    pub fn match_candidates(
        amount: Amount,
        reference: Option<&str>,
        invoices: &Vec<OpenInvoice>,
    ) -> (r: (Option<usize>, Option<usize>))
        requires
            amount.wf(),
            forall|i: int| 0 <= i < invoices.len() ==> (#[trigger] invoices[i]).total.wf(),
        ensures
            value(amount@) <= 0 ==> r == (None::<usize>, None::<usize>),
            value(amount@) > 0 ==> match reference {
                Some(rf) => match first_by_reference(invoices@, rf@, 0) {
                    Some(i) => r.0 == Some(i as usize),
                    None => r.0 is None,
                },
                None => r.0 is None,
            },
            value(amount@) > 0 ==> match first_by_amount(invoices@, amount@, 0) {
                Some(i) => r.1 == Some(i as usize),
                None => r.1 is None,
            },
    {
        if !Amount::zero().lt(amount) {
            return (None, None);
        }
        let by_ref = match reference {
            Some(rf) => Self::find_by_reference(invoices, rf),
            None => None,
        };
        (by_ref, Self::find_by_amount(invoices, amount))
    }

    fn find_by_reference(invoices: &Vec<OpenInvoice>, rf: &str) -> (r: Option<usize>)
        ensures
            match first_by_reference(invoices@, rf@, 0) {
                Some(i) => r == Some(i as usize),
                None => r is None,
            },
    {
        let mut i: usize = 0;
        while i < invoices.len()
            invariant
                i <= invoices.len(),
                first_by_reference(invoices@, rf@, 0) == first_by_reference(invoices@, rf@, i as int),
            decreases invoices.len() - i,
        {
            let hit = match &invoices[i].creditor_reference {
                Some(scor) => str_eq(rf, scor.as_str()) || str_contains(rf, scor.as_str()),
                None => false,
            };
            if hit {
                return Some(i);
            }
            i = i + 1;
        }
        None
    }

    fn find_by_amount(invoices: &Vec<OpenInvoice>, amount: Amount) -> (r: Option<usize>)
        requires
            amount.wf(),
            forall|i: int| 0 <= i < invoices.len() ==> (#[trigger] invoices[i]).total.wf(),
        ensures
            match first_by_amount(invoices@, amount@, 0) {
                Some(i) => r == Some(i as usize),
                None => r is None,
            },
    {
        let mut j: usize = 0;
        while j < invoices.len()
            invariant
                j <= invoices.len(),
                amount.wf(),
                forall|i: int| 0 <= i < invoices.len() ==> (#[trigger] invoices[i]).total.wf(),
                first_by_amount(invoices@, amount@, 0) == first_by_amount(invoices@, amount@, j as int),
            decreases invoices.len() - j,
        {
            assert(invoices[j as int].total.wf());
            if invoices[j].total.eq(amount) {
                return Some(j);
            }
            j = j + 1;
        }
        None
    }

    /// Only unmatched transactions may be matched, booked or ignored.
    pub fn check_unmatched(status: &str) -> (r: Result<(), AppError>)
        ensures
            status@ == "unmatched"@ ==> r is Ok,
            status@ != "unmatched"@ ==> (r matches Err(e) && e.kind_and_message() == (
                ErrorKind::Validation,
                "Transaction is already matched or ignored"@,
            )),
    {
        if str_eq(status, "unmatched") {
            Ok(())
        } else {
            Err(AppError::Validation("Transaction is already matched or ignored".to_owned()))
        }
    }

    /// The ledger account of the bank account, which payments are booked
    /// to; a bank account without one cannot be matched against.
    pub fn payment_account(account_id: Option<String>) -> (r: Result<String, AppError>)
        ensures
            match account_id {
                Some(a) => r matches Ok(s) && s@ == a@,
                None => r matches Err(e) && e.kind_and_message() == (
                    ErrorKind::Validation,
                    "Bank account has no linked ledger account"@,
                ),
            },
    {
        match account_id {
            Some(a) => Ok(a),
            None => Err(AppError::Validation("Bank account has no linked ledger account".to_owned())),
        }
    }

    /// The kind of document a manual match targets.
    pub fn parse_target(target_type: &str) -> (r: Result<MatchTarget, AppError>)
        ensures
            target_type@ == "invoice"@ ==> r == Ok::<MatchTarget, AppError>(MatchTarget::Invoice),
            target_type@ == "expense"@ ==> r == Ok::<MatchTarget, AppError>(MatchTarget::Expense),
            target_type@ != "invoice"@ && target_type@ != "expense"@ ==> (r matches Err(e)
                && e.kind_and_message() == (
                ErrorKind::Validation,
                "target_type must be 'invoice' or 'expense'"@,
            )),
    {
        proof {
            reveal_strlit("invoice");
            reveal_strlit("expense");
            assert("expense"@[0] != "invoice"@[0]);
        }
        if str_eq(target_type, "invoice") {
            Ok(MatchTarget::Invoice)
        } else if str_eq(target_type, "expense") {
            Ok(MatchTarget::Expense)
        } else {
            Err(AppError::Validation("target_type must be 'invoice' or 'expense'".to_owned()))
        }
    }

    /// The lines that book an unmatched transaction: its amount, without
    /// sign, debited to one account and credited to the other, both
    /// described by the transaction's description.
    pub fn booking_lines(
        amount: Amount,
        description: &str,
        debit_account_id: &str,
        credit_account_id: &str,
    ) -> (r: Vec<JournalLineInput>)
        requires
            amount.wf(),
        ensures
            r@.len() == 2,
            r@[0]@ == (
                debit_account_id@,
                abs_dec(amount@),
                (0int, 0nat),
                Some(description@),
                None::<Seq<char>>,
            ),
            r@[1]@ == (
                credit_account_id@,
                (0int, 0nat),
                abs_dec(amount@),
                Some(description@),
                None::<Seq<char>>,
            ),
    {
        let a = amount.abs();
        let mut v: Vec<JournalLineInput> = Vec::new();
        v.push(
            JournalLineInput {
                account_id: debit_account_id.to_owned(),
                debit_amount: a,
                credit_amount: Amount::zero(),
                description: Some(description.to_owned()),
                vat_rate_id: None,
            },
        );
        v.push(
            JournalLineInput {
                account_id: credit_account_id.to_owned(),
                debit_amount: Amount::zero(),
                credit_amount: a,
                description: Some(description.to_owned()),
                vat_rate_id: None,
            },
        );
        v
    }

    /// The description of the entry that books a transaction.
    pub fn booking_description(description: &str) -> (r: String)
        ensures
            r@ == "Bank: "@ + description@,
    {
        let mut out = "Bank: ".to_owned();
        out.append(description);
        out
    }
}

impl AutoMatchResult {
    /// The outcome of a run over `total` transactions of which `matched`
    /// were matched.
    pub fn tally(total: usize, matched: u64) -> (r: AutoMatchResult)
        requires
            matched <= total,
        ensures
            r.matched_count == matched,
            r.unmatched_count == total - matched,
            r.matched_count + r.unmatched_count == total,
    {
        AutoMatchResult { matched_count: matched, unmatched_count: total as u64 - matched }
    }
}

} // verus!
