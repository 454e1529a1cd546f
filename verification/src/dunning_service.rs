//! Dunning: which reminder level applies to an overdue invoice, the fee
//! booked with it, the text of the reminder, and the tally of a run.
use vstd::prelude::*;

use crate::amount::Amount;
use crate::error::{AppError, ErrorKind};
use crate::journal_service::JournalLineInput;
use crate::numeric::{int_text, push_i64};
use crate::templates::{replace, replace_spec};
use crate::text::{push_str, string_of};

verus! {

/// The reminder text with the invoice's details filled in.
pub open spec fn reminder_text(
    template: Seq<char>,
    company_name: Seq<char>,
    contact_name: Seq<char>,
    invoice_number: Seq<char>,
    amount: Seq<char>,
    due_date: Seq<char>,
) -> Seq<char> {
    replace_spec(
        replace_spec(
            replace_spec(
                replace_spec(
                    replace_spec(template, "{{company_name}}"@, company_name),
                    "{{contact_name}}"@,
                    contact_name,
                ),
                "{{invoice_number}}"@,
                invoice_number,
            ),
            "{{amount}}"@,
            amount,
        ),
        "{{due_date}}"@,
        due_date,
    )
}

/// Fills the placeholders of a dunning reminder template, one after the
/// other: company name, contact name, invoice number, amount, due date.
pub fn render_template(
    template: &str,
    company_name: &str,
    contact_name: &str,
    invoice_number: &str,
    amount: &str,
    due_date: &str,
) -> (r: String)
    ensures
        r@ == reminder_text(
            template@,
            company_name@,
            contact_name@,
            invoice_number@,
            amount@,
            due_date@,
        ),
{
    proof {
        reveal_strlit("{{company_name}}");
        reveal_strlit("{{contact_name}}");
        reveal_strlit("{{invoice_number}}");
        reveal_strlit("{{amount}}");
        reveal_strlit("{{due_date}}");
    }
    let a = replace(template, "{{company_name}}", company_name);
    let b = replace(a.as_str(), "{{contact_name}}", contact_name);
    let c = replace(b.as_str(), "{{invoice_number}}", invoice_number);
    let d = replace(c.as_str(), "{{amount}}", amount);
    replace(d.as_str(), "{{due_date}}", due_date)
}

/// The dunning service: the decisions of manual reminders and of automated
/// dunning runs.
pub struct DunningService;

/// A dunning level as a run reads it.
pub struct DunningLevelInfo {
    pub id: String,
    pub level: i32,
    pub days_after_due: i32,
    pub fee_amount: Amount,
}

/// The outcome of a dunning run: how many reminders were recorded, and the
/// errors met on the way.
pub struct DunningRunResult {
    pub reminders_sent: u32,
    pub errors: Vec<String>,
}

/// The last level, among the first `k`, whose delay has passed.
pub open spec fn last_applicable(levels: Seq<DunningLevelInfo>, k: int, days_overdue: int) -> Option<
    int,
>
    decreases k,
{
    if k <= 0 {
        None
    } else if levels[k - 1].days_after_due as int <= days_overdue {
        Some(k - 1)
    } else {
        last_applicable(levels, k - 1, days_overdue)
    }
}

proof fn lemma_last_applicable_range(levels: Seq<DunningLevelInfo>, k: int, days_overdue: int)
    ensures
        last_applicable(levels, k, days_overdue) matches Some(i) ==> 0 <= i < k,
    decreases k,
{
    if k > 0 {
        lemma_last_applicable_range(levels, k - 1, days_overdue);
    }
}

/// The level a run applies to an invoice overdue by `days_overdue` days:
/// the last applicable one, unless the invoice's latest reminder was
/// already at that level.
pub open spec fn run_action(
    levels: Seq<DunningLevelInfo>,
    days_overdue: int,
    latest_level_id: Option<Seq<char>>,
) -> Option<int> {
    match last_applicable(levels, levels.len() as int, days_overdue) {
        Some(i) => if latest_level_id == Some(levels[i].id@) {
            None
        } else {
            Some(i)
        },
        None => None,
    }
}

/// The description of a dunning fee booking.
pub open spec fn fee_description_text(level: int, invoice_number: Option<Seq<char>>) -> Seq<char> {
    "Dunning fee L"@ + int_text(level) + " for "@ + match invoice_number {
        Some(n) => n,
        None => "?"@,
    }
}

impl DunningService {
    /// The last level in `levels` whose `days_after_due` has passed.
    pub fn applicable_level(levels: &Vec<DunningLevelInfo>, days_overdue: i64) -> (r: Option<usize>)
        ensures
            match last_applicable(levels@, levels.len() as int, days_overdue as int) {
                Some(i) => r == Some(i as usize),
                None => r is None,
            },
            r matches Some(i) ==> i < levels.len(),
    {
        proof {
            lemma_last_applicable_range(levels@, levels.len() as int, days_overdue as int);
        }
        let mut k: usize = levels.len();
        while k > 0
            invariant
                k <= levels.len(),
                last_applicable(levels@, levels.len() as int, days_overdue as int)
                    == last_applicable(levels@, k as int, days_overdue as int),
            decreases k,
        {
            if (levels[k - 1].days_after_due as i64) <= days_overdue {
                return Some(k - 1);
            }
            k = k - 1;
        }
        None
    }

    /// What a dunning run does with an invoice overdue by `days_overdue`
    /// days whose latest reminder was at `latest_level_id`: the index of the
    /// level to remind at, or `None` to leave it.
    pub fn run_action(
        levels: &Vec<DunningLevelInfo>,
        days_overdue: i64,
        latest_level_id: Option<&str>,
    ) -> (r: Option<usize>)
        ensures
            match run_action(
                levels@,
                days_overdue as int,
                match latest_level_id {
                    Some(s) => Some(s@),
                    None => None,
                },
            ) {
                Some(i) => r == Some(i as usize),
                None => r is None,
            },
    {
        let found = Self::applicable_level(levels, days_overdue);
        proof {
            lemma_last_applicable_range(levels@, levels.len() as int, days_overdue as int);
        }
        match found {
            Some(i) => match latest_level_id {
                Some(id) => if crate::text::str_eq(id, levels[i].id.as_str()) {
                    None
                } else {
                    Some(i)
                },
                None => Some(i),
            },
            None => None,
        }
    }

    /// Whether a level charges a fee: only a positive one.
    pub fn charges_fee(fee: Amount) -> (b: bool)
        requires
            fee.wf(),
        ensures
            b == (fee.value() > 0),
    {
        Amount::zero().lt(fee)
    }

    /// The description of the fee booking: "Dunning fee L{level} for
    /// {invoice number}", with `?` for an invoice without a number.
    pub fn fee_description(level: i32, invoice_number: Option<&str>) -> (r: String)
        ensures
            r@ == fee_description_text(
                level as int,
                match invoice_number {
                    Some(n) => Some(n@),
                    None => None,
                },
            ),
    {
        let mut out: Vec<char> = Vec::new();
        push_str(&mut out, "Dunning fee L");
        push_i64(&mut out, level as i64);
        push_str(&mut out, " for ");
        match invoice_number {
            Some(n) => push_str(&mut out, n),
            None => push_str(&mut out, "?"),
        }
        string_of(&out)
    }

    /// The two lines of a fee booking: the fee debited to the receivables
    /// account and credited to the fee income account.
    pub fn fee_journal_lines(
        receivables_account_id: &str,
        fee_account_id: &str,
        fee: Amount,
        description: &str,
    ) -> (r: Vec<JournalLineInput>)
        ensures
            r@.len() == 2,
            r@[0]@ == (
                receivables_account_id@,
                fee@,
                (0int, 0nat),
                Some(description@),
                None::<Seq<char>>,
            ),
            r@[1]@ == (fee_account_id@, (0int, 0nat), fee@, Some(description@), None::<Seq<char>>),
    {
        let mut v: Vec<JournalLineInput> = Vec::new();
        v.push(
            JournalLineInput {
                account_id: receivables_account_id.to_owned(),
                debit_amount: fee,
                credit_amount: Amount::zero(),
                description: Some(description.to_owned()),
                vat_rate_id: None,
            },
        );
        v.push(
            JournalLineInput {
                account_id: fee_account_id.to_owned(),
                debit_amount: Amount::zero(),
                credit_amount: fee,
                description: Some(description.to_owned()),
                vat_rate_id: None,
            },
        );
        v
    }

    /// The fee income account: the dunning fee account (8590) where there
    /// is one, else the general revenue account (8000).
    pub fn choose_fee_account(
        dunning_fee_account: Option<String>,
        revenue_account: Option<String>,
    ) -> (r: Result<String, AppError>)
        ensures
            match (dunning_fee_account, revenue_account) {
                (Some(a), _) => r matches Ok(s) && s@ == a@,
                (None, Some(b)) => r matches Ok(s) && s@ == b@,
                (None, None) => r matches Err(e) && e.kind_and_message() == (
                    ErrorKind::Internal,
                    "No fee income account found (8590 or 8000)"@,
                ),
            },
    {
        match dunning_fee_account {
            Some(a) => Ok(a),
            None => match revenue_account {
                Some(b) => Ok(b),
                None => Err(
                    AppError::Internal("No fee income account found (8590 or 8000)".to_owned()),
                ),
            },
        }
    }

    /// A reminder goes to the contact's email address; a contact without
    /// one, or with an empty one, is refused.
    pub fn reminder_address(email: Option<&str>) -> (r: Result<String, AppError>)
        ensures
            match email {
                Some(a) if a@.len() > 0 => r matches Ok(s) && s@ == a@,
                _ => r matches Err(e) && e.kind_and_message() == (
                    ErrorKind::BadRequest,
                    "Contact has no email address"@,
                ),
            },
    {
        match email {
            Some(a) => if a.unicode_len() > 0 {
                return Ok(a.to_owned());
            },
            None => {},
        }
        Err(AppError::BadRequest("Contact has no email address".to_owned()))
    }

    /// Reminders are sent only for invoices in the status "sent".
    pub fn check_reminder_status(status: &str) -> (r: Result<(), AppError>)
        ensures
            status@ == "sent"@ ==> r is Ok,
            status@ != "sent"@ ==> (r matches Err(e) && e.kind_and_message() == (
                ErrorKind::BadRequest,
                "Can only send reminders for sent (unpaid) invoices"@,
            )),
    {
        if crate::text::str_eq(status, "sent") {
            Ok(())
        } else {
            Err(
                AppError::BadRequest(
                    "Can only send reminders for sent (unpaid) invoices".to_owned(),
                ),
            )
        }
    }
}

impl DunningRunResult {
    /// A run that has done nothing yet.
    pub fn new() -> (r: DunningRunResult)
        ensures
            r.reminders_sent == 0,
            r.errors@.len() == 0,
    {
        DunningRunResult { reminders_sent: 0, errors: Vec::new() }
    }

    /// Counts one more reminder.
    pub fn record_sent(&mut self)
        requires
            old(self).reminders_sent < u32::MAX,
        ensures
            final(self).reminders_sent == old(self).reminders_sent + 1,
            final(self).errors@ == old(self).errors@,
    {
        self.reminders_sent = self.reminders_sent + 1;
    }

    /// Records the error met with one invoice: `{what} for {invoice id}:
    /// {detail}`.
    pub fn record_error(&mut self, what: &str, invoice_id: &str, detail: &str)
        ensures
            final(self).reminders_sent == old(self).reminders_sent,
            final(self).errors@.len() == old(self).errors@.len() + 1,
            final(self).errors@.take(old(self).errors@.len() as int) == old(self).errors@,
            final(self).errors@.last()@ == what@ + " for "@ + invoice_id@ + ": "@ + detail@,
    {
        let mut m = what.to_owned();
        m.append(" for ");
        m.append(invoice_id);
        m.append(": ");
        m.append(detail);
        self.errors.push(m);
        assert(self.errors@.take(old(self).errors@.len() as int) =~= old(self).errors@);
    }
}
/// A run never reminds an invoice twice at the same level: where the
/// latest reminder was at the level that applies, the invoice is left.
pub proof fn lemma_no_repeat_at_same_level(
    levels: Seq<DunningLevelInfo>,
    days_overdue: int,
    i: int,
)
    requires
        last_applicable(levels, levels.len() as int, days_overdue) == Some(i),
    ensures
        run_action(levels, days_overdue, Some(levels[i].id@)) is None,
        run_action(levels, days_overdue, None) == Some(i),
{
}

} // verus!
