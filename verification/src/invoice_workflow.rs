//! The bookings of an invoice's life: the receivable when it is sent, and
//! the payment when it is paid, in the invoice's or another currency.
use vstd::prelude::*;

use crate::amount::{
    dec_checked_mul, dec_checked_sub, fits_at, lemma_round_dp_exact, round_dp_spec, value, Amount,
};
use crate::currency_exchange::{
    fx_matches, lemma_difference_fits, transfer_entry, CurrencyExchangeService, FxResult,
};
use crate::depreciation_service::amounts_total;
use crate::error::{AppError, ErrorKind};
use crate::journal_service::{opt_seq, views, JournalLineInput, LineView};

verus! {

/// The invoice workflow: the journal lines of sending and paying.
pub struct InvoiceWorkflow;

/// A line of an invoice as its booking reads it.
pub struct InvoiceLineInfo {
    pub account_id: String,
    pub description: String,
    pub vat_rate_id: Option<String>,
    pub line_total: Amount,
}

/// `round2(amount * rate)`; `None` where the product overflows.
pub open spec fn converted(amount: (int, nat), rate: (int, nat)) -> Option<(int, nat)> {
    match dec_checked_mul(amount, rate) {
        Some(p) => Some(round_dp_spec(p, 2)),
        None => None,
    }
}

/// The credit lines of a sent invoice from its first `k` lines: each line
/// with a positive total, converted to the base currency, credited to its
/// revenue account (account, amount, description, VAT rate).
pub open spec fn revenue_credits(lines: Seq<InvoiceLineInfo>, k: int, rate: (int, nat)) -> Option<
    Seq<(Seq<char>, (int, nat), Seq<char>, Option<Seq<char>>)>,
>
    decreases k,
{
    if k <= 0 {
        Some(Seq::empty())
    } else {
        match revenue_credits(lines, k - 1, rate) {
            None => None,
            Some(s) => if value(lines[k - 1].line_total@) > 0 {
                match converted(lines[k - 1].line_total@, rate) {
                    Some(a) => Some(
                        s.push(
                            (
                                lines[k - 1].account_id@,
                                a,
                                lines[k - 1].description@,
                                opt_seq(lines[k - 1].vat_rate_id),
                            ),
                        ),
                    ),
                    None => None,
                }
            } else {
                Some(s)
            },
        }
    }
}

/// The credit lines of a sent invoice: the revenue credits, then the VAT
/// (where positive) credited to the VAT account.
pub open spec fn send_credits(
    lines: Seq<InvoiceLineInfo>,
    vat_account_id: Seq<char>,
    vat_amount: (int, nat),
    rate: (int, nat),
) -> Option<Seq<(Seq<char>, (int, nat), Seq<char>, Option<Seq<char>>)>> {
    match revenue_credits(lines, lines.len() as int, rate) {
        None => None,
        Some(s) => if value(vat_amount) > 0 {
            match converted(vat_amount, rate) {
                Some(a) => Some(s.push((vat_account_id, a, "VAT liability"@, None))),
                None => None,
            }
        } else {
            Some(s)
        },
    }
}

/// A credit as a journal line.
pub open spec fn credit_line(c: (Seq<char>, (int, nat), Seq<char>, Option<Seq<char>>)) -> LineView {
    (c.0, (0int, 0nat), c.1, Some(c.2), c.3)
}

/// The rate of an invoice's booking: its own, or one for the base
/// currency.
pub open spec fn rate_or_one(rate: Option<Amount>) -> (int, nat) {
    match rate {
        Some(r) => r@,
        None => (1int, 0nat),
    }
}

pub open spec fn lines_wf(lines: Seq<InvoiceLineInfo>) -> bool {
    forall|i: int| 0 <= i < lines.len() ==> (#[trigger] lines[i]).line_total.wf()
}

/// The message where a payment converts currency but the amount received
/// is missing.
pub open spec fn missing_actual_message() -> Seq<char> {
    "This payment converts currency (the bank account's currency differs from the invoice's) — the actual amount received must be provided"@
}

impl InvoiceWorkflow {
    fn convert(amount: Amount, rate: Amount) -> (r: Option<Amount>)
        requires
            amount.wf(),
            rate.wf(),
        ensures
            match converted(amount@, rate@) {
                Some(a) => r matches Some(x) && x@ == a && x.wf(),
                None => r is None,
            },
    {
        match amount.checked_mul(rate) {
            Some(p) => Some(p.round_dp(2)),
            None => None,
        }
    }

    /// The journal lines of sending an invoice: first the receivable
    /// debited with the sum (from zero up) of the credits, then the credits
    /// of `send_credits`. The debit is that sum of the rounded credits, so
    /// debits and credits agree whatever the rounding of each line. `None`
    /// where `Decimal` arithmetic overflows.
    pub fn send_journal_lines(
        receivable_account_id: &str,
        vat_account_id: &str,
        lines: &Vec<InvoiceLineInfo>,
        vat_amount: Amount,
        exchange_rate: Option<Amount>,
    ) -> (r: Option<Vec<JournalLineInput>>)
        requires
            lines_wf(lines@),
            vat_amount.wf(),
            exchange_rate matches Some(x) ==> x.wf(),
        ensures
            match send_credits(lines@, vat_account_id@, vat_amount@, rate_or_one(exchange_rate)) {
                None => r is None,
                Some(c) => match amounts_total(c.map_values(|x: (Seq<char>, (int, nat), Seq<char>, Option<Seq<char>>)| x.1)) {
                    None => r is None,
                    Some(total) => r matches Some(v) && v@.len() == c.len() + 1 && v@[0]@ == (
                        receivable_account_id@,
                        total,
                        (0int, 0nat),
                        Some("Accounts receivable"@),
                        None::<Seq<char>>,
                    ) && forall|i: int| 0 <= i < c.len() ==> #[trigger] v@[i + 1]@ == credit_line(c[i]),
                },
            },
    {
        let rate = match exchange_rate {
            Some(x) => x,
            None => Amount::from_int(1),
        };
        let ghost rv = rate_or_one(exchange_rate);
        let mut credits: Vec<JournalLineInput> = Vec::new();
        let mut amounts: Vec<Amount> = Vec::new();
        let mut i: usize = 0;
        while i < lines.len()
            invariant
                i <= lines.len(),
                lines_wf(lines@),
                rate.wf(),
                rate@ == rv,
                rv == rate_or_one(exchange_rate),
                credits@.len() == amounts@.len(),
                forall|j: int| 0 <= j < amounts@.len() ==> (#[trigger] amounts@[j]).wf(),
                revenue_credits(lines@, i as int, rv) matches Some(s) && s.len() == credits@.len()
                    && forall|j: int|
                    0 <= j < s.len() ==> #[trigger] credits@[j]@ == credit_line(s[j])
                        && amounts@[j]@ == s[j].1,
            decreases lines.len() - i,
        {
            let l = &lines[i];
            assert(l.line_total.wf());
            if Amount::zero().lt(l.line_total) {
                let a = match Self::convert(l.line_total, rate) {
                    Some(a) => a,
                    None => {
                        proof {
                            lemma_credits_none_extends(lines@, i as int + 1, rv);
                        }
                        return None;
                    },
                };
                let ghost before = credits@;
                let ghost before_a = amounts@;
                let vat = match &l.vat_rate_id {
                    Some(v) => Some(v.clone()),
                    None => None,
                };
                let d = l.description.clone();
                assert(opt_seq(vat) == opt_seq(lines@[i as int].vat_rate_id));
                assert(d@ == lines@[i as int].description@);
                credits.push(
                    JournalLineInput {
                        account_id: l.account_id.clone(),
                        debit_amount: Amount::zero(),
                        credit_amount: a,
                        description: Some(d),
                        vat_rate_id: vat,
                    },
                );
                amounts.push(a);
                proof {
                    let s0 = revenue_credits(lines@, i as int, rv)->0;
                    let s1 = revenue_credits(lines@, i as int + 1, rv)->0;
                    assert(s1 == s0.push(
                        (
                            lines@[i as int].account_id@,
                            a@,
                            lines@[i as int].description@,
                            opt_seq(lines@[i as int].vat_rate_id),
                        ),
                    ));
                    assert forall|j: int| 0 <= j < s1.len() implies #[trigger] credits@[j]@
                        == credit_line(s1[j]) && amounts@[j]@ == s1[j].1 by {
                        if j < s0.len() {
                            assert(credits@[j] == before[j]);
                            assert(amounts@[j] == before_a[j]);
                        }
                    }
                }
            }
            i = i + 1;
        }
        if Amount::zero().lt(vat_amount) {
            let a = match Self::convert(vat_amount, rate) {
                Some(a) => a,
                None => return None,
            };
            credits.push(
                JournalLineInput {
                    account_id: vat_account_id.to_owned(),
                    debit_amount: Amount::zero(),
                    credit_amount: a,
                    description: Some("VAT liability".to_owned()),
                    vat_rate_id: None,
                },
            );
            amounts.push(a);
        }
        let ghost c = send_credits(lines@, vat_account_id@, vat_amount@, rv)->0;
        let ghost ca = c.map_values(|x: (Seq<char>, (int, nat), Seq<char>, Option<Seq<char>>)| x.1);
        assert(c.len() == credits@.len());
        assert forall|j: int| 0 <= j < c.len() implies #[trigger] credits@[j]@ == credit_line(c[j])
            && amounts@[j]@ == c[j].1 by {}
        let ghost av = amounts@.map_values(|a: Amount| a@);
        assert forall|j: int| 0 <= j < ca.len() implies #[trigger] av[j] == ca[j] by {
            assert(credits@[j]@ == credit_line(c[j]));
            assert(amounts@[j]@ == c[j].1);
        }
        assert(av =~= ca);
        let total = match crate::pain001::Pain001Service::total_amount(&amounts) {
            Some(t) => t,
            None => return None,
        };
        let mut out: Vec<JournalLineInput> = Vec::new();
        out.push(
            JournalLineInput {
                account_id: receivable_account_id.to_owned(),
                debit_amount: total,
                credit_amount: Amount::zero(),
                description: Some("Accounts receivable".to_owned()),
                vat_rate_id: None,
            },
        );
        let mut k: usize = 0;
        let n = credits.len();
        while k < n
            invariant
                k <= n,
                n == credits@.len(),
                out@.len() == k + 1,
                out@[0]@ == (
                    receivable_account_id@,
                    total@,
                    (0int, 0nat),
                    Some("Accounts receivable"@),
                    None::<Seq<char>>,
                ),
                forall|j: int| 0 <= j < k ==> #[trigger] out@[j + 1]@ == credits@[j]@,
            decreases n - k,
        {
            let x = &credits[k];
            out.push(
                JournalLineInput {
                    account_id: x.account_id.clone(),
                    debit_amount: x.debit_amount,
                    credit_amount: x.credit_amount,
                    description: match &x.description {
                        Some(d) => Some(d.clone()),
                        None => None,
                    },
                    vat_rate_id: match &x.vat_rate_id {
                        Some(v) => Some(v.clone()),
                        None => None,
                    },
                },
            );
            k = k + 1;
        }
        Some(out)
    }

    /// Whether the bank account and the invoice are in the same currency
    /// (both in the base currency counts).
    pub fn same_currency(bank_currency: Option<&str>, invoice_currency: Option<&str>) -> (b: bool)
        ensures
            b == match (bank_currency, invoice_currency) {
                (Some(x), Some(y)) => x@ == y@,
                (None, None) => true,
                _ => false,
            },
    {
        match (bank_currency, invoice_currency) {
            (Some(x), Some(y)) => crate::text::str_eq(x, y),
            (None, None) => true,
            _ => false,
        }
    }

    /// The base-currency amount a payment clears: `round2(amount * rate)`
    /// with the invoice's original rate, one where it has none.
    pub fn cleared_base_amount(amount: Amount, original_rate: Option<Amount>) -> (r: Option<Amount>)
        requires
            amount.wf(),
            original_rate matches Some(x) ==> x.wf(),
        ensures
            match converted(amount@, rate_or_one(original_rate)) {
                Some(a) => r matches Some(x) && x@ == a,
                None => r is None,
            },
    {
        let rate = match original_rate {
            Some(x) => x,
            None => Amount::from_int(1),
        };
        Self::convert(amount, rate)
    }

    /// A payment that converts currency needs the amount actually received.
    pub fn require_actual_amount(actual: Option<Amount>) -> (r: Result<Amount, AppError>)
        ensures
            match actual {
                Some(a) => r == Ok::<Amount, AppError>(a),
                None => r matches Err(e) && e.kind_and_message() == (
                    ErrorKind::Validation,
                    missing_actual_message(),
                ),
            },
    {
        match actual {
            Some(a) => Ok(a),
            None => Err(
                AppError::Validation(
                    "This payment converts currency (the bank account's currency differs from the invoice's) — the actual amount received must be provided".to_owned(),
                ),
            ),
        }
    }

    /// The exchange difference of a converted payment: `round2(actual -
    /// cleared)`.
    pub fn payment_difference(actual: Amount, cleared: Amount) -> (r: Option<Amount>)
        requires
            actual.wf(),
            cleared.wf(),
        ensures
            match dec_checked_sub(actual@, cleared@) {
                Some(d) => r matches Some(x) && x@ == round_dp_spec(d, 2) && x.wf(),
                None => r is None,
            },
            r matches Some(x) ==> (actual@.1 <= 2 && cleared@.1 <= 2 && fits_at(
                actual.value() - cleared.value(),
                2,
            ) ==> x.value() == actual.value() - cleared.value()),
    {
        match actual.checked_sub(cleared) {
            Some(d) => {
                let x = d.round_dp(2);
                proof {
                    if actual@.1 <= 2 && cleared@.1 <= 2 && fits_at(
                        actual.value() - cleared.value(),
                        2,
                    ) {
                        lemma_difference_fits(actual@, cleared@);
                        lemma_round_dp_exact(d@, 2);
                    }
                }
                Some(x)
            },
            None => None,
        }
    }

    /// Only a draft invoice can be sent; sending makes it "sent".
    pub fn check_sendable(status: &str) -> (r: Result<&'static str, AppError>)
        ensures
            status@ == "draft"@ ==> (r matches Ok(s) && s@ == "sent"@),
            status@ != "draft"@ ==> (r matches Err(e) && e.kind_and_message() == (
                ErrorKind::Validation,
                "Only draft invoices can be sent"@,
            )),
    {
        if crate::text::str_eq(status, "draft") {
            Ok("sent")
        } else {
            Err(AppError::Validation("Only draft invoices can be sent".to_owned()))
        }
    }

    /// Only a sent or overdue invoice can be marked as paid; it then is
    /// "paid".
    pub fn check_markable_paid(status: &str) -> (r: Result<&'static str, AppError>)
        ensures
            (status@ == "sent"@ || status@ == "overdue"@) ==> (r matches Ok(s) && s@ == "paid"@),
            !(status@ == "sent"@ || status@ == "overdue"@) ==> (r matches Err(e)
                && e.kind_and_message() == (
                ErrorKind::Validation,
                "Only sent or overdue invoices can be marked as paid"@,
            )),
    {
        if crate::text::str_eq(status, "sent") || crate::text::str_eq(status, "overdue") {
            Ok("paid")
        } else {
            Err(AppError::Validation("Only sent or overdue invoices can be marked as paid".to_owned()))
        }
    }

    /// Only a sent or overdue invoice can be cancelled; it then is
    /// "cancelled".
    pub fn check_cancellable(status: &str) -> (r: Result<&'static str, AppError>)
        ensures
            (status@ == "sent"@ || status@ == "overdue"@) ==> (r matches Ok(s) && s@ == "cancelled"@),
            !(status@ == "sent"@ || status@ == "overdue"@) ==> (r matches Err(e)
                && e.kind_and_message() == (
                ErrorKind::Validation,
                "Only sent or overdue invoices can be cancelled"@,
            )),
    {
        if crate::text::str_eq(status, "sent") || crate::text::str_eq(status, "overdue") {
            Ok("cancelled")
        } else {
            Err(AppError::Validation("Only sent or overdue invoices can be cancelled".to_owned()))
        }
    }

    /// A payment can be recorded on a sent, overdue or partially paid
    /// invoice, and only of a positive amount (the status is checked
    /// first).
    pub fn check_payment(status: &str, amount: Amount) -> (r: Result<(), AppError>)
        requires
            amount.wf(),
        ensures
            !(status@ == "sent"@ || status@ == "overdue"@ || status@ == "partial"@) ==> (r matches Err(e)
                && e.kind_and_message() == (
                ErrorKind::Validation,
                "Only sent, overdue or partially-paid invoices can receive payments"@,
            )),
            (status@ == "sent"@ || status@ == "overdue"@ || status@ == "partial"@) && amount.value()
                <= 0 ==> (r matches Err(e) && e.kind_and_message() == (
                ErrorKind::Validation,
                "Payment amount must be positive"@,
            )),
            (status@ == "sent"@ || status@ == "overdue"@ || status@ == "partial"@) && amount.value()
                > 0 ==> r is Ok,
    {
        if !(crate::text::str_eq(status, "sent") || crate::text::str_eq(status, "overdue")
            || crate::text::str_eq(status, "partial")) {
            return Err(
                AppError::Validation(
                    "Only sent, overdue or partially-paid invoices can receive payments".to_owned(),
                ),
            );
        }
        if !Amount::zero().lt(amount) {
            return Err(AppError::Validation("Payment amount must be positive".to_owned()));
        }
        Ok(())
    }

    /// The status after a payment: "paid" once the payments add up to the
    /// invoice's total, else "partial".
    pub fn status_after_payment(total_paid: Amount, invoice_total: Amount) -> (r: &'static str)
        requires
            total_paid.wf(),
            invoice_total.wf(),
        ensures
            total_paid.value() >= invoice_total.value() ==> r@ == "paid"@,
            total_paid.value() < invoice_total.value() ==> r@ == "partial"@,
    {
        if total_paid.lt(invoice_total) {
            "partial"
        } else {
            "paid"
        }
    }

    /// The booking of a payment of `amount` (in the invoice's currency):
    /// the cleared base amount is `round2(amount * rate)` with the invoice's
    /// original rate (one where it has none). Where the bank account and
    /// the invoice share a currency, the bank's ledger account is debited
    /// and the receivables account credited with the cleared amount, and
    /// the original rate is handed back. Otherwise the amount actually
    /// received is needed; it is debited, the cleared amount credited, and
    /// the difference `round2(actual - cleared)` booked as a gain to the FX
    /// gain account or as a loss to the FX loss account, each of which must
    /// be configured; no rate is handed back. `None` where `Decimal`
    /// arithmetic overflows.
    pub fn build_payment_journal_lines(
        bank_ledger_id: &str,
        receivable_account_id: &str,
        bank_currency: Option<&str>,
        invoice_currency: Option<&str>,
        amount: Amount,
        original_rate: Option<Amount>,
        actual_base_amount: Option<Amount>,
        fx_gain_account: Option<&str>,
        fx_loss_account: Option<&str>,
    ) -> (r: Option<Result<(Vec<JournalLineInput>, Option<Amount>), AppError>>)
        requires
            amount.wf(),
            original_rate matches Some(x) ==> x.wf(),
            actual_base_amount matches Some(x) ==> x.wf(),
        ensures
            match converted(amount@, rate_or_one(original_rate)) {
                None => r is None,
                Some(c) => if match (bank_currency, invoice_currency) {
                    (Some(x), Some(y)) => x@ == y@,
                    (None, None) => true,
                    _ => false,
                } {
                    r matches Some(Ok((lines, rate))) && views(lines@) == transfer_entry(
                        bank_ledger_id@,
                        receivable_account_id@,
                        c,
                        c,
                        "Payment received"@,
                        FxResult::Even,
                        Seq::empty(),
                    ) && rate == original_rate
                } else {
                    match actual_base_amount {
                        None => r matches Some(Err(e)) && e.kind_and_message() == (
                            ErrorKind::Validation,
                            missing_actual_message(),
                        ),
                        Some(a) => match dec_checked_sub(a@, c) {
                            None => r is None,
                            Some(d0) => {
                                let d = round_dp_spec(d0, 2);
                                if value(d) > 0 {
                                    match fx_gain_account {
                                        None => r matches Some(Err(e)) && e.kind_and_message() == (
                                            ErrorKind::Validation,
                                            "fx_gain_account not configured"@,
                                        ),
                                        Some(g) => r matches Some(Ok((lines, rate))) && rate is None
                                            && (exists|f: FxResult|
                                            #![trigger fx_matches(d, f)]
                                            fx_matches(d, f) && views(lines@) == transfer_entry(
                                                bank_ledger_id@,
                                                receivable_account_id@,
                                                a@,
                                                c,
                                                "Payment received"@,
                                                f,
                                                g@,
                                            )),
                                    }
                                } else if value(d) < 0 {
                                    match fx_loss_account {
                                        None => r matches Some(Err(e)) && e.kind_and_message() == (
                                            ErrorKind::Validation,
                                            "fx_loss_account not configured"@,
                                        ),
                                        Some(g) => r matches Some(Ok((lines, rate))) && rate is None
                                            && (exists|f: FxResult|
                                            #![trigger fx_matches(d, f)]
                                            fx_matches(d, f) && views(lines@) == transfer_entry(
                                                bank_ledger_id@,
                                                receivable_account_id@,
                                                a@,
                                                c,
                                                "Payment received"@,
                                                f,
                                                g@,
                                            )),
                                    }
                                } else {
                                    r matches Some(Ok((lines, rate))) && rate is None && views(lines@)
                                        == transfer_entry(
                                        bank_ledger_id@,
                                        receivable_account_id@,
                                        a@,
                                        c,
                                        "Payment received"@,
                                        FxResult::Even,
                                        Seq::empty(),
                                    )
                                }
                            },
                        },
                    }
                },
            },
    {
        let rate = match original_rate {
            Some(x) => x,
            None => Amount::from_int(1),
        };
        let cleared = match Self::convert(amount, rate) {
            Some(c) => c,
            None => return None,
        };
        if Self::same_currency(bank_currency, invoice_currency) {
            let lines = Self::payment_lines(
                bank_ledger_id,
                receivable_account_id,
                cleared,
                cleared,
                &FxResult::Even,
                "",
            );
            return Some(Ok((lines, original_rate)));
        }
        let actual = match Self::require_actual_amount(actual_base_amount) {
            Ok(a) => a,
            Err(e) => return Some(Err(e)),
        };
        let diff = match Self::payment_difference(actual, cleared) {
            Some(d) => d,
            None => return None,
        };
        let fx = CurrencyExchangeService::fx_result(diff);
        let account: &str = match &fx {
            FxResult::Gain(_) => match fx_gain_account {
                Some(g) => g,
                None => return Some(Err(AppError::Validation("fx_gain_account not configured".to_owned()))),
            },
            FxResult::Loss(_) => match fx_loss_account {
                Some(g) => g,
                None => return Some(Err(AppError::Validation("fx_loss_account not configured".to_owned()))),
            },
            FxResult::Even => "",
        };
        let lines = Self::payment_lines(
            bank_ledger_id,
            receivable_account_id,
            actual,
            cleared,
            &fx,
            account,
        );
        Some(Ok((lines, None)))
    }

    /// The lines of a payment: the amount received debited to the bank's
    /// ledger account, the cleared amount credited to receivables, and a
    /// realised gain credited (or loss debited) to `fx_account_id`.
    pub fn payment_lines(
        bank_ledger_id: &str,
        receivable_account_id: &str,
        received: Amount,
        cleared: Amount,
        fx: &FxResult,
        fx_account_id: &str,
    ) -> (r: Vec<JournalLineInput>)
        ensures
            views(r@) == transfer_entry(
                bank_ledger_id@,
                receivable_account_id@,
                received@,
                cleared@,
                "Payment received"@,
                *fx,
                fx_account_id@,
            ),
    {
        crate::currency_exchange::CurrencyExchangeService::transfer_lines(
            bank_ledger_id,
            receivable_account_id,
            received,
            cleared,
            "Payment received",
            fx,
            fx_account_id,
        )
    }
}

proof fn lemma_credits_none_extends(lines: Seq<InvoiceLineInfo>, k: int, rate: (int, nat))
    requires
        0 <= k <= lines.len(),
        revenue_credits(lines, k, rate) is None,
    ensures
        revenue_credits(lines, lines.len() as int, rate) is None,
    decreases lines.len() - k,
{
    if k < lines.len() {
        lemma_credits_none_extends(lines, k + 1, rate);
    }
}

} // verus!
