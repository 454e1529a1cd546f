//! Transfers between bank accounts in different currencies: the checks on
//! a transfer, the book value that leaves the source account, and the
//! realised exchange gain or loss.
use vstd::prelude::*;

use crate::amount::{
    abs, dec_checked_mul, dec_checked_sub, fits_at, lemma_pow10_add, lemma_pow10_pos,
    lemma_round_dp_exact, max_nat, pow10, round_dp_spec, value, Amount,
};
use crate::cash_flow::abs_dec;
use crate::error::{AppError, ErrorKind};
use crate::journal_service::{views, JournalLineInput, LineView};

verus! {

/// The currency exchange service: the decisions of recording a transfer.
pub struct CurrencyExchangeService;

/// The exchange result of a transfer.
pub enum FxResult {
    /// The destination received more than the book value that left.
    Gain(Amount),
    /// The destination received less: the loss, without sign.
    Loss(Amount),
    /// Neither.
    Even,
}

/// The amounts of a transfer as booked.
pub struct TransferPlan {
    /// The base-currency book value that leaves the source account.
    pub book_value_removed: Amount,
    /// The destination amount less that book value, to two places.
    pub difference: Amount,
}

/// The book value that leaves the source: `from_amount * rate` to two
/// places (rate 1 where the source has no rate history), and the
/// difference `to_amount - book value` to two places. `None` where a
/// `Decimal` operation overflows.
pub open spec fn transfer_plan(
    from_amount: (int, nat),
    to_amount: (int, nat),
    rate: Option<(int, nat)>,
) -> Option<((int, nat), (int, nat))> {
    let r = match rate {
        Some(x) => x,
        None => (1int, 0nat),
    };
    match dec_checked_mul(from_amount, r) {
        None => None,
        Some(p) => {
            let book = round_dp_spec(p, 2);
            match dec_checked_sub(to_amount, book) {
                None => None,
                Some(d) => Some((book, round_dp_spec(d, 2))),
            }
        },
    }
}

/// What `fx_result` gives for a difference: a gain of the difference where
/// it is positive, a loss of its magnitude where it is negative, else
/// neither.
pub open spec fn fx_matches(difference: (int, nat), fx: FxResult) -> bool {
    match fx {
        FxResult::Gain(a) => value(difference) > 0 && a@ == difference,
        FxResult::Loss(a) => value(difference) < 0 && a@ == abs_dec(difference),
        FxResult::Even => value(difference) == 0,
    }
}

/// The lines of a transfer entry: the destination amount debited to the
/// destination's ledger account, the book value credited to the source's,
/// and a gain credited (or a loss debited) to the exchange account.
pub open spec fn transfer_entry(
    to_ledger: Seq<char>,
    from_ledger: Seq<char>,
    to_amount: (int, nat),
    book_value_removed: (int, nat),
    description: Seq<char>,
    fx: FxResult,
    fx_account: Seq<char>,
) -> Seq<LineView> {
    let base = seq![
        (to_ledger, to_amount, (0int, 0nat), Some(description), None::<Seq<char>>),
        (from_ledger, (0int, 0nat), book_value_removed, Some(description), None::<Seq<char>>),
    ];
    match fx {
        FxResult::Gain(a) => base.push(
            (fx_account, (0int, 0nat), a@, Some("Realized FX gain"@), None::<Seq<char>>),
        ),
        FxResult::Loss(a) => base.push(
            (fx_account, a@, (0int, 0nat), Some("Realized FX loss"@), None::<Seq<char>>),
        ),
        FxResult::Even => base,
    }
}

/// The exact sum of one column (`debit` true: debits) of the lines, in
/// units of 10^-28.
pub open spec fn value_total(lines: Seq<LineView>, debit: bool) -> int
    decreases lines.len(),
{
    if lines.len() == 0 {
        0
    } else {
        value_total(lines.drop_last(), debit) + value(
            if debit {
                lines.last().1
            } else {
                lines.last().2
            },
        )
    }
}

/// The difference of two decimals of at most two places that can be held
/// with two places can be held at the larger of their scales.
pub(crate) proof fn lemma_difference_fits(a: (int, nat), b: (int, nat))
    requires
        a.1 <= 2,
        b.1 <= 2,
        fits_at(value(a) - value(b), 2),
    ensures
        fits_at(value(a) - value(b), max_nat(a.1, b.1)),
{
    let m = max_nat(a.1, b.1);
    let v = value(a) - value(b);
    let pm = pow10((28 - m) as nat);
    let pa = pow10((m - a.1) as nat);
    let pb = pow10((m - b.1) as nat);
    lemma_pow10_add((28 - m) as nat, (m - a.1) as nat);
    lemma_pow10_add((28 - m) as nat, (m - b.1) as nat);
    assert((28 - m) as nat + (m - a.1) as nat == (28 - a.1) as nat);
    assert((28 - m) as nat + (m - b.1) as nat == (28 - b.1) as nat);
    let k = a.0 * pa - b.0 * pb;
    assert(v == pm * k) by (nonlinear_arith)
        requires
            v == a.0 * (pm * pa) - b.0 * (pm * pb),
            k == a.0 * pa - b.0 * pb,
    ;
    lemma_pow10_pos((28 - m) as nat);
    vstd::arithmetic::div_mod::lemma_mod_multiples_basic(k, pm);
    assert(k * pm == pm * k) by (nonlinear_arith);
    vstd::arithmetic::div_mod::lemma_div_multiples_vanish(k, pm);
    let p26 = pow10(26);
    let q = pow10((2 - m) as nat);
    lemma_pow10_add(26, (2 - m) as nat);
    assert(26 + (2 - m) as nat == (28 - m) as nat);
    lemma_pow10_pos(26);
    lemma_pow10_pos((2 - m) as nat);
    assert(v == p26 * (q * k)) by (nonlinear_arith)
        requires
            v == pm * k,
            pm == p26 * q,
    ;
    vstd::arithmetic::div_mod::lemma_div_multiples_vanish(q * k, p26);
    assert(abs(k) <= abs(q * k)) by (nonlinear_arith)
        requires
            q >= 1,
    ;
}

impl CurrencyExchangeService {
    /// The checks on a requested transfer: both amounts positive, and two
    /// different bank accounts.
    pub fn check_transfer(
        from_bank_account_id: &str,
        to_bank_account_id: &str,
        from_amount: Amount,
        to_amount: Amount,
    ) -> (r: Result<(), AppError>)
        requires
            from_amount.wf(),
            to_amount.wf(),
        ensures
            from_amount.value() <= 0 || to_amount.value() <= 0 ==> (r matches Err(e)
                && e.kind_and_message() == (
                ErrorKind::Validation,
                "Transfer amounts must be positive"@,
            )),
            from_amount.value() > 0 && to_amount.value() > 0 && from_bank_account_id@
                == to_bank_account_id@ ==> (r matches Err(e) && e.kind_and_message() == (
                ErrorKind::Validation,
                "Source and destination bank account must differ"@,
            )),
            from_amount.value() > 0 && to_amount.value() > 0 && from_bank_account_id@
                != to_bank_account_id@ ==> r is Ok,
    {
        let zero = Amount::zero();
        if !zero.lt(from_amount) || !zero.lt(to_amount) {
            return Err(AppError::Validation("Transfer amounts must be positive".to_owned()));
        }
        if crate::text::str_eq(from_bank_account_id, to_bank_account_id) {
            return Err(
                AppError::Validation("Source and destination bank account must differ".to_owned()),
            );
        }
        Ok(())
    }

    /// The ledger account linked to the source (`source` true) or
    /// destination bank account; a bank account without one cannot take
    /// part in a transfer.
    pub fn ledger_account(account_id: Option<String>, source: bool) -> (r: Result<String, AppError>)
        ensures
            match account_id {
                Some(a) => r matches Ok(s) && s@ == a@,
                None => r matches Err(e) && e.kind_and_message() == (
                    ErrorKind::Validation,
                    if source {
                        "Source bank account has no linked ledger account"@
                    } else {
                        "Destination bank account has no linked ledger account"@
                    },
                ),
            },
    {
        match account_id {
            Some(a) => Ok(a),
            None => if source {
                Err(
                    AppError::Validation(
                        "Source bank account has no linked ledger account".to_owned(),
                    ),
                )
            } else {
                Err(
                    AppError::Validation(
                        "Destination bank account has no linked ledger account".to_owned(),
                    ),
                )
            },
        }
    }

    /// The book value removed and the difference (see `transfer_plan`).
    pub fn plan(from_amount: Amount, to_amount: Amount, average_rate: Option<Amount>) -> (r: Option<
        TransferPlan,
    >)
        requires
            from_amount.wf(),
            to_amount.wf(),
            average_rate matches Some(x) ==> x.wf(),
        ensures
            match transfer_plan(
                from_amount@,
                to_amount@,
                match average_rate {
                    Some(x) => Some(x@),
                    None => None,
                },
            ) {
                Some((b, d)) => r matches Some(p) && p.book_value_removed@ == b && p.difference@
                    == d,
                None => r is None,
            },
            r matches Some(p) ==> (to_amount@.1 <= 2 && fits_at(
                to_amount.value() - p.book_value_removed.value(),
                2,
            ) ==> p.difference.value() == to_amount.value() - p.book_value_removed.value()),
    {
        let rate = match average_rate {
            Some(x) => x,
            None => Amount::from_int(1),
        };
        let p = match from_amount.checked_mul(rate) {
            Some(p) => p,
            None => return None,
        };
        let book = p.round_dp(2);
        match to_amount.checked_sub(book) {
            Some(d) => {
                let difference = d.round_dp(2);
                proof {
                    let v = to_amount.value() - book.value();
                    if to_amount@.1 <= 2 && fits_at(v, 2) {
                        lemma_difference_fits(to_amount@, book@);
                        lemma_round_dp_exact(d@, 2);
                    }
                }
                Some(TransferPlan { book_value_removed: book, difference })
            },
            None => None,
        }
    }

    /// Whether the difference is a gain, a loss (without sign) or neither.
    pub fn fx_result(difference: Amount) -> (r: FxResult)
        requires
            difference.wf(),
        ensures
            fx_matches(difference@, r),
    {
        let zero = Amount::zero();
        if zero.lt(difference) {
            FxResult::Gain(difference)
        } else if difference.lt(zero) {
            FxResult::Loss(difference.abs())
        } else {
            FxResult::Even
        }
    }

    /// The description of a transfer entry.
    pub fn description(from_name: &str, to_name: &str) -> (r: String)
        ensures
            r@ == "Currency exchange: "@ + from_name@ + " → "@ + to_name@,
    {
        let mut out = "Currency exchange: ".to_owned();
        out.append(from_name);
        out.append(" → ");
        out.append(to_name);
        out
    }

    /// The lines of a transfer entry: the destination amount debited to the
    /// destination's ledger account, the book value credited to the
    /// source's, and a realised gain credited (or loss debited) to the
    /// account `fx_account_id`.
    pub fn transfer_lines(
        to_ledger: &str,
        from_ledger: &str,
        to_amount: Amount,
        book_value_removed: Amount,
        description: &str,
        fx: &FxResult,
        fx_account_id: &str,
    ) -> (r: Vec<JournalLineInput>)
        ensures
            views(r@) == transfer_entry(
                to_ledger@,
                from_ledger@,
                to_amount@,
                book_value_removed@,
                description@,
                *fx,
                fx_account_id@,
            ),
    {
        let mut v: Vec<JournalLineInput> = Vec::new();
        v.push(
            JournalLineInput {
                account_id: to_ledger.to_owned(),
                debit_amount: to_amount,
                credit_amount: Amount::zero(),
                description: Some(description.to_owned()),
                vat_rate_id: None,
            },
        );
        v.push(
            JournalLineInput {
                account_id: from_ledger.to_owned(),
                debit_amount: Amount::zero(),
                credit_amount: book_value_removed,
                description: Some(description.to_owned()),
                vat_rate_id: None,
            },
        );
        match fx {
            FxResult::Gain(a) => v.push(
                JournalLineInput {
                    account_id: fx_account_id.to_owned(),
                    debit_amount: Amount::zero(),
                    credit_amount: *a,
                    description: Some("Realized FX gain".to_owned()),
                    vat_rate_id: None,
                },
            ),
            FxResult::Loss(a) => v.push(
                JournalLineInput {
                    account_id: fx_account_id.to_owned(),
                    debit_amount: *a,
                    credit_amount: Amount::zero(),
                    description: Some("Realized FX loss".to_owned()),
                    vat_rate_id: None,
                },
            ),
            FxResult::Even => {},
        }
        proof {
            assert(views(v@) =~= transfer_entry(
                to_ledger@,
                from_ledger@,
                to_amount@,
                book_value_removed@,
                description@,
                *fx,
                fx_account_id@,
            ));
        }
        v
    }

    /// The default-account key of the account a result is booked to.
    pub fn fx_account_key(fx: &FxResult) -> (r: Option<&'static str>)
        ensures
            match fx {
                FxResult::Gain(_) => r matches Some(k) && k@ == "fx_gain_account"@,
                FxResult::Loss(_) => r matches Some(k) && k@ == "fx_loss_account"@,
                FxResult::Even => r is None,
            },
    {
        match fx {
            FxResult::Gain(_) => Some("fx_gain_account"),
            FxResult::Loss(_) => Some("fx_loss_account"),
            FxResult::Even => None,
        }
    }

    /// The error where the gain or loss account is not configured: "{key}
    /// not configured".
    pub fn missing_fx_account(key: &str) -> (r: AppError)
        ensures
            r.kind_and_message() == (ErrorKind::Validation, key@ + " not configured"@),
    {
        let mut m = key.to_owned();
        m.append(" not configured");
        AppError::Validation(m)
    }
}

/// A transfer entry balances: where the difference is exactly what the
/// destination received less the book value removed, and the gain or loss
/// is what `fx_result` makes of it, the debits of the entry add up to its
/// credits.
pub proof fn lemma_transfer_entry_balances(
    to_ledger: Seq<char>,
    from_ledger: Seq<char>,
    to_amount: (int, nat),
    book_value_removed: (int, nat),
    difference: (int, nat),
    description: Seq<char>,
    fx: FxResult,
    fx_account: Seq<char>,
)
    requires
        value(difference) == value(to_amount) - value(book_value_removed),
        fx_matches(difference, fx),
    ensures
        ({
            let lines = transfer_entry(
                to_ledger,
                from_ledger,
                to_amount,
                book_value_removed,
                description,
                fx,
                fx_account,
            );
            value_total(lines, true) == value_total(lines, false)
        }),
{
    let lines = transfer_entry(
        to_ledger,
        from_ledger,
        to_amount,
        book_value_removed,
        description,
        fx,
        fx_account,
    );
    assert(value((0int, 0nat)) == 0) by {
        let p = crate::amount::pow10(28);
        assert(0 * p == 0) by (nonlinear_arith);
    }
    let base = seq![
        (to_ledger, to_amount, (0int, 0nat), Some(description), None::<Seq<char>>),
        (from_ledger, (0int, 0nat), book_value_removed, Some(description), None::<Seq<char>>),
    ];
    let first = base.drop_last();
    assert(first.drop_last() =~= Seq::<LineView>::empty());
    assert(first.last() == base[0]);
    assert(value_total(first.drop_last(), true) == 0);
    assert(value_total(first.drop_last(), false) == 0);
    assert(value_total(base.drop_last(), true) == value(to_amount));
    assert(value_total(base.drop_last(), false) == 0);
    assert(value_total(base, true) == value(to_amount));
    assert(value_total(base, false) == value(book_value_removed));
    match fx {
        FxResult::Gain(a) => {
            assert(lines.drop_last() =~= base);
        },
        FxResult::Loss(a) => {
            assert(lines.drop_last() =~= base);
            let d = difference;
            assert(value(abs_dec(d)) == -value(d)) by {
                let p = crate::amount::pow10((28 - d.1) as nat);
                crate::amount::lemma_pow10_pos((28 - d.1) as nat);
                assert(d.0 < 0) by (nonlinear_arith)
                    requires
                        d.0 * p < 0,
                        p > 0,
                ;
                assert((-d.0) * p == -(d.0 * p)) by (nonlinear_arith);
            }
        },
        FxResult::Even => {},
    }
}

} // verus!
