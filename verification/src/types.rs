//! Shared value types.
use vstd::prelude::*;

use crate::amount::{dec_text_2dp, round_dp_spec, Amount};
use crate::numeric::{int_text, push_i64};
use crate::text::string_of;

verus! {

/// Account number of the Swiss KMU chart of accounts (e.g. 1020, 2000).
#[derive(Clone, Copy, Debug, PartialEq, Eq, Hash)]
pub struct AccountNumber(pub i32);

impl AccountNumber {
    pub fn new(num: i32) -> (r: Self)
        ensures
            r.0 == num,
    {
        AccountNumber(num)
    }

    /// The account number as decimal text (what `Display` shows).
    pub fn to_string(&self) -> (r: String)
        ensures
            r@ == int_text(self.0 as int),
    {
        let mut out: Vec<char> = Vec::new();
        push_i64(&mut out, self.0 as i64);
        string_of(&out)
    }
}

/// A money amount, held to two decimal places.
#[derive(Clone, Copy, Debug)]
pub struct Money(pub Amount);

impl Money {
    /// The amount rounded (half to even) to two places.
    pub fn new(amount: Amount) -> (r: Money)
        requires
            amount.wf(),
        ensures
            r.0@ == round_dp_spec(amount@, 2),
            r.0.wf(),
    {
        Money(amount.round_dp(2))
    }

    pub fn zero() -> (r: Money)
        ensures
            r.0@ == (0int, 0nat),
    {
        Money(Amount::zero())
    }

    pub fn inner(&self) -> (r: Amount)
        ensures
            r == self.0,
    {
        self.0
    }

    /// The amount with two decimal places (what `Display` shows).
    pub fn to_string(&self) -> (r: String)
        requires
            self.0.wf(),
        ensures
            r@ == dec_text_2dp(self.0@),
    {
        self.0.to_string_2dp()
    }
}

/// Rounding to two places again changes nothing: a money amount is
/// already at most two places.
pub proof fn lemma_money_rounding_idempotent(a: (int, nat))
    ensures
        round_dp_spec(round_dp_spec(a, 2), 2) == round_dp_spec(a, 2),
{
}
} // verus!
