//! Decimal amounts: a 96-bit mantissa with a scale of at most 28 decimal
//! places, as `rust_decimal::Decimal` holds them. The arithmetic is done by
//! `rust_decimal`; what it computes is stated over the mantissa and scale.
use vstd::prelude::*;

use rust_decimal::Decimal;

use crate::numeric::nat_digits;

verus! {

/// The largest mantissa magnitude: 2^96 - 1.
pub open spec fn max_mantissa() -> int {
    0xFFFF_FFFF_FFFF_FFFF_FFFF_FFFFint
}

/// A decimal number `mantissa / 10^scale`.
#[derive(Clone, Copy, Debug)]
pub struct Amount {
    pub mantissa: i128,
    pub scale: u32,
}

impl View for Amount {
    type V = (int, nat);

    open spec fn view(&self) -> (int, nat) {
        (self.mantissa as int, self.scale as nat)
    }
}

pub open spec fn pow10(n: nat) -> int
    decreases n,
{
    if n == 0 {
        1
    } else {
        10 * pow10((n - 1) as nat)
    }
}

/// Powers of ten are positive.
pub proof fn lemma_pow10_pos(n: nat)
    ensures
        pow10(n) > 0,
    decreases n,
{
    if n > 0 {
        lemma_pow10_pos((n - 1) as nat);
    }
}

/// A representable decimal: at most 28 places and a 96-bit mantissa.
pub open spec fn wf(a: (int, nat)) -> bool {
    a.1 <= 28 && -max_mantissa() <= a.0 <= max_mantissa()
}

/// The value of a decimal in units of 10^-28.
pub open spec fn value(a: (int, nat)) -> int {
    a.0 * pow10((28 - a.1) as nat)
}

pub open spec fn abs(x: int) -> int {
    if x < 0 {
        -x
    } else {
        x
    }
}

pub open spec fn max_nat(a: nat, b: nat) -> nat {
    if a >= b {
        a
    } else {
        b
    }
}

/// Whether a value (in units of 10^-28) can be held exactly with `s` places.
pub open spec fn fits_at(v: int, s: nat) -> bool {
    s <= 28 && v % pow10((28 - s) as nat) == 0 && abs(v / pow10((28 - s) as nat))
        <= max_mantissa()
}

/// Whether a value can be held with some number of places.
pub open spec fn representable(v: int) -> bool {
    exists|s: nat| fits_at(v, s)
}

/// Whether a value is small enough that `Decimal` arithmetic producing it
/// does not overflow (its integer part fits in 96 bits).
pub open spec fn in_range(v: int) -> bool {
    abs(v) < max_mantissa() * pow10(28)
}

/// `x` divided by `d`, rounded half to even (banker's rounding).
pub open spec fn round_half_even(x: int, d: int) -> int {
    let q = x / d;
    let r = x % d;
    if 2 * r < d {
        q
    } else if 2 * r > d {
        q + 1
    } else if q % 2 == 0 {
        q
    } else {
        q + 1
    }
}

/// `Decimal::round_dp`: at most `dp` places, rounding half to even; a
/// decimal with no more than `dp` places is returned unchanged.
pub open spec fn round_dp_spec(a: (int, nat), dp: nat) -> (int, nat) {
    if a.1 <= dp {
        a
    } else {
        (round_half_even(a.0, pow10((a.1 - dp) as nat)), dp)
    }
}

/// 10^(a+b) = 10^a * 10^b.
pub proof fn lemma_pow10_add(a: nat, b: nat)
    ensures
        pow10(a + b) == pow10(a) * pow10(b),
    decreases b,
{
    if b > 0 {
        lemma_pow10_add(a, (b - 1) as nat);
        assert(pow10(a + b) == 10 * pow10((a + b - 1) as nat));
        let x = pow10(a);
        let y = pow10((b - 1) as nat);
        assert(10 * (x * y) == x * (10 * y)) by (nonlinear_arith);
    }
}

/// A multiple of `e * k` that is `m * e` makes `m` a multiple of `k`:
/// `m == k * (m / k)`.
proof fn lemma_factor_divides(m: int, e: int, k: int)
    requires
        e > 0,
        k > 0,
        (m * e) % (e * k) == 0,
    ensures
        m % k == 0,
        m == k * (m / k),
{
    let t = (m * e) / (e * k);
    assert(e * k > 0) by (nonlinear_arith)
        requires
            e > 0,
            k > 0,
    ;
    vstd::arithmetic::div_mod::lemma_fundamental_div_mod(m * e, e * k);
    assert(m * e == (e * k) * t);
    assert(m == k * t) by (nonlinear_arith)
        requires
            m * e == (e * k) * t,
            e > 0,
    ;
    vstd::arithmetic::div_mod::lemma_mod_multiples_basic(t, k);
    assert(t * k == k * t) by (nonlinear_arith);
    vstd::arithmetic::div_mod::lemma_div_multiples_vanish(t, k);
}

/// Rounding to `dp` places keeps the value of a decimal whose value is a
/// whole number of units of 10^-dp.
pub proof fn lemma_round_dp_exact(a: (int, nat), dp: nat)
    requires
        a.1 <= 28,
        dp <= 28,
        value(a) % pow10((28 - dp) as nat) == 0,
    ensures
        value(round_dp_spec(a, dp)) == value(a),
{
    if a.1 > dp {
        let k = (a.1 - dp) as nat;
        let e = (28 - a.1) as nat;
        lemma_pow10_add(e, k);
        assert(e + k == (28 - dp) as nat);
        let pe = pow10(e);
        let pk = pow10(k);
        lemma_pow10_pos(e);
        lemma_pow10_pos(k);
        lemma_factor_divides(a.0, pe, pk);
        let q = a.0 / pk;
        assert(a.0 % pk == 0);
        assert(round_half_even(a.0, pk) == q);
        assert(q * (pe * pk) == a.0 * pe) by (nonlinear_arith)
            requires
                a.0 == pk * q,
        ;
    }
}

/// The digits of a decimal's mantissa (none for zero), zero-padded on
/// the left to at least as many as its scale.
pub open spec fn dec_digits(a: (int, nat)) -> Seq<char> {
    let ds = if a.0 == 0 {
        Seq::<char>::empty()
    } else {
        nat_digits(abs(a.0) as nat)
    };
    let pad: nat = if ds.len() < a.1 {
        (a.1 - ds.len()) as nat
    } else {
        0
    };
    Seq::new(pad, |i: int| '0') + ds
}

/// The sign a decimal's text starts with: `-` for a negative one.
pub open spec fn sign_text(a: (int, nat)) -> Seq<char> {
    if a.0 < 0 {
        seq!['-']
    } else {
        Seq::empty()
    }
}

/// The digits before the decimal point, `0` where there are none.
pub open spec fn whole_text(a: (int, nat)) -> Seq<char> {
    let p = dec_digits(a);
    let w = p.take(p.len() - a.1);
    if w.len() == 0 {
        seq!['0']
    } else {
        w
    }
}

/// The digits after the decimal point: as many as the scale.
pub open spec fn fraction_text(a: (int, nat)) -> Seq<char> {
    let p = dec_digits(a);
    p.skip(p.len() - a.1)
}

/// The text that `format!("{:.2}", d)` gives: the sign, the whole digits,
/// a point and the first two fraction digits (cut off, not rounded,
/// zero-padded).
pub open spec fn dec_text_2dp(a: (int, nat)) -> Seq<char> {
    sign_text(a) + whole_text(a) + seq!['.'] + (fraction_text(a) + seq!['0', '0']).take(2)
}

/// The text that `Decimal`'s `Display` gives: the sign, the whole digits,
/// and where the scale is not zero a point and as many fraction digits as
/// the scale.
pub open spec fn dec_text(a: (int, nat)) -> Seq<char> {
    sign_text(a) + if a.1 == 0 {
        whole_text(a)
    } else {
        whole_text(a) + seq!['.'] + fraction_text(a)
    }
}

/// What `Decimal::checked_add` gives.
pub uninterp spec fn dec_checked_add(a: (int, nat), b: (int, nat)) -> Option<(int, nat)>;

/// What `Decimal::checked_sub` gives.
pub uninterp spec fn dec_checked_sub(a: (int, nat), b: (int, nat)) -> Option<(int, nat)>;

/// What `Decimal::checked_mul` gives.
pub uninterp spec fn dec_checked_mul(a: (int, nat), b: (int, nat)) -> Option<(int, nat)>;

/// What `Decimal::checked_div` gives.
pub uninterp spec fn dec_checked_div(a: (int, nat), b: (int, nat)) -> Option<(int, nat)>;

impl Amount {
    pub open spec fn wf(&self) -> bool {
        wf(self@)
    }

    pub open spec fn value(&self) -> int {
        value(self@)
    }

    /// `Decimal::new`: `num / 10^scale`.
    pub fn new(num: i64, scale: u32) -> (r: Amount)
        requires
            scale <= 28,
        ensures
            r@ == (num as int, scale as nat),
            r.wf(),
    {
        Amount { mantissa: num as i128, scale }
    }

    pub fn zero() -> (r: Amount)
        ensures
            r@ == (0int, 0nat),
            r.wf(),
            r.value() == 0,
    {
        Amount { mantissa: 0, scale: 0 }
    }

    /// The whole number `n`.
    pub fn from_int(n: i64) -> (r: Amount)
        ensures
            r@ == (n as int, 0nat),
            r.wf(),
    {
        Amount { mantissa: n as i128, scale: 0 }
    }

    /// `-a`: the mantissa negated, the scale kept.
    pub fn neg(self) -> (r: Amount)
        requires
            self.wf(),
        ensures
            r@ == (-self@.0, self@.1),
            r.wf(),
    {
        Amount { mantissa: -self.mantissa, scale: self.scale }
    }

    /// `Decimal::checked_add`: the sum that `+` gives, or `None` where `+`
    /// overflows; a sum whose value fits in 96 bits never overflows.
    #[verifier::external_body]
    pub(crate) fn checked_add(self, other: Amount) -> (r: Option<Amount>)
        requires
            self.wf(),
            other.wf(),
        ensures
            match r {
                Some(a) => dec_checked_add(self@, other@) == Some(a@) && a.wf(),
                None => dec_checked_add(self@, other@) is None,
            },
            in_range(self.value() + other.value()) ==> r is Some,
            r is Some && fits_at(self.value() + other.value(), max_nat(self@.1, other@.1)) ==> r->0.value()
                == self.value() + other.value(),
    {
        match Decimal::from_i128_with_scale(self.mantissa, self.scale).checked_add(
            Decimal::from_i128_with_scale(other.mantissa, other.scale),
        ) {
            Some(d) => Some(Amount { mantissa: d.mantissa(), scale: d.scale() }),
            None => None,
        }
    }

    /// `Decimal::checked_sub`: `None` where the difference overflows; a
    /// difference whose value fits in 96 bits never overflows.
    #[verifier::external_body]
    pub(crate) fn checked_sub(self, other: Amount) -> (r: Option<Amount>)
        requires
            self.wf(),
            other.wf(),
        ensures
            match r {
                Some(a) => dec_checked_sub(self@, other@) == Some(a@) && a.wf(),
                None => dec_checked_sub(self@, other@) is None,
            },
            in_range(self.value() - other.value()) ==> r is Some,
            r is Some && fits_at(self.value() - other.value(), max_nat(self@.1, other@.1)) ==> r->0.value()
                == self.value() - other.value(),
    {
        match Decimal::from_i128_with_scale(self.mantissa, self.scale).checked_sub(
            Decimal::from_i128_with_scale(other.mantissa, other.scale),
        ) {
            Some(d) => Some(Amount { mantissa: d.mantissa(), scale: d.scale() }),
            None => None,
        }
    }

    /// `Decimal::checked_mul`: `None` where the product overflows. A
    /// product whose integer part fits in 96 bits never overflows; a zero
    /// factor gives zero with scale 0, and otherwise a product whose
    /// mantissa fits at the summed scale is exact.
    #[verifier::external_body]
    pub(crate) fn checked_mul(self, other: Amount) -> (r: Option<Amount>)
        requires
            self.wf(),
            other.wf(),
        ensures
            match r {
                Some(a) => dec_checked_mul(self@, other@) == Some(a@) && a.wf(),
                None => dec_checked_mul(self@, other@) is None,
            },
            abs(self@.0 * other@.0) < max_mantissa() * pow10(self@.1 + other@.1) ==> r is Some,
            self@.0 == 0 || other@.0 == 0 ==> r is Some && r->0@ == (0int, 0nat),
            self@.0 != 0 && other@.0 != 0 && self@.1 + other@.1 <= 28 && abs(self@.0 * other@.0)
                <= max_mantissa() ==> r is Some && r->0@ == (self@.0 * other@.0, self@.1 + other@.1),
    {
        match Decimal::from_i128_with_scale(self.mantissa, self.scale).checked_mul(
            Decimal::from_i128_with_scale(other.mantissa, other.scale),
        ) {
            Some(d) => Some(Amount { mantissa: d.mantissa(), scale: d.scale() }),
            None => None,
        }
    }

    /// `Decimal::checked_div`: `None` for a zero divisor or an overflowing
    /// quotient. A quotient that can be held exactly is exact.
    #[verifier::external_body]
    pub(crate) fn checked_div(self, other: Amount) -> (r: Option<Amount>)
        requires
            self.wf(),
            other.wf(),
        ensures
            match r {
                Some(a) => dec_checked_div(self@, other@) == Some(a@) && a.wf(),
                None => dec_checked_div(self@, other@) is None,
            },
            other@.0 == 0 ==> r is None,
            other@.0 != 0 && abs(self@.0 * pow10(other@.1)) < max_mantissa() * abs(
                other@.0 * pow10(self@.1),
            ) ==> r is Some,
            other@.0 != 0 && (self.value() * pow10(28)) % other.value() == 0 && representable(
                (self.value() * pow10(28)) / other.value(),
            ) ==> r is Some && r->0.value() == (self.value() * pow10(28)) / other.value(),
    {
        match Decimal::from_i128_with_scale(self.mantissa, self.scale).checked_div(
            Decimal::from_i128_with_scale(other.mantissa, other.scale),
        ) {
            Some(d) => Some(Amount { mantissa: d.mantissa(), scale: d.scale() }),
            None => None,
        }
    }

    /// `Decimal::round_dp`: banker's rounding to `dp` places.
    #[verifier::external_body]
    pub(crate) fn round_dp(self, dp: u32) -> (r: Amount)
        requires
            self.wf(),
        ensures
            r@ == round_dp_spec(self@, dp as nat),
            r.wf(),
    {
        let d = Decimal::from_i128_with_scale(self.mantissa, self.scale).round_dp(dp);
        Amount { mantissa: d.mantissa(), scale: d.scale() }
    }

    /// `a < b` on the values.
    #[verifier::external_body]
    pub(crate) fn lt(self, other: Amount) -> (b: bool)
        requires
            self.wf(),
            other.wf(),
        ensures
            b == (self.value() < other.value()),
    {
        Decimal::from_i128_with_scale(self.mantissa, self.scale) < Decimal::from_i128_with_scale(
            other.mantissa,
            other.scale,
        )
    }

    /// `a == b` on the values.
    #[verifier::external_body]
    pub(crate) fn eq(self, other: Amount) -> (b: bool)
        requires
            self.wf(),
            other.wf(),
        ensures
            b == (self.value() == other.value()),
    {
        Decimal::from_i128_with_scale(self.mantissa, self.scale) == Decimal::from_i128_with_scale(
            other.mantissa,
            other.scale,
        )
    }

    /// `Decimal`'s `Display` text: the mantissa's digits with a point
    /// before the last `scale` of them (see `dec_text`).
    #[verifier::external_body]
    pub(crate) fn to_text(self) -> (r: String)
        requires
            self.wf(),
        ensures
            r@ == dec_text(self@),
    {
        Decimal::from_i128_with_scale(self.mantissa, self.scale).to_string()
    }

    /// `format!("{:.2}", d)`: two decimal places, further ones cut off
    /// (see `dec_text_2dp`).
    #[verifier::external_body]
    pub(crate) fn to_string_2dp(self) -> (r: String)
        requires
            self.wf(),
        ensures
            r@ == dec_text_2dp(self@),
    {
        format!("{:.2}", Decimal::from_i128_with_scale(self.mantissa, self.scale))
    }
}

} // verus!
