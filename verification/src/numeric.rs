//! Decimal text of integers: `i32::from_str` and the `Display` of integers,
//! stated over character sequences.
use vstd::prelude::*;

verus! {

pub open spec fn is_digit(c: char) -> bool {
    '0' <= c && c <= '9'
}

pub open spec fn all_digits(s: Seq<char>) -> bool {
    forall|i: int| 0 <= i < s.len() ==> is_digit(#[trigger] s[i])
}

pub open spec fn digit_value(c: char) -> int {
    c as int - '0' as int
}

/// The value of a run of decimal digits.
pub open spec fn digits_value(s: Seq<char>) -> int
    decreases s.len(),
{
    if s.len() == 0 {
        0
    } else {
        digits_value(s.drop_last()) * 10 + digit_value(s.last())
    }
}

/// `i32::from_str`: an optional `+` or `-`, then one or more ASCII digits,
/// and a value that fits in an `i32`.
pub open spec fn parse_i32_spec(s: Seq<char>) -> Option<i32> {
    let neg = s.len() > 0 && s[0] == '-';
    let body = if s.len() > 0 && (s[0] == '-' || s[0] == '+') {
        s.skip(1)
    } else {
        s
    };
    let v = if neg {
        -digits_value(body)
    } else {
        digits_value(body)
    };
    if body.len() == 0 || !all_digits(body) || v < i32::MIN || v > i32::MAX {
        None
    } else {
        Some(v as i32)
    }
}

pub proof fn lemma_digits_value_nonneg(s: Seq<char>)
    requires
        all_digits(s),
    ensures
        digits_value(s) >= 0,
    decreases s.len(),
{
    if s.len() > 0 {
        assert(all_digits(s.drop_last())) by {
            assert forall|i: int| 0 <= i < s.drop_last().len() implies is_digit(
                #[trigger] s.drop_last()[i],
            ) by {
                assert(s.drop_last()[i] == s[i]);
            }
        }
        lemma_digits_value_nonneg(s.drop_last());
        assert(is_digit(s[s.len() - 1]));
    }
}

/// Longer digit runs never have smaller values.
pub proof fn lemma_digits_value_prefix(s: Seq<char>, k: int)
    requires
        all_digits(s),
        0 <= k <= s.len(),
    ensures
        digits_value(s.take(k)) <= digits_value(s),
    decreases s.len() - k,
{
    if k < s.len() {
        lemma_digits_value_prefix(s, k + 1);
        let p = s.take(k + 1);
        assert(p.drop_last() =~= s.take(k));
        assert(all_digits(s.take(k))) by {
            assert forall|i: int| 0 <= i < s.take(k).len() implies is_digit(
                #[trigger] s.take(k)[i],
            ) by {
                assert(s.take(k)[i] == s[i]);
            }
        }
        lemma_digits_value_nonneg(s.take(k));
        assert(is_digit(s[k]));
        assert(p.last() == s[k]);
    } else {
        assert(s.take(k) =~= s);
    }
}

/// `i32::from_str` on a character vector.
pub fn parse_i32(s: &Vec<char>) -> (r: Option<i32>)
    ensures
        r == parse_i32_spec(s@),
{
    let len = s.len();
    if len == 0 {
        return None;
    }
    let neg = s[0] == '-';
    let start: usize = if s[0] == '-' || s[0] == '+' {
        1
    } else {
        0
    };
    let ghost body = s@.skip(start as int);
    assert(body =~= (if s@.len() > 0 && (s@[0] == '-' || s@[0] == '+') {
        s@.skip(1)
    } else {
        s@
    }));
    if start == len {
        return None;
    }
    let mut i: usize = start;
    while i < len
        invariant
            start <= i <= len,
            len == s.len(),
            body == s@.skip(start as int),
            body =~= (if s@.len() > 0 && (s@[0] == '-' || s@[0] == '+') {
                s@.skip(1)
            } else {
                s@
            }),
            forall|j: int| 0 <= j < i - start ==> is_digit(#[trigger] body[j]),
        decreases len - i,
    {
        if !('0' <= s[i] && s[i] <= '9') {
            assert(!is_digit(body[i - start]));
            return None;
        }
        i = i + 1;
    }
    assert(all_digits(body));
    let limit: i64 = if neg {
        2147483648
    } else {
        2147483647
    };
    let mut acc: i64 = 0;
    let mut j: usize = start;
    assert(body.take(0) =~= Seq::<char>::empty());
    while j < len
        invariant
            start <= j <= len,
            len == s.len(),
            body == s@.skip(start as int),
            all_digits(body),
            0 <= acc <= limit,
            neg == (s@[0] == '-'),
            body =~= (if s@.len() > 0 && (s@[0] == '-' || s@[0] == '+') {
                s@.skip(1)
            } else {
                s@
            }),
            limit == (if neg {
                2147483648i64
            } else {
                2147483647i64
            }),
            acc == digits_value(body.take(j - start)),
        decreases len - j,
    {
        assert(is_digit(body[j - start]));
        assert(body[j - start] == s@[j as int]);
        let d = (s[j] as u32 - '0' as u32) as i64;
        assert(body.take(j + 1 - start).drop_last() =~= body.take(j - start));
        assert(body.take(j + 1 - start).last() == s@[j as int]);
        let next = acc * 10 + d;
        if next > limit {
            proof {
                lemma_digits_value_prefix(body, j + 1 - start);
            }
            return None;
        }
        acc = next;
        j = j + 1;
    }
    assert(body.take(len - start) =~= body);
    if neg {
        Some((0 - acc) as i32)
    } else {
        Some(acc as i32)
    }
}

/// `u64::from_str` / `u16::from_str` with the type's maximum `max`: an
/// optional `+`, then one or more ASCII digits, and a value of at most
/// `max`.
pub open spec fn parse_uint_spec(s: Seq<char>, max: int) -> Option<int> {
    let body = if s.len() > 0 && s[0] == '+' {
        s.skip(1)
    } else {
        s
    };
    if body.len() == 0 || !all_digits(body) || digits_value(body) > max {
        None
    } else {
        Some(digits_value(body))
    }
}

/// Unsigned parsing with the type's maximum `max`.
pub fn parse_uint(s: &Vec<char>, max: u64) -> (r: Option<u64>)
    ensures
        match parse_uint_spec(s@, max as int) {
            Some(v) => r == Some(v as u64) && 0 <= v <= max,
            None => r is None,
        },
{
    let len = s.len();
    if len == 0 {
        return None;
    }
    let start: usize = if s[0] == '+' {
        1
    } else {
        0
    };
    let ghost body = s@.skip(start as int);
    assert(body =~= (if s@.len() > 0 && s@[0] == '+' {
        s@.skip(1)
    } else {
        s@
    }));
    if start == len {
        return None;
    }
    let mut i: usize = start;
    while i < len
        invariant
            start <= i <= len,
            len == s.len(),
            body == s@.skip(start as int),
            body =~= (if s@.len() > 0 && s@[0] == '+' {
                s@.skip(1)
            } else {
                s@
            }),
            forall|j: int| 0 <= j < i - start ==> is_digit(#[trigger] body[j]),
        decreases len - i,
    {
        if !('0' <= s[i] && s[i] <= '9') {
            assert(!is_digit(body[i - start]));
            return None;
        }
        i = i + 1;
    }
    assert(all_digits(body));
    let mut acc: u64 = 0;
    let mut j: usize = start;
    assert(body.take(0) =~= Seq::<char>::empty());
    while j < len
        invariant
            start <= j <= len,
            len == s.len(),
            body == s@.skip(start as int),
            all_digits(body),
            body =~= (if s@.len() > 0 && s@[0] == '+' {
                s@.skip(1)
            } else {
                s@
            }),
            acc <= max,
            acc == digits_value(body.take(j - start)),
        decreases len - j,
    {
        assert(is_digit(body[j - start]));
        assert(body[j - start] == s@[j as int]);
        let d = (s[j] as u32 - '0' as u32) as u64;
        assert(body.take(j + 1 - start).drop_last() =~= body.take(j - start));
        assert(body.take(j + 1 - start).last() == s@[j as int]);
        let next: u128 = (acc as u128) * 10 + (d as u128);
        if next > max as u128 {
            proof {
                lemma_digits_value_prefix(body, j + 1 - start);
            }
            return None;
        }
        acc = next as u64;
        j = j + 1;
    }
    assert(body.take(len - start) =~= body);
    Some(acc)
}

/// The decimal digits of a natural number, most significant first.
pub open spec fn nat_digits(n: nat) -> Seq<char>
    decreases n,
{
    if n < 10 {
        seq![(n + 48) as char]
    } else {
        nat_digits(n / 10).push(((n % 10) + 48) as char)
    }
}

/// The `Display` text of an integer: a `-` for negative values, then the
/// digits of its magnitude.
pub open spec fn int_text(n: int) -> Seq<char> {
    if n < 0 {
        seq!['-'] + nat_digits((-n) as nat)
    } else {
        nat_digits(n as nat)
    }
}

/// Appends the decimal digits of `n`.
pub fn push_digits(out: &mut Vec<char>, n: u64)
    ensures
        final(out)@ == old(out)@ + nat_digits(n as nat),
    decreases n,
{
    if n >= 10 {
        push_digits(out, n / 10);
    }
    let d = (n % 10) as u8;
    out.push((d + 48) as char);
    assert(out@ =~= old(out)@ + nat_digits(n as nat));
}

/// Appends the `Display` text of `n`.
pub fn push_i64(out: &mut Vec<char>, n: i64)
    ensures
        final(out)@ == old(out)@ + int_text(n as int),
{
    if n < 0 {
        out.push('-');
        let m: u64 = if n == i64::MIN {
            9223372036854775808u64
        } else {
            (0 - n) as u64
        };
        let ghost mid = out@;
        push_digits(out, m);
        assert(out@ =~= old(out)@ + int_text(n as int));
    } else {
        push_digits(out, n as u64);
    }
}

/// The digits of a natural number are digits, at least one, and read back
/// as the number.
pub proof fn lemma_nat_digits_value(k: nat)
    ensures
        nat_digits(k).len() > 0,
        all_digits(nat_digits(k)),
        digits_value(nat_digits(k)) == k,
    decreases k,
{
    if k >= 10 {
        lemma_nat_digits_value(k / 10);
        let s = nat_digits(k / 10);
        let c = ((k % 10) + 48) as char;
        assert(nat_digits(k) == s.push(c));
        assert(s.push(c).drop_last() =~= s);
        assert(is_digit(c));
        assert(c as int == (k % 10) + 48);
        assert(digit_value(c) == k % 10);
        assert(digits_value(s.push(c)) == digits_value(s) * 10 + digit_value(c));
        assert((k / 10) * 10 + k % 10 == k);
        assert(digits_value(nat_digits(k)) == k);
        assert forall|i: int| 0 <= i < s.push(c).len() implies is_digit(#[trigger] s.push(c)[i]) by {
            if i < s.len() {
                assert(s.push(c)[i] == s[i]);
            }
        }
    } else {
        assert(is_digit((k + 48) as char));
        assert(((k + 48) as char) as int == k + 48);
        let t = seq![(k + 48) as char];
        assert(t.drop_last() =~= Seq::<char>::empty());
        assert(t.last() == (k + 48) as char);
        assert(digits_value(t.drop_last()) == 0);
        assert(digits_value(t) == k);
        assert(nat_digits(k) == t);
    }
}

/// An integer's text reads back as the integer: `i32::from_str` of the
/// `Display` of any `i32` gives it back.
pub proof fn lemma_int_text_round_trip(n: i32)
    ensures
        parse_i32_spec(int_text(n as int)) == Some(n),
{
    if n < 0 {
        let d = nat_digits((-n) as nat);
        lemma_nat_digits_value((-n) as nat);
        let t = seq!['-'] + d;
        assert(t.skip(1) =~= d);
        assert(t[0] == '-');
    } else {
        let d = nat_digits(n as nat);
        lemma_nat_digits_value(n as nat);
        assert(is_digit(d[0]));
    }
}
/// A number below ten thousand has at most four digits.
pub proof fn lemma_nat_digits_len(k: nat)
    ensures
        k < 10 ==> nat_digits(k).len() == 1,
        k < 100 ==> nat_digits(k).len() <= 2,
        k < 1000 ==> nat_digits(k).len() <= 3,
        k < 10000 ==> nat_digits(k).len() <= 4,
    decreases k,
{
    if k >= 10 {
        lemma_nat_digits_len(k / 10);
    }
}
} // verus!
