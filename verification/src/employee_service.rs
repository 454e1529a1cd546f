//! Employees: validation of the Swiss social-security (AHV) number, and
//! the next number in a sequence of employee or customer numbers.
use vstd::prelude::*;

use crate::error::{AppError, ErrorKind};
use crate::numeric::{int_text, is_digit, parse_i32, parse_i32_spec, push_i64};
use crate::text::{chars_of, push_str, string_of};

verus! {

pub struct EmployeeService;

/// The digits of `s`, in order (every other character dropped).
pub open spec fn digits_of(s: Seq<char>) -> Seq<char>
    decreases s.len(),
{
    if s.len() == 0 {
        seq![]
    } else if is_digit(s.last()) {
        digits_of(s.drop_last()).push(s.last())
    } else {
        digits_of(s.drop_last())
    }
}

/// A valid AHV number has 13 digits, the first three being "756"; the dots
/// of the usual 756.XXXX.XXXX.XX form (and any other non-digit) are ignored.
pub open spec fn ahv_valid(s: Seq<char>) -> bool {
    let d = digits_of(s);
    d.len() == 13 && d[0] == '7' && d[1] == '5' && d[2] == '6'
}

pub open spec fn ahv_error_message() -> Seq<char> {
    "Invalid AHV number. Expected format: 756.XXXX.XXXX.XX"@
}

/// `n` without the prefix `p`, where it starts with it.
pub open spec fn strip_prefix_spec(n: Seq<char>, p: Seq<char>) -> Option<Seq<char>> {
    if p.len() <= n.len() && n.take(p.len() as int) == p {
        Some(n.skip(p.len() as int))
    } else {
        None
    }
}

/// The number an existing number carries after the prefix, where it has
/// the prefix and the rest reads as an `i32`.
pub open spec fn numbered(n: Option<String>, p: Seq<char>) -> Option<i32> {
    match n {
        None => None,
        Some(x) => match strip_prefix_spec(x@, p) {
            None => None,
            Some(rest) => parse_i32_spec(rest),
        },
    }
}

/// The largest such number among the existing ones, if there is one.
pub open spec fn max_numbered(existing: Seq<Option<String>>, p: Seq<char>) -> Option<i32>
    decreases existing.len(),
{
    if existing.len() == 0 {
        None
    } else {
        match (max_numbered(existing.drop_last(), p), numbered(existing.last(), p)) {
            (Some(a), Some(b)) => Some(if a >= b { a } else { b }),
            (Some(a), None) => Some(a),
            (None, b) => b,
        }
    }
}

/// `s` padded on the left with `0` to at least `width` characters.
pub open spec fn zero_padded(s: Seq<char>, width: int) -> Seq<char> {
    if s.len() < width {
        Seq::new((width - s.len()) as nat, |i: int| '0') + s
    } else {
        s
    }
}

/// The next number after the existing ones that carry the prefix: the
/// prefix, then one more than the largest of them (or `start` where there
/// is none), zero-padded to `min_length`. `None` where `start - 1` or the
/// increment overflows.
pub open spec fn next_number_spec(
    existing: Seq<Option<String>>,
    prefix: Seq<char>,
    start: i32,
    min_length: int,
) -> Option<Seq<char>> {
    if start == i32::MIN {
        None
    } else {
        let m: int = match max_numbered(existing, prefix) {
            Some(x) => x as int,
            None => start - 1,
        };
        if m + 1 > i32::MAX {
            None
        } else {
            Some(prefix + zero_padded(int_text(m + 1), min_length))
        }
    }
}

/// The prefix of the numbers: `{prefix}{year}-` where numbering restarts
/// every year, else the prefix alone.
pub open spec fn number_prefix(prefix: Seq<char>, year: Seq<char>, restart_yearly: bool) -> Seq<
    char,
> {
    if restart_yearly {
        prefix + year + "-"@
    } else {
        prefix
    }
}

/// Whether `cs` starts with `p`.
fn starts_with_chars(cs: &Vec<char>, p: &Vec<char>) -> (b: bool)
    ensures
        b == (p.len() <= cs.len() && cs@.take(p.len() as int) == p@),
{
    if p.len() > cs.len() {
        return false;
    }
    let mut i: usize = 0;
    while i < p.len()
        invariant
            i <= p.len() <= cs.len(),
            cs@.take(i as int) == p@.take(i as int),
        decreases p.len() - i,
    {
        if cs[i] != p[i] {
            assert(cs@.take(p.len() as int)[i as int] != p@[i as int]);
            return false;
        }
        assert(cs@.take(i + 1) =~= cs@.take(i as int).push(cs@[i as int]));
        assert(p@.take(i + 1) =~= p@.take(i as int).push(p@[i as int]));
        i += 1;
    }
    assert(p@.take(p.len() as int) =~= p@);
    true
}

/// The characters of `cs` from `k` on.
fn skip_chars(cs: &Vec<char>, k: usize) -> (r: Vec<char>)
    requires
        k <= cs.len(),
    ensures
        r@ == cs@.skip(k as int),
{
    let mut rest: Vec<char> = Vec::new();
    let mut j: usize = k;
    while j < cs.len()
        invariant
            k <= j <= cs.len(),
            rest@ == cs@.subrange(k as int, j as int),
        decreases cs.len() - j,
    {
        rest.push(cs[j]);
        assert(rest@ =~= cs@.subrange(k as int, j + 1));
        j += 1;
    }
    assert(rest@ =~= cs@.skip(k as int));
    rest
}

/// The number of an existing record, read as in `numbered`.
fn number_of(n: &Option<String>, p: &Vec<char>) -> (r: Option<i32>)
    ensures
        r == numbered(*n, p@),
{
    match n {
        None => None,
        Some(x) => {
            let cs = chars_of(x.as_str());
            if !starts_with_chars(&cs, p) {
                return None;
            }
            let rest = skip_chars(&cs, p.len());
            parse_i32(&rest)
        },
    }
}

proof fn lemma_prefix_max(existing: Seq<Option<String>>, p: Seq<char>, k: int)
    requires
        0 <= k < existing.len(),
    ensures
        existing.take(k + 1).drop_last() == existing.take(k),
        existing.take(k + 1).last() == existing[k],
{
    assert(existing.take(k + 1).drop_last() =~= existing.take(k));
}

/// The next number in a sequence of numbers: see `next_number_spec`.
pub fn next_number(existing: &Vec<Option<String>>, prefix: &str, start: i32, min_length: usize) -> (r:
    Option<String>)
    ensures
        match next_number_spec(existing@, prefix@, start, min_length as int) {
            Some(n) => r matches Some(x) && x@ == n,
            None => r is None,
        },
{
    if start == i32::MIN {
        return None;
    }
    let p = chars_of(prefix);
    let mut best: Option<i32> = None;
    let mut i: usize = 0;
    while i < existing.len()
        invariant
            i <= existing.len(),
            p@ == prefix@,
            best == max_numbered(existing@.take(i as int), p@),
        decreases existing.len() - i,
    {
        proof {
            lemma_prefix_max(existing@, p@, i as int);
        }
        let n = number_of(&existing[i], &p);
        best = match (best, n) {
            (Some(a), Some(b)) => Some(if a >= b { a } else { b }),
            (Some(a), None) => Some(a),
            (None, b) => b,
        };
        i += 1;
    }
    assert(existing@.take(existing.len() as int) =~= existing@);
    let m: i32 = match best {
        Some(x) => x,
        None => start - 1,
    };
    if m == i32::MAX {
        return None;
    }
    let next = m + 1;
    let mut digits: Vec<char> = Vec::new();
    push_i64(&mut digits, next as i64);
    assert(digits@ =~= int_text(next as int));
    let mut out = p;
    let mut k: usize = digits.len();
    while k < min_length
        invariant
            digits.len() <= k <= min_length || (k == digits.len() && min_length < k),
            out@ == prefix@ + Seq::new((k - digits.len()) as nat, |i: int| '0'),
        decreases min_length - k,
    {
        out.push('0');
        assert(out@ =~= prefix@ + Seq::new((k + 1 - digits.len()) as nat, |i: int| '0'));
        k += 1;
    }
    let ghost pad = out@;
    let mut t: usize = 0;
    while t < digits.len()
        invariant
            t <= digits.len(),
            out@ == pad + digits@.take(t as int),
        decreases digits.len() - t,
    {
        out.push(digits[t]);
        assert(out@ =~= pad + digits@.take(t + 1));
        t += 1;
    }
    assert(digits@.take(digits.len() as int) =~= digits@);
    assert(out@ =~= prefix@ + zero_padded(int_text(next as int), min_length as int));
    Some(string_of(&out))
}

/// `{prefix}{year}-` where numbering restarts every year, else the
/// prefix.
pub fn year_prefix(prefix: &str, year: &str, restart_yearly: bool) -> (r: String)
    ensures
        r@ == number_prefix(prefix@, year@, restart_yearly),
{
    let mut v = chars_of(prefix);
    if restart_yearly {
        push_str(&mut v, year);
        push_str(&mut v, "-");
    }
    string_of(&v)
}

impl EmployeeService {
    /// The next employee number where automatic numbering is on (`None`
    /// where it is off): the prefix, with the year where numbering restarts
    /// every year, then the next number (see `next_number`). Also `None`
    /// where the number overflows.
    pub fn auto_assign_number(
        auto: bool,
        existing: &Vec<Option<String>>,
        prefix: &str,
        year: &str,
        restart_yearly: bool,
        start: i32,
        min_length: usize,
    ) -> (r: Option<String>)
        ensures
            !auto ==> r is None,
            auto ==> match next_number_spec(
                existing@,
                number_prefix(prefix@, year@, restart_yearly),
                start,
                min_length as int,
            ) {
                Some(n) => r matches Some(x) && x@ == n,
                None => r is None,
            },
    {
        if !auto {
            return None;
        }
        let p = year_prefix(prefix, year, restart_yearly);
        next_number(existing, p.as_str(), start, min_length)
    }
}

impl EmployeeService {
    /// Validates a Swiss AHV number (format 756.XXXX.XXXX.XX).
    pub fn validate_ahv(ahv: &str) -> (r: Result<(), AppError>)
        ensures
            ahv_valid(ahv@) ==> r is Ok,
            !ahv_valid(ahv@) ==> (r matches Err(e) && e.kind_and_message() == (
                ErrorKind::BadRequest,
                ahv_error_message(),
            )),
    {
        let chars = chars_of(ahv);
        let mut stripped: Vec<char> = Vec::new();
        let mut i: usize = 0;
        while i < chars.len()
            invariant
                i <= chars.len(),
                chars@ == ahv@,
                stripped@ == digits_of(chars@.take(i as int)),
            decreases chars.len() - i,
        {
            assert(chars@.take(i + 1).drop_last() =~= chars@.take(i as int));
            if '0' <= chars[i] && chars[i] <= '9' {
                stripped.push(chars[i]);
            }
            i = i + 1;
        }
        assert(chars@.take(chars.len() as int) =~= chars@);
        if stripped.len() != 13 || !(stripped[0] == '7' && stripped[1] == '5' && stripped[2] == '6') {
            return Err(
                AppError::BadRequest(
                    "Invalid AHV number. Expected format: 756.XXXX.XXXX.XX".to_owned(),
                ),
            );
        }
        Ok(())
    }
}

} // verus!
