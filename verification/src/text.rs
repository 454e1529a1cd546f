//! Character-sequence helpers shared by the parsers and renderers:
//! whitespace trimming, searching, slicing and the conversions between
//! `str`/`String` and vectors of characters.
use vstd::prelude::*;

verus! {

// ---------------------------------------------------------------------------
// Conversions between strings and character vectors
// ---------------------------------------------------------------------------

/// `str::chars` collected into a vector: the characters of `s`, in order.
#[verifier::external_body]
pub(crate) fn chars_of(s: &str) -> (r: Vec<char>)
    ensures
        r@ == s@,
{
    s.chars().collect()
}

/// Collecting characters into a `String` (`FromIterator<char>`): the string
/// holds exactly the given characters, in order.
#[verifier::external_body]
pub(crate) fn string_of(v: &Vec<char>) -> (r: String)
    ensures
        r@ == v@,
{
    v.iter().collect()
}

// ---------------------------------------------------------------------------
// Whitespace and trimming
// ---------------------------------------------------------------------------

/// The Unicode `White_Space` property, which `char::is_whitespace` and
/// `str::trim` use.
pub open spec fn is_ws(c: char) -> bool {
    ||| ('\u{9}' <= c && c <= '\u{d}')
    ||| c == ' '
    ||| c == '\u{85}'
    ||| c == '\u{a0}'
    ||| c == '\u{1680}'
    ||| ('\u{2000}' <= c && c <= '\u{200a}')
    ||| c == '\u{2028}'
    ||| c == '\u{2029}'
    ||| c == '\u{202f}'
    ||| c == '\u{205f}'
    ||| c == '\u{3000}'
}

pub fn is_whitespace(c: char) -> (b: bool)
    ensures
        b == is_ws(c),
{
    ('\u{9}' <= c && c <= '\u{d}') || c == ' ' || c == '\u{85}' || c == '\u{a0}' || c
        == '\u{1680}' || ('\u{2000}' <= c && c <= '\u{200a}') || c == '\u{2028}' || c
        == '\u{2029}' || c == '\u{202f}' || c == '\u{205f}' || c == '\u{3000}'
}

/// Leading whitespace removed.
pub open spec fn trim_start(s: Seq<char>) -> Seq<char>
    decreases s.len(),
{
    if s.len() > 0 && is_ws(s[0]) {
        trim_start(s.skip(1))
    } else {
        s
    }
}

/// Trailing whitespace removed.
pub open spec fn trim_end(s: Seq<char>) -> Seq<char>
    decreases s.len(),
{
    if s.len() > 0 && is_ws(s.last()) {
        trim_end(s.drop_last())
    } else {
        s
    }
}

/// `str::trim`: leading and trailing whitespace removed.
pub open spec fn trim(s: Seq<char>) -> Seq<char> {
    trim_end(trim_start(s))
}

/// A copy of `v[from..to]`.
pub fn slice_chars(v: &Vec<char>, from: usize, to: usize) -> (r: Vec<char>)
    requires
        from <= to <= v.len(),
    ensures
        r@ == v@.subrange(from as int, to as int),
{
    let mut r: Vec<char> = Vec::new();
    let mut i: usize = from;
    while i < to
        invariant
            from <= i <= to <= v.len(),
            r@ == v@.subrange(from as int, i as int),
        decreases to - i,
    {
        r.push(v[i]);
        i = i + 1;
    }
    r
}

/// `str::trim` on a character vector.
pub fn trim_chars(v: &Vec<char>) -> (r: Vec<char>)
    ensures
        r@ == trim(v@),
{
    let ghost s = v@;
    let mut lo: usize = 0;
    assert(s.skip(0) =~= s);
    while lo < v.len() && is_whitespace(v[lo as usize])
        invariant
            lo <= v.len(),
            s == v@,
            trim_start(s) == trim_start(s.skip(lo as int)),
        decreases v.len() - lo,
    {
        assert(s.skip(lo as int).skip(1) =~= s.skip(lo + 1));
        lo = lo + 1;
    }
    assert(trim_start(s) == s.skip(lo as int));
    let ghost t = s.skip(lo as int);
    let mut hi: usize = v.len();
    assert(t.take(hi - lo) =~= t);
    while hi > lo && is_whitespace(v[hi - 1])
        invariant
            lo <= hi <= v.len(),
            s == v@,
            t == s.skip(lo as int),
            trim_end(t) == trim_end(t.take(hi - lo)),
        decreases hi - lo,
    {
        assert(t.take(hi - lo).drop_last() =~= t.take(hi - 1 - lo));
        assert(t.take(hi - lo).last() == v@[hi - 1]);
        hi = hi - 1;
    }
    assert(t.take(hi - lo) =~= s.subrange(lo as int, hi as int));
    slice_chars(v, lo, hi)
}

// ---------------------------------------------------------------------------
// Searching
// ---------------------------------------------------------------------------

/// The first index `k >= start` with `s[k] == c`.
pub open spec fn find_char_from(s: Seq<char>, start: int, c: char) -> Option<int>
    decreases s.len() - start,
{
    if start < 0 || start >= s.len() {
        None
    } else if s[start] == c {
        Some(start)
    } else {
        find_char_from(s, start + 1, c)
    }
}

/// The first index `k >= start` with `s[k] == a` and `s[k + 1] == b`.
pub open spec fn find_pair_from(s: Seq<char>, start: int, a: char, b: char) -> Option<int>
    decreases s.len() - start,
{
    if start < 0 || start + 1 >= s.len() {
        None
    } else if s[start] == a && s[start + 1] == b {
        Some(start)
    } else {
        find_pair_from(s, start + 1, a, b)
    }
}

pub proof fn lemma_find_char_from(s: Seq<char>, start: int, c: char)
    ensures
        find_char_from(s, start, c) matches Some(k) ==> start <= k < s.len() && s[k] == c && (
        forall|j: int| start <= j < k ==> s[j] != c),
        find_char_from(s, start, c) is None ==> forall|j: int|
            0 <= start <= j < s.len() ==> s[j] != c,
    decreases s.len() - start,
{
    if 0 <= start < s.len() && s[start] != c {
        lemma_find_char_from(s, start + 1, c);
    }
}

pub proof fn lemma_find_pair_from(s: Seq<char>, start: int, a: char, b: char)
    ensures
        find_pair_from(s, start, a, b) matches Some(k) ==> start <= k && k + 1 < s.len() && s[k]
            == a && s[k + 1] == b,
    decreases s.len() - start,
{
    if 0 <= start && start + 1 < s.len() && !(s[start] == a && s[start + 1] == b) {
        lemma_find_pair_from(s, start + 1, a, b);
    }
}

/// Searching a suffix is searching the whole sequence, shifted.
pub proof fn lemma_find_char_from_skip(s: Seq<char>, p: int, c: char)
    requires
        0 <= p <= s.len(),
    ensures
        find_char_from(s.skip(p), 0, c) == (match find_char_from(s, p, c) {
            Some(k) => Some(k - p),
            None => None,
        }),
{
    lemma_find_char_from_skip_at(s, p, p, c);
}

proof fn lemma_find_char_from_skip_at(s: Seq<char>, p: int, start: int, c: char)
    requires
        0 <= p <= start,
        p <= s.len(),
    ensures
        find_char_from(s.skip(p), start - p, c) == (match find_char_from(s, start, c) {
            Some(k) => Some(k - p),
            None => None,
        }),
    decreases s.len() - start,
{
    if start < s.len() && s[start] != c {
        lemma_find_char_from_skip_at(s, p, start + 1, c);
    }
}

/// The first index `k >= start` holding `'-'` or `'_'`.
pub open spec fn first_dash_or_underscore(s: Seq<char>, start: int) -> Option<int>
    decreases s.len() - start,
{
    if start < 0 || start >= s.len() {
        None
    } else if s[start] == '-' || s[start] == '_' {
        Some(start)
    } else {
        first_dash_or_underscore(s, start + 1)
    }
}

pub fn find_dash_or_underscore(v: &Vec<char>) -> (r: Option<usize>)
    ensures
        match r {
            Some(k) => first_dash_or_underscore(v@, 0) == Some(k as int) && k < v.len(),
            None => first_dash_or_underscore(v@, 0) is None,
        },
{
    let mut i: usize = 0;
    while i < v.len()
        invariant
            i <= v.len(),
            first_dash_or_underscore(v@, 0) == first_dash_or_underscore(v@, i as int),
        decreases v.len() - i,
    {
        if v[i] == '-' || v[i] == '_' {
            return Some(i);
        }
        i = i + 1;
    }
    None
}

/// `char::to_ascii_lowercase`.
pub open spec fn ascii_lower_char(c: char) -> char {
    if 'A' <= c && c <= 'Z' {
        (c as u32 + 32) as char
    } else {
        c
    }
}

/// `str::to_ascii_lowercase`.
pub open spec fn ascii_lower(s: Seq<char>) -> Seq<char> {
    s.map_values(|c: char| ascii_lower_char(c))
}

pub fn to_ascii_lowercase_char(c: char) -> (r: char)
    ensures
        r == ascii_lower_char(c),
{
    if 'A' <= c && c <= 'Z' {
        ((c as u8) + 32) as char
    } else {
        c
    }
}

pub fn to_ascii_lowercase_chars(v: &Vec<char>) -> (r: Vec<char>)
    ensures
        r@ == ascii_lower(v@),
{
    let mut r: Vec<char> = Vec::new();
    let mut i: usize = 0;
    while i < v.len()
        invariant
            i <= v.len(),
            r@ == ascii_lower(v@.take(i as int)),
        decreases v.len() - i,
    {
        r.push(to_ascii_lowercase_char(v[i]));
        assert(ascii_lower(v@.take(i + 1)) =~= ascii_lower(v@.take(i as int)).push(
            ascii_lower_char(v@[i as int]),
        ));
        i = i + 1;
    }
    assert(v@.take(v.len() as int) =~= v@);
    r
}

/// Whether `v` holds exactly the characters of `lit`.
pub fn chars_eq(v: &Vec<char>, lit: &str) -> (b: bool)
    ensures
        b == (v@ == lit@),
{
    let l = chars_of(lit);
    if v.len() != l.len() {
        return false;
    }
    let mut i: usize = 0;
    while i < v.len()
        invariant
            i <= v.len() == l.len(),
            l@ == lit@,
            forall|j: int| 0 <= j < i ==> v@[j] == l@[j],
        decreases v.len() - i,
    {
        if v[i] != l[i] {
            assert(v@[i as int] != l@[i as int]);
            return false;
        }
        i = i + 1;
    }
    assert(v@ =~= l@);
    true
}

/// Whether two string slices hold the same characters.
pub fn str_eq(a: &str, b: &str) -> (r: bool)
    ensures
        r == (a@ == b@),
{
    let v = chars_of(a);
    chars_eq(&v, b)
}

/// Appends all of `src` to `dst`.
pub fn push_all(dst: &mut Vec<char>, src: &Vec<char>)
    ensures
        final(dst)@ == old(dst)@ + src@,
{
    let mut i: usize = 0;
    let ghost d0 = dst@;
    while i < src.len()
        invariant
            i <= src.len(),
            dst@ == d0 + src@.take(i as int),
        decreases src.len() - i,
    {
        assert(src@.take(i + 1) =~= src@.take(i as int).push(src@[i as int]));
        dst.push(src[i]);
        i = i + 1;
    }
    assert(src@.take(src.len() as int) =~= src@);
}

/// Appends the characters of a string slice to `dst`.
pub fn push_str(dst: &mut Vec<char>, s: &str)
    ensures
        final(dst)@ == old(dst)@ + s@,
{
    let cs = chars_of(s);
    push_all(dst, &cs);
}

} // verus!
