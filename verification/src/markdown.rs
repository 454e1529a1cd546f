//! Conversion of the small Markdown subset used in free-text fields
//! (bold, italic, bullet and ordered lists, line breaks) into Typst markup.
use vstd::prelude::*;

use crate::text::{
    chars_of, find_char_from, find_pair_from, lemma_find_char_from, lemma_find_char_from_skip,
    lemma_find_pair_from, push_all, slice_chars, string_of, trim, trim_chars,
};

verus! {

// ---------------------------------------------------------------------------
// Specification
// ---------------------------------------------------------------------------

/// Characters that Typst gives a meaning to and that are escaped with a
/// backslash.
pub open spec fn needs_escape(c: char) -> bool {
    c == '#' || c == '@' || c == '<' || c == '>' || c == '$' || c == '\\'
}

pub open spec fn esc_char(c: char) -> Seq<char> {
    if needs_escape(c) {
        seq!['\\', c]
    } else {
        seq![c]
    }
}

/// Every special character of `s` preceded by a backslash.
pub open spec fn esc_seq(s: Seq<char>) -> Seq<char>
    decreases s.len(),
{
    if s.len() == 0 {
        seq![]
    } else {
        esc_seq(s.drop_last()) + esc_char(s.last())
    }
}

/// Inline conversion of `s[i..]`: `**x**` becomes `*x*`, `*x*` becomes
/// `_x_` (the inner text escaped), any other character is escaped.
pub open spec fn inline_from(s: Seq<char>, i: int) -> Seq<char>
    decreases s.len() - i,
{
    if i < 0 || i >= s.len() {
        seq![]
    } else if i + 1 < s.len() && s[i] == '*' && s[i + 1] == '*' && find_pair_from(
        s,
        i + 2,
        '*',
        '*',
    ) is Some {
        let end = find_pair_from(s, i + 2, '*', '*')->0;
        proof {
            lemma_find_pair_from(s, i + 2, '*', '*');
        }
        seq!['*'] + esc_seq(s.subrange(i + 2, end)) + seq!['*'] + inline_from(s, end + 2)
    } else if s[i] == '*' && find_char_from(s, i + 1, '*') is Some {
        let end = find_char_from(s, i + 1, '*')->0;
        proof {
            lemma_find_char_from(s, i + 1, '*');
        }
        seq!['_'] + esc_seq(s.subrange(i + 1, end)) + seq!['_'] + inline_from(s, end + 1)
    } else {
        esc_char(s[i]) + inline_from(s, i + 1)
    }
}

/// Inline conversion of a whole sequence.
pub open spec fn inline_typst(s: Seq<char>) -> Seq<char> {
    inline_from(s, 0)
}

pub open spec fn is_ascii_digit(c: char) -> bool {
    '0' <= c && c <= '9'
}

pub open spec fn all_ascii_digits(s: Seq<char>) -> bool {
    forall|i: int| 0 <= i < s.len() ==> is_ascii_digit(#[trigger] s[i])
}

/// The position of the first `". "` in `t`, when the text before it is a
/// non-empty run of digits (an ordered list item).
pub open spec fn ordered_item_dot(t: Seq<char>) -> Option<int> {
    match find_pair_from(t, 0, '.', ' ') {
        Some(d) => if d > 0 && all_ascii_digits(t.take(d)) {
            Some(d)
        } else {
            None
        },
        None => None,
    }
}

/// One trimmed line: `- x` / `* x` become `- x`, `12. x` becomes `+ x`,
/// anything else is converted inline.
pub open spec fn typst_line(t: Seq<char>) -> Seq<char> {
    if t.len() >= 2 && (t[0] == '-' || t[0] == '*') && t[1] == ' ' {
        seq!['-', ' '] + inline_typst(t.skip(2))
    } else if ordered_item_dot(t) is Some {
        seq!['+', ' '] + inline_typst(t.skip(ordered_item_dot(t)->0 + 2))
    } else {
        inline_typst(t)
    }
}

/// `str::lines` (before the trailing `'\r'` is dropped, which `trim`
/// removes anyway): the pieces between `'\n'`, without an empty last piece.
pub open spec fn lines_of(s: Seq<char>) -> Seq<Seq<char>>
    decreases s.len(),
{
    if s.len() == 0 {
        seq![]
    } else {
        match find_char_from(s, 0, '\n') {
            Some(k) => {
                proof {
                    lemma_find_char_from(s, 0, '\n');
                }
                seq![s.take(k)] + lines_of(s.skip(k + 1))
            },
            None => seq![s],
        }
    }
}

/// `parts` joined with `sep` between neighbours.
pub open spec fn join(parts: Seq<Seq<char>>, sep: Seq<char>) -> Seq<char>
    decreases parts.len(),
{
    if parts.len() == 0 {
        seq![]
    } else if parts.len() == 1 {
        parts[0]
    } else {
        join(parts.drop_last(), sep) + sep + parts.last()
    }
}

/// The line separator of the output: a backslash and a newline.
pub open spec fn typst_break() -> Seq<char> {
    seq!['\\', '\n']
}

/// The converted document: every line trimmed and converted, joined with
/// Typst line breaks.
pub open spec fn md_typst(input: Seq<char>) -> Seq<char> {
    join(lines_of(input).map_values(|l: Seq<char>| typst_line(trim(l))), typst_break())
}

// ---------------------------------------------------------------------------
// Implementation
// ---------------------------------------------------------------------------

/// Converts Markdown to Typst markup for PDF rendering. Handles bold,
/// italic, bullet lists, ordered lists and line breaks; plain text passes
/// through with Typst's special characters escaped.
pub fn md_to_typst(input: &str) -> (r: String)
    ensures
        r@ == md_typst(input@),
{
    let chars = chars_of(input);
    let len = chars.len();
    let ghost s = chars@;
    let ghost f = |l: Seq<char>| typst_line(trim(l));
    let mut out: Vec<char> = Vec::new();
    let mut count: usize = 0;
    let mut pos: usize = 0;
    let ghost mut done: Seq<Seq<char>> = seq![];
    assert(s.skip(0) =~= s);
    while pos < len
        invariant
            s == chars@,
            len == chars.len(),
            pos <= len,
            lines_of(s) == done + lines_of(s.skip(pos as int)),
            out@ == join(done.map_values(f), typst_break()),
            f == (|l: Seq<char>| typst_line(trim(l))),
            (count == 0) == (done.len() == 0),
        decreases len - pos,
    {
        let end = match find_closing_single(&chars, pos, '\n') {
            Some(k) => k,
            None => len,
        };
        proof {
            lemma_find_char_from(s, pos as int, '\n');
            lemma_find_char_from_skip(s, pos as int, '\n');
            let rest = s.skip(pos as int);
            lemma_find_char_from(rest, 0, '\n');
            if end < len {
                assert(rest.skip(end - pos + 1) =~= s.skip(end + 1));
                assert(rest.take(end - pos) =~= s.subrange(pos as int, end as int));
            } else {
                assert(rest =~= s.subrange(pos as int, end as int));
                assert(s.skip(len as int) =~= Seq::<char>::empty());
            }
        }
        let line = slice_chars(&chars, pos, end);
        let trimmed = trim_chars(&line);
        let converted = typst_line_of(&trimmed);
        if count > 0 {
            out.push('\\');
            out.push('\n');
        }
        push_all(&mut out, &converted);
        proof {
            let d2 = done.push(line@);
            assert(f(line@) == converted@);
            assert(d2.map_values(f) =~= done.map_values(f).push(f(line@)));
            assert(d2.map_values(f).drop_last() =~= done.map_values(f));
            if done.len() > 0 {
                assert(d2.map_values(f).last() == converted@);
                assert(out@ =~= join(d2.map_values(f), typst_break()));
            } else {
                assert(d2.map_values(f)[0] == converted@);
                assert(out@ =~= join(d2.map_values(f), typst_break()));
            }
            let next: int = if end < len { end + 1 } else { len as int };
            assert(lines_of(s) =~= d2 + lines_of(s.skip(next)));
            done = d2;
        }
        count = if count < usize::MAX { count + 1 } else { count };
        pos = if end < len { end + 1 } else { len };
    }
    assert(done =~= lines_of(s));
    string_of(&out)
}

/// One trimmed line converted: list markers recognised, the rest inline.
fn typst_line_of(t: &Vec<char>) -> (r: Vec<char>)
    ensures
        r@ == typst_line(t@),
{
    if t.len() >= 2 && (t[0] == '-' || t[0] == '*') && t[1] == ' ' {
        let rest = slice_chars(t, 2, t.len());
        let mut r: Vec<char> = Vec::new();
        r.push('-');
        r.push(' ');
        let inner = inline_md_to_typst(&rest);
        push_all(&mut r, &inner);
        assert(rest@ =~= t@.skip(2));
        return r;
    }
    if let Some(dot_pos) = find_closing(t, 0, '.', ' ') {
        proof {
            lemma_find_pair_from(t@, 0, '.', ' ');
        }
        let digits = all_digits_before(t, dot_pos);
        if dot_pos > 0 && digits {
            let rest = slice_chars(t, dot_pos + 2, t.len());
            let mut r: Vec<char> = Vec::new();
            r.push('+');
            r.push(' ');
            let inner = inline_md_to_typst(&rest);
            push_all(&mut r, &inner);
            assert(rest@ =~= t@.skip(dot_pos + 2));
            return r;
        }
    }
    inline_md_to_typst(t)
}

/// Whether `t[..end]` consists of ASCII digits only.
fn all_digits_before(t: &Vec<char>, end: usize) -> (b: bool)
    requires
        end <= t.len(),
    ensures
        b == all_ascii_digits(t@.take(end as int)),
{
    let mut i: usize = 0;
    while i < end
        invariant
            i <= end <= t.len(),
            forall|j: int| 0 <= j < i ==> is_ascii_digit(#[trigger] t@[j]),
        decreases end - i,
    {
        if !('0' <= t[i] && t[i] <= '9') {
            assert(t@.take(end as int)[i as int] == t@[i as int]);
            return false;
        }
        i = i + 1;
    }
    assert forall|j: int| 0 <= j < end implies is_ascii_digit(#[trigger] t@.take(end as int)[j]) by {
        assert(t@.take(end as int)[j] == t@[j]);
    }
    true
}

/// Converts inline Markdown formatting to Typst.
fn inline_md_to_typst(chars: &Vec<char>) -> (out: Vec<char>)
    ensures
        out@ == inline_typst(chars@),
{
    let mut out: Vec<char> = Vec::new();
    let len = chars.len();
    let mut i: usize = 0;
    while i < len
        invariant
            i <= len,
            len == chars.len(),
            inline_from(chars@, 0) == out@ + inline_from(chars@, i as int),
        decreases len - i,
    {
        let ghost s = chars@;
        // Bold: **text**
        if i + 1 < len && chars[i] == '*' && chars[i + 1] == '*' {
            if let Some(end) = find_closing(chars, i + 2, '*', '*') {
                proof {
                    lemma_find_pair_from(s, i + 2, '*', '*');
                }
                let ghost before = out@;
                out.push('*');
                esc_typst(&mut out, chars, i + 2, end);
                out.push('*');
                assert(out@ =~= before + (seq!['*'] + esc_seq(s.subrange(i + 2, end as int))
                    + seq!['*']));
                i = end + 2;
                continue;
            }
        }
        // Italic: *text*
        if chars[i] == '*' {
            if let Some(end) = find_closing_single(chars, i + 1, '*') {
                proof {
                    lemma_find_char_from(s, i + 1, '*');
                }
                let ghost before = out@;
                out.push('_');
                esc_typst(&mut out, chars, i + 1, end);
                out.push('_');
                assert(out@ =~= before + (seq!['_'] + esc_seq(s.subrange(i + 1, end as int))
                    + seq!['_']));
                i = end + 1;
                continue;
            }
        }
        let ghost before = out@;
        push_escaped_char(&mut out, chars[i]);
        assert(out@ =~= before + esc_char(s[i as int]));
        i = i + 1;
    }
    out
}

/// The first `k >= start` with `chars[k] == pattern0` and
/// `chars[k + 1] == pattern1`.
fn find_closing(chars: &Vec<char>, start: usize, pattern0: char, pattern1: char) -> (r: Option<
    usize,
>)
    requires
        start <= chars.len(),
    ensures
        match r {
            Some(k) => find_pair_from(chars@, start as int, pattern0, pattern1) == Some(k as int),
            None => find_pair_from(chars@, start as int, pattern0, pattern1) is None,
        },
{
    let len = chars.len();
    let mut i = start;
    while i < len
        invariant
            start <= i <= len,
            len == chars.len(),
            find_pair_from(chars@, start as int, pattern0, pattern1) == find_pair_from(
                chars@,
                i as int,
                pattern0,
                pattern1,
            ),
        decreases len - i,
    {
        if i + 1 < len && chars[i] == pattern0 && chars[i + 1] == pattern1 {
            return Some(i);
        }
        i = i + 1;
    }
    None
}

/// The first `k >= start` with `chars[k] == ch`.
pub fn find_closing_single(chars: &Vec<char>, start: usize, ch: char) -> (r: Option<usize>)
    requires
        start <= chars.len(),
    ensures
        match r {
            Some(k) => find_char_from(chars@, start as int, ch) == Some(k as int),
            None => find_char_from(chars@, start as int, ch) is None,
        },
{
    let len = chars.len();
    let mut i = start;
    while i < len
        invariant
            start <= i <= len,
            len == chars.len(),
            find_char_from(chars@, start as int, ch) == find_char_from(chars@, i as int, ch),
        decreases len - i,
    {
        if chars[i] == ch {
            return Some(i);
        }
        i = i + 1;
    }
    None
}

fn push_escaped_char(out: &mut Vec<char>, c: char)
    ensures
        final(out)@ == old(out)@ + esc_char(c),
{
    if c == '#' || c == '@' || c == '<' || c == '>' || c == '$' || c == '\\' {
        out.push('\\');
    }
    out.push(c);
    assert(out@ =~= old(out)@ + esc_char(c));
}

/// Appends `chars[from..to]` with Typst's special characters escaped.
fn esc_typst(out: &mut Vec<char>, chars: &Vec<char>, from: usize, to: usize)
    requires
        from <= to <= chars.len(),
    ensures
        final(out)@ == old(out)@ + esc_seq(chars@.subrange(from as int, to as int)),
{
    let ghost start = out@;
    let mut i = from;
    assert(chars@.subrange(from as int, from as int) =~= Seq::<char>::empty());
    while i < to
        invariant
            from <= i <= to <= chars.len(),
            out@ == start + esc_seq(chars@.subrange(from as int, i as int)),
        decreases to - i,
    {
        let ghost prev = out@;
        push_escaped_char(out, chars[i]);
        assert(chars@.subrange(from as int, i + 1).drop_last() =~= chars@.subrange(
            from as int,
            i as int,
        ));
        assert(out@ =~= start + esc_seq(chars@.subrange(from as int, i + 1)));
        i = i + 1;
    }
}

} // verus!
