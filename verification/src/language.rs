//! Normalisation of user-supplied language names and tags to the
//! supported language codes.
use vstd::prelude::*;

use crate::text::{
    ascii_lower, chars_eq, chars_of, find_dash_or_underscore, first_dash_or_underscore,
    slice_chars, to_ascii_lowercase_chars, trim, trim_chars,
};

verus! {

/// The languages the application supports.
pub const SUPPORTED_LANGUAGES: [&'static str; 4] = ["en", "de", "fr", "it"];

/// The code for a lower-cased base tag, if it names a supported language.
pub open spec fn language_code(base: Seq<char>) -> Option<Seq<char>> {
    if base == "en"@ || base == "english"@ {
        Some("en"@)
    } else if base == "de"@ || base == "deutsch"@ || base == "german"@ {
        Some("de"@)
    } else if base == "fr"@ || base == "french"@ || base == "francais"@ || base == "français"@ {
        Some("fr"@)
    } else if base == "it"@ || base == "italian"@ || base == "italiano"@ {
        Some("it"@)
    } else {
        None
    }
}

/// The part of `s` before the first `'-'` or `'_'` (all of `s` if there is
/// none), as `str::split(['-', '_']).next()` gives it.
pub open spec fn base_tag(s: Seq<char>) -> Seq<char> {
    match first_dash_or_underscore(s, 0) {
        Some(k) => s.take(k),
        None => s,
    }
}

/// The language code that an input such as `" de-CH "` or `"French"` names:
/// trimmed, cut at the first `-` or `_`, trimmed again and ASCII-lower-cased.
pub open spec fn language_of(s: Seq<char>) -> Option<Seq<char>> {
    let raw = trim(s);
    if raw.len() == 0 {
        None
    } else {
        language_code(ascii_lower(trim(base_tag(raw))))
    }
}

pub open spec fn normalized(input: Option<Seq<char>>) -> Option<Seq<char>> {
    match input {
        Some(s) => language_of(s),
        None => None,
    }
}

/// Maps a language name or tag to one of the supported codes
/// (`"en"`, `"de"`, `"fr"`, `"it"`); `None` for no input, a blank input or
/// an unknown language.
pub fn normalize_language(input: Option<&str>) -> (r: Option<String>)
    ensures
        match normalized(
            match input {
                Some(s) => Some(s@),
                None => None,
            },
        ) {
            Some(code) => r matches Some(x) && x@ == code,
            None => r is None,
        },
{
    let s = match input {
        Some(s) => s,
        None => return None,
    };
    let chars = chars_of(s);
    let raw = trim_chars(&chars);
    if raw.len() == 0 {
        return None;
    }
    let cut = match find_dash_or_underscore(&raw) {
        Some(k) => k,
        None => raw.len(),
    };
    let piece = slice_chars(&raw, 0, cut);
    assert(piece@ =~= base_tag(raw@));
    let base = to_ascii_lowercase_chars(&trim_chars(&piece));
    let code = if chars_eq(&base, "en") || chars_eq(&base, "english") {
        "en"
    } else if chars_eq(&base, "de") || chars_eq(&base, "deutsch") || chars_eq(&base, "german") {
        "de"
    } else if chars_eq(&base, "fr") || chars_eq(&base, "french") || chars_eq(&base, "francais")
        || chars_eq(&base, "français") {
        "fr"
    } else if chars_eq(&base, "it") || chars_eq(&base, "italian") || chars_eq(
        &base,
        "italiano",
    ) {
        "it"
    } else {
        return None;
    };
    Some(code.to_owned())
}

/// The normalised language of `input`, else that of `default_language`,
/// else `"en"`.
pub fn normalize_or_default(input: Option<&str>, default_language: &str) -> (r: String)
    ensures
        r@ == (match normalized(
            match input {
                Some(s) => Some(s@),
                None => None,
            },
        ) {
            Some(code) => code,
            None => match language_of(default_language@) {
                Some(code) => code,
                None => "en"@,
            },
        }),
{
    match normalize_language(input) {
        Some(code) => code,
        None => match normalize_language(Some(default_language)) {
            Some(code) => code,
            None => "en".to_owned(),
        },
    }
}

proof fn lemma_no_dash(s: Seq<char>, k: int)
    requires
        forall|i: int| 0 <= i < s.len() ==> 'a' <= #[trigger] s[i] <= 'z',
    ensures
        first_dash_or_underscore(s, k) is None,
    decreases s.len() - k,
{
    if 0 <= k < s.len() {
        lemma_no_dash(s, k + 1);
    }
}

/// A word of lower-case ASCII letters is read as itself: no trimming,
/// cutting or lower-casing changes it.
pub proof fn lemma_lower_word_language(s: Seq<char>)
    requires
        s.len() > 0,
        forall|i: int| 0 <= i < s.len() ==> 'a' <= #[trigger] s[i] <= 'z',
    ensures
        language_of(s) == language_code(s),
{
    assert(!crate::text::is_ws(s[0]));
    assert(crate::text::trim_start(s) == s);
    assert(!crate::text::is_ws(s.last()));
    assert(crate::text::trim_end(s) == s);
    lemma_no_dash(s, 0);
    assert(base_tag(s) == s);
    assert(ascii_lower(s) =~= s);
}

/// Normalising is idempotent on the supported codes: each supported code
/// normalises to itself, and whatever normalises, normalises to a
/// supported code.
pub proof fn lemma_normalization_idempotent(s: Seq<char>)
    ensures
        language_of("en"@) == Some("en"@),
        language_of("de"@) == Some("de"@),
        language_of("fr"@) == Some("fr"@),
        language_of("it"@) == Some("it"@),
        language_of(s) matches Some(c) ==> c == "en"@ || c == "de"@ || c == "fr"@ || c == "it"@,
{
    reveal_strlit("en");
    reveal_strlit("de");
    reveal_strlit("fr");
    reveal_strlit("it");
    reveal_strlit("english");
    reveal_strlit("deutsch");
    reveal_strlit("german");
    reveal_strlit("french");
    reveal_strlit("francais");
    reveal_strlit("français");
    reveal_strlit("italian");
    reveal_strlit("italiano");
    lemma_lower_word_language("en"@);
    lemma_lower_word_language("de"@);
    lemma_lower_word_language("fr"@);
    lemma_lower_word_language("it"@);
}

} // verus!
