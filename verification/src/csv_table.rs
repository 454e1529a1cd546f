//! Reading delimited text into a header row and records (through the `csv`
//! crate), and looking fields up by column name.
use vstd::prelude::*;

use crate::text::{chars_of, is_whitespace, slice_chars, str_eq, string_of, trim, trim_chars};

verus! {

/// What reading a delimited file gives: the header row and the records, or
/// the message of the error met while reading the header row or a record.
pub enum CsvOutcome {
    Table(Vec<String>, Vec<Vec<String>>),
    HeaderError(String),
    RecordError(Vec<String>, String),
}

/// `(tag, headers, records, message)` with tag 0 for a table, 1 for an
/// error in the header row and 2 for an error in a record (the header row
/// then read).
pub type CsvOutcomeView = (u8, Seq<Seq<char>>, Seq<Seq<Seq<char>>>, Seq<char>);

impl View for CsvOutcome {
    type V = CsvOutcomeView;

    open spec fn view(&self) -> CsvOutcomeView {
        match self {
            CsvOutcome::Table(h, r) => (0u8, h.deep_view(), r.deep_view(), seq![]),
            CsvOutcome::HeaderError(m) => (1u8, seq![], seq![], m@),
            CsvOutcome::RecordError(h, m) => (2u8, h.deep_view(), seq![], m@),
        }
    }
}

/// What the `csv` crate reads from `data` with the given field delimiter,
/// the first row taken as headers and rows of any length accepted.
pub uninterp spec fn csv_read(data: Seq<u8>, delimiter: u8) -> CsvOutcomeView;

/// Reads `data` with `csv::ReaderBuilder` (the given delimiter, a header
/// row, `flexible(true)`): the header fields and every record's fields as
/// strings, or the `Display` text of the first error, told apart by whether
/// it came from the header row or from a record (the header fields are
/// kept in the latter case). The result is named
/// `csv_read` of the bytes and the delimiter; nothing more is claimed of it.
#[verifier::external_body]
pub(crate) fn read_csv(data: &[u8], delimiter: u8) -> (r: CsvOutcome)
    ensures
        r@ == csv_read(data@, delimiter),
{
    let mut rdr = csv::ReaderBuilder::new().delimiter(delimiter).has_headers(true).flexible(
        true,
    ).from_reader(data);
    let headers: Vec<String> = match rdr.headers() {
        Ok(h) => h.iter().map(|f| f.to_string()).collect(),
        Err(e) => return CsvOutcome::HeaderError(format!("{e}")),
    };
    let records: Result<Vec<Vec<String>>, csv::Error> = rdr.records().map(
        |rec| rec.map(|r| r.iter().map(|f| f.to_string()).collect()),
    ).collect();
    match records {
        Ok(records) => CsvOutcome::Table(headers, records),
        Err(e) => CsvOutcome::RecordError(headers, format!("{e}")),
    }
}

// ---------------------------------------------------------------------------
// Cleaning fields
// ---------------------------------------------------------------------------

/// `str::trim_start_matches('\'')`.
pub open spec fn strip_apostrophes(s: Seq<char>) -> Seq<char>
    decreases s.len(),
{
    if s.len() > 0 && s[0] == '\'' {
        strip_apostrophes(s.skip(1))
    } else {
        s
    }
}

/// A field trimmed, stripped of leading apostrophes (spreadsheet text
/// markers) and trimmed again; `None` when nothing is left.
pub open spec fn clean_spec(s: Seq<char>) -> Option<Seq<char>> {
    let t = trim(strip_apostrophes(trim(s)));
    if t.len() == 0 {
        None
    } else {
        Some(t)
    }
}

/// Cleans one field: trimmed, leading `'` removed, trimmed again, `None`
/// when empty.
pub fn clean(s: &str) -> (r: Option<String>)
    ensures
        match clean_spec(s@) {
            Some(t) => r matches Some(x) && x@ == t,
            None => r is None,
        },
{
    let chars = chars_of(s);
    let t = trim_chars(&chars);
    let ghost ts = t@;
    let mut i: usize = 0;
    assert(ts.skip(0) =~= ts);
    while i < t.len() && t[i] == '\''
        invariant
            i <= t.len(),
            ts == t@,
            strip_apostrophes(ts) == strip_apostrophes(ts.skip(i as int)),
        decreases t.len() - i,
    {
        assert(ts.skip(i as int).skip(1) =~= ts.skip(i + 1));
        i = i + 1;
    }
    assert(strip_apostrophes(ts) == ts.skip(i as int));
    let rest = slice_chars(&t, i, t.len());
    assert(rest@ =~= ts.skip(i as int));
    let cleaned = trim_chars(&rest);
    if cleaned.len() == 0 {
        None
    } else {
        Some(string_of(&cleaned))
    }
}

// ---------------------------------------------------------------------------
// Looking fields up by column name
// ---------------------------------------------------------------------------

/// The first column whose header is `name`.
pub open spec fn header_pos_from(headers: Seq<Seq<char>>, name: Seq<char>, start: int) -> Option<
    int,
>
    decreases headers.len() - start,
{
    if start < 0 || start >= headers.len() {
        None
    } else if headers[start] == name {
        Some(start)
    } else {
        header_pos_from(headers, name, start + 1)
    }
}

pub open spec fn header_pos(headers: Seq<Seq<char>>, name: Seq<char>) -> Option<int> {
    header_pos_from(headers, name, 0)
}

/// The cleaned field of `record` in the first column named `name`; `None`
/// when there is no such column, the record is shorter, or the field is
/// blank.
pub open spec fn field_spec(
    headers: Seq<Seq<char>>,
    record: Seq<Seq<char>>,
    name: Seq<char>,
) -> Option<Seq<char>> {
    match header_pos(headers, name) {
        Some(p) => if 0 <= p < record.len() {
            clean_spec(record[p])
        } else {
            None
        },
        None => None,
    }
}

/// The first of `names` (in order) that gives a field.
pub open spec fn lookup_spec(
    headers: Seq<Seq<char>>,
    record: Seq<Seq<char>>,
    names: Seq<Seq<char>>,
) -> Option<Seq<char>>
    decreases names.len(),
{
    if names.len() == 0 {
        None
    } else {
        match field_spec(headers, record, names[0]) {
            Some(v) => Some(v),
            None => lookup_spec(headers, record, names.skip(1)),
        }
    }
}

pub open spec fn names_view(names: Seq<&str>) -> Seq<Seq<char>> {
    names.map_values(|n: &str| n@)
}

/// `headers.iter().position(|h| h == name)`.
pub fn header_position(headers: &Vec<String>, name: &str) -> (r: Option<usize>)
    ensures
        match r {
            Some(i) => header_pos(headers.deep_view(), name@) == Some(i as int) && i
                < headers.len(),
            None => header_pos(headers.deep_view(), name@) is None,
        },
{
    let ghost hv = headers.deep_view();
    let mut i: usize = 0;
    while i < headers.len()
        invariant
            i <= headers.len(),
            hv == headers.deep_view(),
            hv.len() == headers.len(),
            header_pos_from(hv, name@, 0) == header_pos_from(hv, name@, i as int),
        decreases headers.len() - i,
    {
        assert(hv[i as int] == headers@[i as int]@);
        if str_eq(headers[i].as_str(), name) {
            return Some(i);
        }
        i = i + 1;
    }
    None
}

/// The cleaned field of `record` under the column named `name`.
pub fn field(headers: &Vec<String>, record: &Vec<String>, name: &str) -> (r: Option<String>)
    ensures
        match field_spec(headers.deep_view(), record.deep_view(), name@) {
            Some(v) => r matches Some(x) && x@ == v,
            None => r is None,
        },
{
    assert(record.deep_view().len() == record@.len());
    match header_position(headers, name) {
        Some(p) => {
            if p < record.len() {
                assert(record.deep_view()[p as int] == record@[p as int]@);
                clean(record[p].as_str())
            } else {
                None
            }
        },
        None => None,
    }
}

/// The field under the first of `names` that gives one.
pub fn lookup(headers: &Vec<String>, record: &Vec<String>, names: &[&str]) -> (r: Option<String>)
    ensures
        match lookup_spec(headers.deep_view(), record.deep_view(), names_view(names@)) {
            Some(v) => r matches Some(x) && x@ == v,
            None => r is None,
        },
{
    let ghost hv = headers.deep_view();
    let ghost rv = record.deep_view();
    let ghost all = names_view(names@);
    let mut i: usize = 0;
    assert(all.skip(0) =~= all);
    while i < names.len()
        invariant
            i <= names.len(),
            hv == headers.deep_view(),
            rv == record.deep_view(),
            all == names_view(names@),
            all.len() == names@.len(),
            lookup_spec(hv, rv, all) == lookup_spec(hv, rv, all.skip(i as int)),
        decreases names.len() - i,
    {
        assert(all.skip(i as int)[0] == names@[i as int]@);
        assert(all.skip(i as int).skip(1) =~= all.skip(i + 1));
        match field(headers, record, names[i]) {
            Some(v) => {
                return Some(v);
            },
            None => {},
        }
        i = i + 1;
    }
    None
}

/// The text up to the first whitespace (all of it when there is none).
pub open spec fn first_ws_from(s: Seq<char>, start: int) -> int
    decreases s.len() - start,
{
    if start < 0 || start >= s.len() {
        s.len() as int
    } else if crate::text::is_ws(s[start]) {
        start
    } else {
        first_ws_from(s, start + 1)
    }
}

/// `str::split_whitespace().next()`: the first run of non-whitespace.
pub open spec fn first_word(s: Seq<char>) -> Option<Seq<char>> {
    let t = crate::text::trim_start(s);
    if t.len() == 0 {
        None
    } else {
        Some(t.take(first_ws_from(t, 0)))
    }
}

pub proof fn lemma_first_ws_from(s: Seq<char>, start: int)
    requires
        0 <= start <= s.len(),
    ensures
        start <= first_ws_from(s, start) <= s.len(),
    decreases s.len() - start,
{
    if start < s.len() && !crate::text::is_ws(s[start]) {
        lemma_first_ws_from(s, start + 1);
    }
}

/// `str::split_whitespace().next()` on a character vector.
pub fn first_word_of(v: &Vec<char>) -> (r: Option<Vec<char>>)
    ensures
        match first_word(v@) {
            Some(w) => r matches Some(x) && x@ == w,
            None => r is None,
        },
{
    let ghost s = v@;
    let mut lo: usize = 0;
    assert(s.skip(0) =~= s);
    while lo < v.len() && is_whitespace(v[lo])
        invariant
            lo <= v.len(),
            s == v@,
            crate::text::trim_start(s) == crate::text::trim_start(s.skip(lo as int)),
        decreases v.len() - lo,
    {
        assert(s.skip(lo as int).skip(1) =~= s.skip(lo + 1));
        lo = lo + 1;
    }
    let ghost t = s.skip(lo as int);
    assert(crate::text::trim_start(s) == t);
    if lo == v.len() {
        return None;
    }
    let mut hi: usize = lo;
    while hi < v.len() && !is_whitespace(v[hi])
        invariant
            lo <= hi <= v.len(),
            s == v@,
            t == s.skip(lo as int),
            first_ws_from(t, 0) == first_ws_from(t, hi - lo),
        decreases v.len() - hi,
    {
        hi = hi + 1;
    }
    assert(t.take(hi - lo) =~= s.subrange(lo as int, hi as int));
    Some(slice_chars(v, lo, hi))
}

} // verus!
