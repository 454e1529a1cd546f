//! Import of time entries from a semicolon-separated export; durations are
//! written "hh:mm".
use vstd::prelude::*;

use crate::accounts_csv::opt_view;
use crate::csv_table::{csv_read, field, field_spec, read_csv, CsvOutcome, CsvOutcomeView};
use crate::error::{message, AppError, ErrorKind};
use crate::markdown::find_closing_single;
use crate::numeric::{parse_i32, parse_i32_spec};
use crate::text::{chars_eq, chars_of, find_char_from, lemma_find_char_from, slice_chars, trim, trim_chars};

verus! {

/// A time entry read from the file.
pub struct TimeEntryRow {
    pub contact_name: Option<String>,
    pub project_name: Option<String>,
    pub date: String,
    pub estimated_minutes: Option<i32>,
    pub actual_minutes: i32,
    pub flat_amount: Option<String>,
    pub activity: Option<String>,
    pub description: Option<String>,
    pub travel_minutes: Option<i32>,
    pub travel_flat_rate: Option<String>,
    pub travel_distance: Option<String>,
    pub status: Option<String>,
}

/// `(date, actual minutes, [estimated, travel] minutes, [contact name,
/// project name, flat amount, activity, description, travel flat rate,
/// travel distance, status])`.
pub type TimeEntryRowView = (Seq<char>, i32, Seq<Option<i32>>, Seq<Option<Seq<char>>>);

impl View for TimeEntryRow {
    type V = TimeEntryRowView;

    open spec fn view(&self) -> TimeEntryRowView {
        (
            self.date@,
            self.actual_minutes,
            seq![self.estimated_minutes, self.travel_minutes],
            seq![
                opt_view(self.contact_name),
                opt_view(self.project_name),
                opt_view(self.flat_amount),
                opt_view(self.activity),
                opt_view(self.description),
                opt_view(self.travel_flat_rate),
                opt_view(self.travel_distance),
                opt_view(self.status),
            ],
        )
    }
}

/// The hours and minutes that "hh:mm" is made of: blank and "00:00" give
/// none, as does text that is not two colon-separated integers.
pub open spec fn duration_parts(s: Seq<char>) -> Option<(i32, i32)> {
    let t = trim(s);
    if t.len() == 0 || t == "00:00"@ {
        None
    } else {
        match find_char_from(t, 0, ':') {
            None => None,
            Some(k) => if find_char_from(t, k + 1, ':') is Some {
                None
            } else {
                match (parse_i32_spec(trim(t.take(k))), parse_i32_spec(trim(t.skip(k + 1)))) {
                    (Some(h), Some(m)) => Some((h, m)),
                    _ => None,
                }
            },
        }
    }
}

/// The minutes that "hh:mm" denotes.
pub open spec fn duration_spec(s: Seq<char>) -> Option<int> {
    match duration_parts(s) {
        Some((h, m)) => Some(h * 60 + m),
        None => None,
    }
}

/// Whether `hours * 60` and `hours * 60 + minutes` fit in an `i32` (the
/// computation overflows otherwise).
pub open spec fn duration_fits(s: Seq<char>) -> bool {
    duration_parts(s) matches Some((h, m)) ==> (i32::MIN <= h * 60 <= i32::MAX && i32::MIN <= h
        * 60 + m <= i32::MAX)
}

pub open spec fn duration_i32(s: Seq<char>) -> Option<i32> {
    match duration_spec(s) {
        Some(v) => Some(v as i32),
        None => None,
    }
}

/// Parses a duration "hh:mm" into minutes.
fn parse_duration_minutes(s: &str) -> (r: Option<i32>)
    requires
        duration_fits(s@),
    ensures
        r == duration_i32(s@),
{
    let t = trim_chars(&chars_of(s));
    if t.len() == 0 || chars_eq(&t, "00:00") {
        return None;
    }
    let k = match find_closing_single(&t, 0, ':') {
        Some(k) => k,
        None => return None,
    };
    proof {
        lemma_find_char_from(t@, 0, ':');
    }
    if find_closing_single(&t, k + 1, ':').is_some() {
        return None;
    }
    let hours_part = trim_chars(&slice_chars(&t, 0, k));
    let mins_part = trim_chars(&slice_chars(&t, k + 1, t.len()));
    let hours = match parse_i32(&hours_part) {
        Some(h) => h,
        None => {
            assert(hours_part@ == trim(t@.take(k as int))) by {
                assert(t@.subrange(0, k as int) =~= t@.take(k as int));
            }
            return None;
        },
    };
    let mins = match parse_i32(&mins_part) {
        Some(m) => m,
        None => {
            assert(mins_part@ == trim(t@.skip(k + 1))) by {
                assert(t@.subrange(k + 1, t@.len() as int) =~= t@.skip(k + 1));
            }
            return None;
        },
    };
    assert(hours_part@ == trim(t@.take(k as int))) by {
        assert(t@.subrange(0, k as int) =~= t@.take(k as int));
    }
    assert(mins_part@ == trim(t@.skip(k + 1))) by {
        assert(t@.subrange(k + 1, t@.len() as int) =~= t@.skip(k + 1));
    }
    Some(hours * 60 + mins)
}

/// The optional text columns, in the order of the view.
pub open spec fn entry_text_of(h: Seq<Seq<char>>, rec: Seq<Seq<char>>) -> Seq<Option<Seq<char>>> {
    seq![
        field_spec(h, rec, "Name 1"@),
        field_spec(h, rec, "Projekt"@),
        field_spec(h, rec, "Pauschal-Betrag"@),
        field_spec(h, rec, "Tätigkeit"@),
        field_spec(h, rec, "Text"@),
        field_spec(h, rec, "Reisepauschale"@),
        field_spec(h, rec, "Reisedistanz"@),
        field_spec(h, rec, "Status"@),
    ]
}

/// The minutes of the duration in column `name`, if any.
pub open spec fn minutes_of(h: Seq<Seq<char>>, rec: Seq<Seq<char>>, name: Seq<char>) -> Option<
    i32,
> {
    match field_spec(h, rec, name) {
        Some(s) => duration_i32(s),
        None => None,
    }
}

pub open spec fn column_fits(h: Seq<Seq<char>>, rec: Seq<Seq<char>>, name: Seq<char>) -> bool {
    field_spec(h, rec, name) matches Some(s) ==> duration_fits(s)
}

/// Whether every duration of a record fits in an `i32` number of minutes.
pub open spec fn entry_fits(h: Seq<Seq<char>>, rec: Seq<Seq<char>>) -> bool {
    &&& column_fits(h, rec, "Effektiver Aufwand"@)
    &&& column_fits(h, rec, "Geschätzter Aufwand"@)
    &&& column_fits(h, rec, "Reisezeit"@)
}

/// The time entry of one record; actual minutes default to 0.
pub open spec fn entry_of(h: Seq<Seq<char>>, rec: Seq<Seq<char>>) -> TimeEntryRowView {
    (
        match field_spec(h, rec, "Datum"@) {
            Some(d) => d,
            None => seq![],
        },
        match minutes_of(h, rec, "Effektiver Aufwand"@) {
            Some(m) => m,
            None => 0,
        },
        seq![minutes_of(h, rec, "Geschätzter Aufwand"@), minutes_of(h, rec, "Reisezeit"@)],
        entry_text_of(h, rec),
    )
}

pub open spec fn table_fits(t: CsvOutcomeView) -> bool {
    t.0 == 0 ==> forall|i: int| 0 <= i < t.2.len() ==> entry_fits(t.1, #[trigger] t.2[i])
}

pub open spec fn entries_view(rows: Seq<TimeEntryRow>) -> Seq<TimeEntryRowView> {
    rows.map_values(|r: TimeEntryRow| r@)
}

/// The time entries of a semicolon-separated table, or the message of a bad
/// request.
pub open spec fn entries_from_table(t: CsvOutcomeView) -> Result<Seq<TimeEntryRowView>, Seq<char>> {
    if t.0 == 1 {
        Err("Invalid CSV: "@ + t.3)
    } else if t.0 == 2 {
        Err("CSV parse error: "@ + t.3)
    } else {
        Ok(t.2.map_values(|rec: Seq<Seq<char>>| entry_of(t.1, rec)))
    }
}

/// Parses a semicolon-separated time-entry export. `None` when a duration
/// is too large for an `i32` number of minutes (where the computation of
/// `hours * 60 + minutes` would overflow).
pub fn parse_time_entries_csv(data: &[u8]) -> (r: Option<Result<Vec<TimeEntryRow>, AppError>>)
    ensures
        table_fits(csv_read(data@, 59u8)) <==> r is Some,
        r matches Some(res) ==> match entries_from_table(csv_read(data@, 59u8)) {
            Ok(rows) => res matches Ok(v) && entries_view(v@) == rows,
            Err(m) => res matches Err(e) && e.kind_and_message() == (ErrorKind::BadRequest, m),
        },
{
    let t = read_csv(data, 59u8);
    if !outcome_fits(&t) {
        return None;
    }
    Some(time_entries_from_outcome(&t))
}

/// Whether every duration of a read table fits.
pub fn outcome_fits(t: &CsvOutcome) -> (b: bool)
    ensures
        b == table_fits(t@),
{
    match t {
        CsvOutcome::Table(h, recs) => {
            let ghost hv = h.deep_view();
            let ghost rv = recs.deep_view();
            let mut i: usize = 0;
            while i < recs.len()
                invariant
                    i <= recs.len(),
                    hv == h.deep_view(),
                    rv == recs.deep_view(),
                    rv.len() == recs.len(),
                    forall|j: int| 0 <= j < i ==> entry_fits(hv, #[trigger] rv[j]),
                    t@.0 == 0 && t@.1 == hv && t@.2 == rv,
                decreases recs.len() - i,
            {
                assert(rv[i as int] == recs@[i as int].deep_view());
                if !(column_fits_exec(h, &recs[i], "Effektiver Aufwand") && column_fits_exec(
                    h,
                    &recs[i],
                    "Geschätzter Aufwand",
                ) && column_fits_exec(h, &recs[i], "Reisezeit")) {
                    assert(!entry_fits(hv, rv[i as int]));
                    return false;
                }
                i = i + 1;
            }
            true
        },
        _ => true,
    }
}

fn column_fits_exec(h: &Vec<String>, rec: &Vec<String>, name: &str) -> (b: bool)
    ensures
        b == column_fits(h.deep_view(), rec.deep_view(), name@),
{
    match field(h, rec, name) {
        Some(s) => duration_fits_exec(s.as_str()),
        None => true,
    }
}

/// Whether the computation of the minutes of `s`, if any, stays in `i32`.
fn duration_fits_exec(s: &str) -> (b: bool)
    ensures
        b == duration_fits(s@),
{
    let t = trim_chars(&chars_of(s));
    if t.len() == 0 || chars_eq(&t, "00:00") {
        return true;
    }
    let k = match find_closing_single(&t, 0, ':') {
        Some(k) => k,
        None => return true,
    };
    proof {
        lemma_find_char_from(t@, 0, ':');
    }
    if find_closing_single(&t, k + 1, ':').is_some() {
        return true;
    }
    let hours_part = trim_chars(&slice_chars(&t, 0, k));
    let mins_part = trim_chars(&slice_chars(&t, k + 1, t.len()));
    assert(hours_part@ == trim(t@.take(k as int))) by {
        assert(t@.subrange(0, k as int) =~= t@.take(k as int));
    }
    assert(mins_part@ == trim(t@.skip(k + 1))) by {
        assert(t@.subrange(k + 1, t@.len() as int) =~= t@.skip(k + 1));
    }
    match (parse_i32(&hours_part), parse_i32(&mins_part)) {
        (Some(h), Some(m)) => {
            let hm = (h as i64) * 60;
            let v = hm + (m as i64);
            -2147483648 <= hm && hm <= 2147483647 && -2147483648 <= v && v <= 2147483647
        },
        _ => true,
    }
}

fn minutes_exec(h: &Vec<String>, rec: &Vec<String>, name: &str) -> (r: Option<i32>)
    requires
        column_fits(h.deep_view(), rec.deep_view(), name@),
    ensures
        r == minutes_of(h.deep_view(), rec.deep_view(), name@),
{
    match field(h, rec, name) {
        Some(s) => parse_duration_minutes(s.as_str()),
        None => None,
    }
}

/// The time entry of one record.
fn entry_row(h: &Vec<String>, rec: &Vec<String>) -> (r: TimeEntryRow)
    requires
        entry_fits(h.deep_view(), rec.deep_view()),
    ensures
        r@ == entry_of(h.deep_view(), rec.deep_view()),
{
    let actual = match minutes_exec(h, rec, "Effektiver Aufwand") {
        Some(m) => m,
        None => 0,
    };
    let date = match field(h, rec, "Datum") {
        Some(d) => d,
        None => String::new(),
    };
    let r = TimeEntryRow {
        contact_name: field(h, rec, "Name 1"),
        project_name: field(h, rec, "Projekt"),
        date,
        estimated_minutes: minutes_exec(h, rec, "Geschätzter Aufwand"),
        actual_minutes: actual,
        flat_amount: field(h, rec, "Pauschal-Betrag"),
        activity: field(h, rec, "Tätigkeit"),
        description: field(h, rec, "Text"),
        travel_minutes: minutes_exec(h, rec, "Reisezeit"),
        travel_flat_rate: field(h, rec, "Reisepauschale"),
        travel_distance: field(h, rec, "Reisedistanz"),
        status: field(h, rec, "Status"),
    };
    assert(r@.2 =~= entry_of(h.deep_view(), rec.deep_view()).2);
    assert(r@.3 =~= entry_of(h.deep_view(), rec.deep_view()).3);
    r
}

/// The time entries of a read table whose durations all fit.
pub fn time_entries_from_outcome(t: &CsvOutcome) -> (r: Result<Vec<TimeEntryRow>, AppError>)
    requires
        table_fits(t@),
    ensures
        match entries_from_table(t@) {
            Ok(rows) => r matches Ok(v) && entries_view(v@) == rows,
            Err(m) => r matches Err(e) && e.kind_and_message() == (ErrorKind::BadRequest, m),
        },
{
    match t {
        CsvOutcome::HeaderError(m) => Err(AppError::BadRequest(message("Invalid CSV: ", m.as_str()))),
        CsvOutcome::RecordError(_, m) => Err(
            AppError::BadRequest(message("CSV parse error: ", m.as_str())),
        ),
        CsvOutcome::Table(h, recs) => {
            let ghost hv = h.deep_view();
            let ghost rv = recs.deep_view();
            let ghost f = |rec: Seq<Seq<char>>| entry_of(hv, rec);
            let mut rows: Vec<TimeEntryRow> = Vec::new();
            let mut i: usize = 0;
            while i < recs.len()
                invariant
                    i <= recs.len(),
                    hv == h.deep_view(),
                    rv == recs.deep_view(),
                    rv.len() == recs.len(),
                    forall|j: int| 0 <= j < rv.len() ==> entry_fits(hv, #[trigger] rv[j]),
                    f == (|rec: Seq<Seq<char>>| entry_of(hv, rec)),
                    entries_view(rows@) == rv.take(i as int).map_values(f),
                decreases recs.len() - i,
            {
                assert(rv[i as int] == recs@[i as int].deep_view());
                let e = entry_row(h, &recs[i]);
                let ghost before = rows@;
                rows.push(e);
                assert(rv.take(i + 1) =~= rv.take(i as int).push(rv[i as int]));
                assert(entries_view(rows@) =~= entries_view(before).push(e@));
                assert(rv.take(i + 1).map_values(f) =~= rv.take(i as int).map_values(f).push(
                    f(rv[i as int]),
                ));
                i = i + 1;
            }
            assert(rv.take(recs.len() as int) =~= rv);
            Ok(rows)
        },
    }
}

} // verus!
