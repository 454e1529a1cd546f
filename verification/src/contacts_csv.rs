//! Import of contacts (companies and persons, each with up to three contact
//! persons) from a comma-separated export.
use vstd::prelude::*;

use crate::accounts_csv::opt_view;
use crate::csv_table::{csv_read, field, field_spec, read_csv, CsvOutcome, CsvOutcomeView};
use crate::error::{message, AppError, ErrorKind};
use crate::numeric::{parse_i32, parse_i32_spec};
use crate::text::{chars_of, push_str, str_eq, string_of};

verus! {

/// A contact person (Kontaktperson) of an imported contact.
pub struct ContactPersonRow {
    pub vorname: Option<String>,
    pub nachname: Option<String>,
    pub anrede: Option<String>,
    pub titel: Option<String>,
    pub address: Option<String>,
    pub postal_code: Option<String>,
    pub city: Option<String>,
    pub country: Option<String>,
    pub email: Option<String>,
    pub email2: Option<String>,
    pub phone: Option<String>,
    pub phone2: Option<String>,
    pub mobile: Option<String>,
    pub fax: Option<String>,
    pub website: Option<String>,
    pub anredeform: Option<String>,
    pub birthday: Option<String>,
    pub notes: Option<String>,
    pub language: Option<String>,
}

/// The fields of a contact person, in declaration order.
impl View for ContactPersonRow {
    type V = Seq<Option<Seq<char>>>;

    open spec fn view(&self) -> Seq<Option<Seq<char>>> {
        seq![
            opt_view(self.vorname),
            opt_view(self.nachname),
            opt_view(self.anrede),
            opt_view(self.titel),
            opt_view(self.address),
            opt_view(self.postal_code),
            opt_view(self.city),
            opt_view(self.country),
            opt_view(self.email),
            opt_view(self.email2),
            opt_view(self.phone),
            opt_view(self.phone2),
            opt_view(self.mobile),
            opt_view(self.fax),
            opt_view(self.website),
            opt_view(self.anredeform),
            opt_view(self.birthday),
            opt_view(self.notes),
            opt_view(self.language),
        ]
    }
}

impl ContactPersonRow {
    /// Whether the person has at least a first or a last name.
    pub fn has_name(&self) -> (b: bool)
        ensures
            b == (self.vorname is Some || self.nachname is Some),
    {
        self.vorname.is_some() || self.nachname.is_some()
    }

    /// "Vorname Nachname", or whichever of the two is present, or empty.
    pub fn full_name(&self) -> (r: String)
        ensures
            r@ == (match (self.vorname, self.nachname) {
                (Some(v), Some(n)) => v@ + seq![' '] + n@,
                (Some(v), None) => v@,
                (None, Some(n)) => n@,
                (None, None) => seq![],
            }),
    {
        match (&self.vorname, &self.nachname) {
            (Some(v), Some(n)) => {
                let mut out = chars_of(v.as_str());
                out.push(' ');
                push_str(&mut out, n.as_str());
                string_of(&out)
            },
            (Some(v), None) => v.clone(),
            (None, Some(n)) => n.clone(),
            (None, None) => String::new(),
        }
    }
}

/// A contact read from the file.
pub struct ContactRow {
    pub bexio_id: Option<i32>,
    pub contact_type: String,
    pub category: Option<String>,
    pub name1: String,
    pub name2: Option<String>,
    pub address: Option<String>,
    pub postal_code: Option<String>,
    pub city: Option<String>,
    pub country: Option<String>,
    pub email: Option<String>,
    pub phone: Option<String>,
    pub mobile: Option<String>,
    pub website: Option<String>,
    pub vat_number: Option<String>,
    pub language: Option<String>,
    pub notes: Option<String>,
    pub contact_persons: Vec<ContactPersonRow>,
}

/// `(bexio id, contact type, name 1, the optional fields from category to
/// notes in declaration order, the contact persons)`.
pub type ContactRowView = (
    Option<i32>,
    Seq<char>,
    Seq<char>,
    Seq<Option<Seq<char>>>,
    Seq<Seq<Option<Seq<char>>>>,
);

impl View for ContactRow {
    type V = ContactRowView;

    open spec fn view(&self) -> ContactRowView {
        (
            self.bexio_id,
            self.contact_type@,
            self.name1@,
            seq![
                opt_view(self.category),
                opt_view(self.name2),
                opt_view(self.address),
                opt_view(self.postal_code),
                opt_view(self.city),
                opt_view(self.country),
                opt_view(self.email),
                opt_view(self.phone),
                opt_view(self.mobile),
                opt_view(self.website),
                opt_view(self.vat_number),
                opt_view(self.language),
                opt_view(self.notes),
            ],
            self.contact_persons@.map_values(|p: ContactPersonRow| p@),
        )
    }
}

/// Contact person `n` of a record: its fields under the columns
/// "Kontaktperson <n> Vorname", "... Nachname" and so on.
pub open spec fn person_of(h: Seq<Seq<char>>, rec: Seq<Seq<char>>, n: int) -> Seq<
    Option<Seq<char>>,
> {
    let p = person_prefix(n);
    seq![
        field_spec(h, rec, p + " Vorname"@),
        field_spec(h, rec, p + " Nachname"@),
        field_spec(h, rec, p + " Anrede"@),
        field_spec(h, rec, p + " Titel"@),
        field_spec(h, rec, p + " Adresse"@),
        field_spec(h, rec, p + " PLZ"@),
        field_spec(h, rec, p + " Ort"@),
        field_spec(h, rec, p + " Land"@),
        field_spec(h, rec, p + " E-Mail"@),
        field_spec(h, rec, p + " E-Mail 2"@),
        field_spec(h, rec, p + " Telefon"@),
        field_spec(h, rec, p + " Telefon 2"@),
        field_spec(h, rec, p + " Mobile"@),
        field_spec(h, rec, p + " Fax"@),
        field_spec(h, rec, p + " Website"@),
        field_spec(h, rec, p + " Anredeform"@),
        field_spec(h, rec, p + " Geburtstag"@),
        field_spec(h, rec, p + " Bemerkungen"@),
        field_spec(h, rec, p + " Sprache"@),
    ]
}

/// "Kontaktperson 1" .. "Kontaktperson 3".
pub open spec fn person_prefix(n: int) -> Seq<char> {
    "Kontaktperson "@ + seq![(n + 48) as char]
}

/// A person counts when it has a first or a last name.
pub open spec fn person_named(p: Seq<Option<Seq<char>>>) -> bool {
    p[0] is Some || p[1] is Some
}

/// The named persons among persons `n..=3`, in order.
pub open spec fn persons_from(h: Seq<Seq<char>>, rec: Seq<Seq<char>>, n: int) -> Seq<
    Seq<Option<Seq<char>>>,
>
    decreases 4 - n,
{
    if n < 1 || n > 3 {
        seq![]
    } else if person_named(person_of(h, rec, n)) {
        seq![person_of(h, rec, n)] + persons_from(h, rec, n + 1)
    } else {
        persons_from(h, rec, n + 1)
    }
}

/// The contact that one record describes.
pub open spec fn contact_of(h: Seq<Seq<char>>, rec: Seq<Seq<char>>) -> ContactRowView {
    (
        match field_spec(h, rec, "Datensatz ID"@) {
            Some(s) => parse_i32_spec(s),
            None => None,
        },
        if field_spec(h, rec, "Kontaktart"@) == Some("Firma"@) {
            "company"@
        } else {
            "person"@
        },
        match field_spec(h, rec, "Name 1"@) {
            Some(s) => s,
            None => seq![],
        },
        seq![
            field_spec(h, rec, "Kategorie"@),
            field_spec(h, rec, "Name 2"@),
            field_spec(h, rec, "Adresse"@),
            field_spec(h, rec, "PLZ"@),
            field_spec(h, rec, "Ort"@),
            field_spec(h, rec, "Land"@),
            field_spec(h, rec, "E-Mail"@),
            field_spec(h, rec, "Telefon"@),
            field_spec(h, rec, "Mobile"@),
            field_spec(h, rec, "Website"@),
            field_spec(h, rec, "MWST-Nummer"@),
            field_spec(h, rec, "Sprache"@),
            field_spec(h, rec, "Bemerkungen"@),
        ],
        persons_from(h, rec, 1),
    )
}

pub open spec fn contacts_of(h: Seq<Seq<char>>, recs: Seq<Seq<Seq<char>>>) -> Seq<ContactRowView> {
    recs.map_values(|rec: Seq<Seq<char>>| contact_of(h, rec))
}

/// The contacts of a comma-separated table, or the message of a bad request.
pub open spec fn contacts_from_table(t: CsvOutcomeView) -> Result<Seq<ContactRowView>, Seq<char>> {
    if t.0 == 1 {
        Err("Invalid CSV: "@ + t.3)
    } else if t.0 == 2 {
        Err("CSV parse error: "@ + t.3)
    } else {
        Ok(contacts_of(t.1, t.2))
    }
}

pub open spec fn contacts_view(rows: Seq<ContactRow>) -> Seq<ContactRowView> {
    rows.map_values(|r: ContactRow| r@)
}

/// Parses a comma-separated contact export.
pub fn parse_contacts_csv(data: &[u8]) -> (r: Result<Vec<ContactRow>, AppError>)
    ensures
        match contacts_from_table(csv_read(data@, 44u8)) {
            Ok(rows) => r matches Ok(v) && contacts_view(v@) == rows,
            Err(m) => r matches Err(e) && e.kind_and_message() == (ErrorKind::BadRequest, m),
        },
{
    let t = read_csv(data, 44u8);
    contacts_from_outcome(&t)
}

/// The contacts of a read table, or the error met while reading it.
pub fn contacts_from_outcome(t: &CsvOutcome) -> (r: Result<Vec<ContactRow>, AppError>)
    ensures
        match contacts_from_table(t@) {
            Ok(rows) => r matches Ok(v) && contacts_view(v@) == rows,
            Err(m) => r matches Err(e) && e.kind_and_message() == (ErrorKind::BadRequest, m),
        },
{
    match t {
        CsvOutcome::HeaderError(m) => Err(AppError::BadRequest(message("Invalid CSV: ", m.as_str()))),
        CsvOutcome::RecordError(_, m) => Err(
            AppError::BadRequest(message("CSV parse error: ", m.as_str())),
        ),
        CsvOutcome::Table(h, recs) => {
            let ghost hv = h.deep_view();
            let ghost rv = recs.deep_view();
            let mut rows: Vec<ContactRow> = Vec::new();
            let mut i: usize = 0;
            while i < recs.len()
                invariant
                    i <= recs.len(),
                    hv == h.deep_view(),
                    rv == recs.deep_view(),
                    rv.len() == recs.len(),
                    contacts_view(rows@) == contacts_of(hv, rv.take(i as int)),
                decreases recs.len() - i,
            {
                assert(rv[i as int] == recs@[i as int].deep_view());
                let c = contact_row(h, &recs[i]);
                let ghost before = rows@;
                rows.push(c);
                assert(rv.take(i + 1) =~= rv.take(i as int).push(rv[i as int]));
                assert(contacts_view(rows@) =~= contacts_view(before).push(c@));
                assert(contacts_of(hv, rv.take(i + 1)) =~= contacts_of(hv, rv.take(i as int)).push(
                    contact_of(hv, rv[i as int]),
                ));
                i = i + 1;
            }
            assert(rv.take(recs.len() as int) =~= rv);
            Ok(rows)
        },
    }
}

/// "Kontaktperson <n><suffix>".
fn person_column(n: usize, suffix: &str) -> (r: String)
    requires
        1 <= n <= 3,
    ensures
        r@ == person_prefix(n as int) + suffix@,
{
    let mut out: Vec<char> = Vec::new();
    push_str(&mut out, "Kontaktperson ");
    out.push(((n as u8) + 48) as char);
    push_str(&mut out, suffix);
    assert(out@ =~= person_prefix(n as int) + suffix@);
    string_of(&out)
}

fn person_field(h: &Vec<String>, rec: &Vec<String>, n: usize, suffix: &str) -> (r: Option<
    String,
>)
    requires
        1 <= n <= 3,
    ensures
        match field_spec(h.deep_view(), rec.deep_view(), person_prefix(n as int) + suffix@) {
            Some(v) => r matches Some(x) && x@ == v,
            None => r is None,
        },
{
    let col = person_column(n, suffix);
    field(h, rec, col.as_str())
}

/// Contact person `n` of a record.
#[verifier::rlimit(80)]
#[verifier::spinoff_prover]
fn person_row(h: &Vec<String>, rec: &Vec<String>, n: usize) -> (r: ContactPersonRow)
    requires
        1 <= n <= 3,
    ensures
        r@ == person_of(h.deep_view(), rec.deep_view(), n as int),
{
    let r = ContactPersonRow {
        vorname: person_field(h, rec, n, " Vorname"),
        nachname: person_field(h, rec, n, " Nachname"),
        anrede: person_field(h, rec, n, " Anrede"),
        titel: person_field(h, rec, n, " Titel"),
        address: person_field(h, rec, n, " Adresse"),
        postal_code: person_field(h, rec, n, " PLZ"),
        city: person_field(h, rec, n, " Ort"),
        country: person_field(h, rec, n, " Land"),
        email: person_field(h, rec, n, " E-Mail"),
        email2: person_field(h, rec, n, " E-Mail 2"),
        phone: person_field(h, rec, n, " Telefon"),
        phone2: person_field(h, rec, n, " Telefon 2"),
        mobile: person_field(h, rec, n, " Mobile"),
        fax: person_field(h, rec, n, " Fax"),
        website: person_field(h, rec, n, " Website"),
        anredeform: person_field(h, rec, n, " Anredeform"),
        birthday: person_field(h, rec, n, " Geburtstag"),
        notes: person_field(h, rec, n, " Bemerkungen"),
        language: person_field(h, rec, n, " Sprache"),
    };
    assert(r@ =~= person_of(h.deep_view(), rec.deep_view(), n as int));
    r
}

/// The contact of one record.
fn contact_row(h: &Vec<String>, rec: &Vec<String>) -> (r: ContactRow)
    ensures
        r@ == contact_of(h.deep_view(), rec.deep_view()),
{
    let ghost hv = h.deep_view();
    let ghost rv = rec.deep_view();
    let bexio_id = match field(h, rec, "Datensatz ID") {
        Some(s) => parse_i32(&chars_of(s.as_str())),
        None => None,
    };
    let is_company = match field(h, rec, "Kontaktart") {
        Some(k) => str_eq(k.as_str(), "Firma"),
        None => false,
    };
    let contact_type = if is_company {
        "company".to_owned()
    } else {
        "person".to_owned()
    };
    let name1 = match field(h, rec, "Name 1") {
        Some(s) => s,
        None => String::new(),
    };
    let mut contact_persons: Vec<ContactPersonRow> = Vec::new();
    let mut n: usize = 1;
    while n <= 3
        invariant
            1 <= n <= 4,
            hv == h.deep_view(),
            rv == rec.deep_view(),
            persons_from(hv, rv, 1) == contact_persons@.map_values(|p: ContactPersonRow| p@)
                + persons_from(hv, rv, n as int),
        decreases 4 - n,
    {
        let kp = person_row(h, rec, n);
        let ghost before = contact_persons@;
        if kp.has_name() {
            contact_persons.push(kp);
            assert(contact_persons@.map_values(|p: ContactPersonRow| p@) =~= before.map_values(
                |p: ContactPersonRow| p@,
            ) + seq![person_of(hv, rv, n as int)]);
        }
        n = n + 1;
    }
    let r = ContactRow {
        bexio_id,
        contact_type,
        category: field(h, rec, "Kategorie"),
        name1,
        name2: field(h, rec, "Name 2"),
        address: field(h, rec, "Adresse"),
        postal_code: field(h, rec, "PLZ"),
        city: field(h, rec, "Ort"),
        country: field(h, rec, "Land"),
        email: field(h, rec, "E-Mail"),
        phone: field(h, rec, "Telefon"),
        mobile: field(h, rec, "Mobile"),
        website: field(h, rec, "Website"),
        vat_number: field(h, rec, "MWST-Nummer"),
        language: field(h, rec, "Sprache"),
        notes: field(h, rec, "Bemerkungen"),
        contact_persons,
    };
    assert(r@.3 =~= contact_of(hv, rv).3);
    assert(persons_from(hv, rv, 4) =~= Seq::<Seq<Option<Seq<char>>>>::empty());
    assert(r@.4 =~= contact_of(hv, rv).4);
    r
}

} // verus!
