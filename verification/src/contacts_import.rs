//! Importing contacts: the category of a new contact, the contact persons
//! queued behind a company, which relationship errors are skipped, the
//! messages of the import log, and the running count of an import.
use vstd::prelude::*;

use crate::bank_reconciliation::{contains, str_contains};
use crate::contacts_csv::ContactPersonRow;
use crate::numeric::{int_text, push_i64};
use crate::text::{push_str, str_eq, string_of};

verus! {

/// The contacts import: the decisions taken for the rows of a contacts
/// file.
pub struct ContactsImport;

impl ContactsImport {
    /// The category of a new contact: "company" for a company, else
    /// "person".
    pub fn category(contact_type: &str) -> (r: String)
        ensures
            r@ == if contact_type@ == "company"@ {
                "company"@
            } else {
                "person"@
            },
    {
        if str_eq(contact_type, "company") {
            "company".to_owned()
        } else {
            "person".to_owned()
        }
    }

    /// The contact persons queued behind a new contact: for a company, each
    /// of its persons in order, the first one primary; none for a person.
    pub fn queued_persons(contact_type: &str, persons: &Vec<ContactPersonRow>) -> (r: Vec<(usize, bool)>)
        ensures
            contact_type@ != "company"@ ==> r@.len() == 0,
            contact_type@ == "company"@ ==> r@.len() == persons.len() && forall|i: int|
                0 <= i < r@.len() ==> #[trigger] r@[i] == (i as usize, i == 0),
    {
        let mut out: Vec<(usize, bool)> = Vec::new();
        if !str_eq(contact_type, "company") {
            return out;
        }
        let mut i: usize = 0;
        while i < persons.len()
            invariant
                i <= persons.len(),
                out@.len() == i,
                forall|j: int| 0 <= j < i ==> #[trigger] out@[j] == (j as usize, j == 0),
            decreases persons.len() - i,
        {
            out.push((i, i == 0));
            i = i + 1;
        }
        out
    }

    /// Whether a failed relationship is skipped silently: where it exists
    /// already (the error names a UNIQUE constraint or a duplicate).
    pub fn skips_relationship_error(error: &str) -> (b: bool)
        ensures
            b == (contains(error@, "UNIQUE"@) || contains(error@, "duplicate"@)),
    {
        str_contains(error, "UNIQUE") || str_contains(error, "duplicate")
    }

    /// "Contact '{name}': {error}".
    pub fn contact_error(name: &str, error: &str) -> (r: String)
        ensures
            r@ == "Contact '"@ + name@ + "': "@ + error@,
    {
        let mut m = "Contact '".to_owned();
        m.append(name);
        m.append("': ");
        m.append(error);
        m
    }

    /// "Kontaktperson '{name}': {error}".
    pub fn person_error(name: &str, error: &str) -> (r: String)
        ensures
            r@ == "Kontaktperson '"@ + name@ + "': "@ + error@,
    {
        let mut m = "Kontaktperson '".to_owned();
        m.append(name);
        m.append("': ");
        m.append(error);
        m
    }

    /// "Relationship '{name}' <-> company: {error}".
    pub fn relationship_error(name: &str, error: &str) -> (r: String)
        ensures
            r@ == "Relationship '"@ + name@ + "' <-> company: "@ + error@,
    {
        let mut m = "Relationship '".to_owned();
        m.append(name);
        m.append("' <-> company: ");
        m.append(error);
        m
    }

    /// The log of an import: where relationships were created, a first
    /// line "Created {n} contact relationships" before the errors.
    pub fn final_log(relationships_created: i32, log: Vec<String>) -> (r: Vec<String>)
        ensures
            relationships_created <= 0 ==> r@ == log@,
            relationships_created > 0 ==> r@.len() == log@.len() + 1 && r@[0]@ == "Created "@
                + int_text(relationships_created as int) + " contact relationships"@ && r@.skip(1)
                == log@,
    {
        if relationships_created <= 0 {
            return log;
        }
        let mut v: Vec<char> = Vec::new();
        push_str(&mut v, "Created ");
        push_i64(&mut v, relationships_created as i64);
        push_str(&mut v, " contact relationships");
        let mut out: Vec<String> = Vec::new();
        out.push(string_of(&v));
        let mut i: usize = 0;
        while i < log.len()
            invariant
                i <= log.len(),
                out@.len() == i + 1,
                out@[0]@ == "Created "@ + int_text(relationships_created as int)
                    + " contact relationships"@,
                out@.skip(1) == log@.take(i as int),
            decreases log.len() - i,
        {
            let ghost before = out@;
            out.push(log[i].clone());
            assert(out@.skip(1) =~= before.skip(1).push(log@[i as int]));
            assert(log@.take(i + 1) =~= log@.take(i as int).push(log@[i as int]));
            i = i + 1;
        }
        assert(log@.take(log.len() as int) =~= log@);
        out
    }
}

/// The running count of a contacts import: the rows imported (contacts,
/// and relationships to a company), the contacts refused, the
/// relationships created, and the log of what failed.
pub struct ContactsTally {
    pub imported: i32,
    pub errors: i32,
    pub relationships_created: i32,
    pub log: Vec<String>,
}

impl ContactsTally {
    /// An import that has done nothing yet.
    pub fn new() -> (r: ContactsTally)
        ensures
            r.imported == 0,
            r.errors == 0,
            r.relationships_created == 0,
            r.log@.len() == 0,
    {
        ContactsTally { imported: 0, errors: 0, relationships_created: 0, log: Vec::new() }
    }

    /// A contact row was created: it counts as imported.
    pub fn contact_created(&mut self)
        requires
            old(self).imported < i32::MAX,
        ensures
            final(self).imported == old(self).imported + 1,
            final(self).errors == old(self).errors,
            final(self).relationships_created == old(self).relationships_created,
            final(self).log@ == old(self).log@,
    {
        self.imported = self.imported + 1;
    }

    /// A contact row was refused: it counts as an error, logged as
    /// "Contact '{name}': {error}".
    pub fn contact_failed(&mut self, name: &str, error: &str)
        requires
            old(self).errors < i32::MAX,
        ensures
            final(self).imported == old(self).imported,
            final(self).errors == old(self).errors + 1,
            final(self).relationships_created == old(self).relationships_created,
            final(self).log@.len() == old(self).log@.len() + 1,
            final(self).log@.drop_last() == old(self).log@,
            final(self).log@.last()@ == "Contact '"@ + name@ + "': "@ + error@,
    {
        self.errors = self.errors + 1;
        let m = ContactsImport::contact_error(name, error);
        self.log.push(m);
        assert(self.log@.drop_last() =~= old(self).log@);
    }

    /// Whether a queued contact person is created at all: a person without
    /// a name is passed over.
    pub fn processes_person(full_name: &str) -> (b: bool)
        ensures
            b == (full_name@.len() > 0),
    {
        full_name.unicode_len() > 0
    }

    /// A contact person could not be created: logged as
    /// "Kontaktperson '{name}': {error}", with no count changed.
    pub fn person_failed(&mut self, full_name: &str, error: &str)
        ensures
            final(self).imported == old(self).imported,
            final(self).errors == old(self).errors,
            final(self).relationships_created == old(self).relationships_created,
            final(self).log@.len() == old(self).log@.len() + 1,
            final(self).log@.drop_last() == old(self).log@,
            final(self).log@.last()@ == "Kontaktperson '"@ + full_name@ + "': "@ + error@,
    {
        let m = ContactsImport::person_error(full_name, error);
        self.log.push(m);
        assert(self.log@.drop_last() =~= old(self).log@);
    }

    /// A relationship to the company was created: it counts as a
    /// relationship and as an imported row.
    pub fn relationship_created(&mut self)
        requires
            old(self).imported < i32::MAX,
            old(self).relationships_created < i32::MAX,
        ensures
            final(self).imported == old(self).imported + 1,
            final(self).errors == old(self).errors,
            final(self).relationships_created == old(self).relationships_created + 1,
            final(self).log@ == old(self).log@,
    {
        self.imported = self.imported + 1;
        self.relationships_created = self.relationships_created + 1;
    }

    /// A relationship could not be created: passed over where it exists
    /// already (see `skips_relationship_error`), else logged as
    /// "Relationship '{name}' <-> company: {error}"; no count changes.
    pub fn relationship_failed(&mut self, full_name: &str, error: &str)
        ensures
            final(self).imported == old(self).imported,
            final(self).errors == old(self).errors,
            final(self).relationships_created == old(self).relationships_created,
            (contains(error@, "UNIQUE"@) || contains(error@, "duplicate"@)) ==> final(self).log@
                == old(self).log@,
            !(contains(error@, "UNIQUE"@) || contains(error@, "duplicate"@)) ==> {
                &&& final(self).log@.len() == old(self).log@.len() + 1
                &&& final(self).log@.drop_last() == old(self).log@
                &&& final(self).log@.last()@ == "Relationship '"@ + full_name@
                    + "' <-> company: "@ + error@
            },
    {
        if ContactsImport::skips_relationship_error(error) {
            return;
        }
        let m = ContactsImport::relationship_error(full_name, error);
        self.log.push(m);
        assert(self.log@.drop_last() =~= old(self).log@);
    }

    /// The result of the import: the rows imported, the errors, and the
    /// log (see `ContactsImport::final_log`).
    pub fn finish(self) -> (r: (i32, i32, Vec<String>))
        ensures
            r.0 == self.imported,
            r.1 == self.errors,
            self.relationships_created <= 0 ==> r.2@ == self.log@,
            self.relationships_created > 0 ==> r.2@.len() == self.log@.len() + 1 && r.2@[0]@
                == "Created "@ + int_text(self.relationships_created as int)
                + " contact relationships"@ && r.2@.skip(1) == self.log@,
    {
        let imported = self.imported;
        let errors = self.errors;
        let log = ContactsImport::final_log(self.relationships_created, self.log);
        (imported, errors, log)
    }
}

} // verus!
