//! Import of projects from a spreadsheet export.
use vstd::prelude::*;

use crate::accounts_csv::opt_view;
use crate::error::{AppError, ErrorKind};
use crate::journal_xlsx::parsed_i32;
use crate::numeric::parse_i32;
use crate::sheet::{get_field, sheet_error, sheet_failure, sheet_field, Cell, SheetOutcome};
use crate::text::chars_of;

verus! {

/// A project read from the spreadsheet.
pub struct ProjectRow {
    pub bexio_id: Option<i32>,
    pub number: Option<String>,
    pub name: String,
    pub contact_name: Option<String>,
    pub contact_person: Option<String>,
    pub start_date: Option<String>,
    pub end_date: Option<String>,
    pub status: Option<String>,
    pub description: Option<String>,
    pub project_type: Option<String>,
}

/// `(bexio id, name, [number, contact name, contact person, start date,
/// end date, status, description, project type])`.
pub type ProjectRowView = (Option<i32>, Seq<char>, Seq<Option<Seq<char>>>);

impl View for ProjectRow {
    type V = ProjectRowView;

    open spec fn view(&self) -> ProjectRowView {
        (
            self.bexio_id,
            self.name@,
            seq![
                opt_view(self.number),
                opt_view(self.contact_name),
                opt_view(self.contact_person),
                opt_view(self.start_date),
                opt_view(self.end_date),
                opt_view(self.status),
                opt_view(self.description),
                opt_view(self.project_type),
            ],
        )
    }
}

/// The project of one row; rows without a project name give none.
pub open spec fn project_of(h: Seq<Cell>, row: Seq<Cell>) -> Option<ProjectRowView> {
    match sheet_field(h, row, "Projekt"@) {
        None => None,
        Some(name) => Some(
            (
                parsed_i32(sheet_field(h, row, "ID"@)),
                name,
                seq![
                    sheet_field(h, row, "Nr"@),
                    sheet_field(h, row, "Kontakt"@),
                    sheet_field(h, row, "Kontaktperson"@),
                    sheet_field(h, row, "Start"@),
                    sheet_field(h, row, "Ende"@),
                    sheet_field(h, row, "Status"@),
                    sheet_field(h, row, "Text"@),
                    sheet_field(h, row, "Projekttyp"@),
                ],
            ),
        ),
    }
}

/// The projects of the rows after the header row, in order.
pub open spec fn projects_of(h: Seq<Cell>, rows: Seq<Vec<Cell>>) -> Seq<ProjectRowView>
    decreases rows.len(),
{
    if rows.len() == 0 {
        seq![]
    } else {
        match project_of(h, rows.last()@) {
            Some(p) => projects_of(h, rows.drop_last()).push(p),
            None => projects_of(h, rows.drop_last()),
        }
    }
}

pub open spec fn projects_view(v: Seq<ProjectRow>) -> Seq<ProjectRowView> {
    v.map_values(|r: ProjectRow| r@)
}

fn project_row(h: &Vec<Cell>, row: &Vec<Cell>) -> (r: Option<ProjectRow>)
    ensures
        match project_of(h@, row@) {
            Some(p) => r matches Some(x) && x@ == p,
            None => r is None,
        },
{
    let name = match get_field(h, row, "Projekt") {
        Some(n) => n,
        None => return None,
    };
    let bexio_id = match get_field(h, row, "ID") {
        Some(s) => parse_i32(&chars_of(s.as_str())),
        None => None,
    };
    let r = ProjectRow {
        bexio_id,
        number: get_field(h, row, "Nr"),
        name,
        contact_name: get_field(h, row, "Kontakt"),
        contact_person: get_field(h, row, "Kontaktperson"),
        start_date: get_field(h, row, "Start"),
        end_date: get_field(h, row, "Ende"),
        status: get_field(h, row, "Status"),
        description: get_field(h, row, "Text"),
        project_type: get_field(h, row, "Projekttyp"),
    };
    let ghost expected = project_of(h@, row@)->0;
    assert(r@.2 =~= expected.2);
    Some(r)
}

/// The projects of a read workbook, or the bad request for a workbook that
/// could not be read or has no header row.
pub fn projects_from_sheet(sheet: &SheetOutcome) -> (r: Result<Vec<ProjectRow>, AppError>)
    ensures
        match sheet_error(*sheet) {
            Some(m) => r matches Err(e) && e.kind_and_message() == (ErrorKind::BadRequest, m),
            None => sheet matches SheetOutcome::Rows(rows) && r matches Ok(v) && projects_view(v@)
                == projects_of(rows@[0]@, rows@.skip(1)),
        },
{
    if let Some(e) = sheet_failure(sheet) {
        return Err(e);
    }
    match sheet {
        SheetOutcome::Rows(rows) => {
            let header = &rows[0];
            let mut out: Vec<ProjectRow> = Vec::new();
            let mut i: usize = 1;
            while i < rows.len()
                invariant
                    1 <= i <= rows.len(),
                    header@ == rows@[0]@,
                    projects_view(out@) == projects_of(rows@[0]@, rows@.subrange(1, i as int)),
                decreases rows.len() - i,
            {
                let ghost before = out@;
                assert(rows@.subrange(1, i + 1).drop_last() =~= rows@.subrange(1, i as int));
                match project_row(header, &rows[i]) {
                    Some(p) => {
                        out.push(p);
                        assert(projects_view(out@) =~= projects_view(before).push(p@));
                    },
                    None => {},
                }
                i = i + 1;
            }
            assert(rows@.subrange(1, rows.len() as int) =~= rows@.skip(1));
            Ok(out)
        },
        _ => {
            assert(false);
            Err(AppError::BadRequest(String::new()))
        },
    }
}

} // verus!
