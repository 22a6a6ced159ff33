//! The general report.

use vstd::prelude::*;
use crate::base::error::DocumentError;
use crate::json::json_members;
use crate::pdf::builder::{join, joined, texts_of};
use crate::templates::template_trait::{
    escape_typst,
    escaped_text,
    field_names,
    validate_payload,
    validation_failure,
};
use crate::text::{push_text, same_text};

verus! {

/// A report with its data and an optional summary.
#[derive(Debug, Clone, Copy)]
pub struct ReportTemplate {}

/// The fields that the data of the template must have, in the order in which
/// they are checked.
pub open spec fn report_fields() -> Seq<Seq<char>> {
    seq!["title"@, "generated_date"@, "period"@]
}

impl ReportTemplate {
    /// The template.
    pub fn new() -> (template: ReportTemplate) {
        ReportTemplate {  }
    }

    /// The identifier of the template.
    pub fn template_id(&self) -> (id: &'static str)
        ensures
            id@ == "report"@,
    {
        "report"
    }

    /// What the template is for, in a few words.
    pub fn description(&self) -> (text: &'static str)
        ensures
            text@ == "Reporte General con Datos y Resumen"@,
    {
        "Reporte General con Datos y Resumen"
    }

    /// The fields that the data must have.
    pub fn required_fields(&self) -> (fields: Vec<String>)
        ensures
            field_names(fields@) == report_fields(),
    {
        let mut fields: Vec<String> = Vec::new();
        fields.push("title".to_owned());
        fields.push("generated_date".to_owned());
        fields.push("period".to_owned());
        assert(field_names(fields@) =~= report_fields());
        fields
    }

    /// Checks that the JSON text `data` is an object with every required
    /// field.
    pub fn validate(&self, data: &str) -> (checked: Result<(), DocumentError>)
        ensures
            match validation_failure(json_members(data@), report_fields(), false) {
                Some(reason) => checked matches Err(DocumentError::ValidationError(message))
                    && message@ == reason,
                None => checked is Ok,
            },
    {
        let required = self.required_fields();
        validate_payload(data, &required, false)
    }
}


/// The value that a row holds under `column`; a hyphen where it holds none.
pub open spec fn cell_value(row: Seq<(String, String)>, column: Seq<char>) -> Seq<char>
    decreases row.len(),
{
    if row.len() == 0 {
        "-"@
    } else if row[0].0@ == column {
        row[0].1@
    } else {
        cell_value(row.drop_first(), column)
    }
}

/// The header cells of a table: each column name escaped and in bold.
pub open spec fn header_cells(columns: Seq<String>) -> Seq<Seq<char>> {
    Seq::new(columns.len(), |i: int| "[*"@ + escaped_text(columns[i]@) + "*]"@)
}

/// The cells of one row of a table, one for each column.
pub open spec fn row_cells(columns: Seq<String>, row: Seq<(String, String)>) -> Seq<Seq<char>> {
    Seq::new(columns.len(), |i: int| "["@ + escaped_text(cell_value(row, columns[i]@)) + "]"@)
}

/// The lines of the rows of a table, one for each row.
pub open spec fn row_lines(columns: Seq<String>, rows: Seq<Vec<(String, String)>>) -> Seq<
    Seq<char>,
> {
    Seq::new(rows.len(), |i: int| joined(row_cells(columns, rows[i]@), ", "@))
}

/// The cells of a table in markup: the header line, then one line for each
/// row; nothing for a table without rows.
pub open spec fn table_text(columns: Seq<String>, rows: Seq<Vec<(String, String)>>) -> Seq<char> {
    if rows.len() == 0 {
        Seq::empty()
    } else {
        joined(header_cells(columns), ", "@) + ",\n  "@ + joined(
            row_lines(columns, rows),
            ",\n  "@,
        )
    }
}

fn value_under(row: &Vec<(String, String)>, column: &str) -> (value: String)
    ensures
        value@ == cell_value(row@, column@),
{
    let mut i: usize = 0;
    assert(row@.subrange(0, row.len() as int) =~= row@);
    while i < row.len()
        invariant
            0 <= i <= row.len(),
            cell_value(row@, column@) == cell_value(
                row@.subrange(i as int, row.len() as int),
                column@,
            ),
        decreases row.len() - i,
    {
        let ghost rest = row@.subrange(i as int, row.len() as int);
        proof {
            assert(rest[0] == row@[i as int]);
            assert(rest.drop_first() =~= row@.subrange(i + 1, row.len() as int));
        }
        if same_text(row[i].0.as_str(), column) {
            return row[i].1.clone();
        }
        i = i + 1;
    }
    "-".to_owned()
}

impl ReportTemplate {
    /// Formats the data of a report as the cells of a table with the given
    /// columns, in the given order. A row that lacks a column shows a
    /// hyphen there.
    pub fn format_table_data(&self, columns: &Vec<String>, rows: &Vec<Vec<(String, String)>>) -> (text:
        String)
        ensures
            text@ == table_text(columns@, rows@),
    {
        if rows.len() == 0 {
            return String::new();
        }
        let mut headers: Vec<String> = Vec::new();
        let mut i: usize = 0;
        while i < columns.len()
            invariant
                0 <= i <= columns.len(),
                headers@.len() == i,
                forall|j: int| 0 <= j < i ==> (#[trigger] headers@[j])@ == header_cells(columns@)[j],
            decreases columns.len() - i,
        {
            let mut cell = String::new();
            push_text(&mut cell, "[*");
            let name = escape_typst(columns[i].as_str());
            push_text(&mut cell, name.as_str());
            push_text(&mut cell, "*]");
            assert(cell@ =~= header_cells(columns@)[i as int]);
            headers.push(cell);
            i = i + 1;
        }
        assert(texts_of(headers@) =~= header_cells(columns@));
        let mut lines: Vec<String> = Vec::new();
        let mut r: usize = 0;
        while r < rows.len()
            invariant
                0 <= r <= rows.len(),
                lines@.len() == r,
                forall|j: int|
                    0 <= j < r ==> (#[trigger] lines@[j])@ == row_lines(columns@, rows@)[j],
            decreases rows.len() - r,
        {
            let row = &rows[r];
            let mut cells: Vec<String> = Vec::new();
            let mut c: usize = 0;
            while c < columns.len()
                invariant
                    0 <= c <= columns.len(),
                    cells@.len() == c,
                    forall|j: int|
                        0 <= j < c ==> (#[trigger] cells@[j])@ == row_cells(columns@, row@)[j],
                decreases columns.len() - c,
            {
                let mut cell = String::new();
                push_text(&mut cell, "[");
                let value = value_under(row, columns[c].as_str());
                let shown = escape_typst(value.as_str());
                push_text(&mut cell, shown.as_str());
                push_text(&mut cell, "]");
                assert(cell@ =~= row_cells(columns@, row@)[c as int]);
                cells.push(cell);
                c = c + 1;
            }
            assert(texts_of(cells@) =~= row_cells(columns@, row@));
            let line = join(&cells, ", ");
            lines.push(line);
            r = r + 1;
        }
        assert(texts_of(lines@) =~= row_lines(columns@, rows@));
        let mut out = join(&headers, ", ");
        push_text(&mut out, ",\n  ");
        let body = join(&lines, ",\n  ");
        push_text(&mut out, body.as_str());
        assert(out@ =~= table_text(columns@, rows@));
        out
    }
}

} // verus!
