//! Tabular data, postal addresses and companies as documents print them.

use vstd::prelude::*;
use crate::text::push_text;

verus! {

/// How the cells of a table column are aligned.
#[derive(Debug, Clone, Copy, PartialEq, Eq, Structural)]
pub enum ColumnAlign {
    Left,
    Center,
    Right,
}

impl ColumnAlign {
    /// The name of the alignment in markup.
    pub open spec fn label(self) -> Seq<char> {
        match self {
            ColumnAlign::Left => "left"@,
            ColumnAlign::Center => "center"@,
            ColumnAlign::Right => "right"@,
        }
    }

    /// The name of the alignment in markup.
    pub fn to_text(&self) -> (text: String)
        ensures
            text@ == self.label(),
    {
        match self {
            ColumnAlign::Left => "left".to_owned(),
            ColumnAlign::Center => "center".to_owned(),
            ColumnAlign::Right => "right".to_owned(),
        }
    }
}

/// A table: its column headers and its rows of cells. Column widths are
/// measures in points, held in decimal notation.
#[derive(Debug, Clone)]
pub struct TableData {
    pub headers: Vec<String>,
    pub rows: Vec<Vec<String>>,
    pub column_widths: Option<Vec<String>>,
    pub alignment: Option<Vec<ColumnAlign>>,
}

impl TableData {
    /// A table with the given headers and no rows yet.
    pub fn new(headers: Vec<String>) -> (table: TableData)
        ensures
            table.headers == headers,
            table.rows@.len() == 0,
            table.column_widths is None,
            table.alignment is None,
    {
        TableData { headers, rows: Vec::new(), column_widths: None, alignment: None }
    }

    /// Adds a row below the rows of the table.
    pub fn add_row(&mut self, row: Vec<String>)
        ensures
            final(self).headers == old(self).headers,
            final(self).rows@ == old(self).rows@.push(row),
            final(self).column_widths == old(self).column_widths,
            final(self).alignment == old(self).alignment,
    {
        self.rows.push(row);
    }

    /// The table with the given column widths.
    pub fn with_column_widths(self, widths: Vec<String>) -> (table: TableData)
        ensures
            table.headers == self.headers,
            table.rows == self.rows,
            table.column_widths == Some(widths),
            table.alignment == self.alignment,
    {
        let mut table = self;
        table.column_widths = Some(widths);
        table
    }

    /// The table with the given alignment of its columns.
    pub fn with_alignment(self, alignment: Vec<ColumnAlign>) -> (table: TableData)
        ensures
            table.headers == self.headers,
            table.rows == self.rows,
            table.column_widths == self.column_widths,
            table.alignment == Some(alignment),
    {
        let mut table = self;
        table.alignment = Some(alignment);
        table
    }
}

/// A postal address.
#[derive(Debug, Clone)]
pub struct Address {
    pub street: String,
    pub city: String,
    pub state: Option<String>,
    pub postal_code: Option<String>,
    pub country: String,
}

impl Address {
    /// The second line of the printed address: the city, then a comma and the
    /// state where there is one, then a space and the postal code where there
    /// is one.
    pub open spec fn city_line(self) -> Seq<char> {
        let with_state = match self.state {
            Some(state) => self.city@ + ", "@ + state@,
            None => self.city@,
        };
        match self.postal_code {
            Some(postal) => with_state + " "@ + postal@,
            None => with_state,
        }
    }

    /// The printed address: street, city line and country, one per line.
    pub open spec fn multiline(self) -> Seq<char> {
        self.street@ + "\n"@ + self.city_line() + "\n"@ + self.country@
    }

    /// The address on three lines: the street, the city with state and postal
    /// code, and the country.
    pub fn format_multiline(&self) -> (text: String)
        ensures
            text@ == self.multiline(),
    {
        let mut out = String::new();
        push_text(&mut out, self.street.as_str());
        push_text(&mut out, "\n");
        push_text(&mut out, self.city.as_str());
        if let Some(state) = &self.state {
            push_text(&mut out, ", ");
            push_text(&mut out, state.as_str());
        }
        if let Some(postal) = &self.postal_code {
            push_text(&mut out, " ");
            push_text(&mut out, postal.as_str());
        }
        push_text(&mut out, "\n");
        push_text(&mut out, self.country.as_str());
        assert(out@ =~= self.multiline());
        out
    }
}

/// A company named on a document.
#[derive(Debug, Clone)]
pub struct Company {
    pub name: String,
    pub tax_id: Option<String>,
    pub address: Option<Address>,
    pub phone: Option<String>,
    pub email: Option<String>,
    pub website: Option<String>,
}

impl Company {
    /// A company of which only the name is known.
    pub fn new(name: String) -> (company: Company)
        ensures
            company.name == name,
            company.tax_id is None,
            company.address is None,
            company.phone is None,
            company.email is None,
            company.website is None,
    {
        Company { name, tax_id: None, address: None, phone: None, email: None, website: None }
    }
}

} // verus!
