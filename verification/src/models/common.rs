//! Types shared by every kind of request.

use vstd::prelude::*;

verus! {

/// The file format of a generated document.
#[derive(Debug, Clone, Copy, PartialEq, Eq, Structural)]
pub enum OutputFormat {
    Pdf,
    Excel,
    Csv,
}

impl OutputFormat {
    /// The name of the format as usage statistics record it.
    pub open spec fn label(self) -> Seq<char> {
        match self {
            OutputFormat::Pdf => "Pdf"@,
            OutputFormat::Excel => "Excel"@,
            OutputFormat::Csv => "Csv"@,
        }
    }

    /// The name of the format as usage statistics record it.
    pub fn to_text(&self) -> (text: String)
        ensures
            text@ == self.label(),
    {
        match self {
            OutputFormat::Pdf => "Pdf".to_owned(),
            OutputFormat::Excel => "Excel".to_owned(),
            OutputFormat::Csv => "Csv".to_owned(),
        }
    }
}

/// How urgent a request is.
#[derive(Debug, Clone, Copy, PartialEq, Eq, Structural)]
pub enum Priority {
    /// Expected within a minute.
    High,
    /// Expected within five minutes.
    Normal,
    /// Best effort.
    Low,
}

/// A postal address of a company or a customer.
#[derive(Debug, Clone)]
pub struct Address {
    pub line1: String,
    pub line2: Option<String>,
    pub city: String,
    pub state: String,
    pub zip: String,
    pub country: Option<String>,
}

/// The company that issues a document.
#[derive(Debug, Clone)]
pub struct CompanyInfo {
    pub name: String,
    pub logo_url: Option<String>,
    pub address: Address,
    pub tax_id: String,
    pub phone: Option<String>,
    pub email: Option<String>,
    pub website: Option<String>,
}

/// The customer that a document is issued to.
#[derive(Debug, Clone)]
pub struct CustomerInfo {
    pub name: String,
    pub tax_id: Option<String>,
    pub address: Address,
    pub phone: Option<String>,
    pub email: Option<String>,
}

/// How numbers are grouped and which decimal mark they take.
#[derive(Debug, Clone, Copy, PartialEq, Eq, Structural)]
pub enum NumberFormat {
    /// 1,234.56
    English,
    /// 1.234,56
    European,
    /// 12,34,567
    Indian,
}

/// The direction in which a page is laid out.
#[derive(Debug, Clone, Copy, PartialEq, Eq, Structural)]
pub enum Orientation {
    Portrait,
    Landscape,
}

} // verus!
