//! The description of a report: where its rows come from and how its columns
//! are shown.

use vstd::prelude::*;
use std::collections::HashMap;

verus! {

/// How inline report data is compressed.
#[derive(Debug, Clone, Copy, PartialEq, Eq, Structural)]
pub enum CompressionFormat {
    Gzip,
    Zstd,
    Deflate,
}

/// The format of a stored data file.
#[derive(Debug, Clone, Copy, PartialEq, Eq, Structural)]
pub enum FileFormat {
    Csv,
    Json,
    Jsonl,
    Parquet,
    Excel,
}

/// How a streaming endpoint is authenticated: the scheme, such as bearer or
/// basic, and its credentials.
#[derive(Debug, Clone)]
pub struct AuthMethod {
    pub auth_type: String,
    pub credentials: HashMap<String, String>,
}

/// How the pages of a streaming endpoint are requested.
#[derive(Debug, Clone)]
pub struct PaginationConfig {
    pub page_size: usize,
    pub page_param: String,
    pub size_param: String,
    pub total_pages: Option<usize>,
}

/// Where the rows of a report come from. Rows and query parameters are held
/// as JSON text.
#[derive(Debug, Clone)]
#[allow(inconsistent_fields)]
pub enum DataSource {
    /// Rows sent with the request.
    Inline { rows: Vec<String> },
    /// Rows sent compressed with the request.
    Compressed { format: CompressionFormat, data: Vec<u8> },
    /// Rows in a file in object storage.
    R2Reference {
        bucket: String,
        key: String,
        format: FileFormat,
        row_count: Option<usize>,
        size_bytes: Option<usize>,
    },
    /// Rows streamed from an endpoint.
    StreamingEndpoint { url: String, auth: Option<AuthMethod>, pagination: Option<PaginationConfig> },
    /// Rows selected by a database query.
    DatabaseQuery { connection_id: String, query: String, parameters: Option<String> },
}

/// The type of the values of a column.
#[derive(Debug, Clone, Copy, PartialEq, Eq, Structural)]
pub enum DataType {
    String,
    Number,
    Currency,
    Date,
    DateTime,
    Boolean,
    Percentage,
}

impl DataType {
    /// Whether the values of the column are reformatted before they are
    /// shown: amounts, percentages and dates are, the others are shown as
    /// they come.
    pub fn is_formatted(&self) -> (formatted: bool)
        ensures
            formatted == (*self == DataType::Currency || *self == DataType::Percentage || *self
                == DataType::Date || *self == DataType::DateTime),
    {
        match self {
            DataType::Currency => true,
            DataType::Percentage => true,
            DataType::Date => true,
            DataType::DateTime => true,
            _ => false,
        }
    }
}

/// How the cells of a column are aligned.
#[derive(Debug, Clone, Copy, PartialEq, Eq, Structural)]
pub enum Alignment {
    Left,
    Center,
    Right,
}

/// How the rows of a report are grouped.
#[derive(Debug, Clone)]
pub struct GroupingConfig {
    pub group_by: Vec<String>,
    pub show_subtotals: bool,
    pub collapsed: bool,
}

/// How the rows of a report are ordered.
#[derive(Debug, Clone)]
pub struct SortingConfig {
    pub sort_by: Vec<SortColumn>,
}

/// One column by which rows are ordered.
#[derive(Debug, Clone)]
pub struct SortColumn {
    pub field: String,
    pub direction: SortDirection,
}

/// Ascending or descending order.
#[derive(Debug, Clone, Copy, PartialEq, Eq, Structural)]
pub enum SortDirection {
    Asc,
    Desc,
}

/// A value computed over a column of a report.
#[derive(Debug, Clone)]
pub struct Aggregation {
    pub field: String,
    pub operation: AggregateOperation,
    pub alias: Option<String>,
}

/// The operation of an aggregation.
#[derive(Debug, Clone, Copy, PartialEq, Eq, Structural)]
pub enum AggregateOperation {
    Sum,
    Average,
    Count,
    Min,
    Max,
    Distinct,
}

impl AggregateOperation {
    /// The name of the operation in lower case.
    pub open spec fn label(self) -> Seq<char> {
        match self {
            AggregateOperation::Sum => "sum"@,
            AggregateOperation::Average => "average"@,
            AggregateOperation::Count => "count"@,
            AggregateOperation::Min => "min"@,
            AggregateOperation::Max => "max"@,
            AggregateOperation::Distinct => "distinct"@,
        }
    }

    /// The name of the operation in lower case.
    pub fn to_text(&self) -> (text: String)
        ensures
            text@ == self.label(),
    {
        match self {
            AggregateOperation::Sum => "sum".to_owned(),
            AggregateOperation::Average => "average".to_owned(),
            AggregateOperation::Count => "count".to_owned(),
            AggregateOperation::Min => "min".to_owned(),
            AggregateOperation::Max => "max".to_owned(),
            AggregateOperation::Distinct => "distinct".to_owned(),
        }
    }
}

impl Aggregation {
    /// The name under which the result is shown: the alias where there is
    /// one, else the field, an underscore and the operation.
    pub open spec fn result_name(self) -> Seq<char> {
        match self.alias {
            Some(alias) => alias@,
            None => self.field@ + "_"@ + self.operation.label(),
        }
    }

    /// The name under which the result of the aggregation is shown.
    pub fn result_key(&self) -> (key: String)
        ensures
            key@ == self.result_name(),
    {
        match &self.alias {
            Some(alias) => alias.clone(),
            None => {
                let mut out = String::new();
                crate::text::push_text(&mut out, self.field.as_str());
                crate::text::push_text(&mut out, "_");
                let label = self.operation.to_text();
                crate::text::push_text(&mut out, label.as_str());
                assert(out@ =~= self.result_name());
                out
            },
        }
    }
}

/// How a filter compares a field with its value.
#[derive(Debug, Clone, Copy, PartialEq, Eq, Structural)]
pub enum FilterOperator {
    Equals,
    NotEquals,
    GreaterThan,
    LessThan,
    GreaterOrEqual,
    LessOrEqual,
    Contains,
    StartsWith,
    EndsWith,
    In,
    NotIn,
    Between,
}

/// The look of the cells that a conditional format selects.
#[derive(Debug, Clone)]
pub struct FormatStyle {
    pub background_color: Option<String>,
    pub font_color: Option<String>,
    pub bold: Option<bool>,
    pub icon: Option<String>,
}

} // verus!
