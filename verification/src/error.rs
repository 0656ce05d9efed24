//! The failures that the engine reports.

use vstd::prelude::*;

verus! {

/// Why a filter specification was rejected.
#[derive(Debug, Clone)]
pub enum FilterFault {
    /// The specification holds no condition.
    NoConditions,
    /// A column name is empty, too long, or holds a character that is not
    /// allowed in an identifier. Carries the name.
    InvalidColumn(String),
}

/// A failure of the engine.
#[derive(Debug, Clone)]
pub enum RustoraError {
    /// The file's extension names no format that can be read. Carries the
    /// extension in lower case.
    UnsupportedFormat(String),
    /// No file exists at the path carried.
    FileNotFound(String),
    /// The lazy dataframe engine failed. Carries its message.
    Polars(String),
    /// The persistent store failed. Carries its message.
    DuckDb(String),
    /// Reading or writing a file failed. Carries the message.
    Io(String),
    /// An operation needed a loaded dataframe and there was none.
    NoActiveDataFrame,
    /// No dataset of the name carried exists in either substrate.
    TableNotFound(String),
    /// No column of the name carried exists.
    ColumnNotFound(String),
    /// The parameters of an operation do not fit together.
    InvalidEdit(String),
    /// The operation needs a persistent store and none is active.
    NoProjectOpen,
    /// A rule of a single operation was broken. Carries the explanation.
    Session(String),
    /// A filter specification cannot be compiled.
    InvalidFilter(FilterFault),
}

/// A `FilterFault` with its text as a sequence of characters.
pub enum FilterFaultView {
    NoConditions,
    InvalidColumn(Seq<char>),
}

/// A `RustoraError` with its texts as sequences of characters.
pub enum RustoraErrorView {
    UnsupportedFormat(Seq<char>),
    FileNotFound(Seq<char>),
    Polars(Seq<char>),
    DuckDb(Seq<char>),
    Io(Seq<char>),
    NoActiveDataFrame,
    TableNotFound(Seq<char>),
    ColumnNotFound(Seq<char>),
    InvalidEdit(Seq<char>),
    NoProjectOpen,
    Session(Seq<char>),
    InvalidFilter(FilterFaultView),
}

impl View for FilterFault {
    type V = FilterFaultView;

    open spec fn view(&self) -> FilterFaultView {
        match self {
            FilterFault::NoConditions => FilterFaultView::NoConditions,
            FilterFault::InvalidColumn(name) => FilterFaultView::InvalidColumn(name@),
        }
    }
}

impl View for RustoraError {
    type V = RustoraErrorView;

    open spec fn view(&self) -> RustoraErrorView {
        match self {
            RustoraError::UnsupportedFormat(s) => RustoraErrorView::UnsupportedFormat(s@),
            RustoraError::FileNotFound(s) => RustoraErrorView::FileNotFound(s@),
            RustoraError::Polars(s) => RustoraErrorView::Polars(s@),
            RustoraError::DuckDb(s) => RustoraErrorView::DuckDb(s@),
            RustoraError::Io(s) => RustoraErrorView::Io(s@),
            RustoraError::NoActiveDataFrame => RustoraErrorView::NoActiveDataFrame,
            RustoraError::TableNotFound(s) => RustoraErrorView::TableNotFound(s@),
            RustoraError::ColumnNotFound(s) => RustoraErrorView::ColumnNotFound(s@),
            RustoraError::InvalidEdit(s) => RustoraErrorView::InvalidEdit(s@),
            RustoraError::NoProjectOpen => RustoraErrorView::NoProjectOpen,
            RustoraError::Session(s) => RustoraErrorView::Session(s@),
            RustoraError::InvalidFilter(f) => RustoraErrorView::InvalidFilter(f@),
        }
    }
}

/// A text or a failure, each by its view.
pub open spec fn text_result(r: Result<String, RustoraError>) -> Result<
    Seq<char>,
    RustoraErrorView,
> {
    match r {
        Ok(text) => Ok(text@),
        Err(e) => Err(e@),
    }
}

/// The sentence that explains a filter fault.
pub open spec fn fault_text(fault: FilterFaultView) -> Seq<char> {
    match fault {
        FilterFaultView::NoConditions => "Filter must have at least one condition"@,
        FilterFaultView::InvalidColumn(name) => "Invalid column name: "@ + name,
    }
}

/// The sentence that explains a failure: a fixed opening for each kind,
/// followed by what the failure carries.
pub open spec fn message_text(e: RustoraErrorView) -> Seq<char> {
    match e {
        RustoraErrorView::UnsupportedFormat(s) => "Unsupported file format: "@ + s,
        RustoraErrorView::FileNotFound(s) => "File not found: "@ + s,
        RustoraErrorView::Polars(s) => "Polars error: "@ + s,
        RustoraErrorView::DuckDb(s) => "DuckDB error: "@ + s,
        RustoraErrorView::Io(s) => "IO error: "@ + s,
        RustoraErrorView::NoActiveDataFrame => "No active dataframe loaded"@,
        RustoraErrorView::TableNotFound(s) => "Table not found: "@ + s,
        RustoraErrorView::ColumnNotFound(s) => "Column not found: "@ + s,
        RustoraErrorView::InvalidEdit(s) => "Invalid edit: "@ + s,
        RustoraErrorView::NoProjectOpen => "No project open"@,
        RustoraErrorView::Session(s) => "Session error: "@ + s,
        RustoraErrorView::InvalidFilter(f) => "Invalid filter: "@ + fault_text(f),
    }
}

fn headed(head: &str, detail: &str) -> (r: String)
    ensures
        r@ == head@ + detail@,
{
    let mut out = String::from_str(head);
    out.append(detail);
    out
}

impl FilterFault {
    /// The sentence that explains this fault.
    pub fn message(&self) -> (r: String)
        ensures
            r@ == fault_text(self@),
    {
        match self {
            FilterFault::NoConditions => String::from_str(
                "Filter must have at least one condition",
            ),
            FilterFault::InvalidColumn(name) => headed("Invalid column name: ", name.as_str()),
        }
    }
}

impl RustoraError {
    /// The sentence that explains this failure to a person.
    pub fn message(&self) -> (r: String)
        ensures
            r@ == message_text(self@),
    {
        match self {
            RustoraError::UnsupportedFormat(s) => headed("Unsupported file format: ", s.as_str()),
            RustoraError::FileNotFound(s) => headed("File not found: ", s.as_str()),
            RustoraError::Polars(s) => headed("Polars error: ", s.as_str()),
            RustoraError::DuckDb(s) => headed("DuckDB error: ", s.as_str()),
            RustoraError::Io(s) => headed("IO error: ", s.as_str()),
            RustoraError::NoActiveDataFrame => String::from_str("No active dataframe loaded"),
            RustoraError::TableNotFound(s) => headed("Table not found: ", s.as_str()),
            RustoraError::ColumnNotFound(s) => headed("Column not found: ", s.as_str()),
            RustoraError::InvalidEdit(s) => headed("Invalid edit: ", s.as_str()),
            RustoraError::NoProjectOpen => String::from_str("No project open"),
            RustoraError::Session(s) => headed("Session error: ", s.as_str()),
            RustoraError::InvalidFilter(f) => {
                let detail = f.message();
                headed("Invalid filter: ", detail.as_str())
            },
        }
    }
}

} // verus!
