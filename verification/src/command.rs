//! What the front ends need besides the session: how a failure is shown,
//! how the words of a request are read, and how the description of an
//! opened dataset is put together.

use crate::error::{message_text, RustoraError, RustoraErrorView};
use crate::filter::{
    ConditionView, FilterCondition, FilterLogic, FilterOperator, FilterSpec, FilterSpecView,
};
use crate::session::{DatasetInfo, RustoraSession};
use crate::text::{decimal, push_decimal, text_eq};
use vstd::prelude::*;

verus! {

/// A failure as a front end shows it: a code to act on, a category to sort
/// by, and a sentence to read.
#[derive(Debug, Clone)]
pub struct CommandError {
    pub code: String,
    pub category: String,
    pub message: String,
}

/// The code of a failure.
pub open spec fn error_code(e: RustoraErrorView) -> Seq<char> {
    match e {
        RustoraErrorView::UnsupportedFormat(_) => "unsupported_format"@,
        RustoraErrorView::FileNotFound(_) => "file_not_found"@,
        RustoraErrorView::Polars(_) => "polars_error"@,
        RustoraErrorView::DuckDb(_) => "duckdb_error"@,
        RustoraErrorView::Io(_) => "io_error"@,
        RustoraErrorView::NoActiveDataFrame => "no_active_dataframe"@,
        RustoraErrorView::TableNotFound(_) => "table_not_found"@,
        RustoraErrorView::ColumnNotFound(_) => "column_not_found"@,
        RustoraErrorView::InvalidEdit(_) => "invalid_edit"@,
        RustoraErrorView::NoProjectOpen => "no_project_open"@,
        RustoraErrorView::Session(_) => "session_error"@,
        RustoraErrorView::InvalidFilter(_) => "invalid_filter"@,
    }
}

/// The category of a failure: `file`, `data` or `session`.
pub open spec fn error_category(e: RustoraErrorView) -> Seq<char> {
    match e {
        RustoraErrorView::UnsupportedFormat(_) => "file"@,
        RustoraErrorView::FileNotFound(_) => "file"@,
        RustoraErrorView::Polars(_) => "data"@,
        RustoraErrorView::DuckDb(_) => "data"@,
        RustoraErrorView::Io(_) => "file"@,
        RustoraErrorView::NoActiveDataFrame => "session"@,
        RustoraErrorView::TableNotFound(_) => "data"@,
        RustoraErrorView::ColumnNotFound(_) => "data"@,
        RustoraErrorView::InvalidEdit(_) => "data"@,
        RustoraErrorView::NoProjectOpen => "session"@,
        RustoraErrorView::Session(_) => "session"@,
        RustoraErrorView::InvalidFilter(_) => "data"@,
    }
}

fn code_of(e: &RustoraError) -> (r: &'static str)
    ensures
        r@ == error_code(e@),
{
    match e {
        RustoraError::UnsupportedFormat(_) => "unsupported_format",
        RustoraError::FileNotFound(_) => "file_not_found",
        RustoraError::Polars(_) => "polars_error",
        RustoraError::DuckDb(_) => "duckdb_error",
        RustoraError::Io(_) => "io_error",
        RustoraError::NoActiveDataFrame => "no_active_dataframe",
        RustoraError::TableNotFound(_) => "table_not_found",
        RustoraError::ColumnNotFound(_) => "column_not_found",
        RustoraError::InvalidEdit(_) => "invalid_edit",
        RustoraError::NoProjectOpen => "no_project_open",
        RustoraError::Session(_) => "session_error",
        RustoraError::InvalidFilter(_) => "invalid_filter",
    }
}

fn category_of(e: &RustoraError) -> (r: &'static str)
    ensures
        r@ == error_category(e@),
{
    match e {
        RustoraError::UnsupportedFormat(_) => "file",
        RustoraError::FileNotFound(_) => "file",
        RustoraError::Polars(_) => "data",
        RustoraError::DuckDb(_) => "data",
        RustoraError::Io(_) => "file",
        RustoraError::NoActiveDataFrame => "session",
        RustoraError::TableNotFound(_) => "data",
        RustoraError::ColumnNotFound(_) => "data",
        RustoraError::InvalidEdit(_) => "data",
        RustoraError::NoProjectOpen => "session",
        RustoraError::Session(_) => "session",
        RustoraError::InvalidFilter(_) => "data",
    }
}

impl CommandError {
    /// A failure of the front end itself, with the sentence given.
    pub fn internal(message: String) -> (r: CommandError)
        ensures
            r.code@ == "internal_error"@,
            r.category@ == "internal"@,
            r.message@ == message@,
    {
        CommandError {
            code: String::from_str("internal_error"),
            category: String::from_str("internal"),
            message,
        }
    }

    /// A failure of the engine as the front end shows it.
    pub fn from_error(e: &RustoraError) -> (r: CommandError)
        ensures
            r.code@ == error_code(e@),
            r.category@ == error_category(e@),
            r.message@ == message_text(e@),
    {
        CommandError {
            code: String::from_str(code_of(e)),
            category: String::from_str(category_of(e)),
            message: e.message(),
        }
    }
}

/// The operator that a word of a request names, if it names one.
pub open spec fn operator_named(word: Seq<char>) -> Option<FilterOperator> {
    if word == "equals"@ {
        Some(FilterOperator::Equals)
    } else if word == "not_equals"@ {
        Some(FilterOperator::NotEquals)
    } else if word == "greater_than"@ {
        Some(FilterOperator::GreaterThan)
    } else if word == "greater_than_or_equal"@ {
        Some(FilterOperator::GreaterThanOrEqual)
    } else if word == "less_than"@ {
        Some(FilterOperator::LessThan)
    } else if word == "less_than_or_equal"@ {
        Some(FilterOperator::LessThanOrEqual)
    } else if word == "contains"@ {
        Some(FilterOperator::Contains)
    } else if word == "not_contains"@ {
        Some(FilterOperator::NotContains)
    } else if word == "starts_with"@ {
        Some(FilterOperator::StartsWith)
    } else if word == "ends_with"@ {
        Some(FilterOperator::EndsWith)
    } else if word == "is_null"@ {
        Some(FilterOperator::IsNull)
    } else if word == "is_not_null"@ {
        Some(FilterOperator::IsNotNull)
    } else {
        None
    }
}

fn refused(code: &str, category: &str, head: &str, detail: &str) -> (r: CommandError)
    ensures
        r.code@ == code@,
        r.category@ == category@,
        r.message@ == head@ + detail@,
{
    let mut message = String::from_str(head);
    message.append(detail);
    CommandError { code: String::from_str(code), category: String::from_str(category), message }
}

/// Reads the name of a filter operator. An unknown word is refused with
/// the code `invalid_operator`.
pub fn parse_operator(op: &str) -> (r: Result<FilterOperator, CommandError>)
    ensures
        match operator_named(op@) {
            Some(operator) => r == Ok::<FilterOperator, CommandError>(operator),
            None => r is Err && r->Err_0.code@ == "invalid_operator"@ && r->Err_0.category@
                == "data"@ && r->Err_0.message@ == "Unknown filter operator: "@ + op@,
        },
{
    if text_eq(op, "equals") {
        Ok(FilterOperator::Equals)
    } else if text_eq(op, "not_equals") {
        Ok(FilterOperator::NotEquals)
    } else if text_eq(op, "greater_than") {
        Ok(FilterOperator::GreaterThan)
    } else if text_eq(op, "greater_than_or_equal") {
        Ok(FilterOperator::GreaterThanOrEqual)
    } else if text_eq(op, "less_than") {
        Ok(FilterOperator::LessThan)
    } else if text_eq(op, "less_than_or_equal") {
        Ok(FilterOperator::LessThanOrEqual)
    } else if text_eq(op, "contains") {
        Ok(FilterOperator::Contains)
    } else if text_eq(op, "not_contains") {
        Ok(FilterOperator::NotContains)
    } else if text_eq(op, "starts_with") {
        Ok(FilterOperator::StartsWith)
    } else if text_eq(op, "ends_with") {
        Ok(FilterOperator::EndsWith)
    } else if text_eq(op, "is_null") {
        Ok(FilterOperator::IsNull)
    } else if text_eq(op, "is_not_null") {
        Ok(FilterOperator::IsNotNull)
    } else {
        Err(refused("invalid_operator", "data", "Unknown filter operator: ", op))
    }
}

/// Reads the logic of a filter: `or` combines by OR, every other word by
/// AND.
pub fn parse_logic(logic: &str) -> (r: FilterLogic)
    ensures
        r == logic_named(logic@),
{
    if text_eq(logic, "or") {
        FilterLogic::Or
    } else {
        FilterLogic::And
    }
}

/// The logic that a word of a request names.
pub open spec fn logic_named(word: Seq<char>) -> FilterLogic {
    if word == "or"@ {
        FilterLogic::Or
    } else {
        FilterLogic::And
    }
}

/// One condition of a filter as a request words it: the operator by name.
#[derive(Debug, Clone)]
pub struct FilterConditionInput {
    pub column: String,
    pub operator: String,
    pub value: String,
}

/// The name of the first operator that is not known, if there is one.
pub open spec fn first_unknown(inputs: Seq<FilterConditionInput>) -> Option<Seq<char>>
    decreases inputs.len(),
{
    if inputs.len() == 0 {
        None
    } else if operator_named(inputs[0].operator@) is None {
        Some(inputs[0].operator@)
    } else {
        first_unknown(inputs.skip(1))
    }
}

/// The condition that a request words, where its operator is known.
pub open spec fn condition_worded(input: FilterConditionInput) -> ConditionView {
    ConditionView {
        column: input.column@,
        operator: operator_named(input.operator@)->Some_0,
        value: input.value@,
    }
}

/// Known operators in front do not change which unknown one is the first.
pub proof fn lemma_first_unknown_skips_known(inputs: Seq<FilterConditionInput>, k: int)
    requires
        0 <= k <= inputs.len(),
        forall|i: int| 0 <= i < k ==> operator_named(#[trigger] inputs[i].operator@) is Some,
    ensures
        first_unknown(inputs) == first_unknown(inputs.skip(k)),
    decreases k,
{
    if k == 0 {
        assert(inputs.skip(0) =~= inputs);
    } else {
        let rest = inputs.skip(1);
        assert forall|i: int| 0 <= i < k - 1 implies operator_named(
            #[trigger] rest[i].operator@,
        ) is Some by {
            assert(rest[i] == inputs[i + 1]);
        }
        lemma_first_unknown_skips_known(rest, k - 1);
        assert(rest.skip(k - 1) =~= inputs.skip(k));
    }
}

/// Puts a filter together from the words of a request. The first operator
/// that is not known is refused; with known operators only, the filter
/// holds the conditions in the order given.
pub fn build_filter_spec(inputs: &Vec<FilterConditionInput>, logic: &str) -> (r: Result<
    FilterSpec,
    CommandError,
>)
    ensures
        match first_unknown(inputs@) {
            Some(word) => r is Err && r->Err_0.code@ == "invalid_operator"@
                && r->Err_0.category@ == "data"@ && r->Err_0.message@
                == "Unknown filter operator: "@ + word,
            None => r is Ok && r->Ok_0@ == (FilterSpecView {
                conditions: inputs@.map_values(|i: FilterConditionInput| condition_worded(i)),
                logic: logic_named(logic@),
            }),
        },
{
    let mut conditions: Vec<FilterCondition> = Vec::new();
    let mut i: usize = 0;
    while i < inputs.len()
        invariant
            i <= inputs.len(),
            conditions@.len() == i,
            forall|j: int| 0 <= j < i ==> operator_named(#[trigger] inputs@[j].operator@) is Some,
            forall|j: int|
                0 <= j < i ==> (#[trigger] conditions@[j])@ == condition_worded(inputs@[j]),
        decreases inputs.len() - i,
    {
        match parse_operator(inputs[i].operator.as_str()) {
            Ok(operator) => {
                conditions.push(
                    FilterCondition {
                        column: inputs[i].column.clone(),
                        operator,
                        value: inputs[i].value.clone(),
                    },
                );
            },
            Err(e) => {
                proof {
                    lemma_first_unknown_skips_known(inputs@, i as int);
                    assert(inputs@.skip(i as int)[0] == inputs@[i as int]);
                }
                return Err(e);
            },
        }
        i += 1;
    }
    proof {
        lemma_first_unknown_skips_known(inputs@, inputs.len() as int);
    }
    let spec = FilterSpec { conditions, logic: parse_logic(logic) };
    assert(spec@.conditions =~= inputs@.map_values(
        |i: FilterConditionInput| condition_worded(i),
    ));
    Ok(spec)
}

/// How a front end opens a file.
#[derive(Debug, Clone, Copy, PartialEq, Eq, Structural)]
pub enum OpenMode {
    /// By importing it into the persistent store.
    Import,
    /// By scanning it lazily.
    Scan,
}

/// How a file is opened in `session`: imported where the session has a
/// store, else scanned.
pub fn open_mode(session: &RustoraSession) -> (r: OpenMode)
    ensures
        r == (if session@.project is Some {
            OpenMode::Import
        } else {
            OpenMode::Scan
        }),
{
    if session.project_path().is_some() {
        OpenMode::Import
    } else {
        OpenMode::Scan
    }
}

/// The file formats that a dataset can be exported to.
#[derive(Debug, Clone, Copy, PartialEq, Eq, Structural)]
pub enum ExportFormat {
    Csv,
    Parquet,
}

/// Reads the format of an export: `csv` or `parquet`. Any other word is
/// refused with the code `unsupported_format`.
pub fn parse_export_format(format: &str) -> (r: Result<ExportFormat, CommandError>)
    ensures
        format@ == "csv"@ ==> r == Ok::<ExportFormat, CommandError>(ExportFormat::Csv),
        format@ != "csv"@ && format@ == "parquet"@ ==> r == Ok::<ExportFormat, CommandError>(
            ExportFormat::Parquet,
        ),
        format@ != "csv"@ && format@ != "parquet"@ ==> r is Err && r->Err_0.code@
            == "unsupported_format"@ && r->Err_0.category@ == "file"@ && r->Err_0.message@
            == "Unsupported export format: "@ + format@,
{
    if text_eq(format, "csv") {
        Ok(ExportFormat::Csv)
    } else if text_eq(format, "parquet") {
        Ok(ExportFormat::Parquet)
    } else {
        Err(refused("unsupported_format", "file", "Unsupported export format: ", format))
    }
}

/// A column of an opened dataset.
#[derive(Debug, Clone)]
pub struct ColumnInfo {
    pub name: String,
    pub dtype: String,
}

/// The description of a dataset that a front end gets when it opens one.
#[derive(Debug, Clone)]
pub struct OpenResult {
    pub dataset_name: String,
    pub columns: Vec<ColumnInfo>,
    pub total_rows: usize,
    pub persistent: bool,
    pub size_bytes: Option<u64>,
}

/// The number of rows to show: the one that is known, else the one that
/// was counted, else zero.
pub open spec fn rows_to_show(known: Option<usize>, counted: Option<usize>) -> usize {
    match known {
        Some(n) => n,
        None => match counted {
            Some(n) => n,
            None => 0,
        },
    }
}

/// Whether the rows of a dataset have to be counted before it can be
/// described: they have where what is known of it holds no number of rows.
pub fn needs_row_count(info: &DatasetInfo) -> (r: bool)
    ensures
        r == (info.estimated_rows is None),
{
    info.estimated_rows.is_none()
}

/// Describes the dataset `name` from what is known of it. `counted` is the
/// number of rows that a count gave, if one was made and did not fail.
/// Columns come in the order of the dataset, each name with its type, as
/// far as both lists go.
pub fn make_open_result(name: &str, info: &DatasetInfo, counted: Option<usize>) -> (r: OpenResult)
    ensures
        r.dataset_name@ == name@,
        r.total_rows == rows_to_show(info.estimated_rows, counted),
        r.persistent == info.persistent,
        r.size_bytes == info.estimated_size_bytes,
        r.columns@.len() == (if info.column_names@.len() <= info.column_dtypes@.len() {
            info.column_names@.len()
        } else {
            info.column_dtypes@.len()
        }),
        forall|i: int|
            0 <= i < r.columns@.len() ==> (#[trigger] r.columns@[i]).name@ == info.column_names@[i]@
                && r.columns@[i].dtype@ == info.column_dtypes@[i]@,
{
    let total_rows: usize = match info.estimated_rows {
        Some(n) => n,
        None => match counted {
            Some(n) => n,
            None => 0,
        },
    };
    let n: usize = if info.column_names.len() <= info.column_dtypes.len() {
        info.column_names.len()
    } else {
        info.column_dtypes.len()
    };
    let mut columns: Vec<ColumnInfo> = Vec::new();
    let mut i: usize = 0;
    while i < n
        invariant
            i <= n,
            n <= info.column_names@.len(),
            n <= info.column_dtypes@.len(),
            columns@.len() == i,
            forall|j: int|
                0 <= j < i ==> (#[trigger] columns@[j]).name@ == info.column_names@[j]@
                    && columns@[j].dtype@ == info.column_dtypes@[j]@,
        decreases n - i,
    {
        let column = ColumnInfo {
            name: info.column_names[i].clone(),
            dtype: info.column_dtypes[i].clone(),
        };
        columns.push(column);
        i += 1;
    }
    OpenResult {
        dataset_name: String::from_str(name),
        columns,
        total_rows,
        persistent: info.persistent,
        size_bytes: info.estimated_size_bytes,
    }
}

/// The kinds of exception by which a scripting front end reports a failure.
#[derive(Debug, Clone, Copy, PartialEq, Eq, Structural)]
pub enum ExceptionKind {
    /// A file is missing.
    FileNotFound,
    /// A value handed in cannot be used.
    Value,
    /// Reading or writing failed.
    Io,
    /// Anything else.
    Runtime,
}

/// The kind of exception for a failure.
pub open spec fn exception_for(e: RustoraErrorView) -> ExceptionKind {
    match e {
        RustoraErrorView::FileNotFound(_) => ExceptionKind::FileNotFound,
        RustoraErrorView::UnsupportedFormat(_) => ExceptionKind::Value,
        RustoraErrorView::ColumnNotFound(_) => ExceptionKind::Value,
        RustoraErrorView::InvalidEdit(_) => ExceptionKind::Value,
        RustoraErrorView::TableNotFound(_) => ExceptionKind::Value,
        RustoraErrorView::InvalidFilter(_) => ExceptionKind::Value,
        RustoraErrorView::Io(_) => ExceptionKind::Io,
        _ => ExceptionKind::Runtime,
    }
}

/// The kind of exception by which a failure is reported.
pub fn map_err(e: &RustoraError) -> (r: ExceptionKind)
    ensures
        r == exception_for(e@),
{
    match e {
        RustoraError::FileNotFound(_) => ExceptionKind::FileNotFound,
        RustoraError::UnsupportedFormat(_) => ExceptionKind::Value,
        RustoraError::ColumnNotFound(_) => ExceptionKind::Value,
        RustoraError::InvalidEdit(_) => ExceptionKind::Value,
        RustoraError::TableNotFound(_) => ExceptionKind::Value,
        RustoraError::InvalidFilter(_) => ExceptionKind::Value,
        RustoraError::Io(_) => ExceptionKind::Io,
        _ => ExceptionKind::Runtime,
    }
}

/// What is said of sort arguments whose lists differ in length.
pub open spec fn length_mismatch_text(columns: nat, descending: nat) -> Seq<char> {
    "columns and descending must have the same length (got "@ + decimal(columns) + " vs "@
        + decimal(descending) + ")"@
}

/// Checks that a sort names as many directions as columns. Lists of
/// different lengths are refused as an invalid edit.
pub fn check_sort_arguments(columns: usize, descending: usize) -> (r: Result<(), RustoraError>)
    ensures
        columns == descending ==> r is Ok,
        columns != descending ==> r is Err && r->Err_0@ == RustoraErrorView::InvalidEdit(
            length_mismatch_text(columns as nat, descending as nat),
        ),
{
    if columns == descending {
        Ok(())
    } else {
        let mut message = String::from_str(
            "columns and descending must have the same length (got ",
        );
        push_decimal(&mut message, columns as u64);
        message.append(" vs ");
        push_decimal(&mut message, descending as u64);
        message.append(")");
        Err(RustoraError::InvalidEdit(message))
    }
}

} // verus!
