//! What the session hands back: plans for whoever carries them out. A plan
//! is a statement for the persistent store, a lazy graph for the dataframe
//! engine, or the name of a result that is already there.

use crate::error::{RustoraError, RustoraErrorView};
use crate::storage::{create_table_text, sanitized, DuckStorage};
use polars::prelude::LazyFrame;
use vstd::prelude::*;

verus! {

/// A dataset that exists once the persistent store has run a statement.
#[derive(Debug, Clone)]
pub struct StoredDataset {
    /// The name of the dataset: what the operation hands back.
    pub dataset: String,
    /// The name under which the store holds it. For an imported file this
    /// is the name of the dataset; for the result of a transformation it is
    /// that name made fit for a table name.
    pub table: String,
    /// The statement to run.
    pub statement: String,
}

/// A `StoredDataset` with its texts as sequences of characters.
pub struct StoredDatasetView {
    pub dataset: Seq<char>,
    pub table: Seq<char>,
    pub statement: Seq<char>,
}

impl View for StoredDataset {
    type V = StoredDatasetView;

    open spec fn view(&self) -> StoredDatasetView {
        StoredDatasetView { dataset: self.dataset@, table: self.table@, statement: self.statement@ }
    }
}

/// What a transformation of a dataset comes to.
pub enum Derived {
    /// The result exists once the persistent store has run the statement.
    Stored(StoredDataset),
    /// The session holds the result as a lazy graph under this name; nothing
    /// is left to do.
    Registered(String),
}

/// A `Derived` with its texts as sequences of characters.
pub enum DerivedView {
    Stored(StoredDatasetView),
    Registered(Seq<char>),
}

impl View for Derived {
    type V = DerivedView;

    open spec fn view(&self) -> DerivedView {
        match self {
            Derived::Stored(s) => DerivedView::Stored(s@),
            Derived::Registered(n) => DerivedView::Registered(n@),
        }
    }
}

/// Where the answer to a request comes from.
pub enum Source {
    /// The persistent store, by running this statement.
    Statement(String),
    /// The dataframe engine, by evaluating this graph.
    Graph(LazyFrame),
}

/// A `Source` with its text as a sequence of characters.
pub enum SourceView {
    Statement(Seq<char>),
    Graph(LazyFrame),
}

impl View for Source {
    type V = SourceView;

    open spec fn view(&self) -> SourceView {
        match self {
            Source::Statement(s) => SourceView::Statement(s@),
            Source::Graph(graph) => SourceView::Graph(*graph),
        }
    }
}

/// Where what is known of a dataset comes from.
pub enum InfoSource {
    /// The persistent store: one query counts the rows, the other lists the
    /// columns with their types.
    Table { row_count: String, columns: String },
    /// The dataframe engine, from the schema of this graph.
    Graph(LazyFrame),
}

/// An `InfoSource` with its texts as sequences of characters.
pub enum InfoSourceView {
    Table { row_count: Seq<char>, columns: Seq<char> },
    Graph(LazyFrame),
}

impl View for InfoSource {
    type V = InfoSourceView;

    open spec fn view(&self) -> InfoSourceView {
        match self {
            InfoSource::Table { row_count, columns } => InfoSourceView::Table {
                row_count: row_count@,
                columns: columns@,
            },
            InfoSource::Graph(graph) => InfoSourceView::Graph(*graph),
        }
    }
}

/// What removing a dataset comes to.
pub enum Removal {
    /// The persistent store holds it: once it has run this statement, the
    /// dataset is removed.
    Stored(String),
    /// The session held it as a lazy graph and has let go of it.
    Transient,
    /// There was nothing to remove.
    Absent,
}

/// A `Removal` with its text as a sequence of characters.
pub enum RemovalView {
    Stored(Seq<char>),
    Transient,
    Absent,
}

impl View for Removal {
    type V = RemovalView;

    open spec fn view(&self) -> RemovalView {
        match self {
            Removal::Stored(s) => RemovalView::Stored(s@),
            Removal::Transient => RemovalView::Transient,
            Removal::Absent => RemovalView::Absent,
        }
    }
}

/// A stored dataset or a failure, each by its view.
pub open spec fn stored_result(r: Result<StoredDataset, RustoraError>) -> Result<
    StoredDatasetView,
    RustoraErrorView,
> {
    match r {
        Ok(s) => Ok(s@),
        Err(e) => Err(e@),
    }
}

/// A derived dataset or a failure, each by its view.
pub open spec fn derived_result(r: Result<Derived, RustoraError>) -> Result<
    DerivedView,
    RustoraErrorView,
> {
    match r {
        Ok(s) => Ok(s@),
        Err(e) => Err(e@),
    }
}

/// A source or a failure, each by its view.
pub open spec fn source_result(r: Result<Source, RustoraError>) -> Result<
    SourceView,
    RustoraErrorView,
> {
    match r {
        Ok(s) => Ok(s@),
        Err(e) => Err(e@),
    }
}

/// An info source or a failure, each by its view.
pub open spec fn info_source_result(r: Result<InfoSource, RustoraError>) -> Result<
    InfoSourceView,
    RustoraErrorView,
> {
    match r {
        Ok(s) => Ok(s@),
        Err(e) => Err(e@),
    }
}

/// The dataset `dataset`, stored as what `query` selects.
pub open spec fn stored(dataset: Seq<char>, query: Seq<char>) -> StoredDatasetView {
    StoredDatasetView {
        dataset,
        table: sanitized(dataset),
        statement: create_table_text(sanitized(dataset), query),
    }
}

pub(crate) fn store_as(dataset: String, query: &str) -> (r: StoredDataset)
    ensures
        r@ == stored(dataset@, query@),
{
    let write = DuckStorage::execute_sql_to_table(query, dataset.as_str());
    StoredDataset { dataset, table: write.table, statement: write.statement }
}

impl Removal {
    /// Whether anything is removed: a table once the statement has run, or
    /// a lazy graph.
    pub fn removed(&self) -> (r: bool)
        ensures
            r == !(self@ is Absent),
    {
        match self {
            Removal::Absent => false,
            _ => true,
        }
    }
}

} // verus!
