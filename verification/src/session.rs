//! The dataset session: one namespace over the persistent store and the
//! table of lazy graphs.
//!
//! The session decides. For each operation it finds out where the dataset
//! lives, gives the result its name, and says what is left to do: a
//! statement for the persistent store, or a lazy graph for the dataframe
//! engine to evaluate. It runs no statement and evaluates no graph itself;
//! whoever owns the connection does, and tells the session what the store
//! holds by handing it the list of the store's tables.

use crate::error::{text_result, RustoraError, RustoraErrorView};
use crate::filter::{
    all_columns_valid, clauses, is_closed, joiner, lemma_compiled_filter_is_safe, where_text,
    FilterSpec, FilterSpecView,
};
use crate::frames::{
    copied, csv_graph, error_message, filtered, filtered_graph, frame_to_ipc,
    ipc_graph, limited, limited_graph, parquet_graph, scan_csv, scan_ipc, scan_parquet, sliced,
    sliced_graph, sorted, sorted_graph, wire_bytes,
};
use crate::names::{
    filtered_name, generated_for, generated_name, lemma_numbered_names_differ, numbered,
    numbered_name, sorted_name, sql_result_for, sql_result_name, suffixed,
};
use crate::paths::{file_stem, stem_text};
use crate::plans::{
    derived_result, info_source_result, source_result, store_as, stored, stored_result, Derived,
    DerivedView, InfoSource, InfoSourceView, Removal, RemovalView, Source, SourceView,
    StoredDataset, StoredDatasetView,
};
use crate::queries::{
    calculated_query, calculated_text, chart_aggregate, chart_aggregate_expr, chart_query,
    chart_text, filter_query, filter_text, group_query, group_text, sort_query, sort_text,
    summarize_query, summarize_text,
};
use crate::storage::{
    chunk_text, columns_text, copy_text, drop_text, estimated_size, file_format, format_key,
    format_of, import_outcome, is_clean, lemma_sanitized_is_clean, list_tables_text,
    row_count_text, sanitized, sanitized_char, DuckStorage, FileFormat, TableInfo,
};
use crate::text::{
    contains_text, decimal, joined, is_digit, lemma_decimal_injective, lemma_decimal_shape,
    lemma_same_prefix, sorted_distinct, strictly_sorted, texts_of,
};
use crate::transient::TransientTable;
use polars::prelude::{DataFrame, Expr, LazyFrame, PolarsError};
use vstd::prelude::*;

verus! {

/// What is known of a dataset.
#[derive(Debug, Clone)]
pub struct DatasetInfo {
    pub name: String,
    pub path: String,
    pub num_columns: usize,
    pub estimated_rows: Option<usize>,
    pub column_names: Vec<String>,
    pub column_dtypes: Vec<String>,
    /// Whether the persistent store holds the dataset. If not, it is a lazy
    /// graph of the session.
    pub persistent: bool,
    /// The estimated size in bytes, where there is an estimate.
    pub estimated_size_bytes: Option<u64>,
}

/// A `DatasetInfo` with its texts as sequences of characters.
pub struct DatasetInfoView {
    pub name: Seq<char>,
    pub path: Seq<char>,
    pub num_columns: nat,
    pub estimated_rows: Option<nat>,
    pub column_names: Seq<Seq<char>>,
    pub column_dtypes: Seq<Seq<char>>,
    pub persistent: bool,
    pub estimated_size_bytes: Option<nat>,
}

impl View for DatasetInfo {
    type V = DatasetInfoView;

    open spec fn view(&self) -> DatasetInfoView {
        DatasetInfoView {
            name: self.name@,
            path: self.path@,
            num_columns: self.num_columns as nat,
            estimated_rows: match self.estimated_rows {
                Some(n) => Some(n as nat),
                None => None,
            },
            column_names: texts_of(self.column_names@),
            column_dtypes: texts_of(self.column_dtypes@),
            persistent: self.persistent,
            estimated_size_bytes: match self.estimated_size_bytes {
                Some(n) => Some(n as nat),
                None => None,
            },
        }
    }
}

/// Where a name leads.
#[derive(Debug, Clone, Copy, PartialEq, Eq, Structural)]
pub enum Resolution {
    /// To a table of the persistent store.
    Persistent,
    /// To a lazy graph of the session.
    Transient,
    /// Nowhere.
    NotFound,
}

/// The state of a session, as the contracts see it.
pub struct SessionView {
    /// The path of the active persistent store, if there is one.
    pub project: Option<Seq<char>>,
    /// The lazy graphs by their names.
    pub transient: Map<Seq<char>, LazyFrame>,
    /// The last number that went into a generated name.
    pub counter: nat,
}

/// Whether the persistent store of the session holds a table `name`, going
/// by the list of its tables. Without a store no table is held.
pub open spec fn in_store(s: SessionView, tables: Seq<Seq<char>>, name: Seq<char>) -> bool {
    s.project is Some && tables.contains(name)
}

/// Where `name` leads: to the persistent store if it holds a table of that
/// name, else to the lazy graph of that name, else nowhere.
pub open spec fn resolution(s: SessionView, tables: Seq<Seq<char>>, name: Seq<char>) -> Resolution {
    if in_store(s, tables, name) {
        Resolution::Persistent
    } else if s.transient.contains_key(name) {
        Resolution::Transient
    } else {
        Resolution::NotFound
    }
}

/// The failure that says that no number is left for a generated name.
pub open spec fn exhausted() -> RustoraErrorView {
    RustoraErrorView::Session("Name counter exhausted"@)
}

/// What reading a dataset comes to: `statement` for the store, `graph` for
/// the dataframe engine, or a failure where the name leads nowhere.
pub open spec fn read_outcome(
    s: SessionView,
    tables: Seq<Seq<char>>,
    name: Seq<char>,
    statement: Seq<char>,
    graph: LazyFrame,
) -> Result<SourceView, RustoraErrorView> {
    match resolution(s, tables, name) {
        Resolution::Persistent => Ok(SourceView::Statement(statement)),
        Resolution::Transient => Ok(SourceView::Graph(graph)),
        Resolution::NotFound => Err(RustoraErrorView::TableNotFound(name)),
    }
}

/// What a transformation comes to that only the persistent store can do and
/// whose result gets a numbered name: `missing` where the store does not
/// hold the dataset, a failure where no number is left, else the stored
/// result under the next number.
pub open spec fn numbered_outcome(
    s: SessionView,
    tables: Seq<Seq<char>>,
    name: Seq<char>,
    tag: Seq<char>,
    query: Seq<char>,
    missing: RustoraErrorView,
) -> Result<StoredDatasetView, RustoraErrorView> {
    if !in_store(s, tables, name) {
        Err(missing)
    } else if s.counter >= u64::MAX {
        Err(exhausted())
    } else {
        Ok(stored(numbered_name(name, tag, s.counter + 1), query))
    }
}

/// What filtering by a structured filter comes to: the fault of the
/// filter where it cannot be compiled, else what filtering by the compiled
/// predicate comes to.
pub open spec fn structured_filter_outcome(
    s: SessionView,
    tables: Seq<Seq<char>>,
    name: Seq<char>,
    spec: FilterSpecView,
) -> Result<StoredDatasetView, RustoraErrorView> {
    match where_text(spec) {
        Ok(predicate) => numbered_outcome(
            s,
            tables,
            name,
            "_filtered_"@,
            filter_text(name, predicate),
            filter_needs_store(name),
        ),
        Err(fault) => Err(fault),
    }
}

/// The session after an operation that takes a number for a name exactly
/// when it succeeds.
pub open spec fn counted_on_success<T>(
    s: SessionView,
    r: Result<T, RustoraErrorView>,
) -> SessionView {
    if r is Ok {
        SessionView { counter: s.counter + 1, ..s }
    } else {
        s
    }
}

/// The failure of a filter by a predicate on a dataset that the store does
/// not hold.
pub open spec fn filter_needs_store(name: Seq<char>) -> RustoraErrorView {
    RustoraErrorView::Session(
        "SQL filter requires an active project. Table '"@ + name + "' not found in DuckDB."@,
    )
}

/// The failure of a summary of a dataset that the store does not hold.
pub open spec fn summary_needs_store() -> RustoraErrorView {
    RustoraErrorView::Session(
        "Summary statistics require an active project. Please create or open a project first."@,
    )
}

/// The failure of a chart whose aggregate needs a value column and has none.
pub open spec fn chart_needs_value(kind: Seq<char>) -> RustoraErrorView {
    RustoraErrorView::Session("Aggregation '"@ + kind + "' requires a value column"@)
}

/// The names that a session lists: its lazy graphs and, if it has a store,
/// the store's tables.
pub open spec fn listed(s: SessionView, tables: Seq<Seq<char>>) -> Set<Seq<char>> {
    if s.project is Some {
        s.transient.dom().union(tables.to_set())
    } else {
        s.transient.dom()
    }
}

impl DatasetInfo {
    /// What is known of a dataset that the persistent store holds: what is
    /// known of the table, the exact number of rows, and an estimate of the
    /// size where one can be given.
    pub fn of_table(info: TableInfo) -> (r: DatasetInfo)
        ensures
            r@.name == info@.name,
            r@.path == Seq::<char>::empty(),
            r@.num_columns == info@.num_columns,
            r@.estimated_rows == Some(info@.row_count),
            r@.column_names == info@.column_names,
            r@.column_dtypes == info@.column_types,
            r@.persistent,
            match r@.estimated_size_bytes {
                Some(n) => n == estimated_size(info@),
                None => estimated_size(info@) > u64::MAX,
            },
    {
        let size = DuckStorage::table_estimated_size_bytes(&info);
        DatasetInfo {
            name: info.name,
            path: String::new(),
            num_columns: info.num_columns,
            estimated_rows: Some(info.row_count),
            column_names: info.column_names,
            column_dtypes: info.column_types,
            persistent: true,
            estimated_size_bytes: size,
        }
    }

    /// What is known of a dataset that is a lazy graph: the names and types
    /// of its columns as its schema gives them, in order. The number of
    /// rows and the size are not known.
    pub fn of_graph(name: &str, column_names: Vec<String>, column_dtypes: Vec<String>) -> (r:
        DatasetInfo)
        ensures
            r@.name == name@,
            r@.path == Seq::<char>::empty(),
            r@.num_columns == column_names@.len(),
            r@.estimated_rows is None,
            r@.column_names == texts_of(column_names@),
            r@.column_dtypes == texts_of(column_dtypes@),
            !r@.persistent,
            r@.estimated_size_bytes is None,
    {
        DatasetInfo {
            name: String::from_str(name),
            path: String::new(),
            num_columns: column_names.len(),
            estimated_rows: None,
            column_names,
            column_dtypes,
            persistent: false,
            estimated_size_bytes: None,
        }
    }
}

/// The text of an optional name.
pub open spec fn option_text(o: Option<&str>) -> Option<Seq<char>> {
    match o {
        Some(t) => Some(t@),
        None => None,
    }
}

/// The import of the file at `path` under the name `name`. The dataset goes
/// by the name that the store uses for it: `name` made fit for a table
/// name.
pub open spec fn import_as(path: Seq<char>, name: Seq<char>, exists: bool) -> Result<
    StoredDatasetView,
    RustoraErrorView,
> {
    match import_outcome(path, name, exists) {
        Ok(w) => Ok(
            StoredDatasetView { dataset: w.table, table: w.table, statement: w.statement },
        ),
        Err(e) => Err(e),
    }
}

/// What importing a file comes to: a failure without a store; else the
/// import under the name given or, where none is given, under a generated
/// name, if a number is left for it.
pub open spec fn import_file_outcome(
    s: SessionView,
    path: Seq<char>,
    table_name: Option<Seq<char>>,
    exists: bool,
) -> Result<StoredDatasetView, RustoraErrorView> {
    if s.project is None {
        Err(RustoraErrorView::NoProjectOpen)
    } else {
        match table_name {
            Some(name) => import_as(path, name, exists),
            None => if s.counter >= u64::MAX {
                Err(exhausted())
            } else {
                import_as(path, generated_name(path, s.counter + 1), exists)
            },
        }
    }
}

/// The session after an import: a number is taken exactly when a name had to
/// be generated, whether or not the file can then be imported.
pub open spec fn import_file_state(s: SessionView, table_name: Option<Seq<char>>) -> SessionView {
    if s.project is Some && table_name is None && s.counter < u64::MAX {
        SessionView { counter: s.counter + 1, ..s }
    } else {
        s
    }
}

/// What the request for a chart comes to.
pub open spec fn chart_outcome(
    s: SessionView,
    tables: Seq<Seq<char>>,
    name: Seq<char>,
    group: Seq<char>,
    value: Option<Seq<char>>,
    kind: Seq<char>,
    limit: nat,
) -> Result<Seq<char>, RustoraErrorView> {
    if s.project is None {
        Err(RustoraErrorView::NoProjectOpen)
    } else if !tables.contains(name) {
        Err(RustoraErrorView::TableNotFound(name))
    } else {
        match chart_aggregate(kind, value) {
            Some(aggregate) => Ok(chart_text(name, group, aggregate, limit)),
            None => Err(chart_needs_value(kind)),
        }
    }
}

/// The byte that separates the fields of a comma-separated file.
pub const COMMA: u8 = 44;

/// The byte that separates the fields of a tab-separated file.
pub const TAB: u8 = 9;

/// The name generated for the file at `path`, if a number is left for it.
pub open spec fn generated(s: SessionView, path: Seq<char>) -> Result<Seq<char>, RustoraErrorView> {
    if s.counter >= u64::MAX {
        Err(exhausted())
    } else {
        Ok(generated_name(path, s.counter + 1))
    }
}

/// What scanning a file comes to: a failure where the file is missing, a
/// failure where its extension names no known format, else the name
/// generated for it.
pub open spec fn scan_outcome(s: SessionView, path: Seq<char>, exists: bool) -> Result<
    Seq<char>,
    RustoraErrorView,
> {
    if !exists {
        Err(RustoraErrorView::FileNotFound(path))
    } else if format_of(format_key(path)) is None {
        Err(RustoraErrorView::UnsupportedFormat(format_key(path)))
    } else {
        generated(s, path)
    }
}

/// The graph that scanning the file at `path` gives: by the reader of its
/// format, with a comma between fields for a csv file and a tab for a tsv
/// file.
pub open spec fn scan_graph(path: Seq<char>) -> LazyFrame {
    match format_of(format_key(path)) {
        Some(FileFormat::Csv) => csv_graph(path, COMMA),
        Some(FileFormat::Tsv) => csv_graph(path, TAB),
        Some(FileFormat::Parquet) => parquet_graph(path),
        _ => ipc_graph(path),
    }
}

/// The session after it has registered `graph` with outcome `r`: with the
/// graph under the name and the number taken, if there is a name; else as
/// it was.
pub open spec fn registered(
    s: SessionView,
    r: Result<Seq<char>, RustoraErrorView>,
    graph: LazyFrame,
) -> SessionView {
    match r {
        Ok(name) => with_graph(SessionView { counter: s.counter + 1, ..s }, name, graph),
        Err(_) => s,
    }
}

/// The session after it has turned to the store at `db_path`: every lazy
/// graph is gone, the counter goes on.
pub open spec fn opened(s: SessionView, db_path: Seq<char>) -> SessionView {
    SessionView { project: Some(db_path), transient: Map::empty(), counter: s.counter }
}

/// What removing the dataset `name` comes to.
pub open spec fn removal(s: SessionView, tables: Seq<Seq<char>>, name: Seq<char>) -> RemovalView {
    match resolution(s, tables, name) {
        Resolution::Persistent => RemovalView::Stored(drop_text(name)),
        Resolution::Transient => RemovalView::Transient,
        Resolution::NotFound => RemovalView::Absent,
    }
}

/// The session after the dataset `name` was removed: without the lazy graph
/// of that name, if the name led to it.
pub open spec fn after_removal(
    s: SessionView,
    tables: Seq<Seq<char>>,
    name: Seq<char>,
) -> SessionView {
    if resolution(s, tables, name) == Resolution::Transient {
        SessionView { transient: s.transient.remove(name), ..s }
    } else {
        s
    }
}

/// The session with `graph` held under `name`.
pub open spec fn with_graph(s: SessionView, name: Seq<char>, graph: LazyFrame) -> SessionView {
    SessionView { transient: s.transient.insert(name, graph), ..s }
}

/// What a dataset that was looked up turned out to be.
enum Found<'a> {
    Table,
    Graph(&'a LazyFrame),
    Nothing,
}

/// The session: the active persistent store, if any, the lazy graphs by
/// name, and the counter behind generated names.
pub struct RustoraSession {
    storage: Option<DuckStorage>,
    transient: TransientTable,
    counter: u64,
}

impl View for RustoraSession {
    type V = SessionView;

    closed spec fn view(&self) -> SessionView {
        SessionView {
            project: match self.storage {
                Some(store) => Some(store@),
                None => None,
            },
            transient: self.transient.graphs(),
            counter: self.counter as nat,
        }
    }
}

impl RustoraSession {
    /// A new session without lazy graphs, its counter at zero. `scratch`
    /// says whether a store in memory is at hand; the session then works on
    /// that store until a project is opened.
    pub fn new(scratch: bool) -> (r: RustoraSession)
        ensures
            r@.project == (if scratch {
                Some(":memory:"@)
            } else {
                None
            }),
            r@.transient == Map::<Seq<char>, LazyFrame>::empty(),
            r@.counter == 0,
    {
        let storage = if scratch {
            Some(DuckStorage::open_in_memory())
        } else {
            None
        };
        RustoraSession { storage, transient: TransientTable::new(), counter: 0 }
    }

    /// Turns to the project file at `db_path`, which has been opened and
    /// holds `tables`. Every lazy graph is let go of: it belonged to the
    /// store that was active before. Returns the tables.
    pub fn open_project(&mut self, db_path: &str, tables: Vec<String>) -> (r: Vec<String>)
        ensures
            r == tables,
            final(self)@ == opened(old(self)@, db_path@),
    {
        self.storage = Some(DuckStorage::open(db_path));
        self.transient.clear();
        tables
    }

    /// Turns to the project file at `db_path`, which has been created. Every
    /// lazy graph is let go of.
    pub fn new_project(&mut self, db_path: &str)
        ensures
            final(self)@ == opened(old(self)@, db_path@),
    {
        self.storage = Some(DuckStorage::open(db_path));
        self.transient.clear();
    }

    /// The path of the active store, if there is one.
    pub fn project_path(&self) -> (r: Option<&str>)
        ensures
            option_text(r) == self@.project,
    {
        match &self.storage {
            Some(store) => Some(store.db_path()),
            None => None,
        }
    }

    /// Takes the next number for a generated name. The session is borrowed
    /// for writing while this runs, so no two callers can take the same
    /// number; a number once taken is never given out again.
    fn next_counter(&mut self) -> (r: Result<u64, RustoraError>)
        ensures
            match r {
                Ok(n) => old(self)@.counter < u64::MAX && n == old(self)@.counter + 1,
                Err(e) => old(self)@.counter >= u64::MAX && e@ == exhausted(),
            },
            final(self)@ == (if r is Ok {
                SessionView { counter: old(self)@.counter + 1, ..old(self)@ }
            } else {
                old(self)@
            }),
    {
        if self.counter == u64::MAX {
            Err(RustoraError::Session(String::from_str("Name counter exhausted")))
        } else {
            self.counter = self.counter + 1;
            Ok(self.counter)
        }
    }

    fn generate_name(&mut self, file_path: &str) -> (r: Result<String, RustoraError>)
        ensures
            text_result(r) == generated(old(self)@, file_path@),
            final(self)@ == counted_on_success(old(self)@, text_result(r)),
    {
        match self.next_counter() {
            Ok(n) => {
                let stem = file_stem(file_path);
                Ok(generated_for(stem.as_str(), n))
            },
            Err(e) => Err(e),
        }
    }

    /// Where `name` leads, given the tables that the store holds: to the
    /// store if it holds a table of that name, else to the lazy graph of
    /// that name, else nowhere. A name that both know leads to the store.
    pub fn resolve(&self, tables: &Vec<String>, name: &str) -> (r: Resolution)
        ensures
            r == resolution(self@, texts_of(tables@), name@),
    {
        match self.find(tables, name) {
            Found::Table => Resolution::Persistent,
            Found::Graph(_) => Resolution::Transient,
            Found::Nothing => Resolution::NotFound,
        }
    }

    fn find(&self, tables: &Vec<String>, name: &str) -> (r: Found<'_>)
        ensures
            match r {
                Found::Table => resolution(self@, texts_of(tables@), name@)
                    == Resolution::Persistent,
                Found::Graph(graph) => resolution(self@, texts_of(tables@), name@)
                    == Resolution::Transient && *graph == self@.transient[name@],
                Found::Nothing => resolution(self@, texts_of(tables@), name@)
                    == Resolution::NotFound,
            },
    {
        if self.storage.is_some() && contains_text(tables, name) {
            Found::Table
        } else {
            match self.transient.get(name) {
                Some(frame) => Found::Graph(frame),
                None => Found::Nothing,
            }
        }
    }

    /// Plans the import of a file into the persistent store.
    ///
    /// `exists` says whether a file is there at `file_path`. The dataset is
    /// named `table_name` or, where none is given, by the file's stem and
    /// the next number of the counter. It goes by that name made fit for a
    /// table name, which is the name that the store uses: callers go on
    /// with `dataset` of the result.
    pub fn import_file(&mut self, file_path: &str, table_name: Option<&str>, exists: bool) -> (r:
        Result<StoredDataset, RustoraError>)
        ensures
            stored_result(r) == import_file_outcome(
                old(self)@,
                file_path@,
                option_text(table_name),
                exists,
            ),
            final(self)@ == import_file_state(old(self)@, option_text(table_name)),
    {
        if self.storage.is_none() {
            return Err(RustoraError::NoProjectOpen);
        }
        let name: String = match table_name {
            Some(n) => String::from_str(n),
            None => match self.generate_name(file_path) {
                Ok(n) => n,
                Err(e) => {
                    return Err(e);
                },
            },
        };
        match DuckStorage::import_file(file_path, name.as_str(), exists) {
            Ok(write) => Ok(
                StoredDataset {
                    dataset: write.table.clone(),
                    table: write.table,
                    statement: write.statement,
                },
            ),
            Err(e) => Err(e),
        }
    }

    /// Registers the lazy graph that scanning a file gave, or reports why
    /// there is none: the graph is held under the name made of the file's
    /// stem and the next number of the counter.
    pub fn register_scanned(
        &mut self,
        file_path: &str,
        scanned: Result<LazyFrame, PolarsError>,
    ) -> (r: Result<String, RustoraError>)
        ensures
            match scanned {
                Ok(graph) => text_result(r) == generated(old(self)@, file_path@) && final(self)@
                    == registered(old(self)@, text_result(r), graph),
                Err(_) => r is Err && r->Err_0 is Polars && final(self)@ == old(self)@,
            },
    {
        match scanned {
            Ok(frame) => match self.generate_name(file_path) {
                Ok(name) => {
                    self.transient.insert(name.clone(), frame);
                    Ok(name)
                },
                Err(e) => Err(e),
            },
            Err(e) => Err(RustoraSession::engine_failure(&e)),
        }
    }

    /// Scans a file lazily: a graph that reads the file when it is
    /// evaluated is registered under a generated name. No store is needed.
    ///
    /// `exists` says whether a file is there at `file_path`. A missing file
    /// and an extension that names no known format are refused, in this
    /// order, and leave the session as it was. For every other file the
    /// reader of its format gives a graph, with a comma between fields for
    /// a csv file and a tab for a tsv file; the graph is registered under
    /// the name made of the file's stem and the next number of the counter.
    pub fn scan_file(&mut self, file_path: &str, exists: bool) -> (r: Result<String, RustoraError>)
        ensures
            text_result(r) == scan_outcome(old(self)@, file_path@, exists),
            final(self)@ == registered(old(self)@, text_result(r), scan_graph(file_path@)),
    {
        if !exists {
            return Err(RustoraError::FileNotFound(String::from_str(file_path)));
        }
        let (format, key) = file_format(file_path);
        let scanned = match format {
            Some(FileFormat::Csv) => scan_csv(file_path, COMMA),
            Some(FileFormat::Tsv) => scan_csv(file_path, TAB),
            Some(FileFormat::Parquet) => scan_parquet(file_path),
            Some(FileFormat::Ipc) => scan_ipc(file_path),
            None => {
                return Err(RustoraError::UnsupportedFormat(key));
            },
        };
        self.register_scanned(file_path, scanned)
    }

    /// The names of all datasets, each once, in order: the lazy graphs and,
    /// if the session has a store, the `tables` that the store holds.
    pub fn list_datasets(&self, tables: &Vec<String>) -> (r: Vec<String>)
        ensures
            strictly_sorted(texts_of(r@)),
            texts_of(r@).to_set() == listed(self@, texts_of(tables@)),
    {
        let mut names: Vec<String> = self.transient.name_list();
        if self.storage.is_some() {
            let ghost own = texts_of(names@);
            let mut i: usize = 0;
            while i < tables.len()
                invariant
                    i <= tables.len(),
                    texts_of(names@) == own + texts_of(tables@).take(i as int),
                decreases tables.len() - i,
            {
                let ghost prev = texts_of(names@);
                let name = tables[i].clone();
                assert(name@ == tables@[i as int]@);
                names.push(name);
                assert(texts_of(names@) =~= prev.push(tables@[i as int]@));
                assert(texts_of(tables@).take(i + 1) =~= texts_of(tables@).take(i as int).push(
                    tables@[i as int]@,
                ));
                i += 1;
            }
            proof {
                let all = texts_of(tables@);
                assert(all.take(tables.len() as int) =~= all);
                vstd::seq_lib::seq_to_set_distributes_over_add(own, all);
            }
        }
        sorted_distinct(&names)
    }

    /// The query that lists the tables of the store.
    pub fn list_tables(&self) -> (r: Result<String, RustoraError>)
        ensures
            text_result(r) == (if self@.project is Some {
                Ok::<Seq<char>, RustoraErrorView>(list_tables_text())
            } else {
                Err::<Seq<char>, RustoraErrorView>(RustoraErrorView::NoProjectOpen)
            }),
    {
        if self.storage.is_some() {
            Ok(DuckStorage::list_tables())
        } else {
            Err(RustoraError::NoProjectOpen)
        }
    }

    /// Where what is known of the dataset `name` comes from: two queries
    /// for a table of the store, the graph itself for a lazy graph.
    pub fn dataset_info(&self, tables: &Vec<String>, name: &str) -> (r: Result<
        InfoSource,
        RustoraError,
    >)
        ensures
            info_source_result(r) == (match resolution(self@, texts_of(tables@), name@) {
                Resolution::Persistent => Ok::<InfoSourceView, RustoraErrorView>(
                    InfoSourceView::Table {
                        row_count: row_count_text(name@),
                        columns: columns_text(name@),
                    },
                ),
                Resolution::Transient => Ok::<InfoSourceView, RustoraErrorView>(
                    InfoSourceView::Graph(self@.transient[name@]),
                ),
                Resolution::NotFound => Err::<InfoSourceView, RustoraErrorView>(
                    RustoraErrorView::TableNotFound(name@),
                ),
            }),
    {
        match self.find(tables, name) {
            Found::Table => Ok(
                InfoSource::Table {
                    row_count: DuckStorage::table_row_count(name),
                    columns: DuckStorage::table_columns(name),
                },
            ),
            Found::Graph(frame) => Ok(InfoSource::Graph(copied(frame))),
            Found::Nothing => Err(RustoraError::TableNotFound(String::from_str(name))),
        }
    }

    /// Where the first `limit` rows of the dataset `name` come from: a query
    /// with that limit, or the lazy graph cut to its first `limit` rows.
    pub fn get_preview_ipc(&self, tables: &Vec<String>, name: &str, limit: u32) -> (r: Result<
        Source,
        RustoraError,
    >)
        ensures
            source_result(r) == read_outcome(
                self@,
                texts_of(tables@),
                name@,
                chunk_text(name@, 0, limit as nat),
                limited_graph(self@.transient[name@], limit),
            ),
    {
        match self.find(tables, name) {
            Found::Table => Ok(
                Source::Statement(DuckStorage::get_table_preview_ipc(name, limit as u64)),
            ),
            Found::Graph(frame) => Ok(Source::Graph(limited(frame, limit))),
            Found::Nothing => Err(RustoraError::TableNotFound(String::from_str(name))),
        }
    }

    /// Where the rows of the dataset `name` from row `offset` on come from,
    /// `limit` rows at most: a query with that offset and limit, or the
    /// lazy graph sliced in the same way.
    pub fn get_chunk_ipc(&self, tables: &Vec<String>, name: &str, offset: u32, limit: u32) -> (r:
        Result<Source, RustoraError>)
        ensures
            source_result(r) == read_outcome(
                self@,
                texts_of(tables@),
                name@,
                chunk_text(name@, offset as nat, limit as nat),
                sliced_graph(self@.transient[name@], offset as i64, limit),
            ),
    {
        match self.find(tables, name) {
            Found::Table => Ok(
                Source::Statement(
                    DuckStorage::get_table_chunk_ipc(name, offset as u64, limit as u64),
                ),
            ),
            Found::Graph(frame) => Ok(Source::Graph(sliced(frame, offset as i64, limit))),
            Found::Nothing => Err(RustoraError::TableNotFound(String::from_str(name))),
        }
    }

    /// Where the number of rows of the dataset `name` comes from: a query
    /// that counts, or the graph itself, which is evaluated in full and
    /// whose rows are then counted.
    pub fn get_row_count(&self, tables: &Vec<String>, name: &str) -> (r: Result<
        Source,
        RustoraError,
    >)
        ensures
            source_result(r) == read_outcome(
                self@,
                texts_of(tables@),
                name@,
                row_count_text(name@),
                self@.transient[name@],
            ),
    {
        match self.find(tables, name) {
            Found::Table => Ok(Source::Statement(DuckStorage::table_row_count(name))),
            Found::Graph(frame) => Ok(Source::Graph(copied(frame))),
            Found::Nothing => Err(RustoraError::TableNotFound(String::from_str(name))),
        }
    }

    /// Plans the storing of what `sql` selects as a new table, named
    /// `sql_result_` and the next number of the counter. Needs a store.
    pub fn execute_sql(&mut self, sql: &str) -> (r: Result<StoredDataset, RustoraError>)
        ensures
            stored_result(r) == (if old(self)@.project is None {
                Err::<StoredDatasetView, RustoraErrorView>(RustoraErrorView::NoProjectOpen)
            } else if old(self)@.counter >= u64::MAX {
                Err::<StoredDatasetView, RustoraErrorView>(exhausted())
            } else {
                Ok::<StoredDatasetView, RustoraErrorView>(
                    stored(sql_result_name(old(self)@.counter + 1), sql@),
                )
            }),
            final(self)@ == counted_on_success(old(self)@, stored_result(r)),
    {
        if self.storage.is_none() {
            return Err(RustoraError::NoProjectOpen);
        }
        match self.next_counter() {
            Ok(n) => Ok(store_as(sql_result_for(n), sql)),
            Err(e) => Err(e),
        }
    }

    /// The statement whose result is to be read without storing it: `sql`
    /// itself. Needs a store.
    pub fn execute_sql_to_ipc(&self, sql: &str) -> (r: Result<String, RustoraError>)
        ensures
            text_result(r) == (if self@.project is Some {
                Ok::<Seq<char>, RustoraErrorView>(sql@)
            } else {
                Err::<Seq<char>, RustoraErrorView>(RustoraErrorView::NoProjectOpen)
            }),
    {
        if self.storage.is_some() {
            Ok(String::from_str(sql))
        } else {
            Err(RustoraError::NoProjectOpen)
        }
    }

    /// Sorts the dataset `name` into a new dataset, `name` with `_sorted`
    /// behind it. The source stays as it is.
    ///
    /// For a table of the store the result is planned as a stored dataset.
    /// For a lazy graph a new graph is registered. The counter is not
    /// touched: sorting the same source again gives the same name, and
    /// replaces what that name stood for.
    pub fn sort_dataset(
        &mut self,
        tables: &Vec<String>,
        name: &str,
        columns: &Vec<String>,
        descending: &Vec<bool>,
    ) -> (r: Result<Derived, RustoraError>)
        ensures
            derived_result(r) == (match resolution(old(self)@, texts_of(tables@), name@) {
                Resolution::Persistent => Ok::<DerivedView, RustoraErrorView>(
                    DerivedView::Stored(
                        stored(
                            sorted_name(name@),
                            sort_text(name@, texts_of(columns@), descending@),
                        ),
                    ),
                ),
                Resolution::Transient => Ok::<DerivedView, RustoraErrorView>(
                    DerivedView::Registered(sorted_name(name@)),
                ),
                Resolution::NotFound => Err::<DerivedView, RustoraErrorView>(
                    RustoraErrorView::TableNotFound(name@),
                ),
            }),
            final(self)@ == (if resolution(old(self)@, texts_of(tables@), name@)
                == Resolution::Transient {
                with_graph(
                    old(self)@,
                    sorted_name(name@),
                    sorted_graph(old(self)@.transient[name@], texts_of(columns@), descending@),
                )
            } else {
                old(self)@
            }),
    {
        let graph: LazyFrame = match self.find(tables, name) {
            Found::Table => {
                let query = sort_query(name, columns, descending);
                return Ok(Derived::Stored(store_as(suffixed(name, "_sorted"), query.as_str())));
            },
            Found::Graph(frame) => sorted(frame, columns, descending),
            Found::Nothing => {
                return Err(RustoraError::TableNotFound(String::from_str(name)));
            },
        };
        let new_name = suffixed(name, "_sorted");
        self.transient.insert(new_name.clone(), graph);
        Ok(Derived::Registered(new_name))
    }

    /// Filters the lazy graph `name` by an expression of the dataframe
    /// engine: a new graph is registered as `name` with `_filtered` behind
    /// it. Tables of the store are not looked at.
    pub fn filter_dataset(&mut self, name: &str, predicate: Expr) -> (r: Result<
        String,
        RustoraError,
    >)
        ensures
            text_result(r) == (if old(self)@.transient.contains_key(name@) {
                Ok::<Seq<char>, RustoraErrorView>(filtered_name(name@))
            } else {
                Err::<Seq<char>, RustoraErrorView>(RustoraErrorView::TableNotFound(name@))
            }),
            final(self)@ == (if old(self)@.transient.contains_key(name@) {
                with_graph(
                    old(self)@,
                    filtered_name(name@),
                    filtered_graph(old(self)@.transient[name@], predicate),
                )
            } else {
                old(self)@
            }),
    {
        let graph: LazyFrame = match self.transient.get(name) {
            Some(frame) => filtered(frame, predicate),
            None => {
                return Err(RustoraError::TableNotFound(String::from_str(name)));
            },
        };
        let new_name = suffixed(name, "_filtered");
        self.transient.insert(new_name.clone(), graph);
        Ok(new_name)
    }

    /// Filters a table of the store by the text of a predicate. The text
    /// goes into the statement as it stands: this entry is for text that is
    /// trusted or was compiled from a filter. The result is named `name`,
    /// `_filtered_` and the next number of the counter.
    pub fn filter_dataset_sql(
        &mut self,
        tables: &Vec<String>,
        name: &str,
        where_clause: &str,
    ) -> (r: Result<StoredDataset, RustoraError>)
        ensures
            stored_result(r) == numbered_outcome(
                old(self)@,
                texts_of(tables@),
                name@,
                "_filtered_"@,
                filter_text(name@, where_clause@),
                filter_needs_store(name@),
            ),
            final(self)@ == counted_on_success(old(self)@, stored_result(r)),
    {
        match self.find(tables, name) {
            Found::Table => {},
            _ => {
                let mut message = String::from_str(
                    "SQL filter requires an active project. Table '",
                );
                message.append(name);
                message.append("' not found in DuckDB.");
                return Err(RustoraError::Session(message));
            },
        }
        let query = filter_query(name, where_clause);
        self.store_numbered(name, "_filtered_", query.as_str())
    }

    fn store_numbered(&mut self, name: &str, tag: &str, query: &str) -> (r: Result<
        StoredDataset,
        RustoraError,
    >)
        ensures
            stored_result(r) == (if old(self)@.counter >= u64::MAX {
                Err::<StoredDatasetView, RustoraErrorView>(exhausted())
            } else {
                Ok::<StoredDatasetView, RustoraErrorView>(
                    stored(numbered_name(name@, tag@, old(self)@.counter + 1), query@),
                )
            }),
            final(self)@ == counted_on_success(old(self)@, stored_result(r)),
    {
        match self.next_counter() {
            Ok(n) => Ok(store_as(numbered(name, tag, n), query)),
            Err(e) => Err(e),
        }
    }

    /// Filters a table of the store by a structured filter. The filter is
    /// compiled first; what cannot be compiled is refused and changes
    /// nothing. This is the entry for filters that come from outside.
    pub fn filter_dataset_structured(
        &mut self,
        tables: &Vec<String>,
        name: &str,
        spec: &FilterSpec,
    ) -> (r: Result<StoredDataset, RustoraError>)
        ensures
            stored_result(r) == structured_filter_outcome(
                old(self)@,
                texts_of(tables@),
                name@,
                spec@,
            ),
            final(self)@ == counted_on_success(old(self)@, stored_result(r)),
    {
        match spec.to_sql_where() {
            Ok(predicate) => self.filter_dataset_sql(tables, name, predicate.as_str()),
            Err(e) => Err(e),
        }
    }

    /// Groups a table of the store by columns and aggregates each group.
    /// The aggregate expressions go into the statement as they stand. The
    /// result is named `name`, `_grouped_` and the next number of the
    /// counter.
    pub fn group_by(
        &mut self,
        tables: &Vec<String>,
        name: &str,
        group_columns: &Vec<String>,
        agg_exprs: &Vec<String>,
    ) -> (r: Result<StoredDataset, RustoraError>)
        ensures
            stored_result(r) == numbered_outcome(
                old(self)@,
                texts_of(tables@),
                name@,
                "_grouped_"@,
                group_text(name@, texts_of(group_columns@), texts_of(agg_exprs@)),
                RustoraErrorView::TableNotFound(name@),
            ),
            final(self)@ == counted_on_success(old(self)@, stored_result(r)),
    {
        match self.find(tables, name) {
            Found::Table => {},
            _ => {
                return Err(RustoraError::TableNotFound(String::from_str(name)));
            },
        }
        let query = group_query(name, group_columns, agg_exprs);
        self.store_numbered(name, "_grouped_", query.as_str())
    }

    /// Adds a computed column to a table of the store. The expression goes
    /// into the statement as it stands. The result is named `name`, `_calc_`
    /// and the next number of the counter.
    pub fn add_calculated_column(
        &mut self,
        tables: &Vec<String>,
        name: &str,
        expr: &str,
        alias: &str,
    ) -> (r: Result<StoredDataset, RustoraError>)
        ensures
            stored_result(r) == numbered_outcome(
                old(self)@,
                texts_of(tables@),
                name@,
                "_calc_"@,
                calculated_text(name@, expr@, alias@),
                RustoraErrorView::TableNotFound(name@),
            ),
            final(self)@ == counted_on_success(old(self)@, stored_result(r)),
    {
        match self.find(tables, name) {
            Found::Table => {},
            _ => {
                return Err(RustoraError::TableNotFound(String::from_str(name)));
            },
        }
        let query = calculated_query(name, expr, alias);
        self.store_numbered(name, "_calc_", query.as_str())
    }

    /// The statement that summarizes each column of a table of the store.
    pub fn summary_stats_ipc(&self, tables: &Vec<String>, name: &str) -> (r: Result<
        String,
        RustoraError,
    >)
        ensures
            text_result(r) == (if in_store(self@, texts_of(tables@), name@) {
                Ok::<Seq<char>, RustoraErrorView>(summarize_text(name@))
            } else {
                Err::<Seq<char>, RustoraErrorView>(summary_needs_store())
            }),
    {
        match self.find(tables, name) {
            Found::Table => Ok(summarize_query(name)),
            _ => Err(
                RustoraError::Session(
                    String::from_str(
                        "Summary statistics require an active project. Please create or open a project first.",
                    ),
                ),
            ),
        }
    }

    /// The query behind a chart over a table of the store: the groups of
    /// `group_col` with an aggregate as value. `count` counts rows; any
    /// other `agg_type` is applied to `value_col` and needs one.
    pub fn aggregate_for_chart(
        &self,
        tables: &Vec<String>,
        name: &str,
        group_col: &str,
        value_col: Option<&str>,
        agg_type: &str,
        limit: u32,
    ) -> (r: Result<String, RustoraError>)
        ensures
            text_result(r) == chart_outcome(
                self@,
                texts_of(tables@),
                name@,
                group_col@,
                option_text(value_col),
                agg_type@,
                limit as nat,
            ),
    {
        if self.storage.is_none() {
            return Err(RustoraError::NoProjectOpen);
        }
        if !contains_text(tables, name) {
            return Err(RustoraError::TableNotFound(String::from_str(name)));
        }
        match chart_aggregate_expr(agg_type, value_col) {
            Some(aggregate) => Ok(chart_query(name, group_col, aggregate.as_str(), limit)),
            None => {
                let mut message = String::from_str("Aggregation '");
                message.append(agg_type);
                message.append("' requires a value column");
                Err(RustoraError::Session(message))
            },
        }
    }

    /// Where a Parquet file of the dataset `name` comes from: a statement
    /// by which the store writes it to `output_path`, or the graph for the
    /// dataframe engine to write there.
    pub fn export_to_parquet(&self, tables: &Vec<String>, name: &str, output_path: &str) -> (r:
        Result<Source, RustoraError>)
        ensures
            source_result(r) == read_outcome(
                self@,
                texts_of(tables@),
                name@,
                copy_text(name@, output_path@, "(FORMAT PARQUET)"@),
                self@.transient[name@],
            ),
    {
        match self.find(tables, name) {
            Found::Table => Ok(
                Source::Statement(DuckStorage::export_to_parquet(name, output_path)),
            ),
            Found::Graph(frame) => Ok(Source::Graph(copied(frame))),
            Found::Nothing => Err(RustoraError::TableNotFound(String::from_str(name))),
        }
    }

    /// Where a CSV file of the dataset `name` comes from: a statement by
    /// which the store writes it to `output_path`, or the graph for the
    /// dataframe engine to write there, with a header line.
    pub fn export_to_csv(&self, tables: &Vec<String>, name: &str, output_path: &str) -> (r: Result<
        Source,
        RustoraError,
    >)
        ensures
            source_result(r) == read_outcome(
                self@,
                texts_of(tables@),
                name@,
                copy_text(name@, output_path@, "(FORMAT CSV, HEADER TRUE)"@),
                self@.transient[name@],
            ),
    {
        match self.find(tables, name) {
            Found::Table => Ok(Source::Statement(DuckStorage::export_to_csv(name, output_path))),
            Found::Graph(frame) => Ok(Source::Graph(copied(frame))),
            Found::Nothing => Err(RustoraError::TableNotFound(String::from_str(name))),
        }
    }

    /// Removes the dataset `name`. A table of the store is removed by the
    /// statement returned, and the lazy graphs stay as they are; else the
    /// lazy graph of that name is let go of, if there is one. A name that
    /// leads nowhere is no failure.
    pub fn remove_dataset(&mut self, tables: &Vec<String>, name: &str) -> (r: Removal)
        ensures
            r@ == removal(old(self)@, texts_of(tables@), name@),
            final(self)@ == after_removal(old(self)@, texts_of(tables@), name@),
    {
        if self.storage.is_some() && contains_text(tables, name) {
            Removal::Stored(DuckStorage::drop_table(name))
        } else if self.transient.remove(name) {
            Removal::Transient
        } else {
            assert(old(self)@.transient.remove(name@) =~= old(self)@.transient);
            Removal::Absent
        }
    }

    /// The failure of the dataframe engine whose message is `message`: the
    /// message is carried as it stands.
    pub fn failure_with_message(message: String) -> (r: RustoraError)
        ensures
            r@ == RustoraErrorView::Polars(message@),
    {
        RustoraError::Polars(message)
    }

    /// The failure of the dataframe engine as a failure of the engine: it
    /// carries the message that the dataframe engine writes for `e`, as
    /// `failure_with_message` puts it. Nothing is known of the text.
    pub fn engine_failure(e: &PolarsError) -> (r: RustoraError)
        ensures
            r is Polars,
    {
        RustoraSession::failure_with_message(error_message(e))
    }

    /// What writing a frame comes to, given what the writer of the dataframe
    /// engine gave: its bytes as they are, or its failure as a failure of
    /// the engine, with its message.
    pub fn wire_result(written: Result<Vec<u8>, PolarsError>) -> (r: Result<
        Vec<u8>,
        RustoraError,
    >)
        ensures
            match written {
                Ok(bytes) => r is Ok && r->Ok_0@ == bytes@,
                Err(_) => r is Err && r->Err_0 is Polars,
            },
    {
        match written {
            Ok(bytes) => Ok(bytes),
            Err(e) => Err(RustoraSession::engine_failure(&e)),
        }
    }

    /// Writes a dataframe in the columnar wire format, as a stream: the
    /// schema, then the rows in batches. This is how the rows of a lazy
    /// graph leave the engine once the graph has been evaluated. The bytes
    /// are those that the writer of the dataframe engine gives for the
    /// frame; where it cannot write the frame, its failure is handed on.
    pub fn dataframe_to_ipc_bytes(df: &DataFrame) -> (r: Result<Vec<u8>, RustoraError>)
        ensures
            match r {
                Ok(bytes) => wire_bytes(*df) == Some(bytes@),
                Err(e) => wire_bytes(*df) is None && e is Polars,
            },
    {
        RustoraSession::wire_result(frame_to_ipc(df))
    }

    /// Holds `lf` as the lazy graph `name` from now on, in place of a graph
    /// of that name.
    pub fn register_lazy_frame(&mut self, name: &str, lf: LazyFrame)
        ensures
            final(self)@ == with_graph(old(self)@, name@, lf),
    {
        self.transient.insert(String::from_str(name), lf);
    }
}

/// The same transformation, asked for twice of the same source, gives two
/// datasets with different names.
///
/// This holds of the transformations whose results are numbered: filters
/// by a predicate, groupings and computed columns. Whatever the two queries
/// are, where the store holds the source both times and the counter has two
/// numbers left, both requests succeed; the results are named by the
/// source, the tag and two numbers one after the other, and the two names
/// differ. Sorting is different on purpose: its result is named by the
/// source alone, so that sorting again replaces the earlier result.
pub proof fn lemma_repeated_transformation_is_renamed(
    s: SessionView,
    name: Seq<char>,
    tag: Seq<char>,
    first_tables: Seq<Seq<char>>,
    first_query: Seq<char>,
    second_tables: Seq<Seq<char>>,
    second_query: Seq<char>,
    missing: RustoraErrorView,
)
    requires
        in_store(s, first_tables, name),
        in_store(s, second_tables, name),
        s.counter + 2 <= u64::MAX,
    ensures
        ({
            let first = numbered_outcome(s, first_tables, name, tag, first_query, missing);
            let between = counted_on_success(s, first);
            let second = numbered_outcome(
                between,
                second_tables,
                name,
                tag,
                second_query,
                missing,
            );
            &&& first == Ok::<StoredDatasetView, RustoraErrorView>(
                stored(numbered_name(name, tag, s.counter + 1), first_query),
            )
            &&& second == Ok::<StoredDatasetView, RustoraErrorView>(
                stored(numbered_name(name, tag, s.counter + 2), second_query),
            )
            &&& between.counter == s.counter + 1
            &&& counted_on_success(between, second).counter == s.counter + 2
            &&& first->Ok_0.dataset != second->Ok_0.dataset
        }),
{
    lemma_numbered_names_differ(name, tag, s.counter + 1, s.counter + 2);
}

/// A structured filter on a table of the store is planned whatever its
/// values are.
///
/// Where the store holds the source, the counter has a number left, and the
/// filter has at least one condition and valid columns only, the request
/// succeeds: the result is named by the source, `_filtered_` and the next
/// number, and the statement selects from the source by the compiled
/// predicate, which is the clauses joined and is closed, so that no value
/// reaches beyond its literal.
pub proof fn lemma_structured_filter_is_planned(
    s: SessionView,
    tables: Seq<Seq<char>>,
    name: Seq<char>,
    spec: FilterSpecView,
)
    requires
        in_store(s, tables, name),
        s.counter < u64::MAX,
        spec.conditions.len() >= 1,
        all_columns_valid(spec.conditions),
    ensures
        structured_filter_outcome(s, tables, name, spec) == Ok::<
            StoredDatasetView,
            RustoraErrorView,
        >(
            stored(
                numbered_name(name, "_filtered_"@, s.counter + 1),
                filter_text(name, joined(clauses(spec.conditions), joiner(spec.logic))),
            ),
        ),
        is_closed(joined(clauses(spec.conditions), joiner(spec.logic))),
{
    lemma_compiled_filter_is_safe(spec);
}

/// A dataset that was removed is no longer listed.
///
/// `tables_after` is what the store holds once the removal is carried out:
/// no table of the name if the name led to the store, else what it held
/// before. The name must not be known to both the store and the lazy
/// graphs: there the store's table is removed and the graph of the same
/// name stays listed. A name that led nowhere gives `Absent` and leaves the
/// session as it was.
pub proof fn lemma_removed_is_not_listed(
    s: SessionView,
    tables: Seq<Seq<char>>,
    tables_after: Seq<Seq<char>>,
    name: Seq<char>,
)
    requires
        !(in_store(s, tables, name) && s.transient.contains_key(name)),
        in_store(s, tables, name) ==> !tables_after.contains(name),
        !in_store(s, tables, name) ==> tables_after == tables,
    ensures
        !listed(after_removal(s, tables, name), tables_after).contains(name),
        resolution(s, tables, name) == Resolution::NotFound ==> removal(s, tables, name)
            == RemovalView::Absent && after_removal(s, tables, name) == s,
{
}

/// Once a session has turned to another store, no name leads to a lazy
/// graph any more: a name that the new store does not hold leads nowhere,
/// and reading it fails with `TableNotFound`.
pub proof fn lemma_opening_forgets_graphs(
    s: SessionView,
    db_path: Seq<char>,
    tables: Seq<Seq<char>>,
    name: Seq<char>,
    statement: Seq<char>,
    graph: LazyFrame,
)
    ensures
        resolution(opened(s, db_path), tables, name) != Resolution::Transient,
        !tables.contains(name) ==> resolution(opened(s, db_path), tables, name)
            == Resolution::NotFound,
        !tables.contains(name) ==> read_outcome(
            opened(s, db_path),
            tables,
            name,
            statement,
            graph,
        ) == Err::<SourceView, RustoraErrorView>(RustoraErrorView::TableNotFound(name)),
{
}

/// A name that both the store and the lazy graphs know leads to the store.
pub proof fn lemma_store_wins(s: SessionView, tables: Seq<Seq<char>>, name: Seq<char>)
    requires
        in_store(s, tables, name),
    ensures
        resolution(s, tables, name) == Resolution::Persistent,
{
}

/// The counter never goes back: whatever an operation does to the session,
/// the counter afterwards is the counter before or the number after it.
pub proof fn lemma_counter_never_decreases(
    s: SessionView,
    tables: Seq<Seq<char>>,
    name: Seq<char>,
    table_name: Option<Seq<char>>,
    db_path: Seq<char>,
    outcome: Result<StoredDatasetView, RustoraErrorView>,
)
    ensures
        s.counter <= import_file_state(s, table_name).counter <= s.counter + 1,
        s.counter <= counted_on_success(s, outcome).counter <= s.counter + 1,
        forall|graph: LazyFrame| (#[trigger] with_graph(s, name, graph)).counter == s.counter,
        forall|r: Result<Seq<char>, RustoraErrorView>, graph: LazyFrame|
            s.counter <= (#[trigger] registered(s, r, graph)).counter <= s.counter + 1,
        after_removal(s, tables, name).counter == s.counter,
        opened(s, db_path).counter == s.counter,
{
}

/// Two files imported without a name go by different names, even where
/// both have the same stem: the names that the store uses differ where the
/// numbers do.
pub proof fn lemma_imported_names_differ(path: Seq<char>, a: nat, b: nat)
    requires
        a != b,
    ensures
        sanitized(generated_name(path, a)) != sanitized(generated_name(path, b)),
{
    let head = stem_text(path) + "_"@;
    lemma_number_is_clean(a);
    lemma_number_is_clean(b);
    assert(sanitized(generated_name(path, a)) =~= sanitized(head) + decimal(a));
    assert(sanitized(generated_name(path, b)) =~= sanitized(head) + decimal(b));
    if sanitized(generated_name(path, a)) == sanitized(generated_name(path, b)) {
        lemma_same_prefix(sanitized(head), decimal(a), decimal(b));
        lemma_decimal_injective(a, b);
    }
}

/// A decimal numeral is fit for a table name as it stands.
pub proof fn lemma_number_is_clean(n: nat)
    ensures
        sanitized(decimal(n)) == decimal(n),
{
    lemma_decimal_shape(n);
    assert forall|i: int| 0 <= i < decimal(n).len() implies sanitized_char(
        #[trigger] decimal(n)[i],
    ) == decimal(n)[i] by {
        assert(is_digit(decimal(n)[i]));
    }
    assert(sanitized(decimal(n)) =~= decimal(n));
}

/// Two clean texts, one after the other, are a clean text.
pub proof fn lemma_clean_concat(a: Seq<char>, b: Seq<char>)
    requires
        is_clean(a),
        is_clean(b),
    ensures
        is_clean(a + b),
{
    let both = a + b;
    assert forall|i: int| 0 <= i < both.len() implies sanitized_char(#[trigger] both[i])
        == both[i] by {
        if i < a.len() {
            assert(both[i] == a[i]);
        } else {
            assert(both[i] == b[i - a.len()]);
        }
    }
}

/// What is derived from a dataset with a clean name is stored under the
/// very name that is handed back: the name of the result is clean too. The
/// names that the session hands back for stored datasets therefore lead to
/// them, one transformation after the other.
pub proof fn lemma_results_keep_clean_names(name: Seq<char>, n: nat, query: Seq<char>)
    requires
        is_clean(name),
    ensures
        stored(sorted_name(name), query).table == sorted_name(name),
        stored(numbered_name(name, "_filtered_"@, n), query).table == numbered_name(
            name,
            "_filtered_"@,
            n,
        ),
        stored(numbered_name(name, "_grouped_"@, n), query).table == numbered_name(
            name,
            "_grouped_"@,
            n,
        ),
        stored(numbered_name(name, "_calc_"@, n), query).table == numbered_name(
            name,
            "_calc_"@,
            n,
        ),
        stored(sql_result_name(n), query).table == sql_result_name(n),
{
    reveal_strlit("_sorted");
    reveal_strlit("_filtered_");
    reveal_strlit("_grouped_");
    reveal_strlit("_calc_");
    reveal_strlit("sql_result_");
    lemma_number_is_clean(n);
    lemma_sanitized_is_clean(decimal(n));
    assert(is_clean(decimal(n)));
    assert(is_clean("_sorted"@));
    assert(is_clean("_filtered_"@));
    assert(is_clean("_grouped_"@));
    assert(is_clean("_calc_"@));
    assert(is_clean("sql_result_"@));
    lemma_clean_concat(name, "_sorted"@);
    lemma_clean_concat(name, "_filtered_"@);
    lemma_clean_concat(name, "_grouped_"@);
    lemma_clean_concat(name, "_calc_"@);
    lemma_clean_concat(name + "_filtered_"@, decimal(n));
    lemma_clean_concat(name + "_grouped_"@, decimal(n));
    lemma_clean_concat(name + "_calc_"@, decimal(n));
    lemma_clean_concat("sql_result_"@, decimal(n));
    lemma_sanitized_is_clean(sorted_name(name));
    lemma_sanitized_is_clean(numbered_name(name, "_filtered_"@, n));
    lemma_sanitized_is_clean(numbered_name(name, "_grouped_"@, n));
    lemma_sanitized_is_clean(numbered_name(name, "_calc_"@, n));
    lemma_sanitized_is_clean(sql_result_name(n));
}

} // verus!
