//! The persistent table store, seen from the engine: the statements that it
//! is asked to run and what the engine makes of their results.
//!
//! The engine does not hold the connection. Each operation of the store is
//! given here as the statement to run on it; whoever owns the connection
//! runs the statement and hands back what came of it.

use crate::error::{RustoraError, RustoraErrorView};
use crate::filter::{escape_sql_string, quote_escaped, quote_identifier, quoted_identifier};
use crate::paths::{extension, extension_text};
use crate::text::{
    char_is_alphanumeric, chars_of, contains_substring, decimal, has_substring, is_alphanumeric,
    lowercase, push_decimal, text_eq, texts_of, to_lowercase, to_uppercase, uppercase,
};
use vstd::prelude::*;

verus! {

/// What is known of a table of the store.
#[derive(Debug, Clone)]
pub struct TableInfo {
    pub name: String,
    pub num_columns: usize,
    pub column_names: Vec<String>,
    pub column_types: Vec<String>,
    pub row_count: usize,
}

/// A `TableInfo` with its texts as sequences of characters.
pub struct TableInfoView {
    pub name: Seq<char>,
    pub num_columns: nat,
    pub column_names: Seq<Seq<char>>,
    pub column_types: Seq<Seq<char>>,
    pub row_count: nat,
}

impl View for TableInfo {
    type V = TableInfoView;

    open spec fn view(&self) -> TableInfoView {
        TableInfoView {
            name: self.name@,
            num_columns: self.num_columns as nat,
            column_names: texts_of(self.column_names@),
            column_types: texts_of(self.column_types@),
            row_count: self.row_count as nat,
        }
    }
}

/// The file formats that can be imported or scanned.
#[derive(Debug, Clone, Copy, PartialEq, Eq, Structural)]
pub enum FileFormat {
    /// Comma-separated text.
    Csv,
    /// Tab-separated text.
    Tsv,
    /// Parquet.
    Parquet,
    /// A file of the columnar IPC family.
    Ipc,
}

/// A statement that creates a table, and the name of that table.
#[derive(Debug, Clone)]
pub struct TableWrite {
    /// The statement to run on the store.
    pub statement: String,
    /// The name under which the store holds the result.
    pub table: String,
}

/// A `TableWrite` with its texts as sequences of characters.
pub struct TableWriteView {
    pub statement: Seq<char>,
    pub table: Seq<char>,
}

impl View for TableWrite {
    type V = TableWriteView;

    open spec fn view(&self) -> TableWriteView {
        TableWriteView { statement: self.statement@, table: self.table@ }
    }
}

/// A table write or a failure, each by its view.
pub open spec fn write_result(r: Result<TableWrite, RustoraError>) -> Result<
    TableWriteView,
    RustoraErrorView,
> {
    match r {
        Ok(w) => Ok(w@),
        Err(e) => Err(e@),
    }
}

/// The format that an extension in lower case stands for.
pub open spec fn format_of(ext: Seq<char>) -> Option<FileFormat> {
    if ext == "csv"@ {
        Some(FileFormat::Csv)
    } else if ext == "tsv"@ {
        Some(FileFormat::Tsv)
    } else if ext == "parquet"@ || ext == "pq"@ {
        Some(FileFormat::Parquet)
    } else if ext == "ipc"@ || ext == "arrow"@ || ext == "feather"@ {
        Some(FileFormat::Ipc)
    } else {
        None
    }
}

/// The extension of `path` in lower case: what decides its format.
pub open spec fn format_key(path: Seq<char>) -> Seq<char> {
    lowercase(extension_text(path))
}

/// What stands for `c` in a table name: `c` itself where it is a letter, a
/// number or an underscore, else an underscore.
pub open spec fn sanitized_char(c: char) -> char {
    if is_alphanumeric(c) || c == '_' {
        c
    } else {
        '_'
    }
}

/// `name` made fit for a table name, character by character.
pub open spec fn sanitized(name: Seq<char>) -> Seq<char> {
    name.map_values(|c: char| sanitized_char(c))
}

/// Whether `name` holds letters, numbers and underscores only.
pub open spec fn is_clean(name: Seq<char>) -> bool {
    forall|i: int| 0 <= i < name.len() ==> sanitized_char(#[trigger] name[i]) == name[i]
}

/// Sanitizing leaves a clean name as it is, and makes every name clean: as
/// long as it was, and without a quote of either kind, so that nothing in
/// it can end the quoted identifier that it stands in.
pub proof fn lemma_sanitized_is_clean(name: Seq<char>)
    ensures
        is_clean(sanitized(name)),
        sanitized(sanitized(name)) == sanitized(name),
        is_clean(name) ==> sanitized(name) == name,
        sanitized(name).len() == name.len(),
        forall|i: int|
            0 <= i < name.len() ==> #[trigger] sanitized(name)[i] != '"' && sanitized(name)[i]
                != '\'',
{
    assert(sanitized(sanitized(name)) =~= sanitized(name));
    if is_clean(name) {
        assert(sanitized(name) =~= name);
    }
}

/// The reader that the store applies to a file of the given format.
pub open spec fn import_source(format: FileFormat, path: Seq<char>) -> Seq<char> {
    match format {
        FileFormat::Csv => "read_csv('"@ + quote_escaped(path) + "', auto_detect=true)"@,
        FileFormat::Tsv => "read_csv('"@ + quote_escaped(path) + "', auto_detect=true)"@,
        FileFormat::Parquet => "read_parquet('"@ + quote_escaped(path) + "')"@,
        FileFormat::Ipc => "'"@ + quote_escaped(path) + "'"@,
    }
}

/// The statement that creates or replaces `table` from a query.
pub open spec fn create_table_text(table: Seq<char>, query: Seq<char>) -> Seq<char> {
    "CREATE OR REPLACE TABLE "@ + quoted_identifier(table) + " AS "@ + query
}

/// The statement that imports a file into `table`.
pub open spec fn import_text(format: FileFormat, path: Seq<char>, table: Seq<char>) -> Seq<char> {
    create_table_text(table, "SELECT * FROM "@ + import_source(format, path))
}

/// What importing a file comes to: a failure where the file is missing or
/// its extension names no known format, else the statement and the table.
pub open spec fn import_outcome(path: Seq<char>, table_name: Seq<char>, exists: bool) -> Result<
    TableWriteView,
    RustoraErrorView,
> {
    if !exists {
        Err(RustoraErrorView::FileNotFound(path))
    } else {
        match format_of(format_key(path)) {
            Some(format) => Ok(
                TableWriteView {
                    statement: import_text(format, path, sanitized(table_name)),
                    table: sanitized(table_name),
                },
            ),
            None => Err(RustoraErrorView::UnsupportedFormat(format_key(path))),
        }
    }
}

/// The query for the rows of `table` from `offset` on, `limit` at most.
pub open spec fn chunk_text(table: Seq<char>, offset: nat, limit: nat) -> Seq<char> {
    "SELECT * FROM "@ + quoted_identifier(table) + " LIMIT "@ + decimal(limit) + " OFFSET "@
        + decimal(offset)
}

/// The query for the names of the tables of the store, in order.
pub open spec fn list_tables_text() -> Seq<char> {
    "SELECT table_name FROM information_schema.tables WHERE table_schema = 'main' ORDER BY table_name"@
}

/// The query for the names and types of the columns of `table`, in order.
pub open spec fn columns_text(table: Seq<char>) -> Seq<char> {
    "SELECT column_name, data_type FROM information_schema.columns WHERE table_name = '"@ + table
        + "' AND table_schema = 'main' ORDER BY ordinal_position"@
}

/// The query for the number of rows of `table`.
pub open spec fn row_count_text(table: Seq<char>) -> Seq<char> {
    "SELECT COUNT(*) FROM "@ + quoted_identifier(table)
}

/// The statement that drops `table` if it exists.
pub open spec fn drop_text(table: Seq<char>) -> Seq<char> {
    "DROP TABLE IF EXISTS "@ + quoted_identifier(table)
}

/// The statement that copies `table` to a file, with the given options.
pub open spec fn copy_text(table: Seq<char>, path: Seq<char>, options: Seq<char>) -> Seq<char> {
    "COPY "@ + quoted_identifier(table) + " TO '"@ + quote_escaped(path) + "' "@ + options
}

/// The settings that every new connection gets.
pub open spec fn configure_text() -> Seq<char> {
    "SET enable_progress_bar = false; SET preserve_insertion_order = true;"@
}

/// The bytes that one row takes, by the name of a column type in upper case.
pub open spec fn width_of(upper: Seq<char>) -> nat {
    if has_substring(upper, "BIGINT"@) || has_substring(upper, "DOUBLE"@) || has_substring(
        upper,
        "TIMESTAMP"@,
    ) {
        8
    } else if has_substring(upper, "INTEGER"@) || has_substring(upper, "FLOAT"@) {
        4
    } else if has_substring(upper, "SMALLINT"@) {
        2
    } else if has_substring(upper, "BOOLEAN"@) || has_substring(upper, "TINYINT"@) {
        1
    } else if has_substring(upper, "VARCHAR"@) || has_substring(upper, "TEXT"@) || has_substring(
        upper,
        "BLOB"@,
    ) {
        64
    } else {
        32
    }
}

/// The bytes that one row takes for a column of the given type.
pub open spec fn type_width(column_type: Seq<char>) -> nat {
    width_of(uppercase(column_type))
}

/// The bytes that one row takes, over all columns.
pub open spec fn row_width(types: Seq<Seq<char>>) -> nat
    decreases types.len(),
{
    if types.len() == 0 {
        0
    } else {
        row_width(types.drop_last()) + type_width(types.last())
    }
}

/// The estimated size of a table in bytes: rows times bytes per row.
pub open spec fn estimated_size(info: TableInfoView) -> nat {
    info.row_count * row_width(info.column_types)
}

/// A row of more columns is no narrower.
pub proof fn lemma_row_width_grows(types: Seq<Seq<char>>, k: int)
    requires
        0 <= k <= types.len(),
    ensures
        row_width(types.take(k)) <= row_width(types),
    decreases types.len() - k,
{
    if k < types.len() {
        lemma_row_width_grows(types, k + 1);
        assert(types.take(k + 1).drop_last() =~= types.take(k));
    } else {
        assert(types.take(k) =~= types);
    }
}

/// Makes `name` fit for a table name: each character that is neither a
/// letter, a number nor an underscore becomes an underscore.
pub fn sanitize_table_name(name: &str) -> (r: String)
    ensures
        r@ == sanitized(name@),
{
    let v: Vec<char> = chars_of(name);
    let mut out = String::new();
    let mut i: usize = 0;
    while i < v.len()
        invariant
            i <= v.len(),
            v@ == name@,
            out@ == sanitized(name@).take(i as int),
        decreases v.len() - i,
    {
        let c: char = v[i];
        if char_is_alphanumeric(c) || c == '_' {
            out.push(c);
        } else {
            out.push('_');
        }
        assert(sanitized(name@).take(i + 1) =~= sanitized(name@).take(i as int).push(
            sanitized_char(c),
        ));
        i += 1;
    }
    assert(sanitized(name@).take(v.len() as int) =~= sanitized(name@));
    out
}

/// The format that `extension` stands for, if any. Capital and small
/// letters count alike.
pub fn format_for(extension: &str) -> (r: Option<FileFormat>)
    ensures
        r == format_of(lowercase(extension@)),
{
    let key = to_lowercase(extension);
    let k: &str = key.as_str();
    if text_eq(k, "csv") {
        Some(FileFormat::Csv)
    } else if text_eq(k, "tsv") {
        Some(FileFormat::Tsv)
    } else if text_eq(k, "parquet") || text_eq(k, "pq") {
        Some(FileFormat::Parquet)
    } else if text_eq(k, "ipc") || text_eq(k, "arrow") || text_eq(k, "feather") {
        Some(FileFormat::Ipc)
    } else {
        None
    }
}

/// The format that the extension of `path` stands for, if any, and that
/// extension in lower case.
pub fn file_format(path: &str) -> (r: (Option<FileFormat>, String))
    ensures
        r.0 == format_of(format_key(path@)),
        r.1@ == format_key(path@),
{
    let ext = extension(path);
    let format = format_for(ext.as_str());
    let key = to_lowercase(ext.as_str());
    (format, key)
}

fn around(before: &str, middle: &str, after: &str) -> (r: String)
    ensures
        r@ == before@ + middle@ + after@,
{
    let mut out = String::from_str(before);
    out.append(middle);
    out.append(after);
    out
}

fn create_table(table: &str, query: &str) -> (r: String)
    ensures
        r@ == create_table_text(table@, query@),
{
    let mut out = String::from_str("CREATE OR REPLACE TABLE ");
    let ident = quote_identifier(table);
    out.append(ident.as_str());
    out.append(" AS ");
    out.append(query);
    out
}

fn import_statement(format: FileFormat, file_path: &str, table: &str) -> (r: String)
    ensures
        r@ == import_text(format, file_path@, table@),
{
    let escaped = escape_sql_string(file_path);
    let source = match format {
        FileFormat::Csv => around("read_csv('", escaped.as_str(), "', auto_detect=true)"),
        FileFormat::Tsv => around("read_csv('", escaped.as_str(), "', auto_detect=true)"),
        FileFormat::Parquet => around("read_parquet('", escaped.as_str(), "')"),
        FileFormat::Ipc => around("'", escaped.as_str(), "'"),
    };
    let mut query = String::from_str("SELECT * FROM ");
    query.append(source.as_str());
    create_table(table, query.as_str())
}

fn copy_statement(table: &str, output_path: &str, options: &str) -> (r: String)
    ensures
        r@ == copy_text(table@, output_path@, options@),
{
    let mut out = String::from_str("COPY ");
    let ident = quote_identifier(table);
    out.append(ident.as_str());
    out.append(" TO '");
    let escaped = escape_sql_string(output_path);
    out.append(escaped.as_str());
    out.append("' ");
    out.append(options);
    out
}

fn width(column_type: &str) -> (r: u64)
    ensures
        r == type_width(column_type@),
        r <= 64,
{
    let upper_text = to_uppercase(column_type);
    let upper: &str = upper_text.as_str();
    if contains_substring(upper, "BIGINT") || contains_substring(upper, "DOUBLE")
        || contains_substring(upper, "TIMESTAMP") {
        8
    } else if contains_substring(upper, "INTEGER") || contains_substring(upper, "FLOAT") {
        4
    } else if contains_substring(upper, "SMALLINT") {
        2
    } else if contains_substring(upper, "BOOLEAN") || contains_substring(upper, "TINYINT") {
        1
    } else if contains_substring(upper, "VARCHAR") || contains_substring(upper, "TEXT")
        || contains_substring(upper, "BLOB") {
        64
    } else {
        32
    }
}

/// The persistent store that a session works on, known by the path of its
/// database file.
#[derive(Debug, Clone)]
pub struct DuckStorage {
    db_path: String,
}

impl View for DuckStorage {
    type V = Seq<char>;

    closed spec fn view(&self) -> Seq<char> {
        self.db_path@
    }
}

impl DuckStorage {
    /// The store whose database file is at `db_path`.
    pub fn open(db_path: &str) -> (r: DuckStorage)
        ensures
            r@ == db_path@,
    {
        DuckStorage { db_path: String::from_str(db_path) }
    }

    /// The store that lives in memory only, for scratch work.
    pub fn open_in_memory() -> (r: DuckStorage)
        ensures
            r@ == ":memory:"@,
    {
        DuckStorage { db_path: String::from_str(":memory:") }
    }

    /// The settings to apply to a connection before anything else is run on
    /// it: no progress bar, and rows kept in the order of their insertion.
    pub fn configure_connection() -> (r: String)
        ensures
            r@ == configure_text(),
    {
        String::from_str("SET enable_progress_bar = false; SET preserve_insertion_order = true;")
    }

    /// The path of the database file.
    pub fn db_path(&self) -> (r: &str)
        ensures
            r@ == self@,
    {
        self.db_path.as_str()
    }

    /// Plans the import of a file into a table.
    ///
    /// `exists` says whether a file is there at `file_path`. The format is
    /// found by the file's extension, and the table is named by `table_name`
    /// made fit for a table name: callers go on with `table` of the result.
    pub fn import_file(file_path: &str, table_name: &str, exists: bool) -> (r: Result<
        TableWrite,
        RustoraError,
    >)
        ensures
            write_result(r) == import_outcome(file_path@, table_name@, exists),
    {
        if !exists {
            return Err(RustoraError::FileNotFound(String::from_str(file_path)));
        }
        let (format, key) = file_format(file_path);
        let table = sanitize_table_name(table_name);
        match format {
            Some(f) => {
                let statement = import_statement(f, file_path, table.as_str());
                Ok(TableWrite { statement, table })
            },
            None => Err(RustoraError::UnsupportedFormat(key)),
        }
    }

    /// The query that reads `limit` rows of a table at most, from row
    /// `offset` on.
    pub fn get_table_chunk_ipc(table_name: &str, offset: u64, limit: u64) -> (r: String)
        ensures
            r@ == chunk_text(table_name@, offset as nat, limit as nat),
    {
        let mut out = String::from_str("SELECT * FROM ");
        let ident = quote_identifier(table_name);
        out.append(ident.as_str());
        out.append(" LIMIT ");
        push_decimal(&mut out, limit);
        out.append(" OFFSET ");
        push_decimal(&mut out, offset);
        out
    }

    /// The query that reads the first `limit` rows of a table.
    pub fn get_table_preview_ipc(table_name: &str, limit: u64) -> (r: String)
        ensures
            r@ == chunk_text(table_name@, 0, limit as nat),
    {
        DuckStorage::get_table_chunk_ipc(table_name, 0, limit)
    }

    /// The query that lists the tables of the store by name.
    pub fn list_tables() -> (r: String)
        ensures
            r@ == list_tables_text(),
    {
        String::from_str(
            "SELECT table_name FROM information_schema.tables WHERE table_schema = 'main' ORDER BY table_name",
        )
    }

    /// The query that lists the columns of a table with their types, in the
    /// order of the table.
    pub fn table_columns(table_name: &str) -> (r: String)
        ensures
            r@ == columns_text(table_name@),
    {
        around(
            "SELECT column_name, data_type FROM information_schema.columns WHERE table_name = '",
            table_name,
            "' AND table_schema = 'main' ORDER BY ordinal_position",
        )
    }

    /// Puts together what is known of a table from the rows that
    /// `table_columns` gave, each a column's name and type, and the count
    /// that `table_row_count` gave.
    pub fn table_info(table_name: &str, columns: &Vec<(String, String)>, row_count: usize) -> (r:
        TableInfo)
        ensures
            r@.name == table_name@,
            r@.num_columns == columns@.len(),
            r@.row_count == row_count,
            r@.column_names == columns@.map_values(|c: (String, String)| c.0@),
            r@.column_types == columns@.map_values(|c: (String, String)| c.1@),
    {
        let mut column_names: Vec<String> = Vec::new();
        let mut column_types: Vec<String> = Vec::new();
        let mut i: usize = 0;
        while i < columns.len()
            invariant
                i <= columns.len(),
                texts_of(column_names@) == columns@.map_values(|c: (String, String)| c.0@).take(
                    i as int,
                ),
                texts_of(column_types@) == columns@.map_values(|c: (String, String)| c.1@).take(
                    i as int,
                ),
            decreases columns.len() - i,
        {
            let ghost names = columns@.map_values(|c: (String, String)| c.0@);
            let ghost types = columns@.map_values(|c: (String, String)| c.1@);
            let ghost old_names = texts_of(column_names@);
            let ghost old_types = texts_of(column_types@);
            column_names.push(columns[i].0.clone());
            column_types.push(columns[i].1.clone());
            assert(texts_of(column_names@) =~= old_names.push(columns@[i as int].0@));
            assert(texts_of(column_types@) =~= old_types.push(columns@[i as int].1@));
            assert(names.take(i + 1) =~= names.take(i as int).push(names[i as int]));
            assert(types.take(i + 1) =~= types.take(i as int).push(types[i as int]));
            i += 1;
        }
        proof {
            let names = columns@.map_values(|c: (String, String)| c.0@);
            let types = columns@.map_values(|c: (String, String)| c.1@);
            assert(names.take(columns.len() as int) =~= names);
            assert(types.take(columns.len() as int) =~= types);
        }
        TableInfo {
            name: String::from_str(table_name),
            num_columns: column_names.len(),
            column_names,
            column_types,
            row_count,
        }
    }

    /// Estimates the size of a table in bytes: its number of rows times a
    /// fixed width for each column, chosen by the column's type. Nothing is
    /// measured. Gives no estimate where it would not fit in 64 bits.
    pub fn table_estimated_size_bytes(info: &TableInfo) -> (r: Option<u64>)
        ensures
            match r {
                Some(n) => n == estimated_size(info@),
                None => estimated_size(info@) > u64::MAX,
            },
    {
        if info.row_count == 0 {
            assert(0 * row_width(info@.column_types) == 0) by (nonlinear_arith);
            return Some(0);
        }
        let ghost types = info@.column_types;
        let mut per_row: u64 = 0;
        let mut i: usize = 0;
        while i < info.column_types.len()
            invariant
                i <= info.column_types.len(),
                info.row_count > 0,
                types == texts_of(info.column_types@),
                per_row == row_width(types.take(i as int)),
            decreases info.column_types.len() - i,
        {
            let w: u64 = width(info.column_types[i].as_str());
            proof {
                assert(types.take(i + 1).drop_last() =~= types.take(i as int));
                assert(types.take(i + 1).last() == info.column_types@[i as int]@);
                lemma_row_width_grows(types, i + 1);
            }
            match per_row.checked_add(w) {
                Some(sum) => {
                    per_row = sum;
                },
                None => {
                    assert(info@.row_count * row_width(types) >= row_width(types))
                        by (nonlinear_arith)
                        requires
                            info@.row_count >= 1,
                    ;
                    return None;
                },
            }
            i += 1;
        }
        assert(types.take(info.column_types.len() as int) =~= types);
        let rows: u64 = info.row_count as u64;
        rows.checked_mul(per_row)
    }

    /// The query that counts the rows of a table.
    pub fn table_row_count(table_name: &str) -> (r: String)
        ensures
            r@ == row_count_text(table_name@),
    {
        let mut out = String::from_str("SELECT COUNT(*) FROM ");
        let ident = quote_identifier(table_name);
        out.append(ident.as_str());
        out
    }

    /// The statement that drops a table, if the store has it.
    pub fn drop_table(table_name: &str) -> (r: String)
        ensures
            r@ == drop_text(table_name@),
    {
        let mut out = String::from_str("DROP TABLE IF EXISTS ");
        let ident = quote_identifier(table_name);
        out.append(ident.as_str());
        out
    }

    /// Plans the storing of what `sql` selects as a table: the table is
    /// named by `result_table` made fit for a table name, and replaces a
    /// table of that name.
    pub fn execute_sql_to_table(sql: &str, result_table: &str) -> (r: TableWrite)
        ensures
            r@.table == sanitized(result_table@),
            r@.statement == create_table_text(sanitized(result_table@), sql@),
    {
        let table = sanitize_table_name(result_table);
        let statement = create_table(table.as_str(), sql);
        TableWrite { statement, table }
    }

    /// The statement that writes a table to a CSV file with a header line.
    pub fn export_to_csv(table_name: &str, output_path: &str) -> (r: String)
        ensures
            r@ == copy_text(table_name@, output_path@, "(FORMAT CSV, HEADER TRUE)"@),
    {
        copy_statement(table_name, output_path, "(FORMAT CSV, HEADER TRUE)")
    }

    /// The statement that writes a table to a Parquet file.
    pub fn export_to_parquet(table_name: &str, output_path: &str) -> (r: String)
        ensures
            r@ == copy_text(table_name@, output_path@, "(FORMAT PARQUET)"@),
    {
        copy_statement(table_name, output_path, "(FORMAT PARQUET)")
    }

    /// The failure of the store whose message is `detail`: the message is
    /// carried as it stands.
    pub fn store_failure(detail: &str) -> (r: RustoraError)
        ensures
            r@ == RustoraErrorView::DuckDb(detail@),
    {
        RustoraError::DuckDb(String::from_str(detail))
    }

    /// The failure of writing a batch, or the schema, into the stream that
    /// answers a query: a failure of the store, `detail` behind a fixed
    /// head.
    pub fn ipc_write_failure(detail: &str) -> (r: RustoraError)
        ensures
            r@ == RustoraErrorView::DuckDb("Arrow IPC write error: "@ + detail@),
    {
        let mut message = String::from_str("Arrow IPC write error: ");
        message.append(detail);
        RustoraError::DuckDb(message)
    }

    /// The failure of closing the stream that answers a query: a failure of
    /// the store, `detail` behind a fixed head.
    pub fn ipc_finish_failure(detail: &str) -> (r: RustoraError)
        ensures
            r@ == RustoraErrorView::DuckDb("Arrow IPC finish error: "@ + detail@),
    {
        let mut message = String::from_str("Arrow IPC finish error: ");
        message.append(detail);
        RustoraError::DuckDb(message)
    }

    /// Whether a batch of `rows` rows goes into the stream that answers a
    /// query: empty batches are left out.
    pub fn keeps_batch(rows: usize) -> (r: bool)
        ensures
            r == (rows > 0),
    {
        rows > 0
    }
}

} // verus!
