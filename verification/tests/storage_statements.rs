use core_engine::error::RustoraError;
use core_engine::paths::{extension, file_stem};
use core_engine::names::{generated_for, numbered, sql_result_for};
use core_engine::storage::{
    file_format, format_for, sanitize_table_name, DuckStorage, FileFormat, TableInfo,
};
use std::io::Write;
use tempfile::NamedTempFile;

fn create_test_csv() -> NamedTempFile {
    let mut file = NamedTempFile::with_suffix(".csv").unwrap();
    file.write_all(b"name,age,city,score\n").unwrap();
    file.write_all(b"Alice,30,New York,95.5\n").unwrap();
    file.write_all(b"Bob,25,San Francisco,88.0\n").unwrap();
    file.write_all(b"Charlie,35,Chicago,72.3\n").unwrap();
    file.write_all(b"Diana,28,Boston,91.1\n").unwrap();
    file.write_all(b"Eve,32,Seattle,85.7\n").unwrap();
    file
}

fn columns_of_test_csv() -> Vec<(String, String)> {
    vec![
        ("name".to_string(), "VARCHAR".to_string()),
        ("age".to_string(), "BIGINT".to_string()),
        ("city".to_string(), "VARCHAR".to_string()),
        ("score".to_string(), "DOUBLE".to_string()),
    ]
}

#[test]
fn test_import_csv_and_query() {
    let csv = create_test_csv();
    let csv_path = csv.path().to_str().unwrap();

    let plan = DuckStorage::import_file(csv_path, "test_data", csv.path().exists()).unwrap();
    assert_eq!(plan.table, "test_data");
    assert_eq!(
        plan.statement,
        format!(
            "CREATE OR REPLACE TABLE \"test_data\" AS SELECT * FROM read_csv('{}', auto_detect=true)",
            csv_path
        )
    );
    assert_eq!(
        DuckStorage::list_tables(),
        "SELECT table_name FROM information_schema.tables WHERE table_schema = 'main' ORDER BY table_name"
    );

    let info = DuckStorage::table_info("test_data", &columns_of_test_csv(), 5);
    assert_eq!(info.row_count, 5);
    assert_eq!(info.num_columns, 4);
    assert!(info.column_names.contains(&"name".to_string()));
    assert_eq!(info.name, "test_data");
    assert_eq!(info.column_names, vec!["name", "age", "city", "score"]);
    assert_eq!(info.column_types, vec!["VARCHAR", "BIGINT", "VARCHAR", "DOUBLE"]);
}

#[test]
fn test_query_to_ipc() {
    assert!(!DuckStorage::keeps_batch(0));
    assert!(DuckStorage::keeps_batch(1));
    assert!(DuckStorage::keeps_batch(usize::MAX));
    match DuckStorage::store_failure("Catalog Error: no such table") {
        RustoraError::DuckDb(m) => assert_eq!(m, "Catalog Error: no such table"),
        other => panic!("unexpected outcome: {:?}", other),
    }
    match DuckStorage::ipc_write_failure("broken pipe") {
        RustoraError::DuckDb(m) => assert_eq!(m, "Arrow IPC write error: broken pipe"),
        other => panic!("unexpected outcome: {:?}", other),
    }
    match DuckStorage::ipc_finish_failure("broken pipe") {
        RustoraError::DuckDb(m) => assert_eq!(m, "Arrow IPC finish error: broken pipe"),
        other => panic!("unexpected outcome: {:?}", other),
    }
}

#[test]
fn test_table_chunk_ipc() {
    let chunk = DuckStorage::get_table_chunk_ipc("test_data", 0, 2);
    assert!(!chunk.is_empty());
    assert_eq!(chunk, "SELECT * FROM \"test_data\" LIMIT 2 OFFSET 0");

    let chunk2 = DuckStorage::get_table_chunk_ipc("test_data", 2, 2);
    assert!(!chunk2.is_empty());
    assert_eq!(chunk2, "SELECT * FROM \"test_data\" LIMIT 2 OFFSET 2");

    assert_eq!(
        DuckStorage::get_table_chunk_ipc("t", u64::MAX, 0),
        "SELECT * FROM \"t\" LIMIT 0 OFFSET 18446744073709551615"
    );
}

#[test]
fn test_execute_sql_to_table() {
    let plan = DuckStorage::execute_sql_to_table(
        "SELECT name, score FROM people WHERE age > 28",
        "high_age",
    );
    assert_eq!(plan.table, "high_age");
    assert_eq!(
        plan.statement,
        "CREATE OR REPLACE TABLE \"high_age\" AS SELECT name, score FROM people WHERE age > 28"
    );

    let columns =
        vec![("name".to_string(), "VARCHAR".to_string()), ("score".to_string(), "DOUBLE".to_string())];
    let info = DuckStorage::table_info("high_age", &columns, 3);
    assert_eq!(info.num_columns, 2);
    assert!(info.row_count > 0);
}

#[test]
fn test_drop_table() {
    assert_eq!(DuckStorage::drop_table("to_drop"), "DROP TABLE IF EXISTS \"to_drop\"");
}

#[test]
fn storage_test_export_csv() {
    assert_eq!(
        DuckStorage::export_to_csv("export_test", "/tmp/out.csv"),
        "COPY \"export_test\" TO '/tmp/out.csv' (FORMAT CSV, HEADER TRUE)"
    );
    assert_eq!(
        DuckStorage::export_to_parquet("export_test", "/tmp/o'ut.parquet"),
        "COPY \"export_test\" TO '/tmp/o''ut.parquet' (FORMAT PARQUET)"
    );
}

#[test]
fn test_persistent_storage() {
    let storage = DuckStorage::open("test.duckdb");
    assert_eq!(storage.db_path(), "test.duckdb");
    assert_eq!(DuckStorage::open_in_memory().db_path(), ":memory:");
    assert_eq!(
        DuckStorage::configure_connection(),
        "SET enable_progress_bar = false; SET preserve_insertion_order = true;"
    );
    assert_eq!(
        DuckStorage::table_row_count("persistent_data"),
        "SELECT COUNT(*) FROM \"persistent_data\""
    );
    assert_eq!(
        DuckStorage::get_table_preview_ipc("persistent_data", 10),
        "SELECT * FROM \"persistent_data\" LIMIT 10 OFFSET 0"
    );
    assert_eq!(
        DuckStorage::table_columns("persistent_data"),
        "SELECT column_name, data_type FROM information_schema.columns WHERE table_name = 'persistent_data' AND table_schema = 'main' ORDER BY ordinal_position"
    );
}

#[test]
fn sanitize_table_name_replaces_what_is_not_allowed() {
    assert_eq!(sanitize_table_name("people"), "people");
    assert_eq!(sanitize_table_name("my-data 2024.csv"), "my_data_2024_csv");
    assert_eq!(sanitize_table_name("a\"b'c;d"), "a_b_c_d");
    assert_eq!(sanitize_table_name("_ok_1"), "_ok_1");
    assert_eq!(sanitize_table_name(""), "");
    assert_eq!(sanitize_table_name("\u{00FC}ber \u{0663}"), "\u{00FC}ber_\u{0663}");
    assert_eq!(sanitize_table_name("a\u{2014}b"), "a_b");
}

#[test]
fn sanitize_table_name_is_idempotent() {
    for name in ["people", "my-data", "a b.c", "x'y\"z", "\u{00FC}-\u{00FC}"] {
        let once = sanitize_table_name(name);
        assert_eq!(sanitize_table_name(&once), once);
        assert_eq!(once.chars().count(), name.chars().count());
    }
}

#[test]
fn file_format_goes_by_the_extension() {
    assert_eq!(file_format("a.csv"), (Some(FileFormat::Csv), "csv".to_string()));
    assert_eq!(file_format("dir/a.TSV"), (Some(FileFormat::Tsv), "tsv".to_string()));
    assert_eq!(file_format("a.parquet").0, Some(FileFormat::Parquet));
    assert_eq!(file_format("a.b.Pq").0, Some(FileFormat::Parquet));
    assert_eq!(file_format("a.ipc").0, Some(FileFormat::Ipc));
    assert_eq!(file_format("a.ARROW").0, Some(FileFormat::Ipc));
    assert_eq!(file_format("a.feather").0, Some(FileFormat::Ipc));
    assert_eq!(file_format("test.XLSX"), (None, "xlsx".to_string()));
    assert_eq!(file_format("noextension"), (None, String::new()));
    assert_eq!(file_format(".csv"), (None, String::new()));
    assert_eq!(file_format("csv"), (None, String::new()));
}

#[test]
fn import_refuses_a_missing_file_first() {
    match DuckStorage::import_file("nowhere.xlsx", "t", false) {
        Err(RustoraError::FileNotFound(path)) => assert_eq!(path, "nowhere.xlsx"),
        other => panic!("unexpected outcome: {:?}", other),
    }
    match DuckStorage::import_file("there.xlsx", "t", true) {
        Err(RustoraError::UnsupportedFormat(ext)) => assert_eq!(ext, "xlsx"),
        other => panic!("unexpected outcome: {:?}", other),
    }
}

#[test]
fn import_picks_the_reader_and_sanitizes_the_name() {
    let csv = DuckStorage::import_file("/d/it's.csv", "my table", true).unwrap();
    assert_eq!(csv.table, "my_table");
    assert_eq!(
        csv.statement,
        "CREATE OR REPLACE TABLE \"my_table\" AS SELECT * FROM read_csv('/d/it''s.csv', auto_detect=true)"
    );
    let tsv = DuckStorage::import_file("a.tsv", "t", true).unwrap();
    assert_eq!(
        tsv.statement,
        "CREATE OR REPLACE TABLE \"t\" AS SELECT * FROM read_csv('a.tsv', auto_detect=true)"
    );
    let parquet = DuckStorage::import_file("a.pq", "t", true).unwrap();
    assert_eq!(
        parquet.statement,
        "CREATE OR REPLACE TABLE \"t\" AS SELECT * FROM read_parquet('a.pq')"
    );
    let ipc = DuckStorage::import_file("a.arrow", "t", true).unwrap();
    assert_eq!(ipc.statement, "CREATE OR REPLACE TABLE \"t\" AS SELECT * FROM 'a.arrow'");
}

fn info_with(types: &[&str], rows: usize) -> TableInfo {
    TableInfo {
        name: "t".to_string(),
        num_columns: types.len(),
        column_names: types.iter().enumerate().map(|(i, _)| format!("c{}", i)).collect(),
        column_types: types.iter().map(|t| t.to_string()).collect(),
        row_count: rows,
    }
}

#[test]
fn estimated_size_is_rows_times_width() {
    let widths = [
        ("BIGINT", 8u64),
        ("UBIGINT", 8),
        ("DOUBLE", 8),
        ("TIMESTAMP", 8),
        ("timestamp with time zone", 8),
        ("INTEGER", 4),
        ("UINTEGER", 4),
        ("FLOAT", 4),
        ("SMALLINT", 2),
        ("BOOLEAN", 1),
        ("TINYINT", 1),
        ("VARCHAR", 64),
        ("TEXT", 64),
        ("BLOB", 64),
        ("DATE", 32),
        ("HUGEINT", 32),
        ("", 32),
    ];
    for (t, w) in widths {
        assert_eq!(DuckStorage::table_estimated_size_bytes(&info_with(&[t], 1)), Some(w), "{}", t);
        assert_eq!(
            DuckStorage::table_estimated_size_bytes(&info_with(&[t], 1000)),
            Some(1000 * w),
            "{}",
            t
        );
    }
    let csv = info_with(&["VARCHAR", "BIGINT", "VARCHAR", "DOUBLE"], 5);
    assert_eq!(DuckStorage::table_estimated_size_bytes(&csv), Some(5 * (64 + 8 + 64 + 8)));
    assert_eq!(DuckStorage::table_estimated_size_bytes(&info_with(&["BIGINT"], 0)), Some(0));
    assert_eq!(DuckStorage::table_estimated_size_bytes(&info_with(&[], 7)), Some(0));
}

#[test]
fn estimated_size_that_does_not_fit_is_not_given() {
    if usize::BITS == 64 {
        let info = info_with(&["BIGINT"], usize::MAX);
        assert_eq!(DuckStorage::table_estimated_size_bytes(&info), None);
        let fits = info_with(&["BOOLEAN"], usize::MAX);
        assert_eq!(DuckStorage::table_estimated_size_bytes(&fits), Some(u64::MAX));
    }
}

#[test]
fn stems_and_extensions_of_paths() {
    assert_eq!(file_stem("/data/sales.csv"), "sales");
    assert_eq!(file_stem("sales.2024.csv"), "sales.2024");
    assert_eq!(file_stem("dir/.hidden"), ".hidden");
    assert_eq!(file_stem("/"), "dataset");
    assert_eq!(file_stem(""), "dataset");
    assert_eq!(file_stem("a/.."), "dataset");
    assert_eq!(extension("/data/sales.csv"), "csv");
    assert_eq!(extension("sales.2024.CSV"), "CSV");
    assert_eq!(extension("dir.d/sales"), "");
    assert_eq!(extension(""), "");
}

#[test]
fn format_for_an_extension() {
    assert_eq!(format_for("csv"), Some(FileFormat::Csv));
    assert_eq!(format_for("CSV"), Some(FileFormat::Csv));
    assert_eq!(format_for("Tsv"), Some(FileFormat::Tsv));
    assert_eq!(format_for("parquet"), Some(FileFormat::Parquet));
    assert_eq!(format_for("PQ"), Some(FileFormat::Parquet));
    assert_eq!(format_for("ipc"), Some(FileFormat::Ipc));
    assert_eq!(format_for("Arrow"), Some(FileFormat::Ipc));
    assert_eq!(format_for("FEATHER"), Some(FileFormat::Ipc));
    assert_eq!(format_for(""), None);
    assert_eq!(format_for("xlsx"), None);
    assert_eq!(format_for("csv "), None);
    assert_eq!(format_for(".csv"), None);
    assert_eq!(format_for("json"), None);
}

#[test]
fn names_for_given_stems_and_numbers() {
    assert_eq!(generated_for("sales", 3), "sales_3");
    assert_eq!(generated_for("", 0), "_0");
    assert_eq!(generated_for("my data", 10), "my data_10");
    assert_eq!(generated_for("dataset", u64::MAX), "dataset_18446744073709551615");
    assert_eq!(sql_result_for(1), "sql_result_1");
    assert_eq!(sql_result_for(120), "sql_result_120");
    assert_eq!(numbered("t", "_filtered_", 2), "t_filtered_2");
    assert_eq!(numbered("t", "_grouped_", 30), "t_grouped_30");
    assert_eq!(numbered("t", "_calc_", 0), "t_calc_0");
}
