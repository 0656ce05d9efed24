use core_engine::error::{FilterFault, RustoraError};
use core_engine::filter::{FilterCondition, FilterLogic, FilterOperator, FilterSpec};
use core_engine::plans::{Derived, InfoSource, Removal, Source};
use core_engine::queries::{
    calculated_query, chart_aggregate_expr, chart_query, filter_query, group_query, sort_query,
    summarize_query,
};
use core_engine::session::{DatasetInfo, Resolution, RustoraSession};
use core_engine::storage::DuckStorage;
use polars::prelude::{
    col, lit, Column, DataFrame, IntoLazy, IpcStreamReader, LazyFrame, SchemaNamesAndDtypes,
    SerReader,
};
use std::io::Write;
use tempfile::NamedTempFile;

fn create_test_csv() -> NamedTempFile {
    let mut file = NamedTempFile::with_suffix(".csv").unwrap();
    file.write_all(b"name,age,city,score\n").unwrap();
    file.write_all(b"Alice,30,New York,95.5\n").unwrap();
    file.write_all(b"Bob,25,San Francisco,88.0\n").unwrap();
    file.write_all(b"Charlie,35,Chicago,72.3\n").unwrap();
    file.write_all(b"Diana,28,Boston,91.1\n").unwrap();
    file.write_all(b"Eve,32,Seattle,85.7\n").unwrap();
    file
}

fn names(list: &[&str]) -> Vec<String> {
    list.iter().map(|s| s.to_string()).collect()
}

fn statement(source: Source) -> String {
    match source {
        Source::Statement(s) => s,
        Source::Graph(_) => panic!("a statement was expected"),
    }
}

fn graph(source: Source) -> LazyFrame {
    match source {
        Source::Graph(g) => g,
        Source::Statement(s) => panic!("a graph was expected, not {}", s),
    }
}

fn people() -> LazyFrame {
    DataFrame::new(vec![
        Column::new("name".into(), vec!["Alice", "Bob", "Charlie", "Diana", "Eve"]),
        Column::new("age".into(), vec![30i64, 25, 35, 28, 32]),
    ])
    .unwrap()
    .lazy()
}

fn ages(frame: LazyFrame) -> Vec<i64> {
    let df = frame.collect().unwrap();
    df.column("age").unwrap().i64().unwrap().into_no_null_iter().collect()
}

fn to_ipc(frame: LazyFrame) -> Vec<u8> {
    let df = frame.collect().unwrap();
    RustoraSession::dataframe_to_ipc_bytes(&df).unwrap()
}

#[test]
fn test_import_and_preview() {
    let csv = create_test_csv();
    let path = csv.path().to_str().unwrap();

    let mut session = RustoraSession::new(true);
    let plan = session.import_file(path, Some("people"), csv.path().exists()).unwrap();
    let name = plan.dataset.clone();

    assert_eq!(name, "people");
    assert_eq!(plan.table, "people");
    assert_eq!(
        plan.statement,
        format!(
            "CREATE OR REPLACE TABLE \"people\" AS SELECT * FROM read_csv('{}', auto_detect=true)",
            path
        )
    );

    let tables = names(&["people"]);
    let query = statement(session.get_preview_ipc(&tables, &name, 10).unwrap());
    assert!(!query.is_empty());
    assert_eq!(query, "SELECT * FROM \"people\" LIMIT 10 OFFSET 0");
}

#[test]
fn test_scan_file_transient() {
    let csv = create_test_csv();
    let path = csv.path().to_str().unwrap();

    let mut session = RustoraSession::new(true);
    let name = session.scan_file(path, csv.path().exists()).unwrap();
    let stem = csv.path().file_stem().unwrap().to_str().unwrap();
    assert_eq!(name, format!("{}_1", stem));

    let preview = graph(session.get_preview_ipc(&Vec::new(), &name, 10).unwrap());
    let df = preview.clone().collect().unwrap();
    assert_eq!(df.height(), 5);
    assert_eq!(df.width(), 4);
    let ipc = to_ipc(preview);
    assert!(!ipc.is_empty());
}

#[test]
fn test_dataset_info_persistent() {
    let csv = create_test_csv();
    let path = csv.path().to_str().unwrap();

    let mut session = RustoraSession::new(true);
    let name = session.import_file(path, Some("info_test"), true).unwrap().dataset;
    let tables = names(&["info_test"]);

    match session.dataset_info(&tables, &name).unwrap() {
        InfoSource::Table { row_count, columns } => {
            assert_eq!(row_count, "SELECT COUNT(*) FROM \"info_test\"");
            assert_eq!(columns, DuckStorage::table_columns("info_test"));
        }
        InfoSource::Graph(_) => panic!("the store holds this dataset"),
    }
    let columns = vec![
        ("name".to_string(), "VARCHAR".to_string()),
        ("age".to_string(), "BIGINT".to_string()),
        ("city".to_string(), "VARCHAR".to_string()),
        ("score".to_string(), "DOUBLE".to_string()),
    ];
    let info = DatasetInfo::of_table(DuckStorage::table_info(&name, &columns, 5));
    assert_eq!(info.num_columns, 4);
    assert!(info.persistent);
    assert!(info.column_names.contains(&"name".to_string()));
    assert_eq!(info.name, "info_test");
    assert_eq!(info.path, "");
    assert_eq!(info.estimated_rows, Some(5));
    assert_eq!(info.column_dtypes, vec!["VARCHAR", "BIGINT", "VARCHAR", "DOUBLE"]);
    assert_eq!(info.estimated_size_bytes, Some(5 * 144));
}

#[test]
fn test_chunked_ipc() {
    let mut session = RustoraSession::new(true);
    let name = session.import_file("data.csv", Some("chunk_test"), true).unwrap().dataset;
    let tables = names(&["chunk_test"]);

    let chunk1 = statement(session.get_chunk_ipc(&tables, &name, 0, 2).unwrap());
    assert!(!chunk1.is_empty());
    assert_eq!(chunk1, "SELECT * FROM \"chunk_test\" LIMIT 2 OFFSET 0");

    let chunk2 = statement(session.get_chunk_ipc(&tables, &name, 2, 2).unwrap());
    assert!(!chunk2.is_empty());
    assert_eq!(chunk2, "SELECT * FROM \"chunk_test\" LIMIT 2 OFFSET 2");
}

#[test]
fn test_row_count() {
    let mut session = RustoraSession::new(true);
    let name = session.import_file("data.csv", Some("count_test"), true).unwrap().dataset;
    let tables = names(&["count_test"]);

    let count = statement(session.get_row_count(&tables, &name).unwrap());
    assert_eq!(count, "SELECT COUNT(*) FROM \"count_test\"");

    session.register_lazy_frame("lazy_people", people());
    let counted = graph(session.get_row_count(&tables, "lazy_people").unwrap());
    assert_eq!(counted.collect().unwrap().height(), 5);
}

#[test]
fn test_sql_query_duckdb() {
    let mut session = RustoraSession::new(true);
    session.import_file("data.csv", Some("sql_test"), true).unwrap();

    let result =
        session.execute_sql("SELECT name, score FROM sql_test WHERE age > 28").unwrap();
    assert_eq!(result.dataset, "sql_result_1");
    assert_eq!(result.table, "sql_result_1");
    assert_eq!(
        result.statement,
        "CREATE OR REPLACE TABLE \"sql_result_1\" AS SELECT name, score FROM sql_test WHERE age > 28"
    );

    let tables = names(&["sql_result_1", "sql_test"]);
    let preview = statement(session.get_preview_ipc(&tables, &result.dataset, 10).unwrap());
    assert!(!preview.is_empty());
    assert_eq!(preview, "SELECT * FROM \"sql_result_1\" LIMIT 10 OFFSET 0");

    let count = statement(session.get_row_count(&tables, &result.dataset).unwrap());
    assert_eq!(count, "SELECT COUNT(*) FROM \"sql_result_1\"");

    assert_eq!(
        session.execute_sql_to_ipc("SELECT 1").unwrap(),
        "SELECT 1"
    );
}

#[test]
fn test_sort_dataset_duckdb() {
    let mut session = RustoraSession::new(true);
    session.import_file("data.csv", Some("sort_test"), true).unwrap();
    let tables = names(&["sort_test"]);

    let sorted = match session
        .sort_dataset(&tables, "sort_test", &names(&["age"]), &vec![false])
        .unwrap()
    {
        Derived::Stored(s) => s,
        Derived::Registered(n) => panic!("registered {}", n),
    };
    assert_eq!(sorted.dataset, "sort_test_sorted");
    assert_eq!(sorted.table, "sort_test_sorted");
    assert_eq!(
        sorted.statement,
        "CREATE OR REPLACE TABLE \"sort_test_sorted\" AS SELECT * FROM \"sort_test\" ORDER BY \"age\" ASC"
    );

    let tables = names(&["sort_test", "sort_test_sorted"]);
    let preview = statement(session.get_preview_ipc(&tables, &sorted.dataset, 10).unwrap());
    assert!(!preview.is_empty());
}

#[test]
fn session_test_export_csv() {
    let mut session = RustoraSession::new(true);
    let name = session.import_file("data.csv", Some("export_test"), true).unwrap().dataset;
    let tables = names(&["export_test"]);

    let out = statement(session.export_to_csv(&tables, &name, "/tmp/out.csv").unwrap());
    assert_eq!(out, "COPY \"export_test\" TO '/tmp/out.csv' (FORMAT CSV, HEADER TRUE)");
    let out = statement(session.export_to_parquet(&tables, &name, "/tmp/out.pq").unwrap());
    assert_eq!(out, "COPY \"export_test\" TO '/tmp/out.pq' (FORMAT PARQUET)");

    session.register_lazy_frame("lazy_people", people());
    let g = graph(session.export_to_csv(&tables, "lazy_people", "/tmp/out.csv").unwrap());
    assert_eq!(ages(g), vec![30, 25, 35, 28, 32]);
    let g = graph(session.export_to_parquet(&tables, "lazy_people", "/tmp/o.pq").unwrap());
    assert_eq!(ages(g), vec![30, 25, 35, 28, 32]);
    assert!(matches!(
        session.export_to_csv(&tables, "nobody", "/tmp/out.csv"),
        Err(RustoraError::TableNotFound(_))
    ));
}

#[test]
fn test_remove_dataset() {
    let mut session = RustoraSession::new(true);
    session.import_file("data.csv", Some("remove_me"), true).unwrap();
    let tables = names(&["remove_me"]);

    assert!(session.list_datasets(&tables).contains(&"remove_me".to_string()));

    let removal = session.remove_dataset(&tables, "remove_me");
    let removed = removal.removed();
    assert!(removed);
    match removal {
        Removal::Stored(s) => assert_eq!(s, "DROP TABLE IF EXISTS \"remove_me\""),
        _ => panic!("the store holds this dataset"),
    }
    let tables = names(&[]);
    assert!(!session.list_datasets(&tables).contains(&"remove_me".to_string()));
}

#[test]
fn test_list_datasets_combined() {
    let csv = create_test_csv();
    let path = csv.path().to_str().unwrap();

    let mut session = RustoraSession::new(true);
    session.import_file(path, Some("persistent_one"), true).unwrap();
    session.scan_file(path, true).unwrap();

    let datasets = session.list_datasets(&names(&["persistent_one"]));
    assert!(datasets.contains(&"persistent_one".to_string()));
    assert!(datasets.len() >= 2);
    assert_eq!(datasets.len(), 2);
}

#[test]
fn test_persistent_project() {
    let db_path_str = "/tmp/test_project.duckdb";
    {
        let mut session = RustoraSession::new(true);
        session.new_project(db_path_str);
        assert_eq!(session.project_path(), Some(db_path_str));
        let plan = session.import_file("data.csv", Some("my_data"), true).unwrap();
        assert_eq!(plan.dataset, "my_data");
        let count = statement(session.get_row_count(&names(&["my_data"]), "my_data").unwrap());
        assert_eq!(count, "SELECT COUNT(*) FROM \"my_data\"");
    }
    {
        let mut session = RustoraSession::new(true);
        let tables = session.open_project(db_path_str, names(&["my_data"]));
        assert!(tables.contains(&"my_data".to_string()));
        assert_eq!(session.project_path(), Some(db_path_str));

        let preview = statement(session.get_preview_ipc(&tables, "my_data", 10).unwrap());
        assert!(!preview.is_empty());
        assert_eq!(preview, "SELECT * FROM \"my_data\" LIMIT 10 OFFSET 0");
    }
}

#[test]
fn test_filter_dataset_sql() {
    let mut session = RustoraSession::new(true);
    session.import_file("data.csv", Some("filter_test"), true).unwrap();
    let tables = names(&["filter_test"]);

    let filtered = session.filter_dataset_sql(&tables, "filter_test", "age > 28").unwrap();
    assert_eq!(filtered.dataset, "filter_test_filtered_1");
    assert_eq!(
        filtered.statement,
        "CREATE OR REPLACE TABLE \"filter_test_filtered_1\" AS SELECT * FROM \"filter_test\" WHERE age > 28"
    );

    let tables = names(&["filter_test", "filter_test_filtered_1"]);
    let count = statement(session.get_row_count(&tables, &filtered.dataset).unwrap());
    assert_eq!(count, "SELECT COUNT(*) FROM \"filter_test_filtered_1\"");
    let preview = statement(session.get_preview_ipc(&tables, &filtered.dataset, 10).unwrap());
    assert!(!preview.is_empty());
}

#[test]
fn test_group_by() {
    let mut session = RustoraSession::new(true);
    session.import_file("data.csv", Some("group_test"), true).unwrap();
    let tables = names(&["group_test"]);

    let grouped = session
        .group_by(&tables, "group_test", &names(&["city"]), &names(&["COUNT(*)", "AVG(score)"]))
        .unwrap();
    assert_eq!(grouped.dataset, "group_test_grouped_1");
    assert_eq!(
        grouped.statement,
        "CREATE OR REPLACE TABLE \"group_test_grouped_1\" AS SELECT \"city\", COUNT(*), AVG(score) FROM \"group_test\" GROUP BY \"city\""
    );

    let two = session
        .group_by(&tables, "group_test", &names(&["city", "name"]), &names(&["COUNT(*)"]))
        .unwrap();
    assert_eq!(
        two.statement,
        "CREATE OR REPLACE TABLE \"group_test_grouped_2\" AS SELECT \"city\", \"name\", COUNT(*) FROM \"group_test\" GROUP BY \"city\", \"name\""
    );
    assert!(matches!(
        session.group_by(&tables, "nobody", &names(&["city"]), &names(&["COUNT(*)"])),
        Err(RustoraError::TableNotFound(_))
    ));
}

#[test]
fn test_add_calculated_column() {
    let mut session = RustoraSession::new(true);
    session.import_file("data.csv", Some("calc_test"), true).unwrap();
    let tables = names(&["calc_test"]);

    let result = session
        .add_calculated_column(&tables, "calc_test", "score * 2", "double_score")
        .unwrap();
    assert_eq!(result.dataset, "calc_test_calc_1");
    assert_eq!(
        result.statement,
        "CREATE OR REPLACE TABLE \"calc_test_calc_1\" AS SELECT *, (score * 2) AS \"double_score\" FROM \"calc_test\""
    );
    assert!(matches!(
        session.add_calculated_column(&names(&[]), "calc_test", "1", "one"),
        Err(RustoraError::TableNotFound(_))
    ));
}

#[test]
fn test_summary_stats_ipc() {
    let mut session = RustoraSession::new(true);
    session.import_file("data.csv", Some("stats_test"), true).unwrap();
    let tables = names(&["stats_test"]);

    let query = session.summary_stats_ipc(&tables, "stats_test").unwrap();
    assert!(!query.is_empty());
    assert_eq!(query, "SUMMARIZE SELECT * FROM \"stats_test\"");
    match session.summary_stats_ipc(&tables, "other") {
        Err(RustoraError::Session(m)) => assert_eq!(
            m,
            "Summary statistics require an active project. Please create or open a project first."
        ),
        other => panic!("unexpected outcome: {:?}", other),
    }
}

#[test]
fn test_unsupported_format() {
    let mut session = RustoraSession::new(true);
    let result = session.scan_file("test.xlsx", std::path::Path::new("test.xlsx").exists());
    assert!(result.is_err());
    match session.scan_file("test.xlsx", true) {
        Err(RustoraError::UnsupportedFormat(ext)) => assert_eq!(ext, "xlsx"),
        other => panic!("unexpected outcome: {:?}", other),
    }
    assert!(session.list_datasets(&Vec::new()).is_empty());
}

#[test]
fn test_file_not_found() {
    let mut session = RustoraSession::new(true);
    let result =
        session.scan_file("nonexistent.csv", std::path::Path::new("nonexistent.csv").exists());
    assert!(result.is_err());
    match result {
        Err(RustoraError::FileNotFound(path)) => assert_eq!(path, "nonexistent.csv"),
        other => panic!("unexpected outcome: {:?}", other),
    }
    match session.import_file("nonexistent.csv", Some("t"), false) {
        Err(RustoraError::FileNotFound(path)) => assert_eq!(path, "nonexistent.csv"),
        other => panic!("unexpected outcome: {:?}", other),
    }
}

#[test]
fn operations_on_the_store_need_a_store() {
    let mut session = RustoraSession::new(false);
    assert_eq!(session.project_path(), None);
    assert!(matches!(
        session.import_file("a.csv", Some("a"), true),
        Err(RustoraError::NoProjectOpen)
    ));
    assert!(matches!(session.execute_sql("SELECT 1"), Err(RustoraError::NoProjectOpen)));
    assert!(matches!(session.execute_sql_to_ipc("SELECT 1"), Err(RustoraError::NoProjectOpen)));
    assert!(matches!(session.list_tables(), Err(RustoraError::NoProjectOpen)));
    assert!(matches!(
        session.aggregate_for_chart(&names(&["t"]), "t", "g", None, "count", 5),
        Err(RustoraError::NoProjectOpen)
    ));
    let with_store = RustoraSession::new(true);
    assert_eq!(with_store.project_path(), Some(":memory:"));
    assert_eq!(with_store.list_tables().unwrap(), DuckStorage::list_tables());
}

#[test]
fn without_a_store_the_table_list_is_not_looked_at() {
    let mut session = RustoraSession::new(false);
    let tables = names(&["t"]);
    assert_eq!(session.resolve(&tables, "t"), Resolution::NotFound);
    assert!(session.list_datasets(&tables).is_empty());
    session.register_lazy_frame("t", people());
    assert_eq!(session.resolve(&tables, "t"), Resolution::Transient);
    assert_eq!(session.list_datasets(&tables), names(&["t"]));
}

#[test]
fn a_name_known_to_both_leads_to_the_store() {
    let mut session = RustoraSession::new(true);
    session.register_lazy_frame("both", people());
    session.register_lazy_frame("lazy", people());
    let tables = names(&["both", "stored"]);
    assert_eq!(session.resolve(&tables, "both"), Resolution::Persistent);
    assert_eq!(session.resolve(&tables, "stored"), Resolution::Persistent);
    assert_eq!(session.resolve(&tables, "lazy"), Resolution::Transient);
    assert_eq!(session.resolve(&tables, "neither"), Resolution::NotFound);
    assert_eq!(session.list_datasets(&tables), names(&["both", "lazy", "stored"]));
    let q = statement(session.get_preview_ipc(&tables, "both", 3).unwrap());
    assert_eq!(q, "SELECT * FROM \"both\" LIMIT 3 OFFSET 0");
}

#[test]
fn generated_names_count_up() {
    let mut session = RustoraSession::new(true);
    let first = session.import_file("/data/sales.csv", None, true).unwrap();
    assert_eq!(first.dataset, "sales_1");
    let second = session.import_file("/data/sales.csv", None, true).unwrap();
    assert_eq!(second.dataset, "sales_2");
    assert_ne!(first.dataset, second.dataset);
    let third = session.execute_sql("SELECT 1").unwrap();
    assert_eq!(third.dataset, "sql_result_3");
    let scanned = session.scan_file("/data/sales.parquet", true).unwrap();
    assert_eq!(scanned, "sales_4");
    let missing = session.import_file("/data/gone.csv", None, false);
    assert!(matches!(missing, Err(RustoraError::FileNotFound(_))));
    let fifth = session.execute_sql("SELECT 1").unwrap();
    assert_eq!(fifth.dataset, "sql_result_6");
    let named = session.import_file("/data/sales.csv", Some("given"), true).unwrap();
    assert_eq!(named.dataset, "given");
    let next = session.execute_sql("SELECT 1").unwrap();
    assert_eq!(next.dataset, "sql_result_7");
}

#[test]
fn a_generated_name_is_stored_under_a_fit_table_name() {
    let mut session = RustoraSession::new(true);
    let plan = session.import_file("/data/my-sales 2024.csv", None, true).unwrap();
    assert_eq!(plan.dataset, "my_sales_2024_1");
    assert_eq!(plan.table, "my_sales_2024_1");
    assert!(plan.statement.starts_with("CREATE OR REPLACE TABLE \"my_sales_2024_1\" AS "));
    let plan = session.import_file("/", None, true);
    assert!(matches!(plan, Err(RustoraError::UnsupportedFormat(_))));
}

#[test]
fn the_same_transformation_twice_gives_two_names() {
    let mut session = RustoraSession::new(true);
    let tables = names(&["t"]);
    let a = session.filter_dataset_sql(&tables, "t", "x > 1").unwrap();
    let b = session.filter_dataset_sql(&tables, "t", "x > 1").unwrap();
    assert_eq!(a.dataset, "t_filtered_1");
    assert_eq!(b.dataset, "t_filtered_2");
    let c = session.group_by(&tables, "t", &names(&["g"]), &names(&["COUNT(*)"])).unwrap();
    let d = session.group_by(&tables, "t", &names(&["g"]), &names(&["COUNT(*)"])).unwrap();
    assert_ne!(c.dataset, d.dataset);
    let e = session.add_calculated_column(&tables, "t", "1", "one").unwrap();
    let f = session.add_calculated_column(&tables, "t", "1", "one").unwrap();
    assert_eq!(e.dataset, "t_calc_5");
    assert_eq!(f.dataset, "t_calc_6");
}

#[test]
fn sorting_twice_gives_the_same_name() {
    let mut session = RustoraSession::new(true);
    let tables = names(&["t"]);
    let first = session.sort_dataset(&tables, "t", &names(&["a"]), &vec![true]).unwrap();
    let second = session.sort_dataset(&tables, "t", &names(&["a"]), &vec![false]).unwrap();
    match (first, second) {
        (Derived::Stored(x), Derived::Stored(y)) => {
            assert_eq!(x.dataset, "t_sorted");
            assert_eq!(y.dataset, "t_sorted");
            assert!(x.statement.ends_with("ORDER BY \"a\" DESC"));
            assert!(y.statement.ends_with("ORDER BY \"a\" ASC"));
        }
        _ => panic!("the store holds this dataset"),
    }
    assert_eq!(session.execute_sql("SELECT 1").unwrap().dataset, "sql_result_1");

    session.register_lazy_frame("p", people());
    session.sort_dataset(&Vec::new(), "p", &names(&["age"]), &vec![true]).unwrap();
    session.sort_dataset(&Vec::new(), "p", &names(&["age"]), &vec![false]).unwrap();
    assert_eq!(session.list_datasets(&Vec::new()), names(&["p", "p_sorted"]));
    let g = graph(session.get_preview_ipc(&Vec::new(), "p_sorted", 10).unwrap());
    assert_eq!(ages(g), vec![25, 28, 30, 32, 35]);
}

#[test]
fn sort_takes_as_many_columns_as_have_a_direction() {
    let mut session = RustoraSession::new(true);
    let tables = names(&["t"]);
    let plan = session
        .sort_dataset(&tables, "t", &names(&["a", "b", "c"]), &vec![true, false])
        .unwrap();
    match plan {
        Derived::Stored(s) => assert_eq!(
            s.statement,
            "CREATE OR REPLACE TABLE \"t_sorted\" AS SELECT * FROM \"t\" ORDER BY \"a\" DESC, \"b\" ASC"
        ),
        _ => panic!("the store holds this dataset"),
    }
    assert!(matches!(
        session.sort_dataset(&tables, "nobody", &names(&["a"]), &vec![true]),
        Err(RustoraError::TableNotFound(_))
    ));
}

#[test]
fn sorted_chunks_rebuild_the_sorted_rows() {
    let mut session = RustoraSession::new(false);
    session.register_lazy_frame("people", people());
    let none = Vec::new();
    let sorted =
        match session.sort_dataset(&none, "people", &names(&["age"]), &vec![false]).unwrap() {
            Derived::Registered(n) => n,
            Derived::Stored(_) => panic!("there is no store"),
        };
    assert_eq!(sorted, "people_sorted");
    let mut all: Vec<i64> = Vec::new();
    for offset in [0u32, 2, 4] {
        let chunk = graph(session.get_chunk_ipc(&none, &sorted, offset, 2).unwrap());
        let rows = ages(chunk);
        assert!(rows.len() <= 2);
        all.extend(rows);
    }
    assert_eq!(all, vec![25, 28, 30, 32, 35]);
    assert_eq!(ages(graph(session.get_preview_ipc(&none, "people", 10).unwrap())), vec![
        30, 25, 35, 28, 32
    ]);

    let tables = names(&["people"]);
    let mut with_store = RustoraSession::new(true);
    let stored = match with_store
        .sort_dataset(&tables, "people", &names(&["age"]), &vec![false])
        .unwrap()
    {
        Derived::Stored(s) => s,
        Derived::Registered(_) => panic!("the store holds this dataset"),
    };
    let tables = names(&["people", "people_sorted"]);
    let queries: Vec<String> = [0u32, 2, 4]
        .iter()
        .map(|o| statement(with_store.get_chunk_ipc(&tables, &stored.dataset, *o, 2).unwrap()))
        .collect();
    assert_eq!(queries, vec![
        "SELECT * FROM \"people_sorted\" LIMIT 2 OFFSET 0",
        "SELECT * FROM \"people_sorted\" LIMIT 2 OFFSET 2",
        "SELECT * FROM \"people_sorted\" LIMIT 2 OFFSET 4",
    ]);
}

#[test]
fn preview_of_a_graph_is_limited() {
    let mut session = RustoraSession::new(false);
    session.register_lazy_frame("people", people());
    let g = graph(session.get_preview_ipc(&Vec::new(), "people", 2).unwrap());
    assert_eq!(ages(g), vec![30, 25]);
    let g = graph(session.get_chunk_ipc(&Vec::new(), "people", 3, 10).unwrap());
    assert_eq!(ages(g), vec![28, 32]);
    assert!(!to_ipc(graph(session.get_preview_ipc(&Vec::new(), "people", 2).unwrap())).is_empty());
    assert!(matches!(
        session.get_preview_ipc(&Vec::new(), "nobody", 2),
        Err(RustoraError::TableNotFound(_))
    ));
    assert!(matches!(
        session.get_chunk_ipc(&Vec::new(), "nobody", 0, 2),
        Err(RustoraError::TableNotFound(_))
    ));
    assert!(matches!(
        session.get_row_count(&Vec::new(), "nobody"),
        Err(RustoraError::TableNotFound(_))
    ));
}

#[test]
fn filter_dataset_registers_a_filtered_graph() {
    let mut session = RustoraSession::new(true);
    session.register_lazy_frame("people", people());
    let name = session.filter_dataset("people", col("age").gt(lit(29))).unwrap();
    assert_eq!(name, "people_filtered");
    let g = graph(session.get_preview_ipc(&Vec::new(), &name, 10).unwrap());
    assert_eq!(ages(g), vec![30, 35, 32]);
    assert_eq!(ages(graph(session.get_preview_ipc(&Vec::new(), "people", 10).unwrap())).len(), 5);
    match session.filter_dataset("nobody", col("age").gt(lit(29))) {
        Err(RustoraError::TableNotFound(n)) => assert_eq!(n, "nobody"),
        other => panic!("unexpected outcome: {:?}", other),
    }
}

#[test]
fn filter_by_text_needs_a_table_of_the_store() {
    let mut session = RustoraSession::new(true);
    session.register_lazy_frame("lazy", people());
    match session.filter_dataset_sql(&names(&["t"]), "lazy", "age > 1") {
        Err(RustoraError::Session(m)) => assert_eq!(
            m,
            "SQL filter requires an active project. Table 'lazy' not found in DuckDB."
        ),
        other => panic!("unexpected outcome: {:?}", other),
    }
    assert_eq!(session.execute_sql("SELECT 1").unwrap().dataset, "sql_result_1");
}

fn one_condition(column: &str, operator: FilterOperator, value: &str) -> FilterSpec {
    FilterSpec {
        conditions: vec![FilterCondition {
            column: column.to_string(),
            operator,
            value: value.to_string(),
        }],
        logic: FilterLogic::And,
    }
}

#[test]
fn structured_filter_keeps_a_hostile_value_inside_its_literal() {
    let mut session = RustoraSession::new(true);
    let tables = names(&["people", "x"]);
    let spec = one_condition("name", FilterOperator::Equals, "'; DROP TABLE x; --");
    let plan = session.filter_dataset_structured(&tables, "people", &spec).unwrap();
    assert_eq!(plan.dataset, "people_filtered_1");
    assert_eq!(
        plan.statement,
        "CREATE OR REPLACE TABLE \"people_filtered_1\" AS SELECT * FROM \"people\" WHERE \"name\" = '''; DROP TABLE x; --'"
    );
}

#[test]
fn structured_filter_escapes_wildcards() {
    let mut session = RustoraSession::new(true);
    let tables = names(&["people"]);
    let spec = one_condition("name", FilterOperator::Contains, "100%_done");
    let plan = session.filter_dataset_structured(&tables, "people", &spec).unwrap();
    assert_eq!(
        plan.statement,
        "CREATE OR REPLACE TABLE \"people_filtered_1\" AS SELECT * FROM \"people\" WHERE \"name\" LIKE '%100\\%\\_done%'"
    );
}

#[test]
fn structured_filter_that_cannot_be_compiled_changes_nothing() {
    let mut session = RustoraSession::new(true);
    let tables = names(&["people"]);
    let empty = FilterSpec { conditions: vec![], logic: FilterLogic::And };
    assert!(matches!(
        session.filter_dataset_structured(&tables, "people", &empty),
        Err(RustoraError::InvalidFilter(FilterFault::NoConditions))
    ));
    let bad = one_condition("na\"me", FilterOperator::IsNull, "");
    match session.filter_dataset_structured(&tables, "people", &bad) {
        Err(RustoraError::InvalidFilter(FilterFault::InvalidColumn(c))) => {
            assert_eq!(c, "na\"me")
        }
        other => panic!("unexpected outcome: {:?}", other),
    }
    let good = one_condition("name", FilterOperator::IsNotNull, "");
    let plan = session.filter_dataset_structured(&tables, "people", &good).unwrap();
    assert_eq!(plan.dataset, "people_filtered_1");
    assert!(matches!(
        session.filter_dataset_structured(&tables, "nobody", &good),
        Err(RustoraError::Session(_))
    ));
}

#[test]
fn chart_queries() {
    let session = RustoraSession::new(true);
    let tables = names(&["sales"]);
    assert_eq!(
        session.aggregate_for_chart(&tables, "sales", "city", None, "count", 10).unwrap(),
        "SELECT \"city\" AS label, COUNT(*) AS value FROM \"sales\" GROUP BY \"city\" ORDER BY value DESC LIMIT 10"
    );
    assert_eq!(
        session
            .aggregate_for_chart(&tables, "sales", "city", Some("amount"), "count", 10)
            .unwrap(),
        "SELECT \"city\" AS label, COUNT(*) AS value FROM \"sales\" GROUP BY \"city\" ORDER BY value DESC LIMIT 10"
    );
    assert_eq!(
        session.aggregate_for_chart(&tables, "sales", "city", Some("amount"), "avg", 5).unwrap(),
        "SELECT \"city\" AS label, AVG(\"amount\") AS value FROM \"sales\" GROUP BY \"city\" ORDER BY value DESC LIMIT 5"
    );
    match session.aggregate_for_chart(&tables, "sales", "city", None, "sum", 5) {
        Err(RustoraError::Session(m)) => {
            assert_eq!(m, "Aggregation 'sum' requires a value column")
        }
        other => panic!("unexpected outcome: {:?}", other),
    }
    match session.aggregate_for_chart(&tables, "other", "city", None, "sum", 5) {
        Err(RustoraError::TableNotFound(n)) => assert_eq!(n, "other"),
        other => panic!("unexpected outcome: {:?}", other),
    }
}

#[test]
fn removing_what_is_nowhere_removes_nothing() {
    let mut session = RustoraSession::new(true);
    session.register_lazy_frame("lazy", people());
    let tables = names(&["stored"]);
    let removal = session.remove_dataset(&tables, "nobody");
    assert!(matches!(removal, Removal::Absent));
    assert!(!removal.removed());
    assert_eq!(session.list_datasets(&tables), names(&["lazy", "stored"]));
}

#[test]
fn removing_a_graph_takes_it_off_the_list() {
    let mut session = RustoraSession::new(true);
    session.register_lazy_frame("lazy", people());
    session.register_lazy_frame("other", people());
    let tables = names(&["stored"]);
    let removal = session.remove_dataset(&tables, "lazy");
    assert!(matches!(removal, Removal::Transient));
    assert!(removal.removed());
    assert_eq!(session.list_datasets(&tables), names(&["other", "stored"]));
    assert_eq!(session.resolve(&tables, "lazy"), Resolution::NotFound);
    assert!(!session.remove_dataset(&tables, "lazy").removed());
}

#[test]
fn removing_a_name_known_to_both_leaves_the_graph() {
    let mut session = RustoraSession::new(true);
    session.register_lazy_frame("both", people());
    let removal = session.remove_dataset(&names(&["both"]), "both");
    assert!(matches!(removal, Removal::Stored(_)));
    assert_eq!(session.list_datasets(&names(&[])), names(&["both"]));
}

#[test]
fn opening_a_project_forgets_the_graphs() {
    let mut session = RustoraSession::new(true);
    session.register_lazy_frame("lazy", people());
    let scanned = session.scan_file("a.csv", true).unwrap();
    assert_eq!(session.resolve(&Vec::new(), "lazy"), Resolution::Transient);
    let tables = session.open_project("/tmp/other.duckdb", names(&["t"]));
    assert_eq!(tables, names(&["t"]));
    assert_eq!(session.resolve(&tables, "lazy"), Resolution::NotFound);
    assert_eq!(session.resolve(&tables, &scanned), Resolution::NotFound);
    match session.get_preview_ipc(&tables, "lazy", 10) {
        Err(RustoraError::TableNotFound(n)) => assert_eq!(n, "lazy"),
        _ => panic!("the graph should be gone"),
    }
    assert_eq!(session.list_datasets(&tables), names(&["t"]));
    assert_eq!(session.execute_sql("SELECT 1").unwrap().dataset, "sql_result_2");

    session.register_lazy_frame("again", people());
    session.new_project("/tmp/new.duckdb");
    assert_eq!(session.project_path(), Some("/tmp/new.duckdb"));
    assert_eq!(session.resolve(&Vec::new(), "again"), Resolution::NotFound);
}

#[test]
fn registering_under_a_name_in_use_replaces_the_graph() {
    let mut session = RustoraSession::new(false);
    session.register_lazy_frame("p", people());
    let other = DataFrame::new(vec![Column::new("age".into(), vec![1i64])]).unwrap().lazy();
    session.register_lazy_frame("p", other);
    assert_eq!(session.list_datasets(&Vec::new()), names(&["p"]));
    assert_eq!(ages(graph(session.get_preview_ipc(&Vec::new(), "p", 10).unwrap())), vec![1]);
}

#[test]
fn dataset_info_of_a_graph() {
    let mut session = RustoraSession::new(true);
    session.register_lazy_frame("p", people());
    let frame = match session.dataset_info(&Vec::new(), "p").unwrap() {
        InfoSource::Graph(g) => g,
        InfoSource::Table { .. } => panic!("the session holds this dataset"),
    };
    let mut frame = frame;
    let schema = frame.collect_schema().unwrap();
    let column_names: Vec<String> = schema.iter_names().map(|n| n.to_string()).collect();
    let dtypes: Vec<String> =
        schema.iter_names_and_dtypes().map(|(_, d)| d.to_string()).collect();
    let info = DatasetInfo::of_graph("p", column_names, dtypes);
    assert_eq!(info.name, "p");
    assert_eq!(info.num_columns, 2);
    assert_eq!(info.estimated_rows, None);
    assert_eq!(info.column_names, vec!["name", "age"]);
    assert_eq!(info.column_dtypes, vec!["str", "i64"]);
    assert!(!info.persistent);
    assert_eq!(info.estimated_size_bytes, None);
    assert!(matches!(
        session.dataset_info(&Vec::new(), "nobody"),
        Err(RustoraError::TableNotFound(_))
    ));
}

#[test]
fn scan_reads_tab_separated_files_by_tabs() {
    let mut file = NamedTempFile::with_suffix(".tsv").unwrap();
    file.write_all(b"a\tb,c\n1\t2,3\n4\t5,6\n").unwrap();
    let path = file.path().to_str().unwrap();
    let mut session = RustoraSession::new(false);
    let name = session.scan_file(path, true).unwrap();
    let df = graph(session.get_preview_ipc(&Vec::new(), &name, 10).unwrap()).collect().unwrap();
    assert_eq!(df.width(), 2);
    assert_eq!(df.height(), 2);
    let cols: Vec<String> = df.get_column_names().iter().map(|n| n.to_string()).collect();
    assert_eq!(cols, vec!["a", "b,c"]);
}

#[test]
fn a_frame_written_to_the_wire_can_be_read_back() {
    let df = people().collect().unwrap();
    let bytes = RustoraSession::dataframe_to_ipc_bytes(&df).unwrap();
    assert!(!bytes.is_empty());
    let back = IpcStreamReader::new(std::io::Cursor::new(bytes)).finish().unwrap();
    assert!(back.equals(&df));
    assert_eq!(back.height(), 5);
    assert_eq!(back.width(), 2);

    let empty = people().limit(0).collect().unwrap();
    let bytes = RustoraSession::dataframe_to_ipc_bytes(&empty).unwrap();
    let back = IpcStreamReader::new(std::io::Cursor::new(bytes)).finish().unwrap();
    assert_eq!(back.height(), 0);
    assert_eq!(back.width(), 2);
}

#[test]
fn a_failure_of_the_dataframe_engine_keeps_its_message() {
    let failure = people().select([col("missing")]).collect().unwrap_err();
    let text = failure.to_string();
    match RustoraSession::engine_failure(&failure) {
        RustoraError::Polars(m) => assert_eq!(m, text),
        other => panic!("unexpected outcome: {:?}", other),
    }
}

#[test]
fn queries_of_transformations() {
    assert_eq!(
        sort_query("t", &names(&["a", "b"]), &vec![false, true]),
        "SELECT * FROM \"t\" ORDER BY \"a\" ASC, \"b\" DESC"
    );
    assert_eq!(sort_query("t", &names(&[]), &vec![]), "SELECT * FROM \"t\" ORDER BY ");
    assert_eq!(filter_query("t", "x > 1"), "SELECT * FROM \"t\" WHERE x > 1");
    assert_eq!(
        group_query("t", &names(&["g"]), &names(&["SUM(x)"])),
        "SELECT \"g\", SUM(x) FROM \"t\" GROUP BY \"g\""
    );
    assert_eq!(
        calculated_query("t", "a + b", "sum"),
        "SELECT *, (a + b) AS \"sum\" FROM \"t\""
    );
    assert_eq!(summarize_query("t"), "SUMMARIZE SELECT * FROM \"t\"");
    assert_eq!(chart_aggregate_expr("count", None), Some("COUNT(*)".to_string()));
    assert_eq!(chart_aggregate_expr("max", Some("x")), Some("MAX(\"x\")".to_string()));
    assert_eq!(chart_aggregate_expr("Count", None), None);
    assert_eq!(
        chart_query("t", "g", "MIN(\"x\")", 0),
        "SELECT \"g\" AS label, MIN(\"x\") AS value FROM \"t\" GROUP BY \"g\" ORDER BY value DESC LIMIT 0"
    );
}

#[test]
fn what_the_writer_gave_is_handed_on() {
    assert_eq!(RustoraSession::wire_result(Ok(vec![1u8, 2, 3])).unwrap(), vec![1u8, 2, 3]);
    assert!(RustoraSession::wire_result(Ok(Vec::new())).unwrap().is_empty());
    let failure = people().select([col("missing")]).collect().unwrap_err();
    let text = failure.to_string();
    match RustoraSession::wire_result(Err(failure)) {
        Err(RustoraError::Polars(m)) => assert_eq!(m, text),
        other => panic!("unexpected outcome: {:?}", other),
    }
    match RustoraSession::failure_with_message("no such column".to_string()) {
        RustoraError::Polars(m) => assert_eq!(m, "no such column"),
        other => panic!("unexpected outcome: {:?}", other),
    }
}

#[test]
fn an_import_goes_by_the_name_that_the_store_uses() {
    let csv = create_test_csv();
    let path = csv.path().to_str().unwrap();
    let mut session = RustoraSession::new(true);
    let plan = session.import_file(path, Some("my-data"), csv.path().exists()).unwrap();
    assert_eq!(plan.dataset, "my_data");
    assert_eq!(plan.table, "my_data");
    assert_eq!(
        plan.statement,
        format!(
            "CREATE OR REPLACE TABLE \"my_data\" AS SELECT * FROM read_csv('{}', auto_detect=true)",
            path
        )
    );
    let tables = names(&[&plan.table]);
    assert_eq!(session.resolve(&tables, &plan.dataset), Resolution::Persistent);
    assert!(session.list_datasets(&tables).contains(&plan.dataset));
    let count = statement(session.get_row_count(&tables, &plan.dataset).unwrap());
    assert_eq!(count, "SELECT COUNT(*) FROM \"my_data\"");
    let sorted = match session
        .sort_dataset(&tables, &plan.dataset, &names(&["age"]), &vec![false])
        .unwrap()
    {
        Derived::Stored(s) => s,
        Derived::Registered(n) => panic!("registered {}", n),
    };
    assert_eq!(sorted.dataset, "my_data_sorted");
    assert_eq!(sorted.table, sorted.dataset);
}

#[test]
fn two_imports_of_one_file_go_by_two_names() {
    let mut session = RustoraSession::new(true);
    let a = session.import_file("/d/my data.csv", None, true).unwrap();
    let b = session.import_file("/d/my data.csv", None, true).unwrap();
    assert_eq!(a.dataset, "my_data_1");
    assert_eq!(b.dataset, "my_data_2");
}
