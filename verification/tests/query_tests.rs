use askadb_query_engine::query::{
    column_names_of, names_from_outcome, QueryExecutor, QueryResult,
};
use askadb_query_engine::row::ResultRow;
use askadb_query_engine::storage::{ColumnInfo, StorageEngine, StorageError};
use askadb_query_engine::value::JsonValue;

fn executor() -> QueryExecutor {
    QueryExecutor::new(StorageEngine::new(":memory:").expect("init db"))
}

fn read_names(statement: &rusqlite::Statement<'_>) -> Option<Vec<String>> {
    Some(statement.column_names().map(String::from).collect())
}

fn run(executor: &QueryExecutor, sql: &str) -> Result<QueryResult, StorageError> {
    executor.execute(sql, &read_names)
}

fn names(list: &[&str]) -> Vec<String> {
    list.iter().map(|s| s.to_string()).collect()
}

#[test]
fn select_one_as_x() {
    let result = run(&executor(), "SELECT 1 as x").expect("query");
    let mut row = ResultRow::new();
    row.insert("x".to_string(), JsonValue::Integer(1));
    assert_eq!(result.data, vec![row]);
    assert_eq!(result.columns, names(&["x"]));
}

#[test]
fn columns_are_the_keys_of_every_row() {
    let result = run(&executor(), "SELECT region, SUM(sales_amount) AS total FROM sales GROUP BY region")
        .expect("query");
    assert_eq!(result.data.len(), 4);
    assert_eq!(result.columns, names(&["region", "total"]));
    for row in &result.data {
        assert_eq!(row.column_names(), result.columns);
    }
}

#[test]
fn no_rows_means_no_columns() {
    let result = run(&executor(), "SELECT * FROM sales WHERE quantity < 0").expect("query");
    assert_eq!(result.data, Vec::<ResultRow>::new());
    assert_eq!(result.columns, Vec::<String>::new());
}

#[test]
fn from_rows_takes_the_columns_of_the_first_row() {
    let mut first = ResultRow::new();
    first.insert("b".to_string(), JsonValue::Integer(1));
    first.insert("a".to_string(), JsonValue::Integer(2));
    let mut second = ResultRow::new();
    second.insert("b".to_string(), JsonValue::Integer(3));
    second.insert("a".to_string(), JsonValue::Integer(4));
    let result = QueryResult::from_rows(vec![first.clone(), second.clone()]);
    assert_eq!(result.columns, names(&["b", "a"]));
    assert_eq!(result.data, vec![first, second]);

    let empty = QueryResult::from_rows(Vec::new());
    assert_eq!(empty, QueryResult { data: Vec::new(), columns: Vec::new() });
}

#[test]
fn a_failing_query_hands_the_error_on() {
    assert!(matches!(run(&executor(), "SELEKT * FROM sales"), Err(StorageError::Query(_))));
}

#[test]
fn the_schema_names_are_those_of_the_sales_table() {
    assert_eq!(
        executor().get_schema().expect("schema"),
        names(&["id", "region", "product", "month", "sales_amount", "quantity", "created_at"])
    );
}

#[test]
fn column_names_of_keeps_the_order() {
    let schema = vec![
        ColumnInfo { name: "z".to_string(), data_type: "TEXT".to_string() },
        ColumnInfo { name: "a".to_string(), data_type: "REAL".to_string() },
        ColumnInfo { name: "z".to_string(), data_type: "BLOB".to_string() },
    ];
    assert_eq!(column_names_of(schema), names(&["z", "a", "z"]));
    assert_eq!(column_names_of(Vec::new()), Vec::<String>::new());
}

#[test]
fn from_outcome_wraps_rows_and_hands_an_error_on_unchanged() {
    let mut row = ResultRow::new();
    row.insert("x".to_string(), JsonValue::Integer(1));
    assert_eq!(
        QueryResult::from_outcome(Ok(vec![row.clone()])),
        Ok(QueryResult { data: vec![row], columns: names(&["x"]) })
    );
    assert_eq!(
        QueryResult::from_outcome(Ok(Vec::new())),
        Ok(QueryResult { data: Vec::new(), columns: Vec::new() })
    );
    for error in [
        StorageError::Query("near \"SELEKT\": syntax error".to_string()),
        StorageError::Query(String::new()),
        StorageError::Open("unable to open database file".to_string()),
        StorageError::TooManyRows,
    ] {
        assert_eq!(QueryResult::from_outcome(Err(error.clone())), Err(error));
    }
}

#[test]
fn execute_hands_the_storage_error_on_unchanged() {
    let sql = "SELEKT * FROM sales";
    let storage = StorageEngine::new(":memory:").expect("init db");
    let from_storage = storage.execute_query(sql, &read_names).expect_err("storage");
    let from_executor = run(&QueryExecutor::new(storage), sql).expect_err("executor");
    assert_eq!(from_executor, from_storage);
    assert_eq!(from_executor.message(), from_storage.message());
}

#[test]
fn names_from_outcome_lists_names_and_hands_an_error_on_unchanged() {
    let schema = vec![
        ColumnInfo { name: "id".to_string(), data_type: "INTEGER".to_string() },
        ColumnInfo { name: "region".to_string(), data_type: "TEXT".to_string() },
    ];
    assert_eq!(names_from_outcome(Ok(schema)), Ok(names(&["id", "region"])));
    assert_eq!(
        names_from_outcome(Err(StorageError::Query("no such table".to_string()))),
        Err(StorageError::Query("no such table".to_string()))
    );
}
