use askadb_query_engine::query::{QueryExecutor, QueryResult};
use askadb_query_engine::response::{
    execute_query, health_check, respond, truncate_millis, HealthStatus, QueryMetadata,
    QueryRequest, QueryResponse, HEALTHY, SERVICE_NAME,
};
use askadb_query_engine::row::ResultRow;
use askadb_query_engine::storage::{StorageEngine, StorageError};
use askadb_query_engine::value::JsonValue;

fn executor() -> QueryExecutor {
    QueryExecutor::new(StorageEngine::new(":memory:").expect("init db"))
}

fn read_names(statement: &rusqlite::Statement<'_>) -> Option<Vec<String>> {
    Some(statement.column_names().map(String::from).collect())
}

fn request(sql: &str) -> QueryRequest {
    QueryRequest { query: sql.to_string() }
}

fn row_x(value: i64) -> ResultRow {
    let mut row = ResultRow::new();
    row.insert("x".to_string(), JsonValue::Integer(value));
    row
}

#[test]
fn execute_select_one_as_x() {
    let response = execute_query(request("SELECT 1 as x"), &executor(), &read_names);
    assert!(response.success);
    assert_eq!(response.data, Some(vec![row_x(1)]));
    assert_eq!(response.error, None);
    assert_eq!(response.metadata.columns, vec!["x".to_string()]);
    assert_eq!(response.metadata.row_count, 1);
}

#[test]
fn execute_invalid_sql() {
    let response = execute_query(request("SELEKT * FROM sales"), &executor(), &read_names);
    assert!(!response.success);
    assert_eq!(response.data, None);
    let error = response.error.expect("an error message");
    assert!(error.contains("syntax error"), "{}", error);
    assert_eq!(
        response.metadata,
        QueryMetadata { row_count: 0, columns: Vec::new(), execution_time_ms: 0 }
    );
}

#[test]
fn execute_without_rows() {
    let response = execute_query(request("SELECT * FROM sales WHERE id < 0"), &executor(), &read_names);
    assert!(response.success);
    assert_eq!(response.data, Some(Vec::new()));
    assert_eq!(response.error, None);
    assert_eq!(response.metadata.row_count, 0);
    assert_eq!(response.metadata.columns, Vec::<String>::new());
}

#[test]
fn execute_counts_the_rows_and_names_their_columns() {
    let response = execute_query(request("SELECT region, quantity FROM sales"), &executor(), &read_names);
    assert!(response.success);
    let data = response.data.expect("data");
    assert_eq!(data.len(), 40);
    assert_eq!(response.metadata.row_count, data.len());
    assert_eq!(response.metadata.columns, vec!["region".to_string(), "quantity".to_string()]);
    for row in &data {
        assert_eq!(row.column_names(), response.metadata.columns);
    }
}

#[test]
fn respond_wraps_a_result() {
    let result = QueryResult {
        data: vec![row_x(1), row_x(2)],
        columns: vec!["x".to_string()],
    };
    assert_eq!(
        respond(Ok(result), 12),
        QueryResponse {
            success: true,
            data: Some(vec![row_x(1), row_x(2)]),
            error: None,
            metadata: QueryMetadata {
                row_count: 2,
                columns: vec!["x".to_string()],
                execution_time_ms: 12,
            },
        }
    );
}

#[test]
fn respond_reports_no_time_for_a_failure() {
    assert_eq!(
        respond(Err(StorageError::Query("near \"SELEKT\": syntax error".to_string())), 12),
        QueryResponse {
            success: false,
            data: None,
            error: Some("near \"SELEKT\": syntax error".to_string()),
            metadata: QueryMetadata { row_count: 0, columns: Vec::new(), execution_time_ms: 0 },
        }
    );
}

#[test]
fn succeeded_and_failed_build_the_two_envelopes() {
    let ok = QueryResponse::succeeded(QueryResult { data: Vec::new(), columns: Vec::new() }, 0);
    assert!(ok.success);
    assert_eq!(ok.data, Some(Vec::new()));
    assert_eq!(ok.error, None);

    let failed = QueryResponse::failed(String::new());
    assert!(!failed.success);
    assert_eq!(failed.data, None);
    assert_eq!(failed.error, Some(String::new()));
}

#[test]
fn truncate_millis_keeps_the_low_64_bits() {
    assert_eq!(truncate_millis(0), 0);
    assert_eq!(truncate_millis(1234), 1234);
    assert_eq!(truncate_millis(u64::MAX as u128), u64::MAX);
    assert_eq!(truncate_millis(u64::MAX as u128 + 1), 0);
    assert_eq!(truncate_millis((1u128 << 64) + 5), 5);
    assert_eq!(truncate_millis(u128::MAX), u64::MAX);
}

#[test]
fn health_is_always_the_same() {
    let expected = HealthStatus { status: "healthy", service: "askadb-query-engine" };
    assert_eq!(health_check(), expected);
    assert_eq!(HEALTHY, "healthy");
    assert_eq!(SERVICE_NAME, "askadb-query-engine");

    let engine = StorageEngine::new(":memory:").expect("init db");
    engine.execute_query("DROP TABLE sales", &read_names).expect("drop");
    assert_eq!(health_check(), expected);
    drop(engine);
    assert_eq!(health_check(), expected);
}

#[test]
fn execute_with_unreadable_names_is_a_failure_envelope() {
    let response =
        execute_query(request("SELECT 1 as x"), &executor(), &|_: &rusqlite::Statement<'_>| None);
    assert!(!response.success);
    assert_eq!(response.data, None);
    assert_eq!(response.error, Some("the column names could not be read".to_string()));
    assert_eq!(
        response.metadata,
        QueryMetadata { row_count: 0, columns: Vec::new(), execution_time_ms: 0 }
    );
}
