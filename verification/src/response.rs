//! The request handlers: from a decoded request to the response envelope.

use vstd::prelude::*;
use crate::clock::{elapsed, now, whole_millis};
use crate::query::{first_keys, QueryExecutor, QueryResult};
use crate::row::{string_views, uniform, ResultRow};
use crate::storage::StorageError;

verus! {

/// The name under which the service reports its health.
pub const SERVICE_NAME: &'static str = "askadb-query-engine";

/// The status that the service reports.
pub const HEALTHY: &'static str = "healthy";

/// The body of an execute request.
#[derive(Clone, Debug, PartialEq, Eq)]
pub struct QueryRequest {
    pub query: String,
}

/// What the envelope says about a result.
#[derive(Clone, Debug, PartialEq, Eq)]
pub struct QueryMetadata {
    pub row_count: usize,
    pub columns: Vec<String>,
    pub execution_time_ms: u64,
}

/// The response envelope of an execute request.
#[derive(Clone, Debug, PartialEq, Eq)]
pub struct QueryResponse {
    pub success: bool,
    pub data: Option<Vec<ResultRow>>,
    pub error: Option<String>,
    pub metadata: QueryMetadata,
}

/// The body of a health response.
#[derive(Clone, Copy, Debug, PartialEq, Eq)]
pub struct HealthStatus {
    pub status: &'static str,
    pub service: &'static str,
}

impl QueryResponse {
    /// The envelope of a query that yielded `result` after
    /// `execution_time_ms` milliseconds.
    pub open spec fn is_success_of(&self, result: QueryResult, execution_time_ms: u64) -> bool {
        &&& self.success
        &&& self.data == Some(result.data)
        &&& self.error is None
        &&& self.metadata.row_count == result.data@.len()
        &&& self.metadata.columns == result.columns
        &&& self.metadata.execution_time_ms == execution_time_ms
    }

    /// The envelope of a query that failed with `message`. No time is
    /// reported for a failure.
    pub open spec fn is_failure_of(&self, message: Seq<char>) -> bool {
        &&& !self.success
        &&& self.data is None
        &&& self.error matches Some(text)
        &&& text@ == message
        &&& self.metadata.row_count == 0
        &&& self.metadata.columns@.len() == 0
        &&& self.metadata.execution_time_ms == 0
    }

    /// Exactly one of data and error is there, as the success flag says, and
    /// the metadata describes the data: the row count is the number of rows,
    /// the columns are those of the first row, and every row has them.
    pub open spec fn wf(&self) -> bool {
        if self.success {
            &&& self.error is None
            &&& self.data matches Some(rows)
            &&& uniform(rows@)
            &&& self.metadata.row_count == rows@.len()
            &&& string_views(self.metadata.columns@) == first_keys(rows@)
        } else {
            &&& self.data is None
            &&& self.error is Some
            &&& self.metadata.row_count == 0
            &&& self.metadata.columns@.len() == 0
            &&& self.metadata.execution_time_ms == 0
        }
    }

    /// Wraps the result of a query that took `execution_time_ms`
    /// milliseconds.
    pub fn succeeded(result: QueryResult, execution_time_ms: u64) -> (response: QueryResponse)
        ensures
            response.is_success_of(result, execution_time_ms),
    {
        let metadata = QueryMetadata {
            row_count: result.data.len(),
            columns: result.columns,
            execution_time_ms,
        };
        QueryResponse { success: true, data: Some(result.data), error: None, metadata }
    }

    /// Wraps the message of a query that failed.
    pub fn failed(message: String) -> (response: QueryResponse)
        ensures
            response.is_failure_of(message@),
            response.error == Some(message),
    {
        QueryResponse {
            success: false,
            data: None,
            error: Some(message),
            metadata: QueryMetadata { row_count: 0, columns: Vec::new(), execution_time_ms: 0 },
        }
    }
}

/// In a well-formed envelope of a success the metadata describes the data:
/// the row count is the number of rows, and the columns are the keys of
/// every row, so that there are none where there is no row.
pub proof fn lemma_metadata_describes_the_data(response: QueryResponse)
    requires
        response.wf(),
        response.success,
    ensures
        response.data is Some,
        response.metadata.row_count == response.data->0@.len(),
        forall|i: int|
            0 <= i < response.data->0@.len() ==> string_views(response.metadata.columns@) == (
            #[trigger] response.data->0@[i]).keys(),
        response.data->0@.len() == 0 ==> response.metadata.columns@.len() == 0,
{
    let rows = response.data->0@;
    assert forall|i: int| 0 <= i < rows.len() implies string_views(response.metadata.columns@) == (
    #[trigger] rows[i]).keys() by {
        assert(rows[i].keys() == rows[0].keys());
    }
    if rows.len() == 0 {
        assert(string_views(response.metadata.columns@).len() == 0);
    }
}

/// Builds the envelope for the outcome of a query: the data with its
/// metadata and the time taken, or the error's message with empty metadata.
pub fn respond(outcome: Result<QueryResult, StorageError>, execution_time_ms: u64) -> (response:
    QueryResponse)
    ensures
        match outcome {
            Ok(result) => response.is_success_of(result, execution_time_ms),
            Err(e) => response.is_failure_of(e.text()),
        },
{
    match outcome {
        Ok(result) => QueryResponse::succeeded(result, execution_time_ms),
        Err(e) => QueryResponse::failed(e.message()),
    }
}

/// A number of milliseconds as the envelope carries it: its low 64 bits.
pub fn truncate_millis(millis: u128) -> (kept: u64)
    ensures
        kept == millis % 0x1_0000_0000_0000_0000,
{
    let low: u128 = millis & 0xffff_ffff_ffff_ffff;
    assert(low == millis % 0x1_0000_0000_0000_0000 && low <= 0xffff_ffff_ffff_ffff) by (bit_vector)
        requires
            low == millis & 0xffff_ffff_ffff_ffff,
    ;
    low as u64
}

/// Handles an execute request: runs the query as it stands, times it, and
/// answers with the envelope. There is always an envelope; whether the query
/// went through is told by its success flag. `read_names` reads the column
/// names of the statement, as for the storage engine.
pub fn execute_query<F: Fn(&rusqlite::Statement<'_>) -> Option<Vec<String>>>(
    payload: QueryRequest,
    query_executor: &QueryExecutor,
    read_names: &F,
) -> (response: QueryResponse)
    requires
        forall|statement: &rusqlite::Statement| call_requires(read_names, (statement,)),
    ensures
        response.wf(),
{
    let start_time = now();
    let outcome = query_executor.execute(payload.query.as_str(), read_names);
    let execution_time = truncate_millis(whole_millis(&elapsed(&start_time)));
    respond(outcome, execution_time)
}

/// Handles a health request. The answer is fixed: it depends on nothing,
/// the database least of all.
pub fn health_check() -> (health: HealthStatus)
    ensures
        health.status@ == "healthy"@,
        health.service@ == "askadb-query-engine"@,
{
    HealthStatus { status: HEALTHY, service: SERVICE_NAME }
}

} // verus!
