//! Query execution on top of the storage engine: a result's rows together
//! with its column names.

use vstd::prelude::*;
use crate::row::{lemma_position, string_views, uniform, ResultRow};
use crate::storage::{ColumnInfo, StorageEngine, StorageError};

verus! {

/// The rows of a query together with their column names.
#[derive(Clone, Debug, PartialEq, Eq)]
pub struct QueryResult {
    pub data: Vec<ResultRow>,
    pub columns: Vec<String>,
}

/// The column names of the first row, or none where there is no row.
pub open spec fn first_keys(rows: Seq<ResultRow>) -> Seq<Seq<char>> {
    if rows.len() > 0 {
        rows[0].keys()
    } else {
        Seq::empty()
    }
}

/// The names of some columns, in their order.
pub open spec fn schema_names(schema: Seq<ColumnInfo>) -> Seq<Seq<char>> {
    schema.map_values(|c: ColumnInfo| c.name@)
}

impl QueryResult {
    /// The rows are uniform, and the columns are those of the first row.
    pub open spec fn wf(&self) -> bool {
        &&& uniform(self.data@)
        &&& string_views(self.columns@) == first_keys(self.data@)
    }

    /// Puts rows together with their column names, which are taken from the
    /// first row. Without rows there are no column names.
    pub fn from_rows(data: Vec<ResultRow>) -> (result: QueryResult)
        ensures
            result.data == data,
            string_views(result.columns@) == first_keys(data@),
    {
        let columns = if data.len() > 0 {
            data[0].column_names()
        } else {
            let none: Vec<String> = Vec::new();
            assert(string_views(none@) =~= Seq::<Seq<char>>::empty());
            none
        };
        QueryResult { data, columns }
    }

    /// The result of a query, given what the storage engine made of it: the
    /// rows with their column names, or the storage engine's error as it
    /// came.
    pub fn from_outcome(outcome: Result<Vec<ResultRow>, StorageError>) -> (r: Result<
        QueryResult,
        StorageError,
    >)
        ensures
            match outcome {
                Ok(rows) => r matches Ok(result) && result.data == rows && string_views(
                    result.columns@,
                ) == first_keys(rows@),
                Err(e) => r == Err::<QueryResult, StorageError>(e),
            },
    {
        match outcome {
            Ok(data) => Ok(QueryResult::from_rows(data)),
            Err(e) => Err(e),
        }
    }
}

/// Runs SQL against the storage engine it owns.
pub struct QueryExecutor {
    storage: StorageEngine,
}

impl QueryExecutor {
    /// The storage engine that queries run against.
    pub closed spec fn storage(&self) -> StorageEngine {
        self.storage
    }

    /// An executor over `storage`.
    pub fn new(storage: StorageEngine) -> (executor: QueryExecutor)
        ensures
            executor.storage() == storage,
    {
        QueryExecutor { storage }
    }

    /// Runs `sql` as it stands and returns all its rows with their column
    /// names, or the error that ended it. `read_names` reads the column
    /// names of the statement, as for the storage engine.
    pub fn execute<F: Fn(&rusqlite::Statement<'_>) -> Option<Vec<String>>>(
        &self,
        sql: &str,
        read_names: &F,
    ) -> (r: Result<QueryResult, StorageError>)
        requires
            forall|statement: &rusqlite::Statement| call_requires(read_names, (statement,)),
        ensures
            match r {
                Ok(result) => result.wf(),
                Err(e) => e is Query || e is TooManyRows,
            },
    {
        QueryResult::from_outcome(self.storage.execute_query(sql, read_names))
    }

    /// The names of the sales table's columns, in table order.
    pub fn get_schema(&self) -> (r: Result<Vec<String>, StorageError>)
        ensures
            r matches Err(e) ==> e is Query || e is TooManyRows,
    {
        names_from_outcome(self.storage.get_schema())
    }
}

/// The column names of a schema, given what the storage engine made of the
/// listing: the names in their order, or the storage engine's error as it
/// came.
pub fn names_from_outcome(outcome: Result<Vec<ColumnInfo>, StorageError>) -> (r: Result<
    Vec<String>,
    StorageError,
>)
    ensures
        match outcome {
            Ok(schema) => r matches Ok(names) && string_views(names@) == schema_names(schema@),
            Err(e) => r == Err::<Vec<String>, StorageError>(e),
        },
{
    match outcome {
        Ok(schema) => Ok(column_names_of(schema)),
        Err(e) => Err(e),
    }
}

/// The names of the columns of a schema, in their order.
pub fn column_names_of(schema: Vec<ColumnInfo>) -> (names: Vec<String>)
    ensures
        string_views(names@) == schema_names(schema@),
{
    let mut names: Vec<String> = Vec::new();
    for column in it: schema.into_iter()
        invariant
            it.seq() == schema@,
            names.len() == it.index(),
            forall|j: int| 0 <= j < names.len() ==> (#[trigger] names[j])@ == schema[j].name@,
    {
        names.push(column.name);
    }
    assert(string_views(names@) =~= schema_names(schema@));
    names
}

/// In a well-formed result the column names are the keys of every row: each
/// row has exactly those columns, in that order, and maps exactly those
/// names.
pub proof fn lemma_columns_are_the_keys_of_every_row(result: QueryResult, i: int)
    requires
        result.wf(),
        0 <= i < result.data@.len(),
    ensures
        string_views(result.columns@) == result.data@[i].keys(),
        result.data@[i]@.dom() == string_views(result.columns@).to_set(),
{
    let row = result.data@[i];
    assert(row.keys() == result.data@[0].keys());
    assert forall|k: Seq<char>| row@.dom().contains(k) == row.keys().to_set().contains(k) by {
        lemma_position(row.entries(), k);
    }
    assert(row@.dom() =~= row.keys().to_set());
}

/// A well-formed result without rows has no column names.
pub proof fn lemma_no_rows_no_columns(result: QueryResult)
    requires
        result.wf(),
        result.data@.len() == 0,
    ensures
        result.columns@.len() == 0,
{
    assert(string_views(result.columns@).len() == 0);
}

} // verus!
