//! The storage engine: a SQLite database holding the sales table, the
//! one-time seeding of that table, and the execution of caller-supplied SQL.

use vstd::prelude::*;
use crate::driver::{describe, execute, execute_sale, next_row, open, prepare, query, read_cell};
use crate::row::{distinct, string_views, uniform, ResultRow};
use crate::sample::{sale_views, sample_rows, sample_sales, SaleRecord, SaleView, SAMPLE_ROW_COUNT};
use crate::value::SqlValue;

verus! {

/// Creates the sales table unless the database has it already.
pub const CREATE_SALES_TABLE: &'static str = "CREATE TABLE IF NOT EXISTS sales (
                id INTEGER PRIMARY KEY,
                region TEXT NOT NULL,
                product TEXT NOT NULL,
                month TEXT NOT NULL,
                sales_amount REAL NOT NULL,
                quantity INTEGER NOT NULL,
                created_at DATETIME DEFAULT CURRENT_TIMESTAMP
            )";

/// Counts the rows of the sales table.
pub const COUNT_SALES: &'static str = "SELECT COUNT(*) FROM sales";

/// Inserts one sales figure; `id` and `created_at` are left to the database.
pub const INSERT_SALE: &'static str =
    "INSERT INTO sales (region, product, month, sales_amount, quantity) VALUES (?, ?, ?, ?, ?)";

/// Lists the columns of the sales table with their declared types.
pub const SALES_TABLE_INFO: &'static str =
    "SELECT name, type FROM pragma_table_info('sales') ORDER BY cid";

/// The message of a count that yielded no row.
pub const NO_ROWS: &'static str = "Query returned no rows";

/// The message of a count that is no integer.
pub const NOT_A_COUNT: &'static str = "the row count is not an integer";

/// The message of a schema cell that is no text.
pub const NOT_TEXT: &'static str = "the schema holds a cell that is not text";

/// The message of a statement whose column names could not be read.
pub const UNREADABLE_NAMES: &'static str = "the column names could not be read";

/// Why the storage engine could not do what it was asked. Each variant but
/// the last carries a message: the database driver's, word for word, where
/// the driver failed, and one of the engine's own where the driver's answer
/// was not of the expected kind.
#[derive(Clone, Debug, PartialEq, Eq)]
pub enum StorageError {
    /// The database could not be opened.
    Open(String),
    /// The sales table could not be created.
    InitTables(String),
    /// The sales table could not be counted or seeded.
    LoadSampleData(String),
    /// A statement could not be prepared, started or stepped.
    Query(String),
    /// The statement yielded more rows than a vector can index.
    TooManyRows,
}

impl StorageError {
    /// The text of the error.
    pub open spec fn text(&self) -> Seq<char> {
        match *self {
            StorageError::Open(m) => m@,
            StorageError::InitTables(m) => m@,
            StorageError::LoadSampleData(m) => m@,
            StorageError::Query(m) => m@,
            StorageError::TooManyRows => "too many rows"@,
        }
    }

    /// The text of the error.
    pub fn message(&self) -> (m: String)
        ensures
            m@ == self.text(),
    {
        match self {
            StorageError::Open(m) => m.clone(),
            StorageError::InitTables(m) => m.clone(),
            StorageError::LoadSampleData(m) => m.clone(),
            StorageError::Query(m) => m.clone(),
            StorageError::TooManyRows => "too many rows".to_owned(),
        }
    }
}

/// A column of the sales table.
#[derive(Clone, Debug, PartialEq, Eq)]
pub struct ColumnInfo {
    pub name: String,
    pub data_type: String,
}

/// The rows that seeding adds to a table holding `existing` rows: all the
/// sample rows if the table is empty, none otherwise.
pub open spec fn seed_plan(existing: int) -> Seq<SaleView> {
    if existing > 0 {
        Seq::empty()
    } else {
        sample_rows()
    }
}

/// Decides what seeding adds to a table holding `existing` rows.
pub fn rows_to_seed(existing: i64) -> (rows: Vec<SaleRecord>)
    ensures
        sale_views(rows@) == seed_plan(existing as int),
{
    if existing > 0 {
        let rows: Vec<SaleRecord> = Vec::new();
        assert(sale_views(rows@) =~= Seq::<SaleView>::empty());
        rows
    } else {
        sample_sales()
    }
}

/// What seeding found and did.
#[derive(Clone, Copy, Debug, PartialEq, Eq)]
pub struct SeedReport {
    /// The number of rows the sales table held when it was counted.
    pub existing: i64,
    /// The number of sample rows inserted after that.
    pub inserted: usize,
}

impl SeedReport {
    /// Seeding went by the plan: it inserted as many rows as the plan holds
    /// for the count it found.
    pub open spec fn follows_plan(&self) -> bool {
        self.inserted == seed_plan(self.existing as int).len()
    }
}

/// The plan is all or nothing: the 40 sample rows for a table without rows,
/// no row for any other.
pub proof fn lemma_plan_is_all_or_nothing(existing: int)
    ensures
        existing > 0 ==> seed_plan(existing).len() == 0,
        existing <= 0 ==> seed_plan(existing).len() == 40,
{
}

/// The sales table after seeding, given the table before: the rows planned
/// for it stand behind those it held.
pub open spec fn seeded(table: Seq<SaleView>) -> Seq<SaleView> {
    table + seed_plan(table.len() as int)
}

/// Seeding is idempotent: seeding a table that has been seeded changes
/// nothing. A table that was empty holds exactly the 40 sample rows
/// afterwards, and a table that held rows is left as it was.
pub proof fn lemma_seeding_is_idempotent(table: Seq<SaleView>)
    ensures
        seeded(seeded(table)) == seeded(table),
        table.len() == 0 ==> seeded(table) == sample_rows() && seeded(table).len() == 40,
        table.len() > 0 ==> seeded(table) == table,
{
    if table.len() == 0 {
        assert(seeded(table) =~= sample_rows());
    } else {
        assert(seeded(table) =~= table);
    }
    assert(seeded(seeded(table)) =~= seeded(table));
}

/// The handle on the database. It owns one connection for its lifetime and
/// remembers what seeding found and did when it was opened.
pub struct StorageEngine {
    conn: rusqlite::Connection,
    seeding: SeedReport,
}

impl StorageEngine {
    /// What seeding found and did when this engine was opened.
    pub closed spec fn seeding_report(&self) -> SeedReport {
        self.seeding
    }

    /// What seeding found and did when this engine was opened.
    pub fn seeding(&self) -> (report: SeedReport)
        ensures
            report == self.seeding_report(),
    {
        self.seeding
    }

    /// Opens the database at `db_path`, creating the file if it is missing,
    /// then creates the sales table if it is missing and seeds it if it is
    /// empty. The directory of `db_path` must exist. An engine is handed
    /// out only after all three steps went through, and it holds the report
    /// of the seeding; the error tells which step did not.
    pub fn new(db_path: &str) -> (r: Result<StorageEngine, StorageError>)
        ensures
            match r {
                Ok(engine) => engine.seeding_report().follows_plan(),
                Err(e) => e is Open || e is InitTables || e is LoadSampleData,
            },
    {
        let conn = match open(db_path) {
            Ok(conn) => conn,
            Err(e) => {
                return Err(StorageError::Open(describe(&e)));
            },
        };
        match StorageEngine::init_tables(&conn) {
            Ok(()) => {},
            Err(e) => {
                return Err(e);
            },
        }
        let seeding = match StorageEngine::load_sample_data(&conn) {
            Ok(report) => report,
            Err(e) => {
                return Err(e);
            },
        };
        Ok(StorageEngine { conn, seeding })
    }

    /// Creates the sales table unless it exists.
    pub fn init_tables(conn: &rusqlite::Connection) -> (r: Result<(), StorageError>)
        ensures
            r matches Err(e) ==> e is InitTables,
    {
        match execute(conn, CREATE_SALES_TABLE) {
            Ok(_) => Ok(()),
            Err(e) => Err(StorageError::InitTables(describe(&e))),
        }
    }

    /// Seeds the sales table: counts its rows and, if there are none,
    /// inserts the sample rows in their order. Reports the count it found
    /// and the number of rows it inserted: all 40 where it found none, none
    /// where it found any. The first insert that fails ends the seeding;
    /// rows inserted before it stay.
    pub fn load_sample_data(conn: &rusqlite::Connection) -> (r: Result<SeedReport, StorageError>)
        ensures
            match r {
                Ok(report) => report.follows_plan(),
                Err(e) => e is LoadSampleData,
            },
    {
        let existing = match count_sales(conn) {
            Ok(count) => count,
            Err(e) => {
                return Err(e);
            },
        };
        let rows = rows_to_seed(existing);
        assert(rows@.len() == sale_views(rows@).len());
        let mut inserted: usize = 0;
        loop
            invariant
                inserted <= rows.len(),
                rows@.len() == seed_plan(existing as int).len(),
            decreases rows.len() - inserted,
        {
            match next_to_insert(&rows, inserted) {
                None => {
                    return Ok(SeedReport { existing, inserted });
                },
                Some(sale) => {
                    match execute_sale(conn, INSERT_SALE, &sale) {
                        Ok(_) => {},
                        Err(e) => {
                            return Err(StorageError::LoadSampleData(describe(&e)));
                        },
                    }
                    inserted = inserted + 1;
                },
            }
        }
    }

    /// Runs `sql` as it stands and collects every row it yields. Each row
    /// maps the statement's column names to the marshaled cells; a cell
    /// that cannot be read is null. Either all rows come back or an error
    /// does.
    ///
    /// The names of the columns are read by `read_names`, which the caller
    /// supplies: the driver panics on a name that is not UTF-8, and only the
    /// caller can contain that. `None` from it stands for names that could
    /// not be read, and ends the query with an error.
    pub fn execute_query<F: Fn(&rusqlite::Statement<'_>) -> Option<Vec<String>>>(
        &self,
        sql: &str,
        read_names: &F,
    ) -> (r: Result<Vec<ResultRow>, StorageError>)
        requires
            forall|statement: &rusqlite::Statement| call_requires(read_names, (statement,)),
        ensures
            match r {
                Ok(rows) => uniform(rows@),
                Err(e) => e is Query || e is TooManyRows,
            },
    {
        let mut stmt = match prepare(&self.conn, sql) {
            Ok(stmt) => stmt,
            Err(e) => {
                return Err(StorageError::Query(describe(&e)));
            },
        };
        let names = match names_or_error(read_names(&stmt)) {
            Ok(names) => names,
            Err(e) => {
                return Err(e);
            },
        };
        let mut cursor = match query(&mut stmt) {
            Ok(cursor) => cursor,
            Err(e) => {
                return Err(StorageError::Query(describe(&e)));
            },
        };
        let mut results: Vec<ResultRow> = Vec::new();
        while results.len() < usize::MAX
            invariant
                forall|i: int|
                    0 <= i < results.len() ==> (#[trigger] results[i]).wf() && results[i].keys()
                        == distinct(string_views(names@)),
            decreases usize::MAX - results.len(),
        {
            match next_row(&mut cursor) {
                Err(e) => {
                    return Err(StorageError::Query(describe(&e)));
                },
                Ok(None) => {
                    return Ok(results);
                },
                Ok(Some(row)) => {
                    results.push(read_row(row, &names));
                },
            }
        }
        Err(StorageError::TooManyRows)
    }

    /// The columns of the sales table with their declared types, in table
    /// order.
    pub fn get_schema(&self) -> (r: Result<Vec<ColumnInfo>, StorageError>)
        ensures
            r matches Err(e) ==> e is Query || e is TooManyRows,
    {
        let mut stmt = match prepare(&self.conn, SALES_TABLE_INFO) {
            Ok(stmt) => stmt,
            Err(e) => {
                return Err(StorageError::Query(describe(&e)));
            },
        };
        let mut cursor = match query(&mut stmt) {
            Ok(cursor) => cursor,
            Err(e) => {
                return Err(StorageError::Query(describe(&e)));
            },
        };
        let mut columns: Vec<ColumnInfo> = Vec::new();
        while columns.len() < usize::MAX
            decreases usize::MAX - columns.len(),
        {
            match next_row(&mut cursor) {
                Err(e) => {
                    return Err(StorageError::Query(describe(&e)));
                },
                Ok(None) => {
                    return Ok(columns);
                },
                Ok(Some(row)) => {
                    let name = match read_text(row, 0) {
                        Ok(name) => name,
                        Err(e) => {
                            return Err(e);
                        },
                    };
                    let data_type = match read_text(row, 1) {
                        Ok(data_type) => data_type,
                        Err(e) => {
                            return Err(e);
                        },
                    };
                    columns.push(ColumnInfo { name, data_type });
                },
            }
        }
        Err(StorageError::TooManyRows)
    }
}

/// The row that seeding inserts next once `inserted` of `rows` have gone
/// in: the one behind them, or none when all have.
pub fn next_to_insert(rows: &Vec<SaleRecord>, inserted: usize) -> (next: Option<SaleRecord>)
    ensures
        next == if inserted < rows@.len() {
            Some(rows@[inserted as int])
        } else {
            None::<SaleRecord>
        },
{
    if inserted < rows.len() {
        Some(rows[inserted])
    } else {
        None
    }
}

/// The count that the first cell of a counting query stands for. A query
/// without a row, or with a first cell that is no integer, is a seeding
/// error with the engine's own message.
pub fn count_from_cell(first: Option<SqlValue>) -> (r: Result<i64, StorageError>)
    ensures
        match first {
            Some(SqlValue::Integer(n)) => r == Ok::<i64, StorageError>(n),
            Some(_) => r matches Err(StorageError::LoadSampleData(m)) && m@ == NOT_A_COUNT@,
            None => r matches Err(StorageError::LoadSampleData(m)) && m@ == NO_ROWS@,
        },
{
    match first {
        Some(SqlValue::Integer(n)) => Ok(n),
        Some(_) => Err(StorageError::LoadSampleData(NOT_A_COUNT.to_owned())),
        None => Err(StorageError::LoadSampleData(NO_ROWS.to_owned())),
    }
}

/// The text that a cell of the schema listing stands for. A cell that is
/// no text is a query error with the engine's own message.
pub fn text_from_cell(cell: SqlValue) -> (r: Result<String, StorageError>)
    ensures
        match cell {
            SqlValue::Text(s) => r == Ok::<String, StorageError>(s),
            _ => r matches Err(StorageError::Query(m)) && m@ == NOT_TEXT@,
        },
{
    match cell {
        SqlValue::Text(s) => Ok(s),
        _ => Err(StorageError::Query(NOT_TEXT.to_owned())),
    }
}

/// The column names of a statement, as its reader handed them out. Names
/// that could not be read are a query error with the engine's own message.
pub fn names_or_error(names: Option<Vec<String>>) -> (r: Result<Vec<String>, StorageError>)
    ensures
        match names {
            Some(read) => r == Ok::<Vec<String>, StorageError>(read),
            None => r matches Err(StorageError::Query(m)) && m@ == UNREADABLE_NAMES@,
        },
{
    match names {
        Some(read) => Ok(read),
        None => Err(StorageError::Query(UNREADABLE_NAMES.to_owned())),
    }
}

/// Counts the rows of the sales table: the first cell of the first row that
/// the counting query yields.
fn count_sales(conn: &rusqlite::Connection) -> (r: Result<i64, StorageError>)
    ensures
        r matches Err(e) ==> e is LoadSampleData,
{
    let mut stmt = match prepare(conn, COUNT_SALES) {
        Ok(stmt) => stmt,
        Err(e) => {
            return Err(StorageError::LoadSampleData(describe(&e)));
        },
    };
    let mut cursor = match query(&mut stmt) {
        Ok(cursor) => cursor,
        Err(e) => {
            return Err(StorageError::LoadSampleData(describe(&e)));
        },
    };
    let first = match next_row(&mut cursor) {
        Err(e) => {
            return Err(StorageError::LoadSampleData(describe(&e)));
        },
        Ok(None) => None,
        Ok(Some(row)) => match read_cell(row, 0) {
            Ok(cell) => Some(cell),
            Err(e) => {
                return Err(StorageError::LoadSampleData(describe(&e)));
            },
        },
    };
    count_from_cell(first)
}

/// Reads the cell at `index` of the row the cursor stands on as text.
fn read_text(row: &rusqlite::Row<'_>, index: usize) -> (r: Result<String, StorageError>)
    ensures
        r matches Err(e) ==> e is Query,
{
    match read_cell(row, index) {
        Ok(cell) => text_from_cell(cell),
        Err(e) => Err(StorageError::Query(describe(&e))),
    }
}

/// Reads the row the cursor stands on: one cell for each column name, each
/// marshaled, a failed read as null.
fn read_row(row: &rusqlite::Row<'_>, names: &Vec<String>) -> (out: ResultRow)
    ensures
        out.wf(),
        out.keys() == distinct(string_views(names@)),
{
    let mut reads: Vec<Result<SqlValue, rusqlite::Error>> = Vec::new();
    while reads.len() < names.len()
        invariant
            reads.len() <= names.len(),
        decreases names.len() - reads.len(),
    {
        let index = reads.len();
        reads.push(read_cell(row, index));
    }
    ResultRow::from_reads(names, reads)
}

} // verus!
