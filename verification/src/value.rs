//! SQL cell values, JSON values, and the total mapping between them.

use vstd::prelude::*;

verus! {

/// One cell of a result row, as the database hands it out.
///
/// A real number is carried as the bit pattern of its IEEE 754
/// double-precision encoding, so that the engine never computes on it.
#[derive(Clone, Debug, PartialEq, Eq)]
pub enum SqlValue {
    Null,
    Integer(i64),
    Real(u64),
    Text(String),
    Blob(Vec<u8>),
}

/// A JSON-compatible value: null, a number or a string.
///
/// `Real` carries the bit pattern of a double, as `SqlValue::Real` does.
#[derive(Clone, Debug, PartialEq, Eq)]
pub enum JsonValue {
    Null,
    Integer(i64),
    Real(u64),
    Text(String),
}

/// The mathematical content of a [`SqlValue`].
pub ghost enum SqlValueView {
    Null,
    Integer(i64),
    Real(u64),
    Text(Seq<char>),
    Blob(Seq<u8>),
}

/// The mathematical content of a [`JsonValue`].
pub ghost enum JsonValueView {
    Null,
    Integer(i64),
    Real(u64),
    Text(Seq<char>),
}

impl View for SqlValue {
    type V = SqlValueView;

    open spec fn view(&self) -> SqlValueView {
        match *self {
            SqlValue::Null => SqlValueView::Null,
            SqlValue::Integer(n) => SqlValueView::Integer(n),
            SqlValue::Real(bits) => SqlValueView::Real(bits),
            SqlValue::Text(s) => SqlValueView::Text(s@),
            SqlValue::Blob(b) => SqlValueView::Blob(b@),
        }
    }
}

impl View for JsonValue {
    type V = JsonValueView;

    open spec fn view(&self) -> JsonValueView {
        match *self {
            JsonValue::Null => JsonValueView::Null,
            JsonValue::Integer(n) => JsonValueView::Integer(n),
            JsonValue::Real(bits) => JsonValueView::Real(bits),
            JsonValue::Text(s) => JsonValueView::Text(s@),
        }
    }
}

/// The JSON value that stands for a SQL value: null for null, a number for
/// an integer or a real, a string for text. A blob is never surfaced and
/// becomes null.
pub open spec fn marshal(v: SqlValueView) -> JsonValueView {
    match v {
        SqlValueView::Null => JsonValueView::Null,
        SqlValueView::Integer(n) => JsonValueView::Integer(n),
        SqlValueView::Real(bits) => JsonValueView::Real(bits),
        SqlValueView::Text(s) => JsonValueView::Text(s),
        SqlValueView::Blob(_) => JsonValueView::Null,
    }
}

/// What a cell becomes when reading it may have failed: a failed read is
/// swallowed and stands as null.
pub open spec fn marshal_read<E>(read: Result<SqlValue, E>) -> JsonValueView {
    match read {
        Ok(v) => marshal(v@),
        Err(_) => JsonValueView::Null,
    }
}

/// Converts one SQL value into its JSON value.
pub fn marshal_value(v: SqlValue) -> (j: JsonValue)
    ensures
        j@ == marshal(v@),
{
    match v {
        SqlValue::Null => JsonValue::Null,
        SqlValue::Integer(n) => JsonValue::Integer(n),
        SqlValue::Real(bits) => JsonValue::Real(bits),
        SqlValue::Text(s) => JsonValue::Text(s),
        SqlValue::Blob(_) => JsonValue::Null,
    }
}

/// Converts the outcome of reading one cell into a JSON value. A cell that
/// could not be read is reported as null, never as an error.
pub fn marshal_cell<E>(read: Result<SqlValue, E>) -> (j: JsonValue)
    ensures
        j@ == marshal_read(read),
{
    match read {
        Ok(v) => marshal_value(v),
        Err(_) => JsonValue::Null,
    }
}

} // verus!
