use askadb_query_engine::value::{marshal_cell, marshal_value, JsonValue, SqlValue};

#[test]
fn null_becomes_null() {
    assert_eq!(marshal_value(SqlValue::Null), JsonValue::Null);
}

#[test]
fn integer_becomes_number() {
    assert_eq!(marshal_value(SqlValue::Integer(42)), JsonValue::Integer(42));
    assert_eq!(marshal_value(SqlValue::Integer(-7)), JsonValue::Integer(-7));
    assert_eq!(marshal_value(SqlValue::Integer(i64::MIN)), JsonValue::Integer(i64::MIN));
    assert_eq!(marshal_value(SqlValue::Integer(i64::MAX)), JsonValue::Integer(i64::MAX));
}

#[test]
fn real_becomes_number_with_the_same_bits() {
    let bits = 2.5f64.to_bits();
    assert_eq!(marshal_value(SqlValue::Real(bits)), JsonValue::Real(bits));
    let negative_zero = (-0.0f64).to_bits();
    assert_eq!(marshal_value(SqlValue::Real(negative_zero)), JsonValue::Real(negative_zero));
}

#[test]
fn text_becomes_string() {
    assert_eq!(
        marshal_value(SqlValue::Text("North".to_string())),
        JsonValue::Text("North".to_string())
    );
    assert_eq!(marshal_value(SqlValue::Text(String::new())), JsonValue::Text(String::new()));
}

#[test]
fn blob_becomes_null() {
    assert_eq!(marshal_value(SqlValue::Blob(vec![1, 2, 3])), JsonValue::Null);
    assert_eq!(marshal_value(SqlValue::Blob(Vec::new())), JsonValue::Null);
}

#[test]
fn a_cell_that_was_read_is_marshaled() {
    let read: Result<SqlValue, String> = Ok(SqlValue::Integer(5));
    assert_eq!(marshal_cell(read), JsonValue::Integer(5));
    let read: Result<SqlValue, String> = Ok(SqlValue::Blob(vec![9]));
    assert_eq!(marshal_cell(read), JsonValue::Null);
}

#[test]
fn a_cell_that_could_not_be_read_is_null() {
    let read: Result<SqlValue, String> = Err("no such column".to_string());
    assert_eq!(marshal_cell(read), JsonValue::Null);
}
