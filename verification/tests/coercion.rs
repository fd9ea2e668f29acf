//! Per-entry tests of the wire-type dispatch table and the cell coercion
//! table, plus the failure messages and the invocation state.

use nu_psql::error::QueryError;
use nu_psql::psql::Psql;
use nu_psql::value::GenericValue;
use nu_psql::value::RawCell;
use nu_psql::value::WireType;
use nu_psql::value::coerce;
use nu_psql::value::wire_type_from_oid;

#[test]
fn oid_dispatch_supported_entries() {
    assert_eq!(wire_type_from_oid(25), WireType::Text);
    assert_eq!(wire_type_from_oid(1043), WireType::Varchar);
    assert_eq!(wire_type_from_oid(21), WireType::Int2);
    assert_eq!(wire_type_from_oid(23), WireType::Int4);
    assert_eq!(wire_type_from_oid(20), WireType::Int8);
    assert_eq!(wire_type_from_oid(700), WireType::Float4);
    assert_eq!(wire_type_from_oid(701), WireType::Float8);
    assert_eq!(wire_type_from_oid(16), WireType::Bool);
    assert_eq!(wire_type_from_oid(17), WireType::Bytea);
}

#[test]
fn oid_dispatch_unsupported_entries() {
    // numeric, date, time, timestamp, timestamptz, uuid, and a made-up OID
    for oid in [1700, 1082, 1083, 1114, 1184, 2950, 999_999] {
        assert_eq!(wire_type_from_oid(oid), WireType::Unsupported);
    }
}

#[test]
fn coerce_text_keeps_payload() {
    assert_eq!(
        coerce(WireType::Text, RawCell::Text("hello".to_string())),
        GenericValue::Text("hello".to_string())
    );
    assert_eq!(
        coerce(WireType::Varchar, RawCell::Text("v".to_string())),
        GenericValue::Text("v".to_string())
    );
}

#[test]
fn coerce_integers_keep_payload() {
    assert_eq!(
        coerce(WireType::Int2, RawCell::SmallInt(-7)),
        GenericValue::Integer(-7)
    );
    assert_eq!(
        coerce(WireType::Int4, RawCell::Int(70_000)),
        GenericValue::Integer(70_000)
    );
    assert_eq!(
        coerce(WireType::Int8, RawCell::BigInt(1 << 40)),
        GenericValue::Integer(1 << 40)
    );
}

#[test]
fn coerce_floats_keep_bit_pattern() {
    let wide = (2.5f32 as f64).to_bits();
    assert_eq!(
        coerce(WireType::Float4, RawCell::Real(wide)),
        GenericValue::Float(wide)
    );
    let bits = 3.25f64.to_bits();
    assert_eq!(
        coerce(WireType::Float8, RawCell::Real(bits)),
        GenericValue::Float(bits)
    );
    match coerce(WireType::Float8, RawCell::Real(bits)) {
        GenericValue::Float(b) => assert_eq!(f64::from_bits(b), 3.25),
        other => panic!("expected a float, got {:?}", other),
    }
}

#[test]
fn coerce_bool_and_bytes_keep_payload() {
    assert_eq!(
        coerce(WireType::Bool, RawCell::Flag(true)),
        GenericValue::Boolean(true)
    );
    assert_eq!(
        coerce(WireType::Bytea, RawCell::Bytes(vec![1, 2, 3])),
        GenericValue::Binary(vec![1, 2, 3])
    );
}

#[test]
fn coerce_unsupported_wire_type_is_nothing() {
    assert_eq!(
        coerce(WireType::Unsupported, RawCell::Text("x".to_string())),
        GenericValue::Nothing
    );
    assert_eq!(
        coerce(WireType::Unsupported, RawCell::Int(5)),
        GenericValue::Nothing
    );
    assert_eq!(
        coerce(WireType::Unsupported, RawCell::Absent),
        GenericValue::Nothing
    );
}

#[test]
fn coerce_mismatched_cell_is_nothing() {
    assert_eq!(
        coerce(WireType::Int4, RawCell::Text("5".to_string())),
        GenericValue::Nothing
    );
    assert_eq!(
        coerce(WireType::Text, RawCell::Int(5)),
        GenericValue::Nothing
    );
    assert_eq!(
        coerce(WireType::Int2, RawCell::BigInt(5)),
        GenericValue::Nothing
    );
}

#[test]
fn coerce_absent_cell_is_nothing() {
    assert_eq!(coerce(WireType::Text, RawCell::Absent), GenericValue::Nothing);
    assert_eq!(coerce(WireType::Bool, RawCell::Absent), GenericValue::Nothing);
    assert_eq!(coerce(WireType::Bytea, RawCell::Absent), GenericValue::Nothing);
}

#[test]
fn error_messages_are_labeled() {
    let c = QueryError::Connection("could not reach host".to_string());
    assert_eq!(c.message(), "connection error: could not reach host");
    let p = QueryError::Prepare("syntax error at or near".to_string());
    assert_eq!(p.message(), "prepare error: syntax error at or near");
    let e = QueryError::Execution("permission denied".to_string());
    assert_eq!(e.message(), "execution error: permission denied");
}

#[test]
fn new_state_is_not_ready() {
    let p = Psql::new();
    assert!(p.conn.is_none());
    assert!(p.query.is_none());
    assert!(!p.ready());
}

#[test]
fn state_with_both_arguments_is_ready() {
    let mut p = Psql::new();
    p.conn = Some("host=localhost user=postgres".to_string());
    assert!(!p.ready());
    p.query = Some("SELECT 1".to_string());
    assert!(p.ready());
}
