//! Tests of record assembly and whole-result mapping: field order, row
//! order, duplicate names, empty results, and the spec'd scenarios.

use nu_psql::mapper::ColumnMeta;
use nu_psql::mapper::map_result;
use nu_psql::mapper::map_row;
use nu_psql::record::Record;
use nu_psql::value::GenericValue;
use nu_psql::value::RawCell;

fn col(name: &str, oid: u32) -> ColumnMeta {
    ColumnMeta {
        name: name.to_string(),
        oid,
    }
}

fn field_names(r: &Record) -> Vec<String> {
    r.fields().iter().map(|(n, _)| n.clone()).collect()
}

fn field_values(r: &Record) -> Vec<GenericValue> {
    r.fields().iter().map(|(_, v)| v.clone()).collect()
}

#[test]
fn single_text_column_single_row() {
    // One TEXT column, one row: exactly one entry, name and payload kept.
    let columns = vec![col("greeting", 25)];
    let rows = vec![vec![RawCell::Text("hi".to_string())]];
    let records = map_result(&columns, &rows);
    assert_eq!(records.len(), 1);
    assert_eq!(records[0].len(), 1);
    assert_eq!(field_names(&records[0]), vec!["greeting".to_string()]);
    assert_eq!(
        field_values(&records[0]),
        vec![GenericValue::Text("hi".to_string())]
    );
}

#[test]
fn literal_text_query_scenario() {
    // A fixed-literal query such as `SELECT 'hello world'` returns a single
    // TEXT column under the server's chosen name; the record must match that
    // single column name and carry the literal as a string.
    let columns = vec![col("?column?", 25)];
    let rows = vec![vec![RawCell::Text("hello world".to_string())]];
    let records = map_result(&columns, &rows);
    assert_eq!(records.len(), 1);
    let fields = records[0].fields();
    assert_eq!(fields.len(), 1);
    assert_eq!(fields[0].0, "?column?");
    assert_eq!(fields[0].1, GenericValue::Text("hello world".to_string()));
}

#[test]
fn three_column_row_scenario() {
    // Columns (id INT4, name TEXT, active BOOL) with row (7, "alice", true).
    let columns = vec![col("id", 23), col("name", 25), col("active", 16)];
    let row = vec![
        RawCell::Int(7),
        RawCell::Text("alice".to_string()),
        RawCell::Flag(true),
    ];
    let record = map_row(&columns, &row);
    assert_eq!(
        field_names(&record),
        vec!["id".to_string(), "name".to_string(), "active".to_string()]
    );
    assert_eq!(
        field_values(&record),
        vec![
            GenericValue::Integer(7),
            GenericValue::Text("alice".to_string()),
            GenericValue::Boolean(true),
        ]
    );
}

#[test]
fn field_order_follows_column_order() {
    let columns = vec![col("c", 25), col("a", 23), col("b", 16)];
    let row = vec![
        RawCell::Text("x".to_string()),
        RawCell::Int(1),
        RawCell::Flag(false),
    ];
    let record = map_row(&columns, &row);
    assert_eq!(
        field_names(&record),
        vec!["c".to_string(), "a".to_string(), "b".to_string()]
    );
}

#[test]
fn zero_columns_map_to_empty_record() {
    let columns: Vec<ColumnMeta> = vec![];
    let row: Vec<RawCell> = vec![];
    let record = map_row(&columns, &row);
    assert_eq!(record.len(), 0);
}

#[test]
fn duplicate_column_names_last_write_wins() {
    // Columns ["a", "a"] with values (1, 2): one field `a` holding 2.
    let columns = vec![col("a", 23), col("a", 23)];
    let row = vec![RawCell::Int(1), RawCell::Int(2)];
    let record = map_row(&columns, &row);
    assert_eq!(record.len(), 1);
    assert_eq!(field_names(&record), vec!["a".to_string()]);
    assert_eq!(field_values(&record), vec![GenericValue::Integer(2)]);
}

#[test]
fn unsupported_column_yields_nothing_without_aborting() {
    // A numeric column (OID 1700) is unsupported: its cell resolves to
    // Nothing while the supported neighbour still decodes.
    let columns = vec![col("amount", 1700), col("label", 25)];
    let row = vec![
        RawCell::Absent,
        RawCell::Text("kept".to_string()),
    ];
    let record = map_row(&columns, &row);
    assert_eq!(
        field_values(&record),
        vec![
            GenericValue::Nothing,
            GenericValue::Text("kept".to_string()),
        ]
    );
}

#[test]
fn short_row_pads_with_nothing() {
    let columns = vec![col("a", 25), col("b", 25)];
    let row = vec![RawCell::Text("only".to_string())];
    let record = map_row(&columns, &row);
    assert_eq!(record.len(), 2);
    assert_eq!(
        field_values(&record),
        vec![
            GenericValue::Text("only".to_string()),
            GenericValue::Nothing,
        ]
    );
}

#[test]
fn empty_result_set_maps_to_no_records() {
    // Zero rows map to an empty record sequence, not an error, whatever the
    // column metadata says.
    let columns = vec![col("id", 23), col("name", 25)];
    let rows: Vec<Vec<RawCell>> = vec![];
    let records = map_result(&columns, &rows);
    assert!(records.is_empty());
}

#[test]
fn row_count_and_order_preserved() {
    let columns = vec![col("n", 23)];
    let rows = vec![
        vec![RawCell::Int(10)],
        vec![RawCell::Int(20)],
        vec![RawCell::Int(30)],
    ];
    let records = map_result(&columns, &rows);
    assert_eq!(records.len(), 3);
    for (i, expected) in [10, 20, 30].iter().enumerate() {
        assert_eq!(
            field_values(&records[i]),
            vec![GenericValue::Integer(*expected)]
        );
    }
}

#[test]
fn record_insert_appends_and_overwrites() {
    let mut r = Record::new();
    r.insert("x".to_string(), GenericValue::Integer(1));
    r.insert("y".to_string(), GenericValue::Boolean(false));
    assert_eq!(r.len(), 2);
    r.insert("x".to_string(), GenericValue::Integer(9));
    assert_eq!(r.len(), 2);
    assert_eq!(
        field_names(&r),
        vec!["x".to_string(), "y".to_string()]
    );
    assert_eq!(
        field_values(&r),
        vec![GenericValue::Integer(9), GenericValue::Boolean(false)]
    );
}
