//! The mapper's guarantees, stated and proved once for all inputs.

use vstd::prelude::*;

use crate::mapper::ColumnModel;
use crate::mapper::cell_at;
use crate::mapper::cell_value_model;
use crate::mapper::record_model;
use crate::mapper::result_model;
use crate::record::FieldModel;
use crate::record::field_insert;
use crate::record::lemma_field_insert_missing;
use crate::record::lemma_field_insert_unique;
use crate::record::unique_names;
use crate::value::CellModel;
use crate::value::ValueModel;
use crate::value::WireType;
use crate::value::coerce_model;
use crate::value::wire_of_oid;

verus! {

/// Whether a decoded cell's payload is the one its wire type decodes to:
/// the pairings of the supported coercion table.
pub open spec fn matches_wire(w: WireType, c: CellModel) -> bool {
    match (w, c) {
        (WireType::Text, CellModel::Text(_)) => true,
        (WireType::Varchar, CellModel::Text(_)) => true,
        (WireType::Int2, CellModel::SmallInt(_)) => true,
        (WireType::Int4, CellModel::Int(_)) => true,
        (WireType::Int8, CellModel::BigInt(_)) => true,
        (WireType::Float4, CellModel::Real(_)) => true,
        (WireType::Float8, CellModel::Real(_)) => true,
        (WireType::Bool, CellModel::Flag(_)) => true,
        (WireType::Bytea, CellModel::Bytes(_)) => true,
        _ => false,
    }
}

/// Law: under a supported wire type, a matching payload is carried into the
/// generic value unchanged — the variant follows the wire type's kind and
/// the payload is the decoded value itself.
pub proof fn lemma_coerce_supported(w: WireType, c: CellModel)
    requires
        matches_wire(w, c),
    ensures
        coerce_model(w, c) != ValueModel::Nothing,
        c matches CellModel::Text(s) ==> coerce_model(w, c) == ValueModel::Text(s),
        c matches CellModel::SmallInt(n) ==> coerce_model(w, c) == ValueModel::Integer(n as i64),
        c matches CellModel::Int(n) ==> coerce_model(w, c) == ValueModel::Integer(n as i64),
        c matches CellModel::BigInt(n) ==> coerce_model(w, c) == ValueModel::Integer(n),
        c matches CellModel::Real(b) ==> coerce_model(w, c) == ValueModel::Float(b),
        c matches CellModel::Flag(b) ==> coerce_model(w, c) == ValueModel::Boolean(b),
        c matches CellModel::Bytes(v) ==> coerce_model(w, c) == ValueModel::Binary(v),
{
}

/// Law: an unsupported wire type (numeric, date, time, timestamp, or any
/// other unrecognized OID) or a mismatched, undecodable or absent cell
/// always coerces to `Nothing` — never to a failure.
pub proof fn lemma_coerce_miss_is_nothing(w: WireType, c: CellModel)
    requires
        !matches_wire(w, c),
    ensures
        coerce_model(w, c) == ValueModel::Nothing,
{
}

/// Law: a single-column row maps to a record with exactly one field: the
/// column's name and its coerced cell.
pub proof fn lemma_single_column_record(col: ColumnModel, cells: Seq<CellModel>)
    ensures
        record_model(seq![col], cells) =~= seq![
            (col.name, cell_value_model(col, cells, 0)),
        ],
{
    let cols = seq![col];
    assert(cols.drop_last() =~= Seq::<ColumnModel>::empty());
    assert(cols.last() == col);
    assert(record_model(Seq::empty(), cells) =~= Seq::<FieldModel>::empty());
}

/// Law: with pairwise-distinct column names, the record has exactly one
/// field per column, in metadata order, each carrying that column's coerced
/// cell — for any column count, zero included.
pub proof fn lemma_record_order(cols: Seq<ColumnModel>, cells: Seq<CellModel>)
    requires
        forall|i: int, j: int| 0 <= i < j < cols.len() ==> cols[i].name != cols[j].name,
    ensures
        record_model(cols, cells).len() == cols.len(),
        forall|i: int|
            0 <= i < cols.len() ==> record_model(cols, cells)[i] == (
                cols[i].name,
                cell_value_model(cols[i], cells, i),
            ),
    decreases cols.len(),
{
    if cols.len() == 0 {
    } else {
        let prev_cols = cols.drop_last();
        let last = cols.last();
        assert(forall|i: int, j: int|
            0 <= i < j < prev_cols.len() ==> prev_cols[i].name != prev_cols[j].name);
        lemma_record_order(prev_cols, cells);
        let prev = record_model(prev_cols, cells);
        let v = cell_value_model(last, cells, cols.len() - 1);
        assert forall|k: int| 0 <= k < prev.len() implies prev[k].0 != last.name by {
            assert(prev[k] == (prev_cols[k].name, cell_value_model(prev_cols[k], cells, k)));
            assert(cols[k].name != cols[cols.len() - 1].name);
        }
        lemma_field_insert_missing(prev, last.name, v);
        assert(record_model(cols, cells) == field_insert(prev, last.name, v));
        assert forall|i: int| 0 <= i < cols.len() implies record_model(cols, cells)[i] == (
            cols[i].name,
            cell_value_model(cols[i], cells, i),
        ) by {
            if i < cols.len() - 1 {
                assert(record_model(cols, cells)[i] == prev[i]);
                assert(prev_cols[i] == cols[i]);
            }
        }
    }
}

/// Law: when two columns share one name, the record keeps one field, at the
/// first column's position, holding the later column's value — last write
/// wins.
pub proof fn lemma_duplicate_name_last_wins(
    c1: ColumnModel,
    c2: ColumnModel,
    cells: Seq<CellModel>,
)
    requires
        c1.name == c2.name,
    ensures
        record_model(seq![c1, c2], cells) =~= seq![
            (c1.name, cell_value_model(c2, cells, 1)),
        ],
{
    let cols = seq![c1, c2];
    assert(cols.drop_last() =~= seq![c1]);
    lemma_single_column_record(c1, cells);
    let prev = record_model(seq![c1], cells);
    assert(prev[0].0 == c1.name);
    assert(cols.last() == c2);
    assert(record_model(cols, cells) == field_insert(prev, c2.name, cell_value_model(c2, cells, 1)));
    assert(field_insert(prev, c2.name, cell_value_model(c2, cells, 1)) =~= seq![
        (c2.name, cell_value_model(c2, cells, 1)),
    ]);
}

/// Law: an empty result set maps to an empty record sequence, for any
/// column metadata — never to a failure.
pub proof fn lemma_empty_result(cols: Seq<ColumnModel>, rows: Seq<Seq<CellModel>>)
    requires
        rows.len() == 0,
    ensures
        result_model(cols, rows) == Seq::<Seq<FieldModel>>::empty(),
{
    assert(result_model(cols, rows) =~= Seq::<Seq<FieldModel>>::empty());
}

/// Law: row count and order are preserved: the output has exactly one
/// record per row, and the record at position `i` is the mapping of the row
/// at position `i`.
pub proof fn lemma_rows_preserved(cols: Seq<ColumnModel>, rows: Seq<Seq<CellModel>>)
    ensures
        result_model(cols, rows).len() == rows.len(),
        forall|i: int|
            0 <= i < rows.len() ==> result_model(cols, rows)[i] == record_model(cols, rows[i]),
{
}

/// Law: every record the mapper produces keeps its field names unique — it
/// is a genuine mapping — whatever the columns and cells, duplicates in the
/// metadata included.
pub proof fn lemma_record_names_unique(cols: Seq<ColumnModel>, cells: Seq<CellModel>)
    ensures
        unique_names(record_model(cols, cells)),
    decreases cols.len(),
{
    if cols.len() == 0 {
    } else {
        lemma_record_names_unique(cols.drop_last(), cells);
        lemma_field_insert_unique(
            record_model(cols.drop_last(), cells),
            cols.last().name,
            cell_value_model(cols.last(), cells, cols.len() - 1),
        );
    }
}

/// Law: a cell position beyond the row's width counts as absent and so
/// coerces to `Nothing`, whatever the column's wire type.
pub proof fn lemma_short_row_is_nothing(col: ColumnModel, cells: Seq<CellModel>, i: int)
    requires
        i >= cells.len(),
    ensures
        cell_value_model(col, cells, i) == ValueModel::Nothing,
{
    assert(cell_at(cells, i) == CellModel::Absent);
}

} // verus!
