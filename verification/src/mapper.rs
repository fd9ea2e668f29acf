//! The row mapper: a pure, order-preserving transform from column metadata
//! and decoded cells to a sequence of records.
//!
//! For each row, columns are walked in metadata order and `(name, coerced
//! value)` is inserted into the record in that order; a repeated column name
//! overwrites the earlier value in place (last write wins). Rows map one to
//! one and in order.

use vstd::prelude::*;

use crate::record::Record;
use crate::record::FieldModel;
use crate::record::field_insert;
use crate::value::CellModel;
use crate::value::RawCell;
use crate::value::ValueModel;
use crate::value::coerce;
use crate::value::coerce_model;
use crate::value::wire_of_oid;
use crate::value::wire_type_from_oid;

verus! {

/// One column of a prepared query: its name and the type OID the server
/// attached to it.
pub struct ColumnMeta {
    pub name: String,
    pub oid: u32,
}

/// Mathematical model of a column: name and type OID.
pub struct ColumnModel {
    pub name: Seq<char>,
    pub oid: u32,
}

impl View for ColumnMeta {
    type V = ColumnModel;

    open spec fn view(&self) -> ColumnModel {
        ColumnModel { name: self.name@, oid: self.oid }
    }
}

impl DeepView for ColumnMeta {
    type V = ColumnModel;

    open spec fn deep_view(&self) -> ColumnModel {
        self.view()
    }
}

/// The cell at position `i`, or `Absent` when the row has no such position.
pub open spec fn cell_at(cells: Seq<CellModel>, i: int) -> CellModel {
    if 0 <= i < cells.len() {
        cells[i]
    } else {
        CellModel::Absent
    }
}

/// The generic value that column `col` contributes from position `i` of a
/// row: its cell coerced under the column's wire type.
pub open spec fn cell_value_model(col: ColumnModel, cells: Seq<CellModel>, i: int) -> ValueModel {
    coerce_model(wire_of_oid(col.oid), cell_at(cells, i))
}

/// The record one row maps to: fields inserted in column order, so that a
/// repeated name keeps its first position and takes the last value.
pub open spec fn record_model(cols: Seq<ColumnModel>, cells: Seq<CellModel>) -> Seq<FieldModel>
    decreases cols.len(),
{
    if cols.len() == 0 {
        Seq::empty()
    } else {
        field_insert(
            record_model(cols.drop_last(), cells),
            cols.last().name,
            cell_value_model(cols.last(), cells, cols.len() - 1),
        )
    }
}

/// The record sequence a result set maps to: one record per row, in order.
pub open spec fn result_model(cols: Seq<ColumnModel>, rows: Seq<Seq<CellModel>>) -> Seq<
    Seq<FieldModel>,
> {
    rows.map_values(|cells: Seq<CellModel>| record_model(cols, cells))
}

/// Maps one row of decoded cells to a record, walking the columns in
/// metadata order. A missing cell position coerces to `Nothing`, as an
/// undecodable cell does.
pub fn map_row(columns: &Vec<ColumnMeta>, cells: &Vec<RawCell>) -> (r: Record)
    ensures
        r@ == record_model(columns.deep_view(), cells.deep_view()),
{
    let ghost colsm = columns.deep_view();
    let ghost cellsm = cells.deep_view();
    let mut r = Record::new();
    proof {
        assert(colsm.take(0) =~= Seq::<ColumnModel>::empty());
    }
    let n = columns.len();
    for i in 0..n
        invariant
            n == columns.len(),
            colsm == columns.deep_view(),
            cellsm == cells.deep_view(),
            r@ == record_model(colsm.take(i as int), cellsm),
    {
        let cell: RawCell = if i < cells.len() {
            cells[i].clone()
        } else {
            RawCell::Absent
        };
        proof {
            assert(cell@ == cell_at(cellsm, i as int));
        }
        let w = wire_type_from_oid(columns[i].oid);
        let v = coerce(w, cell);
        r.insert(columns[i].name.clone(), v);
        proof {
            let pre = colsm.take(i as int);
            let now = colsm.take(i + 1);
            assert(now.drop_last() =~= pre);
            assert(now.last() == colsm[i as int]);
            assert(colsm[i as int] == columns@[i as int]@);
        }
    }
    proof {
        assert(colsm.take(n as int) =~= colsm);
    }
    r
}

/// Maps a whole result set: one record per row, rows in the order the
/// server returned them. An empty result set maps to an empty sequence.
pub fn map_result(columns: &Vec<ColumnMeta>, rows: &Vec<Vec<RawCell>>) -> (out: Vec<Record>)
    ensures
        out.deep_view() == result_model(columns.deep_view(), rows.deep_view()),
{
    let ghost colsm = columns.deep_view();
    let ghost rowsm = rows.deep_view();
    let mut out: Vec<Record> = Vec::new();
    let n = rows.len();
    for i in 0..n
        invariant
            n == rows.len(),
            colsm == columns.deep_view(),
            rowsm == rows.deep_view(),
            out.deep_view() =~= result_model(colsm, rowsm.take(i as int)),
    {
        let rec = map_row(columns, &rows[i]);
        out.push(rec);
        proof {
            assert(rows@[i as int].deep_view() == rowsm[i as int]);
            assert(result_model(colsm, rowsm.take(i + 1)) =~= result_model(
                colsm,
                rowsm.take(i as int),
            ).push(record_model(colsm, rowsm[i as int])));
            assert(out.deep_view() =~= result_model(colsm, rowsm.take(i + 1)));
        }
    }
    proof {
        assert(rowsm.take(n as int) =~= rowsm);
        assert(out.deep_view() =~= result_model(colsm, rowsm));
        assert(out.deep_view() == result_model(colsm, rowsm));
    }
    out
}

} // verus!
