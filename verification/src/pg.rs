//! The trusted boundary to the PostgreSQL client: decoding one cell of a
//! returned row, and the verified mapping of whole rows to records.
//!
//! A `postgres::Row` is opaque here; what each decode attempt returns is
//! given a name per target type, and every wrapper's contract speaks of that
//! name. `try_get` decodes the cell's wire bytes, so its result depends on
//! the row's data and the index alone; it returns `Err` — never panics — on
//! an out-of-range index, a column of another type, a NULL, or undecodable
//! bytes, and every such failure maps to an absent cell.

use vstd::prelude::*;

use crate::mapper::ColumnMeta;
use crate::mapper::ColumnModel;
use crate::mapper::record_model;
use crate::mapper::result_model;
use crate::record::Record;
use crate::value::CellModel;
use crate::value::RawCell;
use crate::value::WireType;
use crate::value::wire_of_oid;
use crate::value::wire_type_from_oid;

verus! {

#[verifier::external_type_specification]
#[verifier::external_body]
pub struct ExRow(postgres::Row);

/// Cell `i` decoded as text, when it holds one.
pub uninterp spec fn text_at(r: postgres::Row, i: int) -> Option<Seq<char>>;

/// Cell `i` decoded as a 16-bit integer, when it holds one.
pub uninterp spec fn small_int_at(r: postgres::Row, i: int) -> Option<i16>;

/// Cell `i` decoded as a 32-bit integer, when it holds one.
pub uninterp spec fn int_at(r: postgres::Row, i: int) -> Option<i32>;

/// Cell `i` decoded as a 64-bit integer, when it holds one.
pub uninterp spec fn big_int_at(r: postgres::Row, i: int) -> Option<i64>;

/// Cell `i` decoded as a boolean, when it holds one.
pub uninterp spec fn bool_at(r: postgres::Row, i: int) -> Option<bool>;

/// Cell `i` decoded as a byte array, when it holds one.
pub uninterp spec fn bytes_at(r: postgres::Row, i: int) -> Option<Seq<u8>>;

/// Relies on `postgres::Row::try_get::<usize, String>`: decodes cell `i` as
/// text (accepted for TEXT and VARCHAR columns); any failure is `None`.
#[verifier::external_body]
fn cell_text(row: &postgres::Row, i: usize) -> (r: Option<String>)
    ensures
        (match (r, text_at(*row, i as int)) {
            (Some(s), Some(m)) => s@ == m,
            (None, None) => true,
            _ => false,
        }),
{
    row.try_get::<usize, String>(i).ok()
}

/// Relies on `postgres::Row::try_get::<usize, i16>`: decodes cell `i` of an
/// INT2 column; any failure is `None`.
#[verifier::external_body]
fn cell_small_int(row: &postgres::Row, i: usize) -> (r: Option<i16>)
    ensures
        r == small_int_at(*row, i as int),
{
    row.try_get::<usize, i16>(i).ok()
}

/// Relies on `postgres::Row::try_get::<usize, i32>`: decodes cell `i` of an
/// INT4 column; any failure is `None`.
#[verifier::external_body]
fn cell_int(row: &postgres::Row, i: usize) -> (r: Option<i32>)
    ensures
        r == int_at(*row, i as int),
{
    row.try_get::<usize, i32>(i).ok()
}

/// Relies on `postgres::Row::try_get::<usize, i64>`: decodes cell `i` of an
/// INT8 column; any failure is `None`.
#[verifier::external_body]
fn cell_big_int(row: &postgres::Row, i: usize) -> (r: Option<i64>)
    ensures
        r == big_int_at(*row, i as int),
{
    row.try_get::<usize, i64>(i).ok()
}

/// Relies on `postgres::Row::try_get::<usize, bool>`: decodes cell `i` of a
/// BOOL column; any failure is `None`.
#[verifier::external_body]
fn cell_bool(row: &postgres::Row, i: usize) -> (r: Option<bool>)
    ensures
        r == bool_at(*row, i as int),
{
    row.try_get::<usize, bool>(i).ok()
}

/// Relies on `postgres::Row::try_get::<usize, Vec<u8>>`: decodes cell `i` of
/// a BYTEA column; any failure is `None`.
#[verifier::external_body]
fn cell_bytes(row: &postgres::Row, i: usize) -> (r: Option<Vec<u8>>)
    ensures
        (match (r, bytes_at(*row, i as int)) {
            (Some(v), Some(m)) => v@ == m,
            (None, None) => true,
            _ => false,
        }),
{
    row.try_get::<usize, Vec<u8>>(i).ok()
}

/// The decoded cell that position `i` of `row` yields under wire type `w`:
/// the named decode result for supported types, `Absent` for unsupported
/// ones and for every failed decode.
///
/// Verified code cannot hold floating-point values, so the two float wire
/// types take their decoded bit pattern `f` from the caller (see
/// [`map_rows`]); every other wire type decodes here.
pub open spec fn cell_model_at(row: postgres::Row, i: int, w: WireType, f: Option<u64>) -> CellModel {
    match w {
        WireType::Text => match text_at(row, i) {
            Some(s) => CellModel::Text(s),
            None => CellModel::Absent,
        },
        WireType::Varchar => match text_at(row, i) {
            Some(s) => CellModel::Text(s),
            None => CellModel::Absent,
        },
        WireType::Int2 => match small_int_at(row, i) {
            Some(n) => CellModel::SmallInt(n),
            None => CellModel::Absent,
        },
        WireType::Int4 => match int_at(row, i) {
            Some(n) => CellModel::Int(n),
            None => CellModel::Absent,
        },
        WireType::Int8 => match big_int_at(row, i) {
            Some(n) => CellModel::BigInt(n),
            None => CellModel::Absent,
        },
        WireType::Float4 => match f {
            Some(b) => CellModel::Real(b),
            None => CellModel::Absent,
        },
        WireType::Float8 => match f {
            Some(b) => CellModel::Real(b),
            None => CellModel::Absent,
        },
        WireType::Bool => match bool_at(row, i) {
            Some(b) => CellModel::Flag(b),
            None => CellModel::Absent,
        },
        WireType::Bytea => match bytes_at(row, i) {
            Some(v) => CellModel::Bytes(v),
            None => CellModel::Absent,
        },
        WireType::Unsupported => CellModel::Absent,
    }
}

/// Decodes cell `i` of `row` under wire type `w`: dispatches to the decoder
/// for `w`'s payload type, and yields `Absent` for an unsupported type or a
/// failed decode. For the two float wire types the caller supplies the
/// decoded bit pattern `f`.
pub fn read_cell(row: &postgres::Row, i: usize, w: WireType, f: Option<u64>) -> (c: RawCell)
    ensures
        c@ == cell_model_at(*row, i as int, w, f),
{
    match w {
        WireType::Text | WireType::Varchar => match cell_text(row, i) {
            Some(s) => RawCell::Text(s),
            None => RawCell::Absent,
        },
        WireType::Int2 => match cell_small_int(row, i) {
            Some(n) => RawCell::SmallInt(n),
            None => RawCell::Absent,
        },
        WireType::Int4 => match cell_int(row, i) {
            Some(n) => RawCell::Int(n),
            None => RawCell::Absent,
        },
        WireType::Int8 => match cell_big_int(row, i) {
            Some(n) => RawCell::BigInt(n),
            None => RawCell::Absent,
        },
        WireType::Float4 | WireType::Float8 => match f {
            Some(b) => RawCell::Real(b),
            None => RawCell::Absent,
        },
        WireType::Bool => match cell_bool(row, i) {
            Some(b) => RawCell::Flag(b),
            None => RawCell::Absent,
        },
        WireType::Bytea => match cell_bytes(row, i) {
            Some(v) => RawCell::Bytes(v),
            None => RawCell::Absent,
        },
        WireType::Unsupported => RawCell::Absent,
    }
}

/// The float bit pattern the caller supplied for position `i`, or `None`
/// when the table has no such position.
pub open spec fn float_bits_at(frow: Seq<Option<u64>>, i: int) -> Option<u64> {
    if 0 <= i < frow.len() {
        frow[i]
    } else {
        None
    }
}

/// The decoded cells one returned row contributes, one per column, each
/// under its column's wire type; `frow` holds the caller-decoded float bits
/// for this row.
pub open spec fn row_cells_model(
    row: postgres::Row,
    cols: Seq<ColumnModel>,
    frow: Seq<Option<u64>>,
) -> Seq<CellModel> {
    Seq::new(
        cols.len(),
        |i: int| cell_model_at(row, i, wire_of_oid(cols[i].oid), float_bits_at(frow, i)),
    )
}

/// Decodes one returned row into cells, one per column in metadata order;
/// `frow` holds the caller-decoded float bits for this row.
pub fn read_row(columns: &Vec<ColumnMeta>, row: &postgres::Row, frow: &Vec<Option<u64>>) -> (cells:
    Vec<RawCell>)
    ensures
        cells.deep_view() == row_cells_model(*row, columns.deep_view(), frow@),
{
    let ghost colsm = columns.deep_view();
    let mut cells: Vec<RawCell> = Vec::new();
    let n = columns.len();
    for i in 0..n
        invariant
            n == columns.len(),
            colsm == columns.deep_view(),
            cells@.len() == i,
            cells.deep_view() =~= row_cells_model(*row, colsm, frow@).take(i as int),
    {
        let w = wire_type_from_oid(columns[i].oid);
        let f: Option<u64> = if i < frow.len() {
            frow[i]
        } else {
            None
        };
        let c = read_cell(row, i, w, f);
        cells.push(c);
        proof {
            let model = row_cells_model(*row, colsm, frow@);
            assert(colsm[i as int] == columns@[i as int]@);
            assert(f == float_bits_at(frow@, i as int));
            assert(model[i as int] == cell_model_at(
                *row,
                i as int,
                wire_of_oid(colsm[i as int].oid),
                float_bits_at(frow@, i as int),
            ));
            assert(c@ == model[i as int]);
            assert(model.take(i + 1) =~= model.take(i as int).push(model[i as int]));
            assert(cells.deep_view() =~= model.take(i + 1));
        }
    }
    proof {
        assert(row_cells_model(*row, colsm, frow@).take(n as int) =~= row_cells_model(
            *row,
            colsm,
            frow@,
        ));
        assert(cells.deep_view() == row_cells_model(*row, colsm, frow@));
    }
    cells
}

/// The float row the caller supplied for row `i`, or an empty one when the
/// table has no such row.
pub open spec fn float_row_at(floats: Seq<Seq<Option<u64>>>, i: int) -> Seq<Option<u64>> {
    if 0 <= i < floats.len() {
        floats[i]
    } else {
        Seq::empty()
    }
}

/// The decoded cells of a whole set of returned rows, in order.
pub open spec fn rows_model(
    rows: Seq<postgres::Row>,
    cols: Seq<ColumnModel>,
    floats: Seq<Seq<Option<u64>>>,
) -> Seq<Seq<CellModel>> {
    Seq::new(rows.len(), |i: int| row_cells_model(rows[i], cols, float_row_at(floats, i)))
}

/// Maps the returned rows of a query to records: each cell is decoded under
/// its column's wire type and coerced to a generic value; rows map one to
/// one and in the order the server produced them, and zero rows map to zero
/// records.
///
/// Verified code cannot hold floating-point values, so the caller decodes
/// FLOAT4 and FLOAT8 cells itself and passes their bit patterns in `floats`
/// (one entry per row and column, `None` outside float columns and for every
/// failed decode; missing positions count as `None`). Every other cell is
/// decoded here, and the whole mapping is verified for every value of
/// `floats`.
pub fn map_rows(
    columns: &Vec<ColumnMeta>,
    rows: &Vec<postgres::Row>,
    floats: &Vec<Vec<Option<u64>>>,
) -> (out: Vec<Record>)
    ensures
        out.deep_view() == result_model(
            columns.deep_view(),
            rows_model(rows@, columns.deep_view(), floats.deep_view()),
        ),
        out@.len() == rows@.len(),
{
    let ghost colsm = columns.deep_view();
    let ghost rowsm = rows_model(rows@, colsm, floats.deep_view());
    let mut out: Vec<Record> = Vec::new();
    let empty_frow: Vec<Option<u64>> = Vec::new();
    let n = rows.len();
    for i in 0..n
        invariant
            n == rows.len(),
            colsm == columns.deep_view(),
            rowsm == rows_model(rows@, colsm, floats.deep_view()),
            empty_frow@ == Seq::<Option<u64>>::empty(),
            out@.len() == i,
            out.deep_view() =~= result_model(colsm, rowsm.take(i as int)),
    {
        let frow: &Vec<Option<u64>> = if i < floats.len() {
            &floats[i]
        } else {
            &empty_frow
        };
        proof {
            assert(frow@ =~= float_row_at(floats.deep_view(), i as int));
        }
        let cells = read_row(columns, &rows[i], frow);
        let rec = crate::mapper::map_row(columns, &cells);
        out.push(rec);
        proof {
            assert(rowsm[i as int] == row_cells_model(
                rows@[i as int],
                colsm,
                float_row_at(floats.deep_view(), i as int),
            ));
            assert(result_model(colsm, rowsm.take(i + 1)) =~= result_model(
                colsm,
                rowsm.take(i as int),
            ).push(record_model(colsm, rowsm[i as int])));
            assert(out.deep_view() =~= result_model(colsm, rowsm.take(i + 1)));
        }
    }
    proof {
        assert(rowsm.take(n as int) =~= rowsm);
        assert(out.deep_view() =~= result_model(colsm, rowsm));
        assert(out.deep_view() == result_model(colsm, rowsm));
    }
    out
}

} // verus!
