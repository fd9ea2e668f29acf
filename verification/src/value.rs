//! Wire types, decoded cells, and the generic value model.
//!
//! A column's wire type is identified by the PostgreSQL type OID attached to
//! the prepared statement's metadata. The dispatch from OID to wire type, and
//! the coercion from a decoded cell to a generic value, are the heart of the
//! row mapper and are fully verified.

use vstd::prelude::*;

verus! {

/// Type OID of `BOOL` on the wire.
pub const OID_BOOL: u32 = 16;

/// Type OID of `BYTEA` on the wire.
pub const OID_BYTEA: u32 = 17;

/// Type OID of `INT8` on the wire.
pub const OID_INT8: u32 = 20;

/// Type OID of `INT2` on the wire.
pub const OID_INT2: u32 = 21;

/// Type OID of `INT4` on the wire.
pub const OID_INT4: u32 = 23;

/// Type OID of `TEXT` on the wire.
pub const OID_TEXT: u32 = 25;

/// Type OID of `FLOAT4` on the wire.
pub const OID_FLOAT4: u32 = 700;

/// Type OID of `FLOAT8` on the wire.
pub const OID_FLOAT8: u32 = 701;

/// Type OID of `VARCHAR` on the wire.
pub const OID_VARCHAR: u32 = 1043;

/// The closed set of wire types this mapper decodes, plus a catch-all for
/// every other type OID (numeric, date, time, timestamp, ...), which always
/// coerces to an absent value.
#[derive(Clone, Copy, Debug, PartialEq, Eq, Structural)]
pub enum WireType {
    Text,
    Varchar,
    Int2,
    Int4,
    Int8,
    Float4,
    Float8,
    Bool,
    Bytea,
    Unsupported,
}

/// The dispatch table from a column's type OID to its wire type.
pub open spec fn wire_of_oid(oid: u32) -> WireType {
    if oid == OID_TEXT {
        WireType::Text
    } else if oid == OID_VARCHAR {
        WireType::Varchar
    } else if oid == OID_INT2 {
        WireType::Int2
    } else if oid == OID_INT4 {
        WireType::Int4
    } else if oid == OID_INT8 {
        WireType::Int8
    } else if oid == OID_FLOAT4 {
        WireType::Float4
    } else if oid == OID_FLOAT8 {
        WireType::Float8
    } else if oid == OID_BOOL {
        WireType::Bool
    } else if oid == OID_BYTEA {
        WireType::Bytea
    } else {
        WireType::Unsupported
    }
}

/// Maps a column's type OID to the wire type the mapper will decode it as.
/// Every OID outside the supported set lands on `WireType::Unsupported`.
pub fn wire_type_from_oid(oid: u32) -> (w: WireType)
    ensures
        w == wire_of_oid(oid),
{
    if oid == OID_TEXT {
        WireType::Text
    } else if oid == OID_VARCHAR {
        WireType::Varchar
    } else if oid == OID_INT2 {
        WireType::Int2
    } else if oid == OID_INT4 {
        WireType::Int4
    } else if oid == OID_INT8 {
        WireType::Int8
    } else if oid == OID_FLOAT4 {
        WireType::Float4
    } else if oid == OID_FLOAT8 {
        WireType::Float8
    } else if oid == OID_BOOL {
        WireType::Bool
    } else if oid == OID_BYTEA {
        WireType::Bytea
    } else {
        WireType::Unsupported
    }
}

/// What one decode attempt on one cell produced: a typed payload when the
/// cell decoded under its column's wire type, or `Absent` when the cell was
/// NULL, undecodable, type-mismatched, or out of range.
///
/// Floating-point cells are carried as the IEEE 754 bit pattern of the value
/// widened to 64 bits, so that the verified core stays free of float
/// arithmetic; the boundary converts with `f64::to_bits`/`from_bits`.
#[derive(Debug, PartialEq, Eq)]
pub enum RawCell {
    Text(String),
    SmallInt(i16),
    Int(i32),
    BigInt(i64),
    Real(u64),
    Flag(bool),
    Bytes(Vec<u8>),
    Absent,
}

/// Mathematical model of a `RawCell`.
pub enum CellModel {
    Text(Seq<char>),
    SmallInt(i16),
    Int(i32),
    BigInt(i64),
    Real(u64),
    Flag(bool),
    Bytes(Seq<u8>),
    Absent,
}

impl View for RawCell {
    type V = CellModel;

    open spec fn view(&self) -> CellModel {
        match self {
            RawCell::Text(s) => CellModel::Text(s@),
            RawCell::SmallInt(n) => CellModel::SmallInt(*n),
            RawCell::Int(n) => CellModel::Int(*n),
            RawCell::BigInt(n) => CellModel::BigInt(*n),
            RawCell::Real(b) => CellModel::Real(*b),
            RawCell::Flag(b) => CellModel::Flag(*b),
            RawCell::Bytes(v) => CellModel::Bytes(v@),
            RawCell::Absent => CellModel::Absent,
        }
    }
}

impl DeepView for RawCell {
    type V = CellModel;

    open spec fn deep_view(&self) -> CellModel {
        self.view()
    }
}

impl Clone for RawCell {
    /// Clones the cell; the clone carries the same model.
    fn clone(&self) -> (r: Self)
        ensures
            r@ == self@,
    {
        match self {
            RawCell::Text(s) => RawCell::Text(s.clone()),
            RawCell::SmallInt(n) => RawCell::SmallInt(*n),
            RawCell::Int(n) => RawCell::Int(*n),
            RawCell::BigInt(n) => RawCell::BigInt(*n),
            RawCell::Real(b) => RawCell::Real(*b),
            RawCell::Flag(b) => RawCell::Flag(*b),
            RawCell::Bytes(v) => {
                let w = v.clone();
                proof {
                    assert(w@ =~= v@);
                }
                RawCell::Bytes(w)
            },
            RawCell::Absent => RawCell::Absent,
        }
    }
}

/// The closed set of generic output value kinds. Exactly one variant is
/// active per instance; a failed or absent coercion always yields `Nothing`.
///
/// `Float` carries the IEEE 754 bit pattern of a 64-bit float (see
/// [`RawCell`]); the boundary renders it with `f64::from_bits`.
#[derive(Debug, PartialEq, Eq)]
pub enum GenericValue {
    Text(String),
    Integer(i64),
    Float(u64),
    Boolean(bool),
    Binary(Vec<u8>),
    Nothing,
}

/// Mathematical model of a `GenericValue`.
pub enum ValueModel {
    Text(Seq<char>),
    Integer(i64),
    Float(u64),
    Boolean(bool),
    Binary(Seq<u8>),
    Nothing,
}

impl View for GenericValue {
    type V = ValueModel;

    open spec fn view(&self) -> ValueModel {
        match self {
            GenericValue::Text(s) => ValueModel::Text(s@),
            GenericValue::Integer(n) => ValueModel::Integer(*n),
            GenericValue::Float(b) => ValueModel::Float(*b),
            GenericValue::Boolean(b) => ValueModel::Boolean(*b),
            GenericValue::Binary(v) => ValueModel::Binary(v@),
            GenericValue::Nothing => ValueModel::Nothing,
        }
    }
}

impl DeepView for GenericValue {
    type V = ValueModel;

    open spec fn deep_view(&self) -> ValueModel {
        self.view()
    }
}

impl Clone for GenericValue {
    /// Clones the value; the clone carries the same model.
    fn clone(&self) -> (r: Self)
        ensures
            r@ == self@,
    {
        match self {
            GenericValue::Text(s) => GenericValue::Text(s.clone()),
            GenericValue::Integer(n) => GenericValue::Integer(*n),
            GenericValue::Float(b) => GenericValue::Float(*b),
            GenericValue::Boolean(b) => GenericValue::Boolean(*b),
            GenericValue::Binary(v) => {
                let w = v.clone();
                proof {
                    assert(w@ =~= v@);
                }
                GenericValue::Binary(w)
            },
            GenericValue::Nothing => GenericValue::Nothing,
        }
    }
}

/// The per-cell coercion table: which generic value a decoded cell yields
/// under a given wire type. Any pairing outside the supported table — an
/// unsupported wire type, a type-mismatched payload, or an absent cell —
/// yields `Nothing`.
pub open spec fn coerce_model(w: WireType, c: CellModel) -> ValueModel {
    match (w, c) {
        (WireType::Text, CellModel::Text(s)) => ValueModel::Text(s),
        (WireType::Varchar, CellModel::Text(s)) => ValueModel::Text(s),
        (WireType::Int2, CellModel::SmallInt(n)) => ValueModel::Integer(n as i64),
        (WireType::Int4, CellModel::Int(n)) => ValueModel::Integer(n as i64),
        (WireType::Int8, CellModel::BigInt(n)) => ValueModel::Integer(n),
        (WireType::Float4, CellModel::Real(b)) => ValueModel::Float(b),
        (WireType::Float8, CellModel::Real(b)) => ValueModel::Float(b),
        (WireType::Bool, CellModel::Flag(b)) => ValueModel::Boolean(b),
        (WireType::Bytea, CellModel::Bytes(v)) => ValueModel::Binary(v),
        _ => ValueModel::Nothing,
    }
}

/// Coerces one decoded cell into a generic value by the column's wire type.
pub fn coerce(w: WireType, c: RawCell) -> (v: GenericValue)
    ensures
        v@ == coerce_model(w, c@),
{
    match (w, c) {
        (WireType::Text, RawCell::Text(s)) => GenericValue::Text(s),
        (WireType::Varchar, RawCell::Text(s)) => GenericValue::Text(s),
        (WireType::Int2, RawCell::SmallInt(n)) => GenericValue::Integer(n as i64),
        (WireType::Int4, RawCell::Int(n)) => GenericValue::Integer(n as i64),
        (WireType::Int8, RawCell::BigInt(n)) => GenericValue::Integer(n),
        (WireType::Float4, RawCell::Real(b)) => GenericValue::Float(b),
        (WireType::Float8, RawCell::Real(b)) => GenericValue::Float(b),
        (WireType::Bool, RawCell::Flag(b)) => GenericValue::Boolean(b),
        (WireType::Bytea, RawCell::Bytes(v)) => GenericValue::Binary(v),
        (_, _) => GenericValue::Nothing,
    }
}

} // verus!
