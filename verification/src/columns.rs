//! Column descriptors: the name, scalar type and nullability of one field of
//! a schema, together with the spec-level model of a single encoded cell.

use vstd::prelude::*;

verus! {

/// Scalar type tag of one column.
#[derive(Clone, Copy, PartialEq, Eq, Structural, Debug)]
pub enum ColumnType {
    /// UTF-8 text.
    Text,
    /// A 64-bit IEEE-754 float, carried as its bit pattern.
    Float,
    /// A boolean.
    Boolean,
    /// A 64-bit UTC timestamp in nanoseconds.
    Timestamp,
}

/// Where the values of a column come from when a record is encoded.
#[derive(Clone, Copy, PartialEq, Eq, Structural, Debug)]
pub enum ColumnSource {
    /// The fixed `tenant_name` field.
    Tenant,
    /// The fixed `item_id` field.
    ItemId,
    /// The fixed `status` field.
    Status,
    /// The fixed `qty` field.
    Quantity,
    /// The record's event time, parsed from its datetime text.
    EventTime,
    /// The event time truncated to minute granularity.
    Minute,
    /// A dynamically inferred key of the record's metadata mapping.
    Metadata,
}

/// One field of a schema: a name, a scalar type, a nullability flag, and the
/// source its values are encoded from.
#[derive(Clone, Debug)]
pub struct ColumnDesc {
    pub name: String,
    pub ty: ColumnType,
    pub source: ColumnSource,
    pub nullable: bool,
}

/// Spec-level image of a `ColumnDesc`.
pub struct ColumnDescV {
    pub name: Seq<char>,
    pub ty: ColumnType,
    pub source: ColumnSource,
    pub nullable: bool,
}

impl View for ColumnDesc {
    type V = ColumnDescV;

    open spec fn view(&self) -> ColumnDescV {
        ColumnDescV { name: self.name@, ty: self.ty, source: self.source, nullable: self.nullable }
    }
}

/// A well-formed descriptor's type and nullability agree with its source:
/// fixed columns are non-nullable with their nominal type, inferred metadata
/// columns are nullable and never hold timestamps.
pub open spec fn col_wf(c: ColumnDescV) -> bool {
    match c.source {
        ColumnSource::Tenant => c.ty == ColumnType::Text && !c.nullable,
        ColumnSource::ItemId => c.ty == ColumnType::Text && !c.nullable,
        ColumnSource::Status => c.ty == ColumnType::Text && !c.nullable,
        ColumnSource::Quantity => c.ty == ColumnType::Float && !c.nullable,
        ColumnSource::EventTime => c.ty == ColumnType::Timestamp && !c.nullable,
        ColumnSource::Minute => c.ty == ColumnType::Timestamp && !c.nullable,
        ColumnSource::Metadata => c.ty != ColumnType::Timestamp && c.nullable,
    }
}

/// Spec-level value of one encoded cell.
pub enum CellValue {
    Text(Seq<char>),
    Float(u64),
    Boolean(bool),
    Timestamp(i64),
}

/// The zero value of a column type: empty text, 0.0 (whose bit pattern is 0),
/// false, or the epoch timestamp.
pub open spec fn zero_cell(t: ColumnType) -> CellValue {
    match t {
        ColumnType::Text => CellValue::Text(Seq::empty()),
        ColumnType::Float => CellValue::Float(0),
        ColumnType::Boolean => CellValue::Boolean(false),
        ColumnType::Timestamp => CellValue::Timestamp(0),
    }
}

/// The type tag a cell value carries.
pub open spec fn cell_type(c: CellValue) -> ColumnType {
    match c {
        CellValue::Text(_) => ColumnType::Text,
        CellValue::Float(_) => ColumnType::Float,
        CellValue::Boolean(_) => ColumnType::Boolean,
        CellValue::Timestamp(_) => ColumnType::Timestamp,
    }
}

} // verus!
