//! The record encoder: one densely-packed column array per schema field, in
//! schema order, with the explicit missing-value and type-mismatch policy —
//! a value that is absent or of the wrong shape encodes as the column
//! type's zero value, except event times, whose absence fails the batch.

use vstd::prelude::*;

use crate::columns::{
    cell_type, col_wf, zero_cell, CellValue, ColumnDesc, ColumnDescV, ColumnSource, ColumnType,
};
use crate::event_time::{minute_cell, minute_of, parse_event_time};
use crate::record::{
    lookup_metadata, meta_lookup, opt_text_view, records_view, LogRecord, LogRecordV, MetaValue,
    MetaValueV,
};
use crate::schema::{schema_wf, ColumnSchema};

verus! {

/// One encoded value, before it is packed into its column array.
#[derive(Clone, Debug, PartialEq)]
pub enum CellData {
    Text(String),
    /// Bit pattern of a 64-bit float.
    Float(u64),
    Boolean(bool),
    Timestamp(i64),
}

impl View for CellData {
    type V = CellValue;

    open spec fn view(&self) -> CellValue {
        match self {
            CellData::Text(s) => CellValue::Text(s@),
            CellData::Float(b) => CellValue::Float(*b),
            CellData::Boolean(b) => CellValue::Boolean(*b),
            CellData::Timestamp(t) => CellValue::Timestamp(*t),
        }
    }
}

/// A homogeneous, densely-packed column: one slot per record of the batch.
#[derive(Clone, Debug, PartialEq)]
pub enum ColumnArray {
    Text(Vec<String>),
    /// Bit patterns of 64-bit floats.
    Float(Vec<u64>),
    Boolean(Vec<bool>),
    Timestamp(Vec<i64>),
}

impl View for ColumnArray {
    type V = Seq<CellValue>;

    open spec fn view(&self) -> Seq<CellValue> {
        match self {
            ColumnArray::Text(v) => v@.map_values(|s: String| CellValue::Text(s@)),
            ColumnArray::Float(v) => v@.map_values(|b: u64| CellValue::Float(b)),
            ColumnArray::Boolean(v) => v@.map_values(|b: bool| CellValue::Boolean(b)),
            ColumnArray::Timestamp(v) => v@.map_values(|t: i64| CellValue::Timestamp(t)),
        }
    }
}

/// The type tag of the values a column array packs.
pub open spec fn arr_ty(a: ColumnArray) -> ColumnType {
    match a {
        ColumnArray::Text(_) => ColumnType::Text,
        ColumnArray::Float(_) => ColumnType::Float,
        ColumnArray::Boolean(_) => ColumnType::Boolean,
        ColumnArray::Timestamp(_) => ColumnType::Timestamp,
    }
}

impl ColumnArray {
    /// An empty column of the given type.
    pub fn new_empty(ty: ColumnType) -> (r: ColumnArray)
        ensures
            arr_ty(r) == ty,
            r@ == Seq::<CellValue>::empty(),
    {
        let r = match ty {
            ColumnType::Text => ColumnArray::Text(Vec::new()),
            ColumnType::Float => ColumnArray::Float(Vec::new()),
            ColumnType::Boolean => ColumnArray::Boolean(Vec::new()),
            ColumnType::Timestamp => ColumnArray::Timestamp(Vec::new()),
        };
        proof {
            assert(r@ =~= Seq::<CellValue>::empty());
        }
        r
    }

    /// The column extended by one cell of its own type.
    pub fn with_cell(self, c: CellData) -> (r: ColumnArray)
        requires
            arr_ty(self) == cell_type(c@),
        ensures
            arr_ty(r) == arr_ty(self),
            r@ == self@.push(c@),
    {
        let ghost s0 = self@;
        let r = match (self, c) {
            (ColumnArray::Text(mut v), CellData::Text(s)) => {
                v.push(s);
                ColumnArray::Text(v)
            },
            (ColumnArray::Float(mut v), CellData::Float(b)) => {
                v.push(b);
                ColumnArray::Float(v)
            },
            (ColumnArray::Boolean(mut v), CellData::Boolean(b)) => {
                v.push(b);
                ColumnArray::Boolean(v)
            },
            (ColumnArray::Timestamp(mut v), CellData::Timestamp(t)) => {
                v.push(t);
                ColumnArray::Timestamp(v)
            },
            (other, _) => other,
        };
        proof {
            assert(r@ =~= s0.push(c@));
        }
        r
    }

    /// The number of slots the column holds.
    pub fn len(&self) -> (n: usize)
        ensures
            n == self@.len(),
    {
        match self {
            ColumnArray::Text(v) => v.len(),
            ColumnArray::Float(v) => v.len(),
            ColumnArray::Boolean(v) => v.len(),
            ColumnArray::Timestamp(v) => v.len(),
        }
    }
}

/// A missing or non-text fixed field encodes as empty text.
pub open spec fn text_or_zero(v: Option<Seq<char>>) -> Seq<char> {
    match v {
        Some(s) => s,
        None => Seq::empty(),
    }
}

/// A missing or non-numeric quantity encodes as 0.0, whose bit pattern is 0.
pub open spec fn qty_or_zero(v: Option<u64>) -> u64 {
    match v {
        Some(b) => b,
        None => 0,
    }
}

/// The event time a record carries: its datetime text parsed to UTC
/// nanoseconds. A missing text parses to nothing.
pub open spec fn rec_time(rec: LogRecordV) -> Option<i64> {
    match rec.datetime {
        Some(s) => crate::event_time::event_time_nanos(s),
        None => None,
    }
}

/// The parsed time, or 0 when there is none (in which case the cell is
/// never reached: the encode fails first).
pub open spec fn time_or_zero(v: Option<i64>) -> i64 {
    match v {
        Some(t) => t,
        None => 0,
    }
}

/// The value of one metadata cell: the stored value when its shape matches
/// the column's declared type, the type's zero value when the key is
/// missing or the shape disagrees.
pub open spec fn meta_cell(ty: ColumnType, v: Option<MetaValueV>) -> CellValue {
    match v {
        Some(MetaValueV::Text(s)) => if ty == ColumnType::Text {
            CellValue::Text(s)
        } else {
            zero_cell(ty)
        },
        Some(MetaValueV::Number(b)) => if ty == ColumnType::Float {
            CellValue::Float(b)
        } else {
            zero_cell(ty)
        },
        Some(MetaValueV::Truth(b)) => if ty == ColumnType::Boolean {
            CellValue::Boolean(b)
        } else {
            zero_cell(ty)
        },
        Some(MetaValueV::Composite) => zero_cell(ty),
        None => zero_cell(ty),
    }
}

/// The encoded value of one cell: the record's value for the column under
/// the missing-value and type-mismatch policy.
pub open spec fn cell_of(col: ColumnDescV, rec: LogRecordV) -> CellValue {
    match col.source {
        ColumnSource::Tenant => CellValue::Text(text_or_zero(rec.tenant_name)),
        ColumnSource::ItemId => CellValue::Text(text_or_zero(rec.item_id)),
        ColumnSource::Status => CellValue::Text(text_or_zero(rec.status)),
        ColumnSource::Quantity => CellValue::Float(qty_or_zero(rec.qty_bits)),
        ColumnSource::EventTime => CellValue::Timestamp(time_or_zero(rec_time(rec))),
        ColumnSource::Minute => CellValue::Timestamp(minute_cell(time_or_zero(rec_time(rec)))),
        ColumnSource::Metadata => meta_cell(col.ty, meta_lookup(rec.metadata, col.name)),
    }
}

/// Whether one cell encodes at all: a timestamp cell needs a parseable
/// datetime text, and a metadata column must not declare the timestamp
/// type; every other cell always encodes, to a zero value if need be.
pub open spec fn cell_ok(col: ColumnDescV, rec: LogRecordV) -> bool {
    match col.source {
        ColumnSource::EventTime => rec_time(rec) is Some,
        ColumnSource::Minute => rec_time(rec) is Some,
        ColumnSource::Metadata => col.ty != ColumnType::Timestamp,
        _ => true,
    }
}

/// For a well-formed descriptor, the encoded cell carries the declared type.
pub proof fn lemma_cell_of_type(col: ColumnDescV, rec: LogRecordV)
    requires
        col_wf(col),
    ensures
        cell_type(cell_of(col, rec)) == col.ty,
{
}

/// Why a batch refused to encode.
#[derive(Clone, Debug)]
pub enum EncodeError {
    /// A record's datetime text is missing or does not parse; holds the
    /// offending text, empty when it was missing.
    BadTimestamp(String),
    /// A metadata column declares a type the encoder cannot fill; holds the
    /// column's name.
    UnsupportedColumn(String),
}

/// Spec-level image of an `EncodeError`.
pub enum EncodeErrorV {
    BadTimestamp(Seq<char>),
    UnsupportedColumn(Seq<char>),
}

impl View for EncodeError {
    type V = EncodeErrorV;

    open spec fn view(&self) -> EncodeErrorV {
        match self {
            EncodeError::BadTimestamp(s) => EncodeErrorV::BadTimestamp(s@),
            EncodeError::UnsupportedColumn(s) => EncodeErrorV::UnsupportedColumn(s@),
        }
    }
}

/// The error one failing cell raises.
pub open spec fn cell_err(col: ColumnDescV, rec: LogRecordV) -> EncodeErrorV {
    if col.source == ColumnSource::Metadata {
        EncodeErrorV::UnsupportedColumn(col.name)
    } else {
        EncodeErrorV::BadTimestamp(text_or_zero(rec.datetime))
    }
}

/// The first error one column meets, walking the records in order.
pub open spec fn column_err(col: ColumnDescV, recs: Seq<LogRecordV>) -> Option<EncodeErrorV>
    decreases recs.len(),
{
    if recs.len() == 0 {
        None
    } else if !cell_ok(col, recs[0]) {
        Some(cell_err(col, recs[0]))
    } else {
        column_err(col, recs.skip(1))
    }
}

/// The first error a batch meets, walking the schema's fields in order.
pub open spec fn batch_err(schema: Seq<ColumnDescV>, recs: Seq<LogRecordV>) -> Option<
    EncodeErrorV,
>
    decreases schema.len(),
{
    if schema.len() == 0 {
        None
    } else {
        match column_err(schema[0], recs) {
            Some(e) => Some(e),
            None => batch_err(schema.skip(1), recs),
        }
    }
}

/// One whole column of the batch: the record's cell for this field, one
/// slot per record, in record order.
pub open spec fn column_spec(col: ColumnDescV, recs: Seq<LogRecordV>) -> Seq<CellValue> {
    Seq::new(recs.len(), |j: int| cell_of(col, recs[j]))
}

/// A column encodes without error exactly when every one of its cells does.
pub proof fn lemma_column_err_none(col: ColumnDescV, recs: Seq<LogRecordV>)
    ensures
        column_err(col, recs) is None <==> (forall|j: int|
            0 <= j < recs.len() ==> cell_ok(col, #[trigger] recs[j])),
    decreases recs.len(),
{
    if recs.len() > 0 {
        lemma_column_err_none(col, recs.skip(1));
        assert forall|j: int| 1 <= j < recs.len() implies recs.skip(1)[j - 1] == #[trigger] recs[j] by {}
        if column_err(col, recs) is None {
            assert forall|j: int| 0 <= j < recs.len() implies cell_ok(col, #[trigger] recs[j]) by {
                if j > 0 {
                    assert(cell_ok(col, recs.skip(1)[j - 1]));
                }
            }
        }
    }
}

/// A batch encodes without error exactly when every cell of every field
/// does.
pub proof fn lemma_batch_err_none(schema: Seq<ColumnDescV>, recs: Seq<LogRecordV>)
    ensures
        batch_err(schema, recs) is None <==> (forall|i: int, j: int|
            0 <= i < schema.len() && 0 <= j < recs.len() ==> cell_ok(
                #[trigger] schema[i],
                #[trigger] recs[j],
            )),
    decreases schema.len(),
{
    if schema.len() > 0 {
        lemma_batch_err_none(schema.skip(1), recs);
        lemma_column_err_none(schema[0], recs);
        assert forall|i: int| 1 <= i < schema.len() implies schema.skip(1)[i - 1]
            == #[trigger] schema[i] by {}
        if batch_err(schema, recs) is None {
            assert forall|i: int, j: int|
                0 <= i < schema.len() && 0 <= j < recs.len() implies cell_ok(
                #[trigger] schema[i],
                #[trigger] recs[j],
            ) by {
                if i > 0 {
                    assert(cell_ok(schema.skip(1)[i - 1], recs[j]));
                }
            }
        }
    }
}

/// The executable zero value of a column type.
pub fn zero_cell_data(ty: ColumnType) -> (c: CellData)
    ensures
        c@ == zero_cell(ty),
{
    match ty {
        ColumnType::Text => CellData::Text(String::new()),
        ColumnType::Float => CellData::Float(0),
        ColumnType::Boolean => CellData::Boolean(false),
        ColumnType::Timestamp => CellData::Timestamp(0),
    }
}

/// Reads a fixed text field, substituting empty text when it is missing.
fn clone_or_empty(v: &Option<String>) -> (r: String)
    ensures
        r@ == text_or_zero(opt_text_view(*v)),
{
    match v {
        Some(s) => s.clone(),
        None => String::new(),
    }
}

/// Parses the record's event time, raising the input error the encoder
/// propagates on a missing or malformed datetime text.
fn event_nanos_of(rec: &LogRecord) -> (r: Result<i64, EncodeError>)
    ensures
        match r {
            Ok(t) => rec_time(rec@) == Some(t),
            Err(e) => rec_time(rec@) is None && e@ == EncodeErrorV::BadTimestamp(
                text_or_zero(rec@.datetime),
            ),
        },
{
    match &rec.datetime {
        Some(s) => match parse_event_time(s.as_str()) {
            Some(t) => Ok(t),
            None => Err(EncodeError::BadTimestamp(s.clone())),
        },
        None => Err(EncodeError::BadTimestamp(String::new())),
    }
}

/// The spec-level image of an optional borrowed metadata value.
pub open spec fn opt_meta_view(v: Option<&MetaValue>) -> Option<MetaValueV> {
    match v {
        Some(m) => Some(m@),
        None => None,
    }
}

/// Applies the zero-value policy to one looked-up metadata value.
fn meta_cell_data(ty: ColumnType, v: Option<&MetaValue>) -> (c: CellData)
    requires
        ty != ColumnType::Timestamp,
    ensures
        c@ == meta_cell(ty, opt_meta_view(v)),
{
    match v {
        Some(MetaValue::Text(s)) => {
            if ty == ColumnType::Text {
                CellData::Text(s.clone())
            } else {
                zero_cell_data(ty)
            }
        },
        Some(MetaValue::Number(b)) => {
            if ty == ColumnType::Float {
                CellData::Float(*b)
            } else {
                zero_cell_data(ty)
            }
        },
        Some(MetaValue::Truth(b)) => {
            if ty == ColumnType::Boolean {
                CellData::Boolean(*b)
            } else {
                zero_cell_data(ty)
            }
        },
        Some(MetaValue::Composite) => zero_cell_data(ty),
        None => zero_cell_data(ty),
    }
}

/// Encodes one cell: the record's value for the column, under the
/// missing-value and type-mismatch policy; fails exactly on a missing or
/// malformed event time, or on a metadata column of timestamp type.
pub fn encode_cell(col: &ColumnDesc, rec: &LogRecord) -> (r: Result<CellData, EncodeError>)
    ensures
        match r {
            Ok(c) => cell_ok(col@, rec@) && c@ == cell_of(col@, rec@),
            Err(e) => !cell_ok(col@, rec@) && e@ == cell_err(col@, rec@),
        },
{
    match col.source {
        ColumnSource::Tenant => Ok(CellData::Text(clone_or_empty(&rec.tenant_name))),
        ColumnSource::ItemId => Ok(CellData::Text(clone_or_empty(&rec.item_id))),
        ColumnSource::Status => Ok(CellData::Text(clone_or_empty(&rec.status))),
        ColumnSource::Quantity => Ok(
            CellData::Float(
                match rec.qty_bits {
                    Some(b) => b,
                    None => 0,
                },
            ),
        ),
        ColumnSource::EventTime => match event_nanos_of(rec) {
            Ok(t) => Ok(CellData::Timestamp(t)),
            Err(e) => Err(e),
        },
        ColumnSource::Minute => match event_nanos_of(rec) {
            Ok(t) => Ok(CellData::Timestamp(minute_of(t))),
            Err(e) => Err(e),
        },
        ColumnSource::Metadata => {
            if col.ty == ColumnType::Timestamp {
                Err(EncodeError::UnsupportedColumn(col.name.clone()))
            } else {
                let v = lookup_metadata(&rec.metadata, &col.name);
                Ok(meta_cell_data(col.ty, v))
            }
        },
    }
}

/// Builds one column array by appending, for each record in order, that
/// record's value for the field.
pub fn encode_column(col: &ColumnDesc, records: &Vec<LogRecord>) -> (r: Result<
    ColumnArray,
    EncodeError,
>)
    requires
        col_wf(col@),
    ensures
        match r {
            Ok(a) => {
                &&& column_err(col@, records_view(records@)) is None
                &&& arr_ty(a) == col@.ty
                &&& a@ == column_spec(col@, records_view(records@))
            },
            Err(e) => column_err(col@, records_view(records@)) == Some(e@),
        },
{
    let ghost rv = records_view(records@);
    let mut arr = ColumnArray::new_empty(col.ty);
    proof {
        assert(rv.skip(0) =~= rv);
        assert(arr@ =~= column_spec(col@, rv).take(0));
    }
    let mut j: usize = 0;
    while j < records.len()
        invariant
            0 <= j <= records.len(),
            rv == records_view(records@),
            rv.len() == records@.len(),
            col_wf(col@),
            arr_ty(arr) == col@.ty,
            arr@.len() == j,
            arr@ == column_spec(col@, rv).take(j as int),
            column_err(col@, rv) == column_err(col@, rv.skip(j as int)),
        decreases records.len() - j,
    {
        proof {
            assert(rv.skip(j as int)[0] == rv[j as int]);
            assert(rv[j as int] == records@[j as int]@);
        }
        match encode_cell(col, &records[j]) {
            Ok(c) => {
                proof {
                    lemma_cell_of_type(col@, rv[j as int]);
                }
                arr = arr.with_cell(c);
                proof {
                    assert(arr@ =~= column_spec(col@, rv).take(j + 1));
                    assert(rv.skip(j as int).skip(1) =~= rv.skip(j as int + 1));
                }
            },
            Err(e) => {
                return Err(e);
            },
        }
        j = j + 1;
    }
    proof {
        assert(rv.skip(j as int).len() == 0);
        assert(column_spec(col@, rv).take(j as int) =~= column_spec(col@, rv));
    }
    Ok(arr)
}

/// Encodes a whole batch: one column array per schema field, in schema
/// order, each with one slot per record. Fails exactly when some record's
/// event time is missing or malformed while the schema carries a timestamp
/// column, or when a metadata column declares the timestamp type, and then
/// reports the first such fault in field-major order.
pub fn encode_batch(schema: &ColumnSchema, records: &Vec<LogRecord>) -> (r: Result<
    Vec<ColumnArray>,
    EncodeError,
>)
    requires
        schema_wf(schema@),
    ensures
        match r {
            Ok(cols) => {
                &&& batch_err(schema@, records_view(records@)) is None
                &&& cols@.len() == schema@.len()
                &&& forall|i: int|
                    0 <= i < cols@.len() ==> arr_ty(#[trigger] cols@[i]) == schema@[i].ty
                &&& forall|i: int|
                    0 <= i < cols@.len() ==> (#[trigger] cols@[i])@ == column_spec(
                        schema@[i],
                        records_view(records@),
                    )
                &&& forall|i: int|
                    0 <= i < cols@.len() ==> (#[trigger] cols@[i])@.len() == records@.len()
            },
            Err(e) => batch_err(schema@, records_view(records@)) == Some(e@),
        },
{
    let ghost sv = schema@;
    let ghost rv = records_view(records@);
    let mut cols: Vec<ColumnArray> = Vec::new();
    proof {
        assert(sv.skip(0) =~= sv);
    }
    let mut i: usize = 0;
    while i < schema.columns.len()
        invariant
            0 <= i <= schema.columns.len(),
            sv == schema@,
            schema_wf(sv),
            sv.len() == schema.columns@.len(),
            rv == records_view(records@),
            rv.len() == records@.len(),
            cols@.len() == i,
            forall|k: int| 0 <= k < i ==> arr_ty(#[trigger] cols@[k]) == sv[k].ty,
            forall|k: int| 0 <= k < i ==> (#[trigger] cols@[k])@ == column_spec(sv[k], rv),
            batch_err(sv, rv) == batch_err(sv.skip(i as int), rv),
        decreases schema.columns.len() - i,
    {
        proof {
            assert(sv.skip(i as int)[0] == sv[i as int]);
            assert(sv[i as int] == schema.columns@[i as int]@);
            assert(col_wf(sv[i as int]));
        }
        match encode_column(&schema.columns[i], records) {
            Ok(a) => {
                cols.push(a);
                proof {
                    assert(sv.skip(i as int).skip(1) =~= sv.skip(i as int + 1));
                }
            },
            Err(e) => {
                return Err(e);
            },
        }
        i = i + 1;
    }
    proof {
        assert(sv.skip(i as int).len() == 0);
    }
    Ok(cols)
}

/// Encodes one record against a schema, yielding one single-slot column per
/// field, in schema order.
pub fn log_entry_to_arrays(log_entry: &LogRecord, schema: &ColumnSchema) -> (r: Result<
    Vec<ColumnArray>,
    EncodeError,
>)
    requires
        schema_wf(schema@),
    ensures
        match r {
            Ok(cols) => {
                &&& batch_err(schema@, seq![log_entry@]) is None
                &&& cols@.len() == schema@.len()
                &&& forall|i: int|
                    0 <= i < cols@.len() ==> arr_ty(#[trigger] cols@[i]) == schema@[i].ty
                &&& forall|i: int|
                    0 <= i < cols@.len() ==> (#[trigger] cols@[i])@ == column_spec(
                        schema@[i],
                        seq![log_entry@],
                    )
            },
            Err(e) => batch_err(schema@, seq![log_entry@]) == Some(e@),
        },
{
    let ghost sv = schema@;
    let ghost rv: Seq<LogRecordV> = seq![log_entry@];
    let mut cols: Vec<ColumnArray> = Vec::new();
    proof {
        assert(sv.skip(0) =~= sv);
        assert(rv.skip(1) =~= Seq::<LogRecordV>::empty());
    }
    let mut i: usize = 0;
    while i < schema.columns.len()
        invariant
            0 <= i <= schema.columns.len(),
            sv == schema@,
            schema_wf(sv),
            sv.len() == schema.columns@.len(),
            rv == seq![log_entry@],
            cols@.len() == i,
            forall|k: int| 0 <= k < i ==> arr_ty(#[trigger] cols@[k]) == sv[k].ty,
            forall|k: int| 0 <= k < i ==> (#[trigger] cols@[k])@ == column_spec(sv[k], rv),
            batch_err(sv, rv) == batch_err(sv.skip(i as int), rv),
        decreases schema.columns.len() - i,
    {
        proof {
            assert(sv.skip(i as int)[0] == sv[i as int]);
            assert(sv[i as int] == schema.columns@[i as int]@);
            assert(col_wf(sv[i as int]));
            assert(rv.skip(1) =~= Seq::<LogRecordV>::empty());
        }
        match encode_cell(&schema.columns[i], log_entry) {
            Ok(c) => {
                proof {
                    lemma_cell_of_type(sv[i as int], log_entry@);
                }
                let ghost colv = sv[i as int];
                let arr = ColumnArray::new_empty(schema.columns[i].ty).with_cell(c);
                cols.push(arr);
                proof {
                    assert(arr@ =~= column_spec(colv, rv));
                    assert(rv.skip(1) =~= Seq::<LogRecordV>::empty());
                    assert(column_err(colv, rv.skip(1)) is None);
                    assert(column_err(colv, rv) is None);
                    assert(sv.skip(i as int).skip(1) =~= sv.skip(i as int + 1));
                }
            },
            Err(e) => {
                return Err(e);
            },
        }
        i = i + 1;
    }
    proof {
        assert(sv.skip(i as int).len() == 0);
    }
    Ok(cols)
}

/// The spec-level image of a list of column arrays.
pub open spec fn cols_views(cs: Seq<ColumnArray>) -> Seq<Seq<CellValue>> {
    cs.map_values(|a: ColumnArray| a@)
}

/// Every column of a batch, in schema order.
pub open spec fn batch_columns_spec(schema: Seq<ColumnDescV>, recs: Seq<LogRecordV>) -> Seq<
    Seq<CellValue>,
> {
    Seq::new(schema.len(), |i: int| column_spec(schema[i], recs))
}

/// A record that lacks a metadata key present in the schema encodes that
/// key's cell as the column type's zero value: empty text, 0.0, or false.
pub proof fn lemma_missing_metadata_is_zero(col: ColumnDescV, rec: LogRecordV)
    requires
        col.source == ColumnSource::Metadata,
        meta_lookup(rec.metadata, col.name) is None,
    ensures
        cell_of(col, rec) == zero_cell(col.ty),
{
}

/// Encoding is idempotent: two batches whose columns each satisfy the
/// encoder's contract for the same schema and the same record sequence are
/// identical, column for column, in type and in every slot.
pub proof fn lemma_encoding_idempotent(
    schema: Seq<ColumnDescV>,
    recs: Seq<LogRecordV>,
    cols1: Seq<ColumnArray>,
    cols2: Seq<ColumnArray>,
)
    requires
        cols1.len() == schema.len(),
        cols2.len() == schema.len(),
        forall|i: int| 0 <= i < schema.len() ==> arr_ty(#[trigger] cols1[i]) == schema[i].ty,
        forall|i: int| 0 <= i < schema.len() ==> arr_ty(#[trigger] cols2[i]) == schema[i].ty,
        forall|i: int|
            0 <= i < schema.len() ==> (#[trigger] cols1[i])@ == column_spec(schema[i], recs),
        forall|i: int|
            0 <= i < schema.len() ==> (#[trigger] cols2[i])@ == column_spec(schema[i], recs),
    ensures
        forall|i: int|
            0 <= i < schema.len() ==> arr_ty(#[trigger] cols1[i]) == arr_ty(cols2[i]),
        forall|i: int| 0 <= i < schema.len() ==> (#[trigger] cols1[i])@ == cols2[i]@,
{
}

} // verus!
