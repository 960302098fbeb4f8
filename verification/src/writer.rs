//! The file writer: serializes one schema and its aligned column arrays as
//! a single parquet file in memory. A batch whose column count differs from
//! the schema's field count is refused before any bytes are produced.

use vstd::prelude::*;
use vstd::string::StrSliceExecFns;

use arrow::array::{ArrayRef, BooleanArray, Float64Array, StringArray, TimestampNanosecondArray};
use arrow::buffer::{Buffer, ScalarBuffer};
use arrow::datatypes::{DataType, Field, TimeUnit};
use arrow::record_batch::RecordBatch;
use parquet::arrow::ArrowWriter;
use std::sync::Arc;

use crate::columns::{CellValue, ColumnDescV, ColumnType};
use crate::encode::{arr_ty, cols_views, ColumnArray};
use crate::schema::ColumnSchema;

verus! {

/// arrow's schema type, opaque to the verifier: it only carries the
/// converted column descriptors into the parquet writer.
#[verifier::external_type_specification]
#[verifier::external_body]
pub struct ExArrowSchema(arrow::datatypes::Schema);

/// Relies on arrow's `Schema::new` and `Field::new`: one arrow field per
/// column descriptor, in order, with the corresponding arrow data type and
/// the descriptor's nullability.
#[verifier::external_body]
fn arrow_schema_of(schema: &ColumnSchema) -> arrow::datatypes::Schema {
    let fields: Vec<Field> = schema.columns.iter().map(
        |c| Field::new(
            c.name.clone(),
            match c.ty {
                ColumnType::Text => DataType::Utf8,
                ColumnType::Float => DataType::Float64,
                ColumnType::Boolean => DataType::Boolean,
                ColumnType::Timestamp => DataType::Timestamp(TimeUnit::Nanosecond, None),
            },
            c.nullable,
        ),
    ).collect();
    arrow::datatypes::Schema::new(fields)
}

/// What serializing a batch as parquet yields: the bytes of one parquet
/// file holding exactly this schema and these columns, a pure function of
/// both (default writer settings, no clock or randomness involved).
pub uninterp spec fn parquet_encoding(
    schema: Seq<ColumnDescV>,
    cols: Seq<Seq<CellValue>>,
) -> Seq<u8>;

/// The most characters one text column may hold: with at most four UTF-8
/// bytes per character, this keeps the column's byte offsets inside the
/// 31-bit limit of the backend's text arrays.
pub const MAX_TEXT_COLUMN_CHARS: u64 = 536_870_911;

/// The characters a column's text cells hold in all.
pub open spec fn total_text_len(cells: Seq<CellValue>) -> nat
    decreases cells.len(),
{
    if cells.len() == 0 {
        0
    } else {
        (match cells[0] {
            CellValue::Text(s) => s.len(),
            _ => 0,
        }) + total_text_len(cells.skip(1))
    }
}

/// Whether one column's text stays under the offset bound.
pub open spec fn text_fits(cells: Seq<CellValue>) -> bool {
    total_text_len(cells) <= MAX_TEXT_COLUMN_CHARS
}

/// Whether every column's text stays under the offset bound.
pub open spec fn all_texts_fit(cols: Seq<Seq<CellValue>>) -> bool {
    forall|i: int| 0 <= i < cols.len() ==> text_fits(#[trigger] cols[i])
}

/// A column without text cells holds no text at all.
proof fn lemma_text_free_total(cells: Seq<CellValue>)
    requires
        forall|i: int|
            0 <= i < cells.len() ==> !(#[trigger] cells[i] matches CellValue::Text(_)),
    ensures
        total_text_len(cells) == 0,
    decreases cells.len(),
{
    if cells.len() > 0 {
        assert forall|i: int|
            0 <= i < cells.skip(1).len() implies !(#[trigger] cells.skip(1)[i] matches CellValue::Text(
            _,
        )) by {
            assert(cells.skip(1)[i] == cells[i + 1]);
        }
        lemma_text_free_total(cells.skip(1));
    }
}

/// Whether this column's text stays under the offset bound; columns of the
/// other types always do.
fn column_text_fits(a: &ColumnArray) -> (r: bool)
    ensures
        r == text_fits(a@),
{
    let ghost cells = a@;
    match a {
        ColumnArray::Text(v) => {
            let mut acc: u64 = 0;
            let mut j: usize = 0;
            proof {
                assert(cells.skip(0) =~= cells);
            }
            while j < v.len()
                invariant
                    0 <= j <= v.len(),
                    cells == a@,
                    a matches ColumnArray::Text(w) && w == v,
                    v@.len() == cells.len(),
                    acc <= MAX_TEXT_COLUMN_CHARS,
                    total_text_len(cells) == acc + total_text_len(cells.skip(j as int)),
                decreases v.len() - j,
            {
                proof {
                    assert(cells.skip(j as int)[0] == cells[j as int]);
                    assert(cells.skip(j as int).skip(1) =~= cells.skip(j as int + 1));
                }
                let len = v[j].as_str().unicode_len();
                proof {
                    assert(cells[j as int] == CellValue::Text(v@[j as int]@));
                    assert(total_text_len(cells.skip(j as int)) == v@[j as int]@.len()
                        + total_text_len(cells.skip(j as int + 1)));
                }
                if len as u64 > MAX_TEXT_COLUMN_CHARS {
                    return false;
                }
                acc = acc + (len as u64);
                if acc > MAX_TEXT_COLUMN_CHARS {
                    return false;
                }
                j = j + 1;
            }
            proof {
                assert(cells.skip(j as int).len() == 0);
                assert(total_text_len(cells.skip(j as int)) == 0);
            }
            true
        },
        _ => {
            proof {
                lemma_text_free_total(cells);
            }
            true
        },
    }
}

/// A batch the parquet backend accepts: one column per schema field, at
/// least one column, every column packing its field's declared type, and
/// all columns of one length.
pub open spec fn writable_batch(schema: Seq<ColumnDescV>, cols: Seq<ColumnArray>) -> bool {
    &&& cols.len() == schema.len()
    &&& cols.len() > 0
    &&& forall|i: int| 0 <= i < cols.len() ==> arr_ty(#[trigger] cols[i]) == schema[i].ty
    &&& forall|i: int| 0 <= i < cols.len() ==> (#[trigger] cols[i])@.len() == cols[0]@.len()
}

/// Carries one converted arrow record batch — arrow's own collection of
/// column arrays, whose type Verus refuses to declare — opaque, from the
/// conversion into the parquet writer.
#[verifier::external_body]
struct ConvertedBatch {
    batch: RecordBatch,
}

/// Relies on arrow's array constructors and `RecordBatch::try_new`: one
/// arrow array per column, in order — text, float bits, booleans and
/// nanosecond timestamps each as the matching arrow array — under the
/// schema of `arrow_schema_of`. The text-array constructor aborts when one
/// column's strings overrun its 31-bit byte offsets, so the `requires`
/// keeps every text column under the offset bound.
#[verifier::external_body]
fn record_batch_of(schema: &ColumnSchema, cols: &Vec<ColumnArray>) -> (r: Result<
    ConvertedBatch,
    String,
>)
    requires
        all_texts_fit(cols_views(cols@)),
{
    let arrays: Vec<ArrayRef> = cols.iter().map(|c| match c {
        ColumnArray::Text(v) => Arc::new(StringArray::from(v.clone())) as ArrayRef,
        ColumnArray::Float(v) => Arc::new(
            Float64Array::new(ScalarBuffer::new(Buffer::from_vec(v.clone()), 0, v.len()), None),
        ) as ArrayRef,
        ColumnArray::Boolean(v) => Arc::new(BooleanArray::from(v.clone())) as ArrayRef,
        ColumnArray::Timestamp(v) => Arc::new(TimestampNanosecondArray::from(v.clone())) as ArrayRef,
    }).collect();
    let batch = RecordBatch::try_new(Arc::new(arrow_schema_of(schema)), arrays);
    batch.map(|batch| ConvertedBatch { batch }).map_err(|e| e.to_string())
}

/// Relies on parquet's `ArrowWriter` (`try_new`, `write`, and
/// `into_inner`, which writes the footer) over an in-memory buffer, behind
/// `record_batch_of`: `RecordBatch::try_new` refuses exactly the batches
/// outside `writable_batch` (column count, zero columns, a column of the
/// wrong type, unequal lengths), and for these four column types, writing
/// into a `Vec<u8>` has no other failure — no I/O, no clock, no
/// randomness. So the call succeeds exactly on writable batches, and the
/// returned bytes are a pure function of schema and columns. The
/// `requires` keeps every text column under the offset bound, below which
/// the array conversion cannot abort.
#[verifier::external_body]
fn parquet_bytes_call(schema: &ColumnSchema, cols: &Vec<ColumnArray>) -> (r: Result<
    Vec<u8>,
    String,
>)
    requires
        all_texts_fit(cols_views(cols@)),
    ensures
        match r {
            Ok(bytes) => writable_batch(schema@, cols@) && bytes@ == parquet_encoding(
                schema@,
                cols_views(cols@),
            ),
            Err(_) => !writable_batch(schema@, cols@),
        },
{
    let b = record_batch_of(schema, cols)?.batch;
    let mut w = ArrowWriter::try_new(Vec::new(), b.schema(), None).map_err(|e| e.to_string())?;
    w.write(&b).map_err(|e| e.to_string())?;
    w.into_inner().map_err(|e| e.to_string())
}

/// Why the file writer refused or failed.
#[derive(Clone, Debug)]
pub enum WriteError {
    /// The column count does not match the schema's field count; holds the
    /// column count, then the field count.
    ColumnCountMismatch(usize, usize),
    /// A text column's strings overrun the format's byte offsets; holds
    /// the column's index.
    TextColumnTooLarge(usize),
    /// The backing format library rejected the write; holds its message.
    Backend(String),
}

/// Serializes one batch as a parquet file in memory: the schema's fields
/// and one column per field, in order. A batch whose column count differs
/// from the schema's field count, or whose first oversize text column
/// overruns the format's byte offsets, is refused with a structural error
/// before any bytes are produced; every writable batch within the bound
/// succeeds, and any other malformed batch (zero columns, a column of the
/// wrong type, unequal lengths) is refused by the backend.
pub fn parquet_file_bytes(schema: &ColumnSchema, cols: &Vec<ColumnArray>) -> (r: Result<
    Vec<u8>,
    WriteError,
>)
    ensures
        match r {
            Ok(bytes) => {
                &&& writable_batch(schema@, cols@)
                &&& all_texts_fit(cols_views(cols@))
                &&& bytes@ == parquet_encoding(schema@, cols_views(cols@))
            },
            Err(WriteError::ColumnCountMismatch(ncols, nfields)) => {
                &&& cols@.len() != schema@.len()
                &&& ncols == cols@.len()
                &&& nfields == schema@.len()
            },
            Err(WriteError::TextColumnTooLarge(i)) => {
                &&& cols@.len() == schema@.len()
                &&& 0 <= i < cols@.len()
                &&& !text_fits(cols_views(cols@)[i as int])
                &&& forall|k: int| 0 <= k < i ==> text_fits(#[trigger] cols_views(cols@)[k])
            },
            Err(WriteError::Backend(_)) => {
                &&& cols@.len() == schema@.len()
                &&& all_texts_fit(cols_views(cols@))
                &&& !writable_batch(schema@, cols@)
            },
        },
{
    proof {
        assert(schema@.len() == schema.columns@.len());
    }
    if cols.len() != schema.columns.len() {
        return Err(WriteError::ColumnCountMismatch(cols.len(), schema.columns.len()));
    }
    let mut i: usize = 0;
    while i < cols.len()
        invariant
            0 <= i <= cols@.len(),
            cols@.len() == schema@.len(),
            forall|k: int| 0 <= k < i ==> text_fits(#[trigger] cols_views(cols@)[k]),
        decreases cols@.len() - i,
    {
        proof {
            assert(cols_views(cols@)[i as int] == cols@[i as int]@);
        }
        if !column_text_fits(&cols[i]) {
            return Err(WriteError::TextColumnTooLarge(i));
        }
        i = i + 1;
    }
    match parquet_bytes_call(schema, cols) {
        Ok(bytes) => Ok(bytes),
        Err(msg) => Err(WriteError::Backend(msg)),
    }
}

} // verus!
