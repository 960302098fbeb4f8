//! The batch pipeline the ingestion services run: schema from the first
//! record, one encode pass over every record, one parquet artifact, and
//! the minute-stamped name it is filed under.

use vstd::prelude::*;
use vstd::string::StringExecFns;

use crate::columns::{ColumnSource, ColumnType};
use crate::encode::{
    batch_columns_spec, batch_err, cell_ok, cols_views, encode_batch, lemma_batch_err_none,
    rec_time, text_or_zero, time_or_zero, EncodeError, EncodeErrorV,
};
use crate::event_time::{format_minute_stamp, minute_stamp, now_nanos, parse_event_time};
use crate::record::{records_view, LogRecord, LogRecordV};
use crate::schema::{build_schema, fixed_schema_spec, meta_desc, schema_spec, ColumnSchema};
use crate::writer::{
    all_texts_fit, parquet_encoding, parquet_file_bytes, text_fits, writable_batch, WriteError,
};

verus! {

/// Why a batch failed before its file could be handed off.
#[derive(Clone, Debug)]
pub enum PipelineError {
    /// The first record carries no tenant name, so the artifact cannot be
    /// named.
    MissingTenant,
    /// The batch refused to encode.
    Encode(EncodeError),
    /// The parquet serialization refused or failed.
    Write(WriteError),
}

/// One prepared file artifact: the name it is filed under and its bytes.
#[derive(Debug)]
pub struct PreparedFile {
    pub file_name: String,
    pub bytes: Vec<u8>,
}

/// The name an artifact is filed under: the tenant, the minute-granular
/// stamp, and the parquet extension.
pub open spec fn file_name_spec(tenant: Seq<char>, stamp: Seq<char>) -> Seq<char> {
    tenant + "_"@ + stamp + ".parquet"@
}

/// Builds the artifact's file name from the tenant and the minute stamp.
fn make_file_name(tenant: &str, stamp: &str) -> (r: String)
    ensures
        r@ == file_name_spec(tenant@, stamp@),
{
    let r = String::from_str(tenant).concat("_").concat(stamp).concat(".parquet");
    proof {
        assert(r@ =~= file_name_spec(tenant@, stamp@));
    }
    r
}

/// A schema built without event-time columns encodes every batch: each of
/// its cells falls back to a zero value instead of failing.
pub proof fn lemma_no_time_schema_encodes(rec: LogRecordV, recs: Seq<LogRecordV>)
    ensures
        batch_err(schema_spec(rec, false), recs) is None,
{
    let sv = schema_spec(rec, false);
    lemma_batch_err_none(sv, recs);
    assert forall|i: int, j: int|
        0 <= i < sv.len() && 0 <= j < recs.len() implies cell_ok(
        #[trigger] sv[i],
        #[trigger] recs[j],
    ) by {
        if i >= 4 {
            let e = rec.metadata[i - 4];
            assert(sv[i] == meta_desc(e));
            assert(sv[i].ty != ColumnType::Timestamp);
        } else {
            assert(sv[i].source != ColumnSource::EventTime);
            assert(sv[i].source != ColumnSource::Minute);
            assert(sv[i].source != ColumnSource::Metadata);
        }
    }
}

/// The core of one pipeline invocation, shared by both services: build the
/// schema from the first record, encode every record, and serialize the
/// batch, under the given file name. Succeeds exactly when the batch
/// encodes and every text column stays under the writer's offset bound;
/// the encoder's aligned, type-correct columns are otherwise always
/// writable.
fn prepare_batch(
    records: &Vec<LogRecord>,
    with_event_time: bool,
    file_name: String,
) -> (r: Result<PreparedFile, PipelineError>)
    requires
        records@.len() > 0,
    ensures
        ({
            let rv = records_view(records@);
            let sv = schema_spec(rv[0], with_event_time);
            match r {
                Ok(p) => {
                    &&& batch_err(sv, rv) is None
                    &&& all_texts_fit(batch_columns_spec(sv, rv))
                    &&& p.file_name == file_name
                    &&& p.bytes@ == parquet_encoding(sv, batch_columns_spec(sv, rv))
                },
                Err(PipelineError::Encode(e)) => batch_err(sv, rv) == Some(e@),
                Err(PipelineError::Write(WriteError::TextColumnTooLarge(i))) => {
                    &&& batch_err(sv, rv) is None
                    &&& 0 <= i < sv.len()
                    &&& !text_fits(batch_columns_spec(sv, rv)[i as int])
                    &&& forall|k: int|
                        0 <= k < i ==> text_fits(#[trigger] batch_columns_spec(sv, rv)[k])
                },
                Err(PipelineError::Write(_)) => false,
                Err(PipelineError::MissingTenant) => false,
            }
        }),
{
    let ghost rv = records_view(records@);
    proof {
        assert(rv[0] == records@[0]@);
    }
    let schema = build_schema(&records[0], with_event_time);
    let ghost sv = schema_spec(rv[0], with_event_time);
    let cols = match encode_batch(&schema, records) {
        Ok(cols) => cols,
        Err(e) => {
            return Err(PipelineError::Encode(e));
        },
    };
    proof {
        assert(cols_views(cols@) =~= batch_columns_spec(sv, rv));
        assert(fixed_schema_spec(with_event_time).len() >= 4);
        assert(writable_batch(sv, cols@));
    }
    match parquet_file_bytes(&schema, &cols) {
        Ok(bytes) => Ok(PreparedFile { file_name, bytes }),
        Err(WriteError::TextColumnTooLarge(i)) => Err(
            PipelineError::Write(WriteError::TextColumnTooLarge(i)),
        ),
        Err(_) => vstd::pervasive::unreached(),
    }
}

/// The ingestion service whose records carry their own event time: the
/// schema holds the event-time and minute columns, and the artifact is
/// stamped with the first record's minute.
#[derive(Debug, Default)]
pub struct MyLogService;

impl MyLogService {
    /// One whole batch: the artifact named from the first record's tenant
    /// and event-time minute, the schema derived from that record with the
    /// two timestamp columns, every record encoded, and the batch
    /// serialized as parquet bytes. Fails exactly when the first record
    /// has no tenant name, when any record's event time — the first
    /// record's deciding the name — is missing or malformed, or when a
    /// text column outgrows the writer's offset bound.
    pub fn process_logs(&self, records: &Vec<LogRecord>) -> (r: Result<
        PreparedFile,
        PipelineError,
    >)
        requires
            records@.len() > 0,
        ensures
            ({
                let rv = records_view(records@);
                let r0 = rv[0];
                let sv = schema_spec(r0, true);
                match r {
                    Ok(p) => {
                        &&& r0.tenant_name is Some
                        &&& rec_time(r0) is Some
                        &&& batch_err(sv, rv) is None
                        &&& all_texts_fit(batch_columns_spec(sv, rv))
                        &&& p.file_name@ == file_name_spec(
                            text_or_zero(r0.tenant_name),
                            minute_stamp(time_or_zero(rec_time(r0))),
                        )
                        &&& p.bytes@ == parquet_encoding(sv, batch_columns_spec(sv, rv))
                    },
                    Err(PipelineError::MissingTenant) => r0.tenant_name is None,
                    Err(PipelineError::Encode(e)) => {
                        &&& r0.tenant_name is Some
                        &&& if rec_time(r0) is None {
                            e@ == EncodeErrorV::BadTimestamp(text_or_zero(r0.datetime))
                        } else {
                            batch_err(sv, rv) == Some(e@)
                        }
                    },
                    Err(PipelineError::Write(WriteError::TextColumnTooLarge(i))) => {
                        &&& r0.tenant_name is Some
                        &&& rec_time(r0) is Some
                        &&& batch_err(sv, rv) is None
                        &&& 0 <= i < sv.len()
                        &&& !text_fits(batch_columns_spec(sv, rv)[i as int])
                        &&& forall|k: int|
                            0 <= k < i ==> text_fits(#[trigger] batch_columns_spec(sv, rv)[k])
                    },
                    Err(PipelineError::Write(_)) => false,
                }
            }),
    {
        let ghost rv = records_view(records@);
        proof {
            assert(rv[0] == records@[0]@);
        }
        let first = &records[0];
        let tenant = match &first.tenant_name {
            Some(t) => t,
            None => {
                return Err(PipelineError::MissingTenant);
            },
        };
        let datetime = match &first.datetime {
            Some(d) => d,
            None => {
                return Err(PipelineError::Encode(EncodeError::BadTimestamp(String::new())));
            },
        };
        let nanos = match parse_event_time(datetime.as_str()) {
            Some(t) => t,
            None => {
                return Err(PipelineError::Encode(EncodeError::BadTimestamp(datetime.clone())));
            },
        };
        let stamp = format_minute_stamp(nanos);
        let file_name = make_file_name(tenant.as_str(), stamp.as_str());
        prepare_batch(records, true, file_name)
    }
}

/// The ingestion service whose records carry no event time: the schema
/// holds only the fixed and inferred columns, and the artifact is stamped
/// with the ingestion clock's minute.
#[derive(Debug, Default)]
pub struct MyParquetbService;

impl MyParquetbService {
    /// One whole batch at a given clock reading: the artifact named from
    /// the first record's tenant and the clock's minute, the schema
    /// derived from that record without timestamp columns, every record
    /// encoded, and the batch serialized as parquet bytes. Fails exactly
    /// when the first record has no tenant name or a text column outgrows
    /// the writer's offset bound: this schema refuses no record.
    pub fn process_logs_at(&self, records: &Vec<LogRecord>, now: i64) -> (r: Result<
        PreparedFile,
        PipelineError,
    >)
        requires
            records@.len() > 0,
        ensures
            ({
                let rv = records_view(records@);
                let r0 = rv[0];
                let sv = schema_spec(r0, false);
                match r {
                    Ok(p) => {
                        &&& r0.tenant_name is Some
                        &&& all_texts_fit(batch_columns_spec(sv, rv))
                        &&& p.file_name@ == file_name_spec(
                            text_or_zero(r0.tenant_name),
                            minute_stamp(now),
                        )
                        &&& p.bytes@ == parquet_encoding(sv, batch_columns_spec(sv, rv))
                    },
                    Err(PipelineError::MissingTenant) => r0.tenant_name is None,
                    Err(PipelineError::Encode(_)) => false,
                    Err(PipelineError::Write(WriteError::TextColumnTooLarge(i))) => {
                        &&& r0.tenant_name is Some
                        &&& 0 <= i < sv.len()
                        &&& !text_fits(batch_columns_spec(sv, rv)[i as int])
                        &&& forall|k: int|
                            0 <= k < i ==> text_fits(#[trigger] batch_columns_spec(sv, rv)[k])
                    },
                    Err(PipelineError::Write(_)) => false,
                }
            }),
    {
        let ghost rv = records_view(records@);
        proof {
            assert(rv[0] == records@[0]@);
        }
        let first = &records[0];
        let tenant = match &first.tenant_name {
            Some(t) => t,
            None => {
                return Err(PipelineError::MissingTenant);
            },
        };
        let stamp = format_minute_stamp(now);
        let file_name = make_file_name(tenant.as_str(), stamp.as_str());
        proof {
            lemma_no_time_schema_encodes(rv[0], rv);
        }
        match prepare_batch(records, false, file_name) {
            Ok(p) => Ok(p),
            Err(PipelineError::Write(w)) => Err(PipelineError::Write(w)),
            Err(_) => vstd::pervasive::unreached(),
        }
    }

    /// One whole batch at the current clock reading: as `process_logs_at`,
    /// with the stamp taken from the clock now — so the name's stamp is
    /// that of some clock reading, and everything else is as deterministic
    /// as ever.
    pub fn process_logs(&self, records: &Vec<LogRecord>) -> (r: Result<
        PreparedFile,
        PipelineError,
    >)
        requires
            records@.len() > 0,
        ensures
            ({
                let rv = records_view(records@);
                let r0 = rv[0];
                let sv = schema_spec(r0, false);
                match r {
                    Ok(p) => {
                        &&& r0.tenant_name is Some
                        &&& all_texts_fit(batch_columns_spec(sv, rv))
                        &&& exists|t: i64|
                            p.file_name@ == file_name_spec(
                                text_or_zero(r0.tenant_name),
                                minute_stamp(t),
                            )
                        &&& p.bytes@ == parquet_encoding(sv, batch_columns_spec(sv, rv))
                    },
                    Err(PipelineError::MissingTenant) => r0.tenant_name is None,
                    Err(PipelineError::Encode(_)) => false,
                    Err(PipelineError::Write(WriteError::TextColumnTooLarge(i))) => {
                        &&& r0.tenant_name is Some
                        &&& 0 <= i < sv.len()
                        &&& !text_fits(batch_columns_spec(sv, rv)[i as int])
                        &&& forall|k: int|
                            0 <= k < i ==> text_fits(#[trigger] batch_columns_spec(sv, rv)[k])
                    },
                    Err(PipelineError::Write(_)) => false,
                }
            }),
    {
        let now = now_nanos();
        self.process_logs_at(records, now)
    }
}

} // verus!
