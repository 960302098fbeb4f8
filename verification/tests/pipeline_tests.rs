use arrow::array::{Array, Float64Array, StringArray, TimestampNanosecondArray};
use arrow::datatypes::DataType;
use parquet::arrow::arrow_reader::ParquetRecordBatchReaderBuilder;

use parquetb::chunk::{chunk_bytes, CHUNK_SIZE};
use parquetb::encode::{encode_batch, ColumnArray, EncodeError};
use parquetb::event_time::{minute_of, truncate_to_minute};
use parquetb::pipeline::{MyLogService, MyParquetbService, PipelineError};
use parquetb::record::{LogRecord, MetaEntry, MetaValue};
use parquetb::columns::{ColumnDesc, ColumnSource, ColumnType};
use parquetb::schema::{build_schema, ColumnSchema};
use parquetb::writer::{parquet_file_bytes, WriteError, MAX_TEXT_COLUMN_CHARS};

fn record(
    tenant: Option<&str>,
    item: Option<&str>,
    status: Option<&str>,
    qty: Option<f64>,
    datetime: Option<&str>,
    metadata: Vec<(&str, MetaValue)>,
) -> LogRecord {
    LogRecord {
        tenant_name: tenant.map(|s| s.to_string()),
        item_id: item.map(|s| s.to_string()),
        status: status.map(|s| s.to_string()),
        qty_bits: qty.map(f64::to_bits),
        datetime: datetime.map(|s| s.to_string()),
        metadata: metadata
            .into_iter()
            .map(|(k, v)| MetaEntry { key: k.to_string(), value: v })
            .collect(),
    }
}

#[test]
fn truncate_to_minute_zeroes_seconds() {
    assert_eq!(
        truncate_to_minute(1_705_314_645_000_000_000),
        1_705_314_600_000_000_000
    );
    assert_eq!(truncate_to_minute(1_705_314_600_000_000_000), 1_705_314_600_000_000_000);
    assert_eq!(truncate_to_minute(59_999_999_999), 0);
    assert_eq!(truncate_to_minute(-1), -60_000_000_000);
}

#[test]
fn minute_of_collapses_unrepresentable_minutes_to_zero() {
    assert_eq!(minute_of(i64::MIN), 0);
    assert_eq!(minute_of(-9_223_372_020_000_000_001), 0);
    assert_eq!(minute_of(-9_223_372_020_000_000_000), -9_223_372_020_000_000_000);
    assert_eq!(minute_of(1_705_314_645_000_000_000), 1_705_314_600_000_000_000);
}

#[test]
fn prepared_parquet_chunks_reconstruct_the_file() {
    let records = vec![record(
        Some("Acme"),
        Some("X1"),
        Some("OK"),
        Some(3.5),
        None,
        vec![("region", MetaValue::Text("us".to_string()))],
    )];
    let prepared = MyParquetbService
        .process_logs_at(&records, 1_705_314_645_000_000_000)
        .unwrap();
    let chunks = chunk_bytes(&prepared.bytes, CHUNK_SIZE);
    let mut reassembled: Vec<u8> = Vec::new();
    for c in &chunks {
        assert!(c.len() <= CHUNK_SIZE);
        reassembled.extend_from_slice(c);
    }
    assert_eq!(reassembled, prepared.bytes);
}

#[test]
fn log_service_names_file_from_first_event_minute() {
    let records = vec![record(
        Some("Acme"),
        Some("X1"),
        Some("OK"),
        Some(3.5),
        Some("2024-01-15T10:30:45Z"),
        vec![],
    )];
    let prepared = MyLogService.process_logs(&records).unwrap();
    assert_eq!(prepared.file_name, "Acme_202401151030.parquet");
    assert!(!prepared.bytes.is_empty());
}

#[test]
fn log_service_rejects_missing_tenant() {
    let records = vec![record(
        None,
        Some("X1"),
        Some("OK"),
        Some(3.5),
        Some("2024-01-15T10:30:45Z"),
        vec![],
    )];
    let err = MyLogService.process_logs(&records).unwrap_err();
    assert!(matches!(err, PipelineError::MissingTenant));
}

#[test]
fn log_service_rejects_missing_first_datetime() {
    let records = vec![record(Some("Acme"), Some("X1"), Some("OK"), Some(3.5), None, vec![])];
    let err = MyLogService.process_logs(&records).unwrap_err();
    match err {
        PipelineError::Encode(EncodeError::BadTimestamp(s)) => assert_eq!(s, ""),
        other => panic!("unexpected error: {:?}", other),
    }
}

#[test]
fn log_service_rejects_malformed_first_datetime() {
    let records = vec![record(
        Some("Acme"),
        Some("X1"),
        Some("OK"),
        Some(3.5),
        Some("yesterday"),
        vec![],
    )];
    let err = MyLogService.process_logs(&records).unwrap_err();
    match err {
        PipelineError::Encode(EncodeError::BadTimestamp(s)) => assert_eq!(s, "yesterday"),
        other => panic!("unexpected error: {:?}", other),
    }
}

#[test]
fn log_service_rejects_missing_datetime_in_later_record() {
    let records = vec![
        record(
            Some("Acme"),
            Some("X1"),
            Some("OK"),
            Some(3.5),
            Some("2024-01-15T10:30:45Z"),
            vec![],
        ),
        record(Some("Acme"), Some("X2"), Some("OK"), Some(1.0), None, vec![]),
    ];
    let err = MyLogService.process_logs(&records).unwrap_err();
    match err {
        PipelineError::Encode(EncodeError::BadTimestamp(s)) => assert_eq!(s, ""),
        other => panic!("unexpected error: {:?}", other),
    }
}

#[test]
fn parquetb_service_names_file_from_clock_minute() {
    let records = vec![record(Some("Acme"), Some("X1"), Some("OK"), Some(3.5), None, vec![])];
    let prepared = MyParquetbService
        .process_logs_at(&records, 1_705_314_645_000_000_000)
        .unwrap();
    assert_eq!(prepared.file_name, "Acme_202401151030.parquet");
}

#[test]
fn parquetb_service_clock_variant_produces_same_bytes() {
    let records = vec![record(Some("Acme"), Some("X1"), Some("OK"), Some(3.5), None, vec![])];
    let with_clock = MyParquetbService.process_logs(&records).unwrap();
    let fixed = MyParquetbService
        .process_logs_at(&records, 1_705_314_645_000_000_000)
        .unwrap();
    assert!(with_clock.file_name.starts_with("Acme_"));
    assert!(with_clock.file_name.ends_with(".parquet"));
    assert_eq!(with_clock.bytes, fixed.bytes);
}

#[test]
fn parquetb_service_rejects_missing_tenant() {
    let records = vec![record(None, Some("X1"), Some("OK"), Some(3.5), None, vec![])];
    let err = MyParquetbService
        .process_logs_at(&records, 1_705_314_645_000_000_000)
        .unwrap_err();
    assert!(matches!(err, PipelineError::MissingTenant));
}

#[test]
fn writer_refuses_column_count_mismatch() {
    let rec = record(
        Some("Acme"),
        Some("X1"),
        Some("OK"),
        Some(3.5),
        None,
        vec![("region", MetaValue::Text("us".to_string()))],
    );
    let schema = build_schema(&rec, false);
    let records = vec![rec];
    let mut cols = encode_batch(&schema, &records).unwrap();
    cols.pop();
    let err = parquet_file_bytes(&schema, &cols).unwrap_err();
    match err {
        WriteError::ColumnCountMismatch(ncols, nfields) => {
            assert_eq!(ncols, 4);
            assert_eq!(nfields, 5);
        },
        other => panic!("unexpected error: {:?}", other),
    }
}

#[test]
fn writer_refuses_mismatched_column_types_and_lengths() {
    let rec = record(Some("Acme"), Some("X1"), Some("OK"), Some(3.5), None, vec![]);
    let schema = build_schema(&rec, false);
    let records = vec![rec];
    let cols = encode_batch(&schema, &records).unwrap();

    let mut wrong_type = cols.clone();
    wrong_type[0] = ColumnArray::Float(vec![1.0f64.to_bits()]);
    assert!(matches!(
        parquet_file_bytes(&schema, &wrong_type).unwrap_err(),
        WriteError::Backend(_)
    ));

    let mut wrong_len = cols.clone();
    wrong_len[0] = ColumnArray::Text(vec!["Acme".to_string(), "extra".to_string()]);
    assert!(matches!(
        parquet_file_bytes(&schema, &wrong_len).unwrap_err(),
        WriteError::Backend(_)
    ));
}

#[test]
fn writer_refuses_oversize_text_column() {
    let schema = ColumnSchema {
        columns: vec![ColumnDesc {
            name: "status".to_string(),
            ty: ColumnType::Text,
            source: ColumnSource::Status,
            nullable: false,
        }],
    };
    let big = "x".repeat(MAX_TEXT_COLUMN_CHARS as usize + 1);
    let cols = vec![ColumnArray::Text(vec![big])];
    match parquet_file_bytes(&schema, &cols).unwrap_err() {
        WriteError::TextColumnTooLarge(i) => assert_eq!(i, 0),
        other => panic!("unexpected error: {:?}", other),
    }
}

#[test]
fn writing_twice_gives_identical_parquet_bytes() {
    let records = vec![record(
        Some("Acme"),
        Some("X1"),
        Some("OK"),
        Some(3.5),
        None,
        vec![("region", MetaValue::Text("us".to_string()))],
    )];
    let once = MyParquetbService
        .process_logs_at(&records, 1_705_314_645_000_000_000)
        .unwrap();
    let twice = MyParquetbService
        .process_logs_at(&records, 1_705_314_645_000_000_000)
        .unwrap();
    assert_eq!(once.bytes, twice.bytes);
}

#[test]
fn parquet_round_trip_preserves_schema_and_values() {
    let records = vec![
        record(
            Some("Acme"),
            Some("X1"),
            Some("OK"),
            Some(3.5),
            None,
            vec![("region", MetaValue::Text("us".to_string()))],
        ),
        record(Some("Acme"), Some("X2"), Some("BAD"), Some(-1.25), None, vec![]),
    ];
    let prepared = MyParquetbService
        .process_logs_at(&records, 1_705_314_645_000_000_000)
        .unwrap();

    let reader = ParquetRecordBatchReaderBuilder::try_new(bytes::Bytes::from(prepared.bytes))
        .unwrap()
        .build()
        .unwrap();
    let batches: Vec<_> = reader.collect::<Result<Vec<_>, _>>().unwrap();
    assert_eq!(batches.len(), 1);
    let batch = &batches[0];
    assert_eq!(batch.num_rows(), 2);
    assert_eq!(batch.num_columns(), 5);

    let schema = batch.schema();
    let names: Vec<&str> = schema.fields().iter().map(|f| f.name().as_str()).collect();
    assert_eq!(names, vec!["tenant_name", "item_id", "status", "qty", "region"]);
    assert_eq!(*schema.field(0).data_type(), DataType::Utf8);
    assert_eq!(*schema.field(3).data_type(), DataType::Float64);
    assert_eq!(*schema.field(4).data_type(), DataType::Utf8);
    assert!(!schema.field(0).is_nullable());
    assert!(schema.field(4).is_nullable());

    let tenant = batch.column(0).as_any().downcast_ref::<StringArray>().unwrap();
    assert_eq!(tenant.value(0), "Acme");
    assert_eq!(tenant.value(1), "Acme");
    let item = batch.column(1).as_any().downcast_ref::<StringArray>().unwrap();
    assert_eq!(item.value(0), "X1");
    assert_eq!(item.value(1), "X2");
    let status = batch.column(2).as_any().downcast_ref::<StringArray>().unwrap();
    assert_eq!(status.value(0), "OK");
    assert_eq!(status.value(1), "BAD");
    let qty = batch.column(3).as_any().downcast_ref::<Float64Array>().unwrap();
    assert_eq!(qty.value(0), 3.5);
    assert_eq!(qty.value(1), -1.25);
    let region = batch.column(4).as_any().downcast_ref::<StringArray>().unwrap();
    assert_eq!(region.value(0), "us");
    assert_eq!(region.value(1), "");
}

#[test]
fn parquet_round_trip_preserves_event_time_columns() {
    let records = vec![record(
        Some("Acme"),
        Some("X1"),
        Some("OK"),
        Some(1.0),
        Some("2024-01-15T10:30:45Z"),
        vec![],
    )];
    let prepared = MyLogService.process_logs(&records).unwrap();

    let reader = ParquetRecordBatchReaderBuilder::try_new(bytes::Bytes::from(prepared.bytes))
        .unwrap()
        .build()
        .unwrap();
    let batches: Vec<_> = reader.collect::<Result<Vec<_>, _>>().unwrap();
    let batch = &batches[0];
    assert_eq!(batch.num_columns(), 6);
    let datetime = batch
        .column(4)
        .as_any()
        .downcast_ref::<TimestampNanosecondArray>()
        .unwrap();
    assert_eq!(datetime.value(0), 1_705_314_645_000_000_000);
    let minute = batch
        .column(5)
        .as_any()
        .downcast_ref::<TimestampNanosecondArray>()
        .unwrap();
    assert_eq!(minute.value(0), 1_705_314_600_000_000_000);
}

#[test]
fn encoded_datetime_agrees_with_chrono() {
    let text = "2024-03-01T07:05:09.123456789Z";
    let expected = text
        .parse::<chrono::DateTime<chrono::Utc>>()
        .unwrap()
        .timestamp_nanos_opt()
        .unwrap();
    let rec = record(Some("Acme"), Some("X1"), Some("OK"), Some(1.0), Some(text), vec![]);
    let schema = build_schema(&rec, true);
    let records = vec![rec];
    let cols = encode_batch(&schema, &records).unwrap();
    assert_eq!(cols[4], ColumnArray::Timestamp(vec![expected]));
}
