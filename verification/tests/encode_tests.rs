use parquetb::columns::{ColumnDesc, ColumnSource, ColumnType};
use parquetb::encode::{
    encode_batch, encode_cell, log_entry_to_arrays, CellData, ColumnArray, EncodeError,
};
use parquetb::record::{LogRecord, MetaEntry, MetaValue};
use parquetb::schema::{build_schema, infer_metadata_schema, infer_type};

fn meta(entries: Vec<(&str, MetaValue)>) -> Vec<MetaEntry> {
    entries
        .into_iter()
        .map(|(k, v)| MetaEntry { key: k.to_string(), value: v })
        .collect()
}

fn record(
    tenant: Option<&str>,
    item: Option<&str>,
    status: Option<&str>,
    qty: Option<f64>,
    datetime: Option<&str>,
    metadata: Vec<(&str, MetaValue)>,
) -> LogRecord {
    LogRecord {
        tenant_name: tenant.map(|s| s.to_string()),
        item_id: item.map(|s| s.to_string()),
        status: status.map(|s| s.to_string()),
        qty_bits: qty.map(f64::to_bits),
        datetime: datetime.map(|s| s.to_string()),
        metadata: meta(metadata),
    }
}

#[test]
fn infer_type_maps_each_shape() {
    assert_eq!(infer_type(&MetaValue::Text("a".to_string())), ColumnType::Text);
    assert_eq!(infer_type(&MetaValue::Number(2.5f64.to_bits())), ColumnType::Float);
    assert_eq!(infer_type(&MetaValue::Truth(true)), ColumnType::Boolean);
    assert_eq!(infer_type(&MetaValue::Composite), ColumnType::Text);
}

#[test]
fn infer_metadata_schema_keeps_order_and_nullability() {
    let md = meta(vec![
        ("region", MetaValue::Text("us".to_string())),
        ("score", MetaValue::Number(1.5f64.to_bits())),
        ("flag", MetaValue::Truth(false)),
        ("extra", MetaValue::Composite),
    ]);
    let cols = infer_metadata_schema(&md);
    let names: Vec<&str> = cols.iter().map(|c| c.name.as_str()).collect();
    assert_eq!(names, vec!["region", "score", "flag", "extra"]);
    let types: Vec<ColumnType> = cols.iter().map(|c| c.ty).collect();
    assert_eq!(
        types,
        vec![ColumnType::Text, ColumnType::Float, ColumnType::Boolean, ColumnType::Text]
    );
    assert!(cols.iter().all(|c| c.nullable));
}

#[test]
fn schema_from_record_with_region() {
    let rec = record(
        Some("Acme"),
        Some("X1"),
        Some("OK"),
        Some(3.5),
        None,
        vec![("region", MetaValue::Text("us".to_string()))],
    );
    let schema = build_schema(&rec, false);
    let names: Vec<&str> = schema.columns.iter().map(|c| c.name.as_str()).collect();
    assert_eq!(names, vec!["tenant_name", "item_id", "status", "qty", "region"]);
    let types: Vec<ColumnType> = schema.columns.iter().map(|c| c.ty).collect();
    assert_eq!(
        types,
        vec![
            ColumnType::Text,
            ColumnType::Text,
            ColumnType::Text,
            ColumnType::Float,
            ColumnType::Text
        ]
    );
    assert!(!schema.columns[0].nullable);
    assert!(schema.columns[4].nullable);

    let records = vec![rec];
    let cols = encode_batch(&schema, &records).unwrap();
    assert_eq!(cols.len(), 5);
    assert_eq!(cols[0], ColumnArray::Text(vec!["Acme".to_string()]));
    assert_eq!(cols[1], ColumnArray::Text(vec!["X1".to_string()]));
    assert_eq!(cols[2], ColumnArray::Text(vec!["OK".to_string()]));
    assert_eq!(cols[3], ColumnArray::Float(vec![3.5f64.to_bits()]));
    assert_eq!(cols[4], ColumnArray::Text(vec!["us".to_string()]));
}

#[test]
fn schema_with_event_time_adds_timestamp_columns() {
    let rec = record(Some("Acme"), Some("X1"), Some("OK"), Some(1.0), Some("2024-01-15T10:30:45Z"), vec![]);
    let schema = build_schema(&rec, true);
    let names: Vec<&str> = schema.columns.iter().map(|c| c.name.as_str()).collect();
    assert_eq!(names, vec!["tenant_name", "item_id", "status", "qty", "datetime", "minute"]);
    assert_eq!(schema.columns[4].ty, ColumnType::Timestamp);
    assert_eq!(schema.columns[5].ty, ColumnType::Timestamp);
}

#[test]
fn missing_region_encodes_empty_text() {
    let first = record(
        Some("Acme"),
        Some("X1"),
        Some("OK"),
        Some(3.5),
        None,
        vec![("region", MetaValue::Text("us".to_string()))],
    );
    let second = record(Some("Acme"), Some("X2"), Some("OK"), Some(1.0), None, vec![]);
    let schema = build_schema(&first, false);
    let records = vec![first, second];
    let cols = encode_batch(&schema, &records).unwrap();
    assert_eq!(cols[4], ColumnArray::Text(vec!["us".to_string(), "".to_string()]));
}

#[test]
fn missing_metadata_keys_encode_zero_values() {
    let first = record(
        Some("Acme"),
        Some("X1"),
        Some("OK"),
        Some(1.0),
        None,
        vec![
            ("score", MetaValue::Number(2.5f64.to_bits())),
            ("flag", MetaValue::Truth(true)),
            ("label", MetaValue::Text("a".to_string())),
        ],
    );
    let second = record(Some("Acme"), Some("X2"), Some("OK"), Some(1.0), None, vec![]);
    let schema = build_schema(&first, false);
    let records = vec![first, second];
    let cols = encode_batch(&schema, &records).unwrap();
    assert_eq!(cols[4], ColumnArray::Float(vec![2.5f64.to_bits(), 0.0f64.to_bits()]));
    assert_eq!(cols[5], ColumnArray::Boolean(vec![true, false]));
    assert_eq!(cols[6], ColumnArray::Text(vec!["a".to_string(), "".to_string()]));
    assert_eq!(0.0f64.to_bits(), 0u64);
}

#[test]
fn mismatched_metadata_value_coerces_to_zero() {
    let first = record(
        Some("Acme"),
        Some("X1"),
        Some("OK"),
        Some(1.0),
        None,
        vec![("region", MetaValue::Text("us".to_string()))],
    );
    let second = record(
        Some("Acme"),
        Some("X2"),
        Some("OK"),
        Some(1.0),
        None,
        vec![("region", MetaValue::Number(7.0f64.to_bits()))],
    );
    let third = record(
        Some("Acme"),
        Some("X3"),
        Some("OK"),
        Some(1.0),
        None,
        vec![("region", MetaValue::Composite)],
    );
    let schema = build_schema(&first, false);
    let records = vec![first, second, third];
    let cols = encode_batch(&schema, &records).unwrap();
    assert_eq!(
        cols[4],
        ColumnArray::Text(vec!["us".to_string(), "".to_string(), "".to_string()])
    );
}

#[test]
fn missing_fixed_fields_encode_zero_values() {
    let first = record(Some("Acme"), Some("X1"), Some("OK"), Some(1.0), None, vec![]);
    let second = record(None, None, None, None, None, vec![]);
    let schema = build_schema(&first, false);
    let records = vec![first, second];
    let cols = encode_batch(&schema, &records).unwrap();
    assert_eq!(cols[0], ColumnArray::Text(vec!["Acme".to_string(), "".to_string()]));
    assert_eq!(cols[3], ColumnArray::Float(vec![1.0f64.to_bits(), 0.0f64.to_bits()]));
}

#[test]
fn batch_lengths_match_schema_and_record_count() {
    let first = record(
        Some("Acme"),
        Some("X1"),
        Some("OK"),
        Some(1.0),
        None,
        vec![
            ("region", MetaValue::Text("us".to_string())),
            ("flag", MetaValue::Truth(true)),
        ],
    );
    let second = record(Some("B"), Some("X2"), Some("N"), Some(2.0), None, vec![]);
    let third = record(Some("C"), Some("X3"), Some("N"), Some(3.0), None, vec![]);
    let schema = build_schema(&first, false);
    let records = vec![first, second, third];
    let cols = encode_batch(&schema, &records).unwrap();
    assert_eq!(cols.len(), schema.columns.len());
    for col in &cols {
        assert_eq!(col.len(), records.len());
    }
}

#[test]
fn encoding_twice_is_byte_identical() {
    let first = record(
        Some("Acme"),
        Some("X1"),
        Some("OK"),
        Some(3.5),
        Some("2024-01-15T10:30:45Z"),
        vec![
            ("region", MetaValue::Text("us".to_string())),
            ("score", MetaValue::Number(0.1f64.to_bits())),
        ],
    );
    let second = record(
        Some("Acme"),
        Some("X2"),
        Some("BAD"),
        Some(-7.25),
        Some("2024-01-15T10:31:00Z"),
        vec![("region", MetaValue::Text("eu".to_string()))],
    );
    let schema = build_schema(&first, true);
    let records = vec![first, second];
    let once = encode_batch(&schema, &records).unwrap();
    let twice = encode_batch(&schema, &records).unwrap();
    assert_eq!(once, twice);
}

#[test]
fn datetime_and_minute_columns_hold_parsed_nanos() {
    let rec = record(
        Some("Acme"),
        Some("X1"),
        Some("OK"),
        Some(1.0),
        Some("2024-01-15T10:30:45Z"),
        vec![],
    );
    let schema = build_schema(&rec, true);
    let records = vec![rec];
    let cols = encode_batch(&schema, &records).unwrap();
    assert_eq!(cols[4], ColumnArray::Timestamp(vec![1_705_314_645_000_000_000]));
    assert_eq!(cols[5], ColumnArray::Timestamp(vec![1_705_314_600_000_000_000]));
}

#[test]
fn missing_datetime_fails_batch_with_event_time() {
    let first = record(Some("Acme"), Some("X1"), Some("OK"), Some(1.0), Some("2024-01-15T10:30:45Z"), vec![]);
    let second = record(Some("Acme"), Some("X2"), Some("OK"), Some(1.0), None, vec![]);
    let schema = build_schema(&first, true);
    let records = vec![first, second];
    let err = encode_batch(&schema, &records).unwrap_err();
    match err {
        EncodeError::BadTimestamp(s) => assert_eq!(s, ""),
        other => panic!("unexpected error: {:?}", other),
    }
}

#[test]
fn malformed_datetime_fails_batch_with_its_text() {
    let first = record(
        Some("Acme"),
        Some("X1"),
        Some("OK"),
        Some(1.0),
        Some("not-a-time"),
        vec![],
    );
    let schema = build_schema(&first, true);
    let records = vec![first];
    let err = encode_batch(&schema, &records).unwrap_err();
    match err {
        EncodeError::BadTimestamp(s) => assert_eq!(s, "not-a-time"),
        other => panic!("unexpected error: {:?}", other),
    }
}

#[test]
fn timestamp_metadata_column_is_unsupported() {
    let col = ColumnDesc {
        name: "odd".to_string(),
        ty: ColumnType::Timestamp,
        source: ColumnSource::Metadata,
        nullable: true,
    };
    let rec = record(Some("Acme"), Some("X1"), Some("OK"), Some(1.0), None, vec![]);
    let err = encode_cell(&col, &rec).unwrap_err();
    match err {
        EncodeError::UnsupportedColumn(name) => assert_eq!(name, "odd"),
        other => panic!("unexpected error: {:?}", other),
    }
}

#[test]
fn single_record_arrays_match_batch_of_one() {
    let rec = record(
        Some("Acme"),
        Some("X1"),
        Some("OK"),
        Some(3.5),
        None,
        vec![("region", MetaValue::Text("us".to_string()))],
    );
    let schema = build_schema(&rec, false);
    let single = log_entry_to_arrays(&rec, &schema).unwrap();
    let records = vec![rec];
    let batch = encode_batch(&schema, &records).unwrap();
    assert_eq!(single, batch);
    for col in &single {
        assert_eq!(col.len(), 1);
    }
}

#[test]
fn first_metadata_entry_wins_on_duplicate_keys() {
    let rec = record(
        Some("Acme"),
        Some("X1"),
        Some("OK"),
        Some(1.0),
        None,
        vec![
            ("region", MetaValue::Text("us".to_string())),
            ("region", MetaValue::Text("eu".to_string())),
        ],
    );
    let schema = build_schema(&rec, false);
    let cell = encode_cell(&schema.columns[4], &rec).unwrap();
    assert_eq!(cell, CellData::Text("us".to_string()));
}
