//! Schema inference and construction: the fixed columns in their stable
//! order, followed by one inferred, nullable column per metadata key of the
//! representative record, in that record's own key order.

use vstd::prelude::*;

use crate::columns::{col_wf, ColumnDesc, ColumnDescV, ColumnSource, ColumnType};
use crate::record::{meta_view, LogRecord, LogRecordV, MetaEntry, MetaEntryV, MetaValue, MetaValueV};

verus! {

/// The column type inferred from one sample metadata value: text stays text,
/// every numeric value widens to a 64-bit float, booleans stay boolean, and
/// any other shape falls back to text.
pub open spec fn inferred_type(v: MetaValueV) -> ColumnType {
    match v {
        MetaValueV::Text(_) => ColumnType::Text,
        MetaValueV::Number(_) => ColumnType::Float,
        MetaValueV::Truth(_) => ColumnType::Boolean,
        MetaValueV::Composite => ColumnType::Text,
    }
}

/// Derives a column type for a dynamically-named field from a sample value.
pub fn infer_type(v: &MetaValue) -> (t: ColumnType)
    ensures
        t == inferred_type(v@),
{
    match v {
        MetaValue::Text(_) => ColumnType::Text,
        MetaValue::Number(_) => ColumnType::Float,
        MetaValue::Truth(_) => ColumnType::Boolean,
        MetaValue::Composite => ColumnType::Text,
    }
}

/// The descriptor an inferred metadata entry contributes to the schema.
pub open spec fn meta_desc(e: MetaEntryV) -> ColumnDescV {
    ColumnDescV {
        name: e.key,
        ty: inferred_type(e.value),
        source: ColumnSource::Metadata,
        nullable: true,
    }
}

/// The inferred tail of the schema: one nullable column per metadata entry,
/// in arrival order.
pub open spec fn meta_schema_spec(md: Seq<MetaEntryV>) -> Seq<ColumnDescV> {
    md.map_values(|e: MetaEntryV| meta_desc(e))
}

/// The spec-level image of a descriptor list.
pub open spec fn descs_view(cols: Seq<ColumnDesc>) -> Seq<ColumnDescV> {
    cols.map_values(|c: ColumnDesc| c@)
}

/// Infers one nullable column descriptor per metadata entry, keeping the
/// mapping's order.
pub fn infer_metadata_schema(metadata: &Vec<MetaEntry>) -> (r: Vec<ColumnDesc>)
    ensures
        descs_view(r@) == meta_schema_spec(meta_view(metadata@)),
{
    let ghost mdv = meta_view(metadata@);
    let mut r: Vec<ColumnDesc> = Vec::new();
    let mut i: usize = 0;
    while i < metadata.len()
        invariant
            0 <= i <= metadata.len(),
            mdv == meta_view(metadata@),
            r@.len() == i,
            descs_view(r@) == meta_schema_spec(mdv).take(i as int),
        decreases metadata.len() - i,
    {
        let ty = infer_type(&metadata[i].value);
        r.push(ColumnDesc {
            name: metadata[i].key.clone(),
            ty,
            source: ColumnSource::Metadata,
            nullable: true,
        });
        proof {
            assert(descs_view(r@) =~= meta_schema_spec(mdv).take(i + 1));
        }
        i = i + 1;
    }
    proof {
        assert(meta_schema_spec(mdv).take(metadata@.len() as int) =~= meta_schema_spec(mdv));
    }
    r
}

/// The fixed head of every schema, in its stable, hard-coded order; the two
/// timestamp columns are present only when the ingestion mode carries an
/// event time.
pub open spec fn fixed_schema_spec(with_event_time: bool) -> Seq<ColumnDescV> {
    let base = seq![
        ColumnDescV {
            name: "tenant_name"@,
            ty: ColumnType::Text,
            source: ColumnSource::Tenant,
            nullable: false,
        },
        ColumnDescV {
            name: "item_id"@,
            ty: ColumnType::Text,
            source: ColumnSource::ItemId,
            nullable: false,
        },
        ColumnDescV {
            name: "status"@,
            ty: ColumnType::Text,
            source: ColumnSource::Status,
            nullable: false,
        },
        ColumnDescV {
            name: "qty"@,
            ty: ColumnType::Float,
            source: ColumnSource::Quantity,
            nullable: false,
        },
    ];
    if with_event_time {
        base + seq![
            ColumnDescV {
                name: "datetime"@,
                ty: ColumnType::Timestamp,
                source: ColumnSource::EventTime,
                nullable: false,
            },
            ColumnDescV {
                name: "minute"@,
                ty: ColumnType::Timestamp,
                source: ColumnSource::Minute,
                nullable: false,
            },
        ]
    } else {
        base
    }
}

/// The whole schema derived from one representative record: the fixed
/// columns, then the inferred metadata columns.
pub open spec fn schema_spec(rec: LogRecordV, with_event_time: bool) -> Seq<ColumnDescV> {
    fixed_schema_spec(with_event_time) + meta_schema_spec(rec.metadata)
}

/// Every descriptor of the schema is well-formed.
pub open spec fn schema_wf(s: Seq<ColumnDescV>) -> bool {
    forall|i: int| 0 <= i < s.len() ==> col_wf(#[trigger] s[i])
}

/// An ordered schema: the physical column order of the written file.
#[derive(Clone, Debug)]
pub struct ColumnSchema {
    pub columns: Vec<ColumnDesc>,
}

impl View for ColumnSchema {
    type V = Seq<ColumnDescV>;

    open spec fn view(&self) -> Seq<ColumnDescV> {
        descs_view(self.columns@)
    }
}

/// A schema derived from a record is well-formed, whatever the record and
/// the ingestion mode.
pub proof fn lemma_schema_spec_wf(rec: LogRecordV, with_event_time: bool)
    ensures
        schema_wf(schema_spec(rec, with_event_time)),
{
    let s = schema_spec(rec, with_event_time);
    let fixed = fixed_schema_spec(with_event_time);
    assert forall|i: int| 0 <= i < s.len() implies col_wf(#[trigger] s[i]) by {
        if i >= fixed.len() {
            let e = rec.metadata[i - fixed.len()];
            assert(s[i] == meta_desc(e));
            assert(inferred_type(e.value) != ColumnType::Timestamp);
        }
    }
}

/// Builds the schema from one representative record: the fixed columns in
/// their stable order first, then one inferred column per metadata key of
/// that record, in the mapping's own order.
pub fn build_schema(rec: &LogRecord, with_event_time: bool) -> (s: ColumnSchema)
    ensures
        s@ == schema_spec(rec@, with_event_time),
        schema_wf(s@),
{
    let mut columns: Vec<ColumnDesc> = Vec::new();
    columns.push(ColumnDesc {
        name: "tenant_name".to_owned(),
        ty: ColumnType::Text,
        source: ColumnSource::Tenant,
        nullable: false,
    });
    columns.push(ColumnDesc {
        name: "item_id".to_owned(),
        ty: ColumnType::Text,
        source: ColumnSource::ItemId,
        nullable: false,
    });
    columns.push(ColumnDesc {
        name: "status".to_owned(),
        ty: ColumnType::Text,
        source: ColumnSource::Status,
        nullable: false,
    });
    columns.push(ColumnDesc {
        name: "qty".to_owned(),
        ty: ColumnType::Float,
        source: ColumnSource::Quantity,
        nullable: false,
    });
    if with_event_time {
        columns.push(ColumnDesc {
            name: "datetime".to_owned(),
            ty: ColumnType::Timestamp,
            source: ColumnSource::EventTime,
            nullable: false,
        });
        columns.push(ColumnDesc {
            name: "minute".to_owned(),
            ty: ColumnType::Timestamp,
            source: ColumnSource::Minute,
            nullable: false,
        });
    }
    proof {
        assert(descs_view(columns@) =~= fixed_schema_spec(with_event_time));
    }
    let ghost fixed = descs_view(columns@);
    let mut meta = infer_metadata_schema(&rec.metadata);
    let ghost metav = descs_view(meta@);
    columns.append(&mut meta);
    proof {
        assert(descs_view(columns@) =~= fixed + metav);
        lemma_schema_spec_wf(rec@, with_event_time);
    }
    ColumnSchema { columns }
}

} // verus!
