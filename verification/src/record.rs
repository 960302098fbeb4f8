//! The inbound record model: fixed fields plus an open metadata mapping.
//!
//! A record arrives as a dynamically-typed value; a fixed field that is
//! absent, or present with the wrong shape, is modelled as `None`, exactly as
//! the ingest layer observes it. Float values are carried as the bit pattern
//! of the 64-bit float they arrived as.

use vstd::prelude::*;

verus! {

/// One value of the record's open metadata mapping.
#[derive(Clone, Debug)]
pub enum MetaValue {
    /// A text value.
    Text(String),
    /// A numeric value, as the bit pattern of the 64-bit float it widens to.
    Number(u64),
    /// A boolean value.
    Truth(bool),
    /// Any other shape: an array, a nested object, or null.
    Composite,
}

/// Spec-level image of a `MetaValue`.
pub enum MetaValueV {
    Text(Seq<char>),
    Number(u64),
    Truth(bool),
    Composite,
}

impl View for MetaValue {
    type V = MetaValueV;

    open spec fn view(&self) -> MetaValueV {
        match self {
            MetaValue::Text(s) => MetaValueV::Text(s@),
            MetaValue::Number(b) => MetaValueV::Number(*b),
            MetaValue::Truth(b) => MetaValueV::Truth(*b),
            MetaValue::Composite => MetaValueV::Composite,
        }
    }
}

/// One key/value pair of the metadata mapping, in arrival order.
#[derive(Clone, Debug)]
pub struct MetaEntry {
    pub key: String,
    pub value: MetaValue,
}

/// Spec-level image of a `MetaEntry`.
pub struct MetaEntryV {
    pub key: Seq<char>,
    pub value: MetaValueV,
}

impl View for MetaEntry {
    type V = MetaEntryV;

    open spec fn view(&self) -> MetaEntryV {
        MetaEntryV { key: self.key@, value: self.value@ }
    }
}

/// One inbound log record. Fixed fields that are missing or of the wrong
/// shape are `None`; the metadata mapping keeps its arrival order.
#[derive(Clone, Debug)]
pub struct LogRecord {
    pub tenant_name: Option<String>,
    pub item_id: Option<String>,
    pub status: Option<String>,
    /// Bit pattern of the 64-bit float quantity.
    pub qty_bits: Option<u64>,
    /// The raw datetime text, when the ingestion mode carries one.
    pub datetime: Option<String>,
    pub metadata: Vec<MetaEntry>,
}

/// Spec-level image of a `LogRecord`.
pub struct LogRecordV {
    pub tenant_name: Option<Seq<char>>,
    pub item_id: Option<Seq<char>>,
    pub status: Option<Seq<char>>,
    pub qty_bits: Option<u64>,
    pub datetime: Option<Seq<char>>,
    pub metadata: Seq<MetaEntryV>,
}

/// The spec-level image of an optional text field.
pub open spec fn opt_text_view(v: Option<String>) -> Option<Seq<char>> {
    match v {
        Some(s) => Some(s@),
        None => None,
    }
}

/// The spec-level image of a metadata mapping.
pub open spec fn meta_view(md: Seq<MetaEntry>) -> Seq<MetaEntryV> {
    md.map_values(|e: MetaEntry| e@)
}

impl View for LogRecord {
    type V = LogRecordV;

    open spec fn view(&self) -> LogRecordV {
        LogRecordV {
            tenant_name: opt_text_view(self.tenant_name),
            item_id: opt_text_view(self.item_id),
            status: opt_text_view(self.status),
            qty_bits: self.qty_bits,
            datetime: opt_text_view(self.datetime),
            metadata: meta_view(self.metadata@),
        }
    }
}

/// The spec-level image of a record sequence.
pub open spec fn records_view(rs: Seq<LogRecord>) -> Seq<LogRecordV> {
    rs.map_values(|r: LogRecord| r@)
}

/// The value the metadata mapping holds for `key`: the first entry with that
/// key, or `None` when no entry carries it.
pub open spec fn meta_lookup(md: Seq<MetaEntryV>, key: Seq<char>) -> Option<MetaValueV>
    decreases md.len(),
{
    if md.len() == 0 {
        None
    } else if md[0].key == key {
        Some(md[0].value)
    } else {
        meta_lookup(md.skip(1), key)
    }
}

/// Looks a key up in a record's metadata mapping, returning the first value
/// stored under it.
pub fn lookup_metadata<'a>(md: &'a Vec<MetaEntry>, key: &String) -> (r: Option<&'a MetaValue>)
    ensures
        match r {
            Some(v) => meta_lookup(meta_view(md@), key@) == Some(v@),
            None => meta_lookup(meta_view(md@), key@) is None,
        },
{
    let ghost mdv = meta_view(md@);
    proof {
        assert(mdv.skip(0) =~= mdv);
    }
    let mut i: usize = 0;
    while i < md.len()
        invariant
            0 <= i <= md.len(),
            mdv == meta_view(md@),
            meta_lookup(mdv, key@) == meta_lookup(mdv.skip(i as int), key@),
        decreases md.len() - i,
    {
        proof {
            assert(mdv.skip(i as int)[0] == mdv[i as int]);
        }
        if md[i].key == *key {
            return Some(&md[i].value);
        }
        proof {
            assert(mdv.skip(i as int).skip(1) =~= mdv.skip(i as int + 1));
        }
        i = i + 1;
    }
    proof {
        assert(mdv.skip(i as int).len() == 0);
    }
    None
}

} // verus!
