//! A verified log-ingestion core: schema inference over semi-structured
//! records, columnar encoding with an explicit missing-value policy, parquet
//! serialization of the encoded batch, and chunked handoff of the written
//! bytes to a remote sink.

pub mod chunk;
pub mod columns;
pub mod pipeline;
pub mod record;
pub mod schema;
pub mod upload;
pub mod event_time;
pub mod encode;
pub mod writer;
