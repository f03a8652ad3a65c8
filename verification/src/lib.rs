//! A streaming transform-and-load pipeline for row-oriented metric
//! records: format-polymorphic ingestion from csv or ndjson, per-record
//! normalization and validation, and transactional batched persistence
//! into an embedded relational store, with per-run outcome counting.
//!
//! The pipeline's decisions — what parses, what validates, what is handed
//! to the store, and how the counters move — are verified; the store's and
//! the parsers' own behaviour enters through narrow trusted boundaries
//! (`store`, and the named parse results in `record` and `text`).

pub mod commands;
pub mod csv_format;
pub mod errors;
pub mod pipeline;
pub mod record;
pub mod source;
pub mod stats;
pub mod store;
pub mod store_model;
pub mod text;
pub mod value_bits;
