//! The pipeline's closed error taxonomy.
//!
//! Fatal errors abort a run before or instead of a commit; per-row failures
//! are absorbed into the failure tally and processing continues.

use vstd::prelude::*;

verus! {

/// A successfully parsed record broke a normalization rule.
#[derive(PartialEq, Eq, Structural, Clone, Copy, Debug)]
pub enum ValidationError {
    /// The tag was missing, empty, or empty once trimmed.
    EmptyTag,
    /// The timestamp was not a valid RFC 3339 instant.
    BadTimestamp,
}

/// Why one item of a run was counted as a failure. Non-fatal: the run
/// continues with the next item.
#[derive(PartialEq, Eq, Structural, Clone, Copy, Debug)]
pub enum RowFailure {
    /// The row or line could not be decoded into a record.
    BadParse,
    /// The record failed a normalization rule.
    Invalid(ValidationError),
    /// The store refused this row's insert; the transaction survives.
    StorageWrite,
}

/// An error that aborts the whole run. No rows from the run are committed.
#[derive(Debug)]
pub enum FatalError {
    /// The input encoding is not supported.
    Configuration(String),
    /// The input file could not be opened.
    SourceOpen(String),
    /// The store connection, schema, transaction, or commit failed.
    StorageFatal(String),
}

impl FatalError {
    /// A short description of the error for the caller's report.
    pub fn message(&self) -> (r: &str)
        ensures
            r@ == match *self {
                FatalError::Configuration(ref m) => m@,
                FatalError::SourceOpen(ref m) => m@,
                FatalError::StorageFatal(ref m) => m@,
            },
    {
        match self {
            FatalError::Configuration(m) => m.as_str(),
            FatalError::SourceOpen(m) => m.as_str(),
            FatalError::StorageFatal(m) => m.as_str(),
        }
    }
}

} // verus!
