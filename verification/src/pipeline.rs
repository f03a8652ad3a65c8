//! The transform-and-load pipeline: per-item normalization, validation and
//! batched persistence, with outcome counting.
//!
//! A `Pipeline` owns the store connection and one open transaction. The
//! caller feeds it items one at a time — a parsed record, a raw ndjson
//! line, or the news that a row could not be read at all — and commits once
//! at the end. Per-item failures are absorbed into the failure counter and
//! never abort the run; only the connection, schema, transaction, or
//! commit failing is fatal.

use vstd::prelude::*;

use crate::csv_format::{csv_row_parses, csv_row_record, record_from_csv_row, CsvHeader};
use crate::errors::{FatalError, RowFailure, ValidationError};
use crate::record::{
    json_record_of, normalized_tag_of, parse_json_record, record_accepted, rfc3339_epoch_of,
    transform, Record,
};
use crate::stats::ProcessingStats;
use crate::store::{execute_insert, execute_sql, open_connection};
use crate::store_model::{stored_row_of, StoredRow};

verus! {

/// How one item moved the counters and the run's write-log: the total
/// always advances by one, and exactly one of success and fail advances
/// with it — success exactly on a record that passed validation and whose
/// insert the store accepted, and exactly then the record's row enters
/// the write-log under its id.
pub open spec fn processed_one(
    r: Record,
    out: Result<(), RowFailure>,
    prev: ProcessingStats,
    next: ProcessingStats,
    prev_writes: Map<Seq<char>, StoredRow>,
    next_writes: Map<Seq<char>, StoredRow>,
) -> bool {
    &&& next.total == prev.total + 1
    &&& match out {
        Ok(_) => next_writes == prev_writes.insert(r.id@, stored_row_of(r)),
        Err(_) => next_writes == prev_writes,
    }
    &&& match out {
        Ok(_) => {
            &&& record_accepted(r)
            &&& next.success == prev.success + 1
            &&& next.fail == prev.fail
        },
        Err(RowFailure::Invalid(ValidationError::EmptyTag)) => {
            &&& normalized_tag_of(r).len() == 0
            &&& next.success == prev.success
            &&& next.fail == prev.fail + 1
        },
        Err(RowFailure::Invalid(ValidationError::BadTimestamp)) => {
            &&& normalized_tag_of(r).len() != 0
            &&& rfc3339_epoch_of(r.timestamp@) is None
            &&& next.success == prev.success
            &&& next.fail == prev.fail + 1
        },
        Err(RowFailure::StorageWrite) => {
            &&& record_accepted(r)
            &&& next.success == prev.success
            &&& next.fail == prev.fail + 1
        },
        Err(RowFailure::BadParse) => false,
    }
}

/// The pipeline of one run: the store connection with its single open
/// transaction, and the outcome counters.
pub struct Pipeline {
    /// The store connection; opaque to the verified logic.
    pub conn: rusqlite::Connection,
    /// The run's counters so far.
    pub stats: ProcessingStats,
    /// The rows this run has successfully handed to the store so far, by
    /// id: the run's effect in the model of `store_model`.
    pub writes: Ghost<Map<Seq<char>, StoredRow>>,
}

impl Pipeline {
    /// Open the store, ensure the `metrics` table exists, and begin the
    /// run's single transaction. Any failure here is fatal and leaves
    /// nothing committed.
    pub fn open(store_path: &str) -> (r: Result<Pipeline, FatalError>)
        ensures
            match r {
                Ok(p) => {
                    &&& p.stats == (ProcessingStats { total: 0u64, success: 0u64, fail: 0u64 })
                    &&& p.stats.consistent()
                    &&& p.writes@ == Map::<Seq<char>, StoredRow>::empty()
                },
                Err(e) => e is StorageFatal,
            },
    {
        let conn = match open_connection(store_path) {
            Ok(c) => c,
            Err(m) => {
                return Err(FatalError::StorageFatal(m));
            },
        };
        match execute_sql(
            &conn,
            "CREATE TABLE IF NOT EXISTS metrics (id TEXT PRIMARY KEY, timestamp INTEGER NOT NULL, value REAL NOT NULL, tag TEXT NOT NULL, positive INTEGER NOT NULL)",
        ) {
            Ok(_) => {},
            Err(m) => {
                return Err(FatalError::StorageFatal(m));
            },
        }
        match execute_sql(&conn, "BEGIN") {
            Ok(_) => {},
            Err(m) => {
                return Err(FatalError::StorageFatal(m));
            },
        }
        Ok(Pipeline { conn, stats: ProcessingStats::new(), writes: Ghost(Map::empty()) })
    }

    /// Count one row or line that could not be decoded into a record.
    /// Processing of later items goes on.
    pub fn process_parse_failure(&mut self) -> (out: Result<(), RowFailure>)
        requires
            old(self).stats.total < u64::MAX,
            old(self).stats.consistent(),
        ensures
            final(self).stats.consistent(),
            final(self).stats.total == old(self).stats.total + 1,
            final(self).stats.fail == old(self).stats.fail + 1,
            final(self).stats.success == old(self).stats.success,
            final(self).writes == old(self).writes,
            out == Err::<(), RowFailure>(RowFailure::BadParse),
    {
        self.stats.record_failure();
        Err(RowFailure::BadParse)
    }

    /// Run one parsed record through validation and, if it passes, through
    /// the store's upsert, counting the outcome either way.
    pub fn process_record(&mut self, r: &Record) -> (out: Result<(), RowFailure>)
        requires
            old(self).stats.total < u64::MAX,
            old(self).stats.consistent(),
        ensures
            final(self).stats.consistent(),
            processed_one(
                *r,
                out,
                old(self).stats,
                final(self).stats,
                old(self).writes@,
                final(self).writes@,
            ),
    {
        let normalized = match transform(r) {
            Ok(n) => n,
            Err(v) => {
                self.stats.record_failure();
                return Err(RowFailure::Invalid(v));
            },
        };
        let inserted = execute_insert(
            &self.conn,
            "INSERT OR REPLACE INTO metrics (id, timestamp, value, tag, positive) VALUES (?1, ?2, ?3, ?4, ?5)",
            normalized.id.as_str(),
            normalized.timestamp,
            &normalized.value,
            normalized.tag.as_str(),
            if normalized.positive {
                1
            } else {
                0
            },
        );
        match inserted {
            Ok(_) => {
                self.stats.record_success();
                proof {
                    self.writes@ = self.writes@.insert(r.id@, stored_row_of(*r));
                }
                Ok(())
            },
            Err(_) => {
                self.stats.record_failure();
                Err(RowFailure::StorageWrite)
            },
        }
    }

    /// Parse one ndjson line as one independent record and process it; a
    /// line that does not parse is counted as a failure and the run goes
    /// on.
    pub fn process_json_line(&mut self, line: &str) -> (out: Result<(), RowFailure>)
        requires
            old(self).stats.total < u64::MAX,
            old(self).stats.consistent(),
        ensures
            final(self).stats.consistent(),
            match json_record_of(line@) {
                Some(rec) => processed_one(
                    rec,
                    out,
                    old(self).stats,
                    final(self).stats,
                    old(self).writes@,
                    final(self).writes@,
                ),
                None => {
                    &&& out == Err::<(), RowFailure>(RowFailure::BadParse)
                    &&& final(self).stats.total == old(self).stats.total + 1
                    &&& final(self).stats.fail == old(self).stats.fail + 1
                    &&& final(self).stats.success == old(self).stats.success
                    &&& final(self).writes == old(self).writes
                },
            },
    {
        match parse_json_record(line) {
            Some(rec) => self.process_record(&rec),
            None => self.process_parse_failure(),
        }
    }

    /// Read one csv row into a record under the header found for this
    /// input, and process it; a row under a bad header, too short a row,
    /// or a row whose `value` is not a finite number is counted as a
    /// failure and the run goes on.
    pub fn process_csv_row(
        &mut self,
        header: &Option<CsvHeader>,
        fields: &Vec<String>,
    ) -> (out: Result<(), RowFailure>)
        requires
            old(self).stats.total < u64::MAX,
            old(self).stats.consistent(),
        ensures
            final(self).stats.consistent(),
            match *header {
                None => {
                    &&& out == Err::<(), RowFailure>(RowFailure::BadParse)
                    &&& final(self).stats.total == old(self).stats.total + 1
                    &&& final(self).stats.fail == old(self).stats.fail + 1
                    &&& final(self).stats.success == old(self).stats.success
                    &&& final(self).writes == old(self).writes
                },
                Some(h) => {
                    if csv_row_parses(h, fields.deep_view()) {
                        exists|rec: Record|
                            #[trigger] csv_row_record(h, fields.deep_view(), rec)
                                && processed_one(
                                rec,
                                out,
                                old(self).stats,
                                final(self).stats,
                                old(self).writes@,
                                final(self).writes@,
                            )
                    } else {
                        &&& out == Err::<(), RowFailure>(RowFailure::BadParse)
                        &&& final(self).stats.total == old(self).stats.total + 1
                        &&& final(self).stats.fail == old(self).stats.fail + 1
                        &&& final(self).stats.success == old(self).stats.success
                        &&& final(self).writes == old(self).writes
                    }
                },
            },
    {
        match header {
            None => self.process_parse_failure(),
            Some(h) => {
                match record_from_csv_row(h, fields) {
                    None => self.process_parse_failure(),
                    Some(rec) => {
                        let out = self.process_record(&rec);
                        proof {
                            assert(csv_row_record(*h, fields.deep_view(), rec));
                        }
                        out
                    },
                }
            },
        }
    }

    /// Commit the run's transaction and hand back the final counters; the
    /// rows of `writes` become durable as one atomic batch. A commit
    /// failure is fatal: no rows from this run are then visible.
    pub fn finish(self) -> (r: Result<ProcessingStats, FatalError>)
        ensures
            match r {
                Ok(s) => s == self.stats,
                Err(e) => e is StorageFatal,
            },
    {
        match execute_sql(&self.conn, "COMMIT") {
            Ok(_) => Ok(self.stats),
            Err(m) => Err(FatalError::StorageFatal(m)),
        }
    }
}

} // verus!
