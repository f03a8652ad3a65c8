//! The record shape of the csv encoding.
//!
//! A csv input carries a required header row naming its columns; each later
//! row is read into a record by column name. Reading rows off disk, with
//! csv quoting and escaping, is the reader's affair outside this library;
//! here a row is already a sequence of fields, and what is verified is the
//! mapping from named fields to a record: which columns are required, how
//! the first occurrence of a repeated name wins, and when a row fails to
//! parse.

use vstd::prelude::*;

use crate::record::{number_bits_of, parse_value_number, Record};
use crate::text::str_eq;

verus! {

/// The column positions of a record's fields, found once from the header
/// row. The `tag` column is optional; the others are required.
#[derive(PartialEq, Eq, Structural, Clone, Copy, Debug)]
pub struct CsvHeader {
    /// Position of the `id` column.
    pub id_idx: usize,
    /// Position of the `timestamp` column.
    pub timestamp_idx: usize,
    /// Position of the `value` column.
    pub value_idx: usize,
    /// Position of the `tag` column, where the header has one.
    pub tag_idx: Option<usize>,
}

/// Some column has this name.
pub open spec fn has_column(columns: Seq<Seq<char>>, name: Seq<char>) -> bool {
    exists|i: int| 0 <= i < columns.len() && columns[i] == name
}

/// `i` is the first column with this name.
pub open spec fn first_column_at(columns: Seq<Seq<char>>, name: Seq<char>, i: int) -> bool {
    &&& 0 <= i < columns.len()
    &&& columns[i] == name
    &&& forall|j: int| 0 <= j < i ==> columns[j] != name
}

/// Find the record's columns in the header row: the first column named
/// `id`, `timestamp`, `value` and, where present, `tag`. A header missing
/// a required column yields `None` — and every row under it then fails to
/// parse, without aborting the run.
pub fn parse_csv_header(columns: &Vec<String>) -> (r: Option<CsvHeader>)
    ensures
        r is Some <==> {
            &&& has_column(columns.deep_view(), "id"@)
            &&& has_column(columns.deep_view(), "timestamp"@)
            &&& has_column(columns.deep_view(), "value"@)
        },
        match r {
            Some(h) => {
                &&& first_column_at(columns.deep_view(), "id"@, h.id_idx as int)
                &&& first_column_at(columns.deep_view(), "timestamp"@, h.timestamp_idx as int)
                &&& first_column_at(columns.deep_view(), "value"@, h.value_idx as int)
                &&& match h.tag_idx {
                    Some(t) => first_column_at(columns.deep_view(), "tag"@, t as int),
                    None => !has_column(columns.deep_view(), "tag"@),
                }
            },
            None => true,
        },
{
    let ghost cols = columns.deep_view();
    let mut id_idx: Option<usize> = None;
    let mut timestamp_idx: Option<usize> = None;
    let mut value_idx: Option<usize> = None;
    let mut tag_idx: Option<usize> = None;
    let n = columns.len();
    let mut i: usize = 0;
    while i < n
        invariant
            n == cols.len(),
            cols == columns.deep_view(),
            i <= n,
            found_prefix(cols, "id"@, i as int, id_idx),
            found_prefix(cols, "timestamp"@, i as int, timestamp_idx),
            found_prefix(cols, "value"@, i as int, value_idx),
            found_prefix(cols, "tag"@, i as int, tag_idx),
        decreases n - i,
    {
        let c: &str = columns[i].as_str();
        proof {
            reveal_strlit("id");
            reveal_strlit("timestamp");
            reveal_strlit("value");
            reveal_strlit("tag");
            assert(c@ == cols[i as int]);
        }
        if id_idx.is_none() && str_eq(c, "id") {
            id_idx = Some(i);
        } else if timestamp_idx.is_none() && str_eq(c, "timestamp") {
            timestamp_idx = Some(i);
        } else if value_idx.is_none() && str_eq(c, "value") {
            value_idx = Some(i);
        } else if tag_idx.is_none() && str_eq(c, "tag") {
            tag_idx = Some(i);
        }
        i += 1;
    }
    match (id_idx, timestamp_idx, value_idx) {
        (Some(id_i), Some(ts_i), Some(v_i)) => Some(
            CsvHeader { id_idx: id_i, timestamp_idx: ts_i, value_idx: v_i, tag_idx },
        ),
        _ => None,
    }
}

/// What a column search knows after scanning the first `i` columns: the
/// first hit's position if there was one, else that there was none yet.
pub open spec fn found_prefix(
    columns: Seq<Seq<char>>,
    name: Seq<char>,
    i: int,
    found: Option<usize>,
) -> bool {
    match found {
        Some(k) => 0 <= k < i <= columns.len() && first_column_at(columns, name, k as int),
        None => forall|j: int| 0 <= j < i ==> columns[j] != name,
    }
}

/// A row has enough fields for the required columns and a finite number
/// in its `value` field: exactly the rows that parse into a record.
pub open spec fn csv_row_parses(h: CsvHeader, fields: Seq<Seq<char>>) -> bool {
    &&& h.id_idx < fields.len()
    &&& h.timestamp_idx < fields.len()
    &&& h.value_idx < fields.len()
    &&& number_bits_of(fields[h.value_idx as int]) is Some
}

/// The record a parsed row denotes under its header: the `id` and
/// `timestamp` fields verbatim, the `value` field's number, and the `tag`
/// field absent where the column is missing, the row is short, or the
/// field is empty.
pub open spec fn csv_row_record(h: CsvHeader, fields: Seq<Seq<char>>, rec: Record) -> bool {
    &&& rec.id@ == fields[h.id_idx as int]
    &&& rec.timestamp@ == fields[h.timestamp_idx as int]
    &&& rec.value_bits == number_bits_of(fields[h.value_idx as int])->0
    &&& match h.tag_idx {
        Some(t) => {
            if t < fields.len() && fields[t as int].len() != 0 {
                rec.tag matches Some(tg) && tg@ == fields[t as int]
            } else {
                rec.tag is None
            }
        },
        None => rec.tag is None,
    }
}

/// Read one row's fields into a raw record under the given header, or
/// `None` — a row that fails to parse — exactly where the row is too short
/// for a required column or its `value` field is not a finite number.
pub fn record_from_csv_row(header: &CsvHeader, fields: &Vec<String>) -> (r: Option<Record>)
    ensures
        r is Some <==> csv_row_parses(*header, fields.deep_view()),
        r matches Some(rec) ==> csv_row_record(*header, fields.deep_view(), rec),
{
    if header.id_idx >= fields.len() || header.timestamp_idx >= fields.len()
        || header.value_idx >= fields.len() {
        return None;
    }
    let value_field: &str = fields[header.value_idx].as_str();
    let (value, value_bits) = match parse_value_number(value_field) {
        Some(pair) => pair,
        None => {
            return None;
        },
    };
    let tag: Option<String> = match header.tag_idx {
        Some(t) => {
            if t < fields.len() && !fields[t].as_str().is_empty() {
                Some(fields[t].clone())
            } else {
                None
            }
        },
        None => None,
    };
    Some(
        Record {
            id: fields[header.id_idx].clone(),
            timestamp: fields[header.timestamp_idx].clone(),
            value,
            value_bits,
            tag,
        },
    )
}

} // verus!
