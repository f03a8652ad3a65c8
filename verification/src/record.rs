//! The in-memory shape of one ingested item, raw and normalized, and the
//! transformation between them.
//!
//! A record's numeric value is carried twice: as an opaque `serde_json`
//! number, which is what the store is eventually handed, and as the bit
//! pattern of the same IEEE-754 binary64 number, which is what the verified
//! logic reasons about (see `value_bits`). Both come from the same trusted
//! parse, so they describe the same number.

use vstd::prelude::*;

use crate::errors::ValidationError;
use crate::text::{lower_of, lowercase_text, trim_text, trimmed_of};
use crate::value_bits::{is_positive_bits, spec_is_positive};

verus! {

#[verifier::external_type_specification]
#[verifier::external_body]
pub struct ExNumber(serde_json::Number);

/// Relies on `serde_json::Number`'s `Clone`: a clone is the same number.
pub assume_specification[ <serde_json::Number as Clone>::clone ](n: &serde_json::Number) -> (r:
    serde_json::Number)
    ensures
        r == *n,
;

/// One ingested item as the source produced it: untrusted and possibly
/// malformed. No invariants hold at this stage.
#[derive(Clone, Debug)]
pub struct Record {
    /// Expected globally unique; not enforced by the source format.
    pub id: String,
    /// Expected RFC 3339; parsed and checked during transformation.
    pub timestamp: String,
    /// The numeric value, as the store will receive it.
    pub value: serde_json::Number,
    /// The bit pattern of `value` as an IEEE-754 binary64 number.
    pub value_bits: u64,
    /// Absent in the ndjson encoding is legal; checked during
    /// transformation.
    pub tag: Option<String>,
}

/// A record ready for storage; the outcome of a successful transformation.
#[derive(Clone, Debug)]
pub struct NormalizedRecord {
    /// Copied verbatim from the raw record.
    pub id: String,
    /// Unix epoch seconds parsed from the raw timestamp.
    pub timestamp: i64,
    /// The numeric value, unchanged.
    pub value: serde_json::Number,
    /// The bit pattern of `value`, unchanged.
    pub value_bits: u64,
    /// Trimmed and lowercased; never empty.
    pub tag: String,
    /// Whether the value is strictly greater than zero.
    pub positive: bool,
}

impl NormalizedRecord {
    /// The invariant every normalized record satisfies: the tag survived
    /// normalization non-empty, and the positivity flag agrees with the
    /// value's bit pattern.
    pub open spec fn wf(self) -> bool {
        &&& self.tag@.len() != 0
        &&& self.positive == spec_is_positive(self.value_bits)
    }
}

/// The Unix epoch seconds of an RFC 3339 instant, or `None` where the text
/// is not a valid RFC 3339 instant, as chrono computes them.
pub uninterp spec fn rfc3339_epoch_of(s: Seq<char>) -> Option<i64>;

/// Relies on `chrono::DateTime::parse_from_rfc3339` and
/// `chrono::DateTime::timestamp`: strict RFC 3339 parsing to Unix epoch
/// seconds; the result depends on the characters alone.
#[verifier::external_body]
pub(crate) fn parse_rfc3339_epoch(s: &str) -> (r: Option<i64>)
    ensures
        r == rfc3339_epoch_of(s@),
{
    chrono::DateTime::parse_from_rfc3339(s).ok().map(|dt| dt.timestamp())
}

/// The binary64 bit pattern of the finite number a text denotes, or `None`
/// where the text is not a finite decimal number, as the standard library's
/// float parsing computes it.
pub uninterp spec fn number_bits_of(s: Seq<char>) -> Option<u64>;

/// Relies on `str::parse` to a binary64 number and on
/// `serde_json::Number::from_f64`: the text's number and its bit pattern;
/// `from_f64` returns `None` exactly on NaN and the infinities, so a
/// non-finite text yields `None` here. The result depends on the
/// characters alone.
#[verifier::external_body]
pub(crate) fn parse_value_number(s: &str) -> (r: Option<(serde_json::Number, u64)>)
    ensures
        r is Some <==> number_bits_of(s@) is Some,
        r is Some ==> (r->0).1 == number_bits_of(s@)->0,
{
    let parsed: Option<serde_json::Number> = s.parse().ok().and_then(serde_json::Number::from_f64);
    parsed.map(|n| {
        let bits = n.as_f64().map(|x| x.to_bits()).unwrap_or(0);
        (n, bits)
    })
}

/// The record a line of ndjson denotes, or `None` where the line is not a
/// JSON object of the expected shape, as serde_json parses it.
pub uninterp spec fn json_record_of(s: Seq<char>) -> Option<Record>;

/// Relies on `serde_json::from_str` and the `serde_json::Value` accessors
/// (`as_object`, `as_str`, `as_f64`, `is_null`): one line parsed as one
/// independent JSON object with keys `id` (string), `timestamp` (string),
/// `value` (number), and `tag` (string or null, or absent); unknown keys
/// are ignored. The result depends on the characters alone.
#[verifier::external_body]
pub(crate) fn parse_json_record(line: &str) -> (r: Option<Record>)
    ensures
        r == json_record_of(line@),
{
    let parsed: serde_json::Value = serde_json::from_str(line).ok()?;
    let obj = parsed.as_object()?;
    let id = obj.get("id")?.as_str()?.to_owned();
    let timestamp = obj.get("timestamp")?.as_str()?.to_owned();
    let value = obj.get("value")?.as_number()?.clone();
    let value_bits = value.as_f64().map(|x| x.to_bits()).unwrap_or(0);
    let tag = match obj.get("tag") {
        None => None,
        Some(t) if t.is_null() => None,
        Some(t) => Some(t.as_str()?.to_owned()),
    };
    Some(Record { id, timestamp, value, value_bits, tag })
}

/// The raw tag's characters, with an absent tag read as the empty text.
pub open spec fn raw_tag_of(r: Record) -> Seq<char> {
    match r.tag {
        Some(t) => t@,
        None => Seq::<char>::empty(),
    }
}

/// The tag as normalization produces it: trimmed, then lowercased.
pub open spec fn normalized_tag_of(r: Record) -> Seq<char> {
    lower_of(trimmed_of(raw_tag_of(r)))
}

/// A raw record passes validation iff its tag survives normalization
/// non-empty and its timestamp is a valid RFC 3339 instant.
pub open spec fn record_accepted(r: Record) -> bool {
    normalized_tag_of(r).len() != 0 && rfc3339_epoch_of(r.timestamp@) is Some
}

/// Map one raw record to a normalized one, or to the validation failure
/// that rejects it. Pure: no side effects and no I/O.
///
/// The tag rule is checked first: a missing, empty, or whitespace-only tag
/// fails with `EmptyTag` whatever the timestamp holds; only then is the
/// timestamp parsed, a failure being `BadTimestamp`. On success every field
/// of the raw record is accounted for: the id and value verbatim, the
/// timestamp as epoch seconds, the tag normalized, and the positivity flag
/// derived from the value's bit pattern.
pub fn transform(r: &Record) -> (out: Result<NormalizedRecord, ValidationError>)
    ensures
        match out {
            Ok(n) => {
                &&& record_accepted(*r)
                &&& n.id@ == r.id@
                &&& n.timestamp == rfc3339_epoch_of(r.timestamp@)->0
                &&& n.value == r.value
                &&& n.value_bits == r.value_bits
                &&& n.tag@ == normalized_tag_of(*r)
                &&& n.positive == spec_is_positive(r.value_bits)
                &&& n.wf()
            },
            Err(ValidationError::EmptyTag) => normalized_tag_of(*r).len() == 0,
            Err(ValidationError::BadTimestamp) => {
                &&& normalized_tag_of(*r).len() != 0
                &&& rfc3339_epoch_of(r.timestamp@) is None
            },
        },
{
    let raw_tag: &str = match &r.tag {
        Some(t) => t.as_str(),
        None => "",
    };
    proof {
        reveal_strlit("");
        assert(""@ =~= Seq::<char>::empty());
        assert(raw_tag@ == raw_tag_of(*r));
    }
    let tag = lowercase_text(trim_text(raw_tag));
    if tag.as_str().is_empty() {
        return Err(ValidationError::EmptyTag);
    }
    let timestamp = match parse_rfc3339_epoch(r.timestamp.as_str()) {
        Some(t) => t,
        None => {
            return Err(ValidationError::BadTimestamp);
        },
    };
    let positive = is_positive_bits(r.value_bits);
    Ok(NormalizedRecord {
        id: r.id.clone(),
        timestamp,
        value: r.value.clone(),
        value_bits: r.value_bits,
        tag,
        positive,
    })
}

} // verus!
