//! The transformer's policy: tag normalization first, then strict RFC 3339
//! timestamp parsing, then the positivity flag.

use metrics_etl::errors::ValidationError;
use metrics_etl::record::Record;
use metrics_etl::record::transform;

fn record(id: &str, timestamp: &str, value: f64, tag: Option<&str>) -> Record {
    Record {
        id: id.to_string(),
        timestamp: timestamp.to_string(),
        value: serde_json::Number::from_f64(value).unwrap(),
        value_bits: value.to_bits(),
        tag: tag.map(|t| t.to_string()),
    }
}

#[test]
fn valid_record_is_normalized() {
    let r = record("a1", "2024-01-01T00:00:00Z", 10.5, Some("Foo "));
    let n = transform(&r).unwrap();
    assert_eq!(n.id, "a1");
    assert_eq!(n.timestamp, 1704067200);
    assert_eq!(n.tag, "foo");
    assert!(n.positive);
    assert_eq!(n.value_bits, 10.5f64.to_bits());
    assert_eq!(n.value.as_f64(), Some(10.5));
}

#[test]
fn missing_tag_is_rejected() {
    let r = record("a1", "2024-01-01T00:00:00Z", 1.0, None);
    assert_eq!(transform(&r).unwrap_err(), ValidationError::EmptyTag);
}

#[test]
fn empty_tag_is_rejected() {
    let r = record("a1", "2024-01-01T00:00:00Z", 1.0, Some(""));
    assert_eq!(transform(&r).unwrap_err(), ValidationError::EmptyTag);
}

#[test]
fn whitespace_only_tag_is_rejected() {
    let r = record("a1", "2024-01-01T00:00:00Z", 1.0, Some(" \t  "));
    assert_eq!(transform(&r).unwrap_err(), ValidationError::EmptyTag);
}

#[test]
fn bad_timestamp_is_rejected() {
    let r = record("a2", "not-a-date", 5.0, Some("bar"));
    assert_eq!(transform(&r).unwrap_err(), ValidationError::BadTimestamp);
}

#[test]
fn empty_tag_wins_over_bad_timestamp() {
    let r = record("a3", "not-a-date", 5.0, Some("   "));
    assert_eq!(transform(&r).unwrap_err(), ValidationError::EmptyTag);
}

#[test]
fn tag_is_trimmed_and_lowercased() {
    let r = record("b2", "2024-06-01T12:00:01Z", -3.2, Some("  X  "));
    let n = transform(&r).unwrap();
    assert_eq!(n.tag, "x");
    assert!(!n.positive);
    assert_eq!(n.timestamp, 1717243201);
}

#[test]
fn mixed_case_tag_is_lowercased() {
    let r = record("c", "2024-01-01T00:00:00Z", 2.0, Some("Mixed_Tag"));
    assert_eq!(transform(&r).unwrap().tag, "mixed_tag");
}

#[test]
fn zero_value_is_not_positive() {
    let r = record("z", "2024-01-01T00:00:00Z", 0.0, Some("zero"));
    assert!(!transform(&r).unwrap().positive);
}

#[test]
fn negative_value_is_not_positive() {
    let r = record("n", "2024-01-01T00:00:00Z", -0.1, Some("neg"));
    assert!(!transform(&r).unwrap().positive);
}

#[test]
fn positive_value_is_positive() {
    let r = record("p", "2024-01-01T00:00:00Z", 0.1, Some("pos"));
    assert!(transform(&r).unwrap().positive);
}

#[test]
fn offset_timestamp_parses() {
    let r = record("o", "2024-01-01T01:00:00+01:00", 1.0, Some("t"));
    assert_eq!(transform(&r).unwrap().timestamp, 1704067200);
}

#[test]
fn date_only_timestamp_is_rejected() {
    let r = record("d", "2024-01-01", 1.0, Some("t"));
    assert_eq!(transform(&r).unwrap_err(), ValidationError::BadTimestamp);
}
