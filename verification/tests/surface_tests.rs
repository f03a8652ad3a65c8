//! The command surface, input-line parsing, encoding detection, the csv
//! record shape, and the stats report.

use metrics_etl::commands::{
    command_info, command_matches, find_command, get_all_commands, Command, CommandId,
    ExitCommand, HelpCommand, ParsedCommand, TransformCommand,
};
use metrics_etl::csv_format::{parse_csv_header, record_from_csv_row, CsvHeader};
use metrics_etl::errors::FatalError;
use metrics_etl::source::{source_format_for_path, SourceFormat};
use metrics_etl::stats::{build_report, throughput_rows_per_sec, ProcessingStats};

fn strings(items: &[&str]) -> Vec<String> {
    items.iter().map(|s| s.to_string()).collect()
}

#[test]
fn parsed_command_splits_label_and_args() {
    let p = ParsedCommand::new("  transform   csv ").unwrap();
    assert_eq!(p.label, "transform");
    assert_eq!(p.args, vec!["csv".to_string()]);
}

#[test]
fn parsed_command_of_blank_line_is_none() {
    assert!(ParsedCommand::new("").is_none());
    assert!(ParsedCommand::new(" \t \n").is_none());
}

#[test]
fn find_command_answers_labels_and_aliases() {
    assert_eq!(find_command("transform"), Some(CommandId::Transform));
    assert_eq!(find_command("t"), Some(CommandId::Transform));
    assert_eq!(find_command("g"), Some(CommandId::Generate));
    assert_eq!(find_command("gen"), Some(CommandId::Generate));
    assert_eq!(find_command("help"), Some(CommandId::Help));
    assert_eq!(find_command("?"), Some(CommandId::Help));
    assert_eq!(find_command("quit"), Some(CommandId::Exit));
    assert_eq!(find_command("cl"), Some(CommandId::Clean));
    assert_eq!(find_command("unknown"), None);
    assert_eq!(find_command(""), None);
}

#[test]
fn command_list_is_complete_and_ordered() {
    let all = get_all_commands();
    assert_eq!(
        all,
        vec![
            CommandId::Generate,
            CommandId::Transform,
            CommandId::Clean,
            CommandId::Help,
            CommandId::Exit,
        ]
    );
}

#[test]
fn command_info_carries_the_dispatch_words() {
    let info = command_info(CommandId::Transform);
    assert_eq!(info.label, "transform");
    assert_eq!(info.aliases, vec!["t"]);
    assert!(command_matches(CommandId::Transform, "t"));
    assert!(!command_matches(CommandId::Transform, "tt"));
    assert_eq!(TransformCommand.info().label, "transform");
    assert_eq!(ExitCommand.info().label, "exit");
    assert_eq!(HelpCommand.info().usage, "help [command]");
}

#[test]
fn format_is_detected_from_the_extension() {
    assert_eq!(source_format_for_path("data/input.csv").unwrap(), SourceFormat::Csv);
    assert_eq!(source_format_for_path("data/input.ndjson").unwrap(), SourceFormat::Ndjson);
    assert_eq!(source_format_for_path("input.csv").unwrap(), SourceFormat::Csv);
}

#[test]
fn unsupported_extension_is_a_configuration_error() {
    match source_format_for_path("data/input.txt") {
        Err(FatalError::Configuration(m)) => assert!(m.contains("txt")),
        other => panic!("expected a configuration error, got {:?}", other),
    }
    assert!(source_format_for_path("data/input").is_err());
    assert!(source_format_for_path("data.dir/input").is_err());
    assert!(source_format_for_path("data/.csv").is_err());
    assert!(source_format_for_path("").is_err());
}

#[test]
fn header_columns_are_found_by_name() {
    let h = parse_csv_header(&strings(&["id", "timestamp", "value", "tag"])).unwrap();
    assert_eq!((h.id_idx, h.timestamp_idx, h.value_idx, h.tag_idx), (0, 1, 2, Some(3)));
}

#[test]
fn header_columns_may_be_reordered_and_tag_optional() {
    let h = parse_csv_header(&strings(&["value", "id", "timestamp"])).unwrap();
    assert_eq!((h.id_idx, h.timestamp_idx, h.value_idx, h.tag_idx), (1, 2, 0, None));
}

#[test]
fn header_missing_a_required_column_fails() {
    assert!(parse_csv_header(&strings(&["id", "timestamp", "tag"])).is_none());
    assert!(parse_csv_header(&strings(&[])).is_none());
}

#[test]
fn repeated_header_name_first_occurrence_wins() {
    let h = parse_csv_header(&strings(&["id", "id", "timestamp", "value"])).unwrap();
    assert_eq!(h.id_idx, 0);
}

#[test]
fn csv_row_becomes_a_record() {
    let h = parse_csv_header(&strings(&["id", "timestamp", "value", "tag"])).unwrap();
    let rec = record_from_csv_row(&h, &strings(&["a1", "2024-01-01T00:00:00Z", "10.5", "Foo "]))
        .unwrap();
    assert_eq!(rec.id, "a1");
    assert_eq!(rec.timestamp, "2024-01-01T00:00:00Z");
    assert_eq!(rec.value_bits, 10.5f64.to_bits());
    assert_eq!(rec.value.as_f64(), Some(10.5));
    assert_eq!(rec.tag.as_deref(), Some("Foo "));
}

#[test]
fn csv_empty_tag_field_reads_as_absent() {
    let h = parse_csv_header(&strings(&["id", "timestamp", "value", "tag"])).unwrap();
    let rec = record_from_csv_row(&h, &strings(&["a1", "2024-01-01T00:00:00Z", "1", ""])).unwrap();
    assert!(rec.tag.is_none());
}

#[test]
fn csv_row_with_bad_value_fails_to_parse() {
    let h = parse_csv_header(&strings(&["id", "timestamp", "value", "tag"])).unwrap();
    assert!(record_from_csv_row(&h, &strings(&["a1", "2024-01-01T00:00:00Z", "ten", "t"])).is_none());
    assert!(record_from_csv_row(&h, &strings(&["a1", "2024-01-01T00:00:00Z"])).is_none());
}

#[test]
fn csv_short_row_without_tag_field_still_parses() {
    let h = CsvHeader { id_idx: 0, timestamp_idx: 1, value_idx: 2, tag_idx: Some(3) };
    let rec = record_from_csv_row(&h, &strings(&["a1", "2024-01-01T00:00:00Z", "1"])).unwrap();
    assert!(rec.tag.is_none());
}

#[test]
fn throughput_is_zero_on_zero_elapsed_time() {
    assert_eq!(throughput_rows_per_sec(0, 0), 0);
    assert_eq!(throughput_rows_per_sec(100000, 0), 0);
}

#[test]
fn throughput_is_rows_per_second() {
    assert_eq!(throughput_rows_per_sec(1000, 2000), 500);
    assert_eq!(throughput_rows_per_sec(7, 2000), 3);
    assert_eq!(throughput_rows_per_sec(1, 1), 1000);
}

#[test]
fn throughput_saturates_instead_of_overflowing() {
    assert_eq!(throughput_rows_per_sec(u64::MAX, 1), u64::MAX);
    assert_eq!(throughput_rows_per_sec(u64::MAX, 1000), u64::MAX);
    assert_eq!(throughput_rows_per_sec(u64::MAX, u64::MAX), 1000);
}

#[test]
fn default_stats_are_empty() {
    let stats = ProcessingStats::default();
    assert_eq!((stats.total, stats.success, stats.fail), (0, 0, 0));
}

#[test]
fn report_carries_counters_and_throughput() {
    let stats = ProcessingStats { total: 3, success: 2, fail: 1 };
    let report = build_report(stats, 1000);
    assert_eq!(report.stats, stats);
    assert_eq!(report.elapsed_millis, 1000);
    assert_eq!(report.throughput, 2);
    assert_eq!(build_report(stats, 0).throughput, 0);
}

#[test]
fn stats_counters_stay_consistent() {
    let mut stats = ProcessingStats::new();
    stats.record_success();
    stats.record_failure();
    stats.record_success();
    assert_eq!((stats.total, stats.success, stats.fail), (3, 2, 1));
    assert_eq!(stats.total, stats.success + stats.fail);
}

#[test]
fn fatal_error_messages_name_their_cause() {
    let c = FatalError::Configuration("unsupported input file extension: txt".to_string());
    assert!(c.message().contains("txt"));
    let s = FatalError::SourceOpen("no such file".to_string());
    assert_eq!(s.message(), "no such file");
    let f = FatalError::StorageFatal("disk full".to_string());
    assert_eq!(f.message(), "disk full");
}

#[test]
fn every_command_description_mentions_itself() {
    for id in get_all_commands() {
        let info = command_info(id);
        assert!(!info.label.is_empty());
        assert!(!info.description.is_empty());
        assert!(info.usage.starts_with(info.label));
    }
}
