use cassiopeia_example_runner::assertion_target::AssertionTarget;
use cassiopeia_example_runner::command_line::{group_arguments, render};
use cassiopeia_example_runner::command_line_token::CommandLineToken;
use cassiopeia_example_runner::drift::{Drift, DriftKind, DriftLog};
use cassiopeia_example_runner::entity_count::{EntityCount, Plausibility};
use cassiopeia_example_runner::entity_id::EntityId;
use cassiopeia_example_runner::example_name::ExampleName;
use cassiopeia_example_runner::execution::catalog_arguments;
use cassiopeia_example_runner::format_badge::{FormatBadge, escaped};
use cassiopeia_example_runner::page::shell_blocks;
use cassiopeia_example_runner::poll_interval::{PollInterval, PollIntervalError};
use cassiopeia_example_runner::source_format::SourceFormat;
use cassiopeia_example_runner::volatility::{Mismatch, Volatility, combined};
use std::time::Duration;

fn drift(kind: DriftKind) -> Option<Drift> {
    Some(Drift {
        example: ExampleName::try_from("09-csv-manifest".to_owned()).ok()?,
        target: AssertionTarget::File("out/Airport.json".to_owned()),
        kind,
    })
}

fn count() -> Option<Drift> {
    drift(DriftKind::EntityCount { declared: 7000, found: 7698 })
}

#[test]
fn a_count_drift_reads_as_the_example_the_file_and_both_figures() {
    assert_eq!(
        count().map(|drift| drift.to_string()),
        Some("09-csv-manifest: out/Airport.json holds 7698 entities, and the example declares 7000".to_owned())
    );
}

#[test]
fn a_missing_entity_drift_names_the_identifier() {
    let absent = EntityId::try_from("urn:ngsi-ld:Airport:1".to_owned()).ok().and_then(|declared| drift(DriftKind::MissingEntity { declared }));

    assert_eq!(
        absent.map(|drift| drift.to_string()),
        Some("09-csv-manifest: out/Airport.json no longer holds urn:ngsi-ld:Airport:1".to_owned())
    );
}

#[test]
fn a_log_with_nothing_in_it_is_empty() {
    assert!(DriftLog::default().is_empty());
}

#[test]
fn a_recorded_finding_makes_the_log_report_it() {
    let log = count().map(|drift| {
        let mut log = DriftLog::default();
        log.record(drift);

        log
    });

    assert!(log.is_some_and(|log| !log.is_empty() && log.to_string().contains("7698")));
}

#[test]
fn absorbing_another_log_keeps_both_findings() {
    let log = count().zip(count()).map(|(first, second)| {
        let mut log = DriftLog::default();
        log.record(first);

        let mut absorbed = DriftLog::default();
        absorbed.record(second);
        log.absorb(absorbed);

        log
    });

    assert!(log.is_some_and(|log| log.to_string().lines().count() == 2));
}

#[test]
fn an_exact_count_admits_only_that_many() {
    assert!(EntityCount::Exactly(118).satisfied_by(118));
    assert!(!EntityCount::Exactly(118).satisfied_by(117));
    assert!(!EntityCount::Exactly(118).satisfied_by(119));
}

#[test]
fn a_floor_admits_anything_above_it() {
    assert!(EntityCount::AtLeast(500).satisfied_by(500));
    assert!(EntityCount::AtLeast(500).satisfied_by(6162));
    assert!(!EntityCount::AtLeast(500).satisfied_by(499));
}

#[test]
fn both_forms_report_the_figure_they_were_written_with() {
    assert_eq!(EntityCount::Exactly(118).declared(), 118);
    assert_eq!(EntityCount::AtLeast(500).declared(), 500);
}

#[test]
fn an_exact_count_stays_churnable_between_half_the_figure_and_twice_it() {
    assert_eq!(EntityCount::Exactly(7698).plausibility(7701), Plausibility::Churnable);
    assert_eq!(EntityCount::Exactly(7698).plausibility(3849), Plausibility::Churnable);
    assert_eq!(EntityCount::Exactly(7698).plausibility(15396), Plausibility::Churnable);
}

#[test]
fn an_exact_count_outside_the_guard_rail_is_implausible() {
    assert_eq!(EntityCount::Exactly(7698).plausibility(3848), Plausibility::Implausible);
    assert_eq!(EntityCount::Exactly(7698).plausibility(15397), Plausibility::Implausible);
    assert_eq!(EntityCount::Exactly(1).plausibility(0), Plausibility::Implausible);
}

#[test]
fn a_floor_has_no_upper_guard_rail() {
    assert_eq!(EntityCount::AtLeast(114).plausibility(444), Plausibility::Churnable);
    assert_eq!(EntityCount::AtLeast(114).plausibility(57), Plausibility::Churnable);
    assert_eq!(EntityCount::AtLeast(114).plausibility(56), Plausibility::Implausible);
}

#[test]
fn the_catalog_is_downloaded_by_the_sdm_subcommand() {
    let arguments = catalog_arguments();

    assert_eq!(
        arguments.map(|arguments| arguments.iter().map(|token| token.as_str().to_owned()).collect::<Vec<String>>()).ok(),
        Some(vec!["sdm".to_owned(), "download".to_owned()])
    );
}

#[test]
fn a_badge_labels_the_format_and_carries_it_as_the_message() {
    let badge = FormatBadge::from(SourceFormat::Csv).to_string();

    assert_eq!(badge, r#"<img src="https://img.shields.io/badge/format-csv-1d6f42" alt="format: csv" height="20" align="right">"#);
}

#[test]
fn a_dash_in_a_token_is_doubled_so_shields_io_keeps_it() {
    assert_eq!(escaped("geo-json"), "geo--json");
}

#[test]
fn a_multi_word_format_keeps_the_token_cassiopeia_takes() {
    let badge = FormatBadge::from(SourceFormat::GeoJson).to_string();

    assert_eq!(badge, r#"<img src="https://img.shields.io/badge/format-geojson-2563eb" alt="format: geojson" height="20" align="right">"#);
}

#[test]
fn every_format_is_tagged_with_a_colour_of_its_own() {
    let mut colours: Vec<String> = SourceFormat::iter().iter().map(|format| FormatBadge::from(*format).to_string()).collect();
    let count = colours.len();
    colours.sort();
    colours.dedup();

    assert_eq!(colours.len(), count);
}

#[test]
fn a_shell_fence_is_collected_without_its_delimiters() {
    let text = "text\n\n```bash\ncassiopeia map \\\n    --output out\n```\n\nmore text\n";

    assert_eq!(shell_blocks(text), vec!["cassiopeia map \\\n    --output out".to_owned()]);
}

#[test]
fn a_fence_in_another_language_is_ignored() {
    let text = "```json5\n{ version: \"v4\" }\n```\n";

    assert!(shell_blocks(text).is_empty());
}

#[test]
fn several_shell_fences_are_collected_in_order() {
    let text = "```bash\nfirst\n```\n\n```bash\nsecond\n```\n";

    assert_eq!(shell_blocks(text), vec!["first".to_owned(), "second".to_owned()]);
}

#[test]
fn a_page_without_any_fence_yields_no_blocks() {
    assert!(shell_blocks("# A page\n\nProse only.\n").is_empty());
}

#[test]
fn an_unclosed_fence_yields_no_block() {
    assert!(shell_blocks("```bash\ncassiopeia map\n").is_empty());
}

#[test]
fn a_fence_inside_an_open_block_is_kept_as_content() {
    let text = "```bash\ncat <<'EOF'\n```bash\n```\n";

    assert_eq!(shell_blocks(text), vec!["cat <<'EOF'\n```bash".to_owned()]);
}

#[test]
fn a_frozen_source_makes_any_difference_a_defect() {
    assert_eq!(Volatility::Frozen.classify(Plausibility::Churnable), Mismatch::Broken);
    assert_eq!(Volatility::Frozen.classify(Plausibility::Implausible), Mismatch::Broken);
}

#[test]
fn a_live_source_makes_a_near_difference_churn_and_a_far_one_a_defect() {
    assert_eq!(Volatility::Live.classify(Plausibility::Churnable), Mismatch::Churn);
    assert_eq!(Volatility::Live.classify(Plausibility::Implausible), Mismatch::Broken);
}

#[test]
fn one_live_dataset_makes_the_whole_example_live() {
    assert_eq!(combined(&[Volatility::Frozen, Volatility::Live, Volatility::Frozen]), Volatility::Live);
}

#[test]
fn an_example_whose_datasets_are_all_frozen_is_frozen() {
    assert_eq!(combined(&[Volatility::Frozen, Volatility::Frozen]), Volatility::Frozen);
}

#[test]
fn an_example_without_datasets_is_live() {
    assert_eq!(combined(&[]), Volatility::Live);
}

#[test]
fn geojson_is_read_and_printed_as_cassiopeia_writes_it() {
    assert_eq!(SourceFormat::from_token("geojson"), Some(SourceFormat::GeoJson));
    assert_eq!(SourceFormat::GeoJson.to_string(), "geojson");
}

#[test]
fn the_legacy_hyphenated_geojson_token_is_rejected() {
    assert_eq!(SourceFormat::from_token("geo-json"), None);
}

#[test]
fn every_format_reads_back_the_token_it_prints() {
    for format in SourceFormat::iter() {
        assert_eq!(SourceFormat::from_token(&format.to_string()), Some(format));
    }
}

#[test]
fn a_format_cassiopeia_does_not_read_is_rejected() {
    assert_eq!(SourceFormat::from_token("parquet"), None);
}

fn tokens(values: &[&str]) -> Vec<CommandLineToken> {
    values.iter().filter_map(|value| CommandLineToken::try_from((*value).to_owned()).ok()).collect()
}

fn lines(values: &[&str]) -> Vec<String> {
    values.iter().map(|value| (*value).to_owned()).collect()
}

#[test]
fn a_flag_and_its_value_share_one_line() {
    let grouped = group_arguments(&tokens(&["--input", "data/element.json", "--output", "out"]));

    assert_eq!(grouped, lines(&["--input data/element.json", "--output out"]));
}

#[test]
fn a_subcommand_stands_on_its_own_line() {
    let grouped = group_arguments(&tokens(&["map", "--type", "json"]));

    assert_eq!(grouped, lines(&["map", "--type json"]));
}

#[test]
fn a_flag_without_a_value_keeps_its_own_line() {
    let grouped = group_arguments(&tokens(&["--input", "x", "--dry-run"]));

    assert_eq!(grouped, lines(&["--input x", "--dry-run"]));
}

#[test]
fn two_flags_in_a_row_each_keep_a_line() {
    let grouped = group_arguments(&tokens(&["--dry-run", "--verbose", "--output", "out"]));

    assert_eq!(grouped, lines(&["--dry-run", "--verbose", "--output out"]));
}

#[test]
fn rendering_continues_every_line_but_the_last() {
    let rendered = render(&lines(&["cassiopeia map", "--output out"]));

    assert_eq!(rendered, "cassiopeia map \\\n    --output out");
}

#[test]
fn a_single_line_is_rendered_without_a_continuation() {
    assert_eq!(render(&lines(&["cassiopeia sdm download"])), "cassiopeia sdm download");
}

#[test]
fn no_tokens_render_to_nothing() {
    assert_eq!(render(&group_arguments(&tokens(&[]))), String::new());
}

#[test]
fn grouped_lines_read_back_as_the_tokens_one_space_apart() {
    let words = ["map", "--input", "data/x.csv", "--dry-run", "--output", "out"];
    let grouped = group_arguments(&tokens(&words));

    assert_eq!(grouped.join(" "), words.join(" "));
}

fn interval(value: &str) -> Result<PollInterval, PollIntervalError> {
    PollInterval::try_from(value.to_owned())
}

#[test]
fn minutes_and_seconds_are_read_the_way_a_manifest_writes_them() {
    assert_eq!(interval("5m").map(PollInterval::as_duration).ok(), Some(Duration::from_secs(300)));
    assert_eq!(interval("20s").map(PollInterval::as_duration).ok(), Some(Duration::from_secs(20)));
}

#[test]
fn a_compound_span_is_read_as_its_total() {
    assert_eq!(interval("1h 30m").map(PollInterval::as_duration).ok(), Some(Duration::from_secs(90 * 60)));
}

#[test]
fn a_span_prints_the_way_it_was_written() {
    assert_eq!(interval("5m").map(|interval| interval.to_string()).ok(), Some("5m".to_owned()));
}

#[test]
fn a_bare_number_is_rejected() {
    assert!(matches!(interval("300"), Err(PollIntervalError::Unparsable { .. })));
}

#[test]
fn a_span_in_words_is_rejected() {
    assert!(matches!(interval("five minutes"), Err(PollIntervalError::Unparsable { .. })));
}

#[test]
fn a_span_too_large_for_humantime_to_add_up_is_refused_before_it_is_read() {
    assert!(matches!(interval("18446744073709551615s 1000000000ns"), Err(PollIntervalError::TooLong { .. })));
    assert!(matches!(interval("600000000000s"), Err(PollIntervalError::TooLong { .. })));
    assert!(matches!(interval("300000000000s 300000000000s"), Err(PollIntervalError::TooLong { .. })));
}

#[test]
fn a_long_span_within_the_bound_is_read() {
    assert_eq!(interval("12345678901s").map(PollInterval::as_duration).ok(), Some(Duration::from_secs(12_345_678_901)));
    assert_eq!(interval("300000000000s").map(PollInterval::as_duration).ok(), Some(Duration::from_secs(300_000_000_000)));
    assert_eq!(interval("1 2 3s").map(PollInterval::as_duration).ok(), Some(Duration::from_secs(123)));
}

#[test]
fn a_span_printed_with_every_unit_reads_back() {
    let printed = interval("1y 2months 3d 4h 5m 6s 7ms 8us 9ns").map(|interval| interval.to_string());
    let reread = printed.ok().and_then(|text| interval(&text).ok());

    assert_eq!(reread.map(PollInterval::as_duration), interval("1y 2months 3d 4h 5m 6s 7ms 8us 9ns").ok().map(PollInterval::as_duration));
}

#[test]
fn a_printed_span_reads_back_as_the_same_span() {
    let printed = interval("1h 30m 15s").map(|interval| interval.to_string());
    let reread = printed.ok().and_then(|text| interval(&text).ok()).map(PollInterval::as_duration);

    assert_eq!(reread, Some(Duration::from_secs(5415)));
}
