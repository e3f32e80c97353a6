use cassiopeia_example_runner::assertion_target::AssertionTarget;
use cassiopeia_example_runner::command_line_token::CommandLineToken;
use cassiopeia_example_runner::container_image::ContainerImage;
use cassiopeia_example_runner::container_network::ContainerNetwork;
use cassiopeia_example_runner::data_model_name::DataModelName;
use cassiopeia_example_runner::entity_count::EntityCount;
use cassiopeia_example_runner::entity_id::EntityId;
use cassiopeia_example_runner::example_name::ExampleName;
use cassiopeia_example_runner::output::{Output, OutputBlock, OutputError};
use cassiopeia_example_runner::poll_interval::PollInterval;
use cassiopeia_example_runner::poll_schedule::PollSchedule;
use cassiopeia_example_runner::program_name::ProgramName;
use cassiopeia_example_runner::requirements::Requirements;
use cassiopeia_example_runner::run::Run;
use cassiopeia_example_runner::runtime::{Runtime, documented_container_command, documented_native_command, invocation};
use cassiopeia_example_runner::verification::{FoundEntity, VerificationError, assess, require_assertions};
use cassiopeia_example_runner::volatility::Volatility;
use std::time::{Duration, Instant};

fn schedule(cycles: u32, interval: &str, grace: &str) -> Option<PollSchedule> {
    Some(PollSchedule {
        cycles,
        interval: PollInterval::try_from(interval.to_owned()).ok()?,
        grace: PollInterval::try_from(grace.to_owned()).ok()?,
    })
}

#[test]
fn five_five_minute_cycles_are_four_intervals_and_the_grace() {
    let declared = schedule(5, "5m", "4m");

    assert_eq!(declared.map(PollSchedule::window), Some(Duration::from_secs(24 * 60)));
}

#[test]
fn a_single_cycle_waits_only_for_the_grace() {
    let declared = schedule(1, "5m", "90s");

    assert_eq!(declared.map(PollSchedule::window), Some(Duration::from_secs(90)));
}

#[test]
fn the_deadline_is_the_window_after_the_run_started() {
    let started = Instant::now();
    let declared = schedule(2, "1m", "30s");

    assert_eq!(declared.map(|declared| declared.deadline(started)), Some(Some(started + Duration::from_secs(90))));
    assert_eq!(declared.map(|declared| declared.deadline(started)), declared.map(|declared| started.checked_add(declared.window())));
}

fn block() -> OutputBlock {
    OutputBlock { file: None, broker_entities: None, broker_temporal: None, entities: None, at_least: None, contains: Vec::new() }
}

fn file_block(file: &str) -> OutputBlock {
    OutputBlock { file: Some(file.to_owned()), ..block() }
}

#[test]
fn an_exact_count_is_read_as_an_exact_count() {
    let declared = Output::try_from(OutputBlock { entities: Some(118), ..file_block("out/ChemicalElement.json") });

    assert_eq!(declared.map(|declared| declared.count).ok(), Some(EntityCount::Exactly(118)));
}

#[test]
fn a_floor_is_read_as_a_floor() {
    let declared = Output::try_from(OutputBlock { at_least: Some(500), ..file_block("out/WeatherObserved.json") });

    assert_eq!(declared.map(|declared| declared.count).ok(), Some(EntityCount::AtLeast(500)));
}

#[test]
fn a_file_block_is_read_as_a_file_target() {
    let declared = Output::try_from(OutputBlock { entities: Some(118), ..file_block("out/ChemicalElement.json") });

    assert_eq!(declared.map(|declared| declared.target).ok(), Some(AssertionTarget::File("out/ChemicalElement.json".to_owned())));
}

#[test]
fn a_broker_entities_block_is_read_as_a_broker_target() {
    let model = DataModelName::try_from("AirQualityObserved".to_owned()).ok();
    let declared = Output::try_from(OutputBlock { broker_entities: model, at_least: Some(5), ..block() });

    assert_eq!(declared.map(|declared| declared.target.to_string()).ok(), Some("the broker's AirQualityObserved entities".to_owned()));
}

#[test]
fn a_broker_temporal_block_is_read_as_a_temporal_target() {
    let id = EntityId::try_from("urn:ngsi-ld:TropicalCyclone:AL122005".to_owned()).ok();
    let declared = Output::try_from(OutputBlock { broker_temporal: id, entities: Some(1), ..block() });

    assert_eq!(
        declared.map(|declared| declared.target.to_string()).ok(),
        Some("urn:ngsi-ld:TropicalCyclone:AL122005 at the broker's temporal endpoint".to_owned())
    );
}

#[test]
fn quoted_identifiers_are_read_as_entity_identifiers() {
    let contains: Vec<EntityId> = EntityId::try_from("urn:ngsi-ld:ChemicalElement:H".to_owned()).into_iter().collect();
    let declared = Output::try_from(OutputBlock { entities: Some(118), contains, ..file_block("out/ChemicalElement.json") });

    assert_eq!(declared.map(|declared| declared.contains.len()).ok(), Some(1));
}

#[test]
fn a_block_without_a_target_is_rejected_when_it_is_read() {
    assert!(matches!(Output::try_from(OutputBlock { entities: Some(118), ..block() }), Err(OutputError::NoTarget)));
}

#[test]
fn a_block_naming_two_targets_is_rejected_when_it_is_read() {
    let model = DataModelName::try_from("City".to_owned()).ok();
    let declared = Output::try_from(OutputBlock { broker_entities: model, entities: Some(1), ..file_block("out/City.json") });

    assert!(matches!(declared, Err(OutputError::SeveralTargets)));
}

#[test]
fn a_block_without_a_count_is_rejected_when_it_is_read() {
    assert!(matches!(Output::try_from(file_block("out/ChemicalElement.json")), Err(OutputError::NoCount { .. })));
}

#[test]
fn a_block_stating_both_counts_is_rejected_when_it_is_read() {
    let declared = Output::try_from(OutputBlock { entities: Some(118), at_least: Some(100), ..file_block("out/ChemicalElement.json") });

    assert!(matches!(declared, Err(OutputError::BothCounts { .. })));
}

fn run() -> Run {
    Run {
        args: ["map", "--input", "data/element.json", "--output", "out"]
            .iter()
            .filter_map(|value| CommandLineToken::try_from((*value).to_owned()).ok())
            .collect(),
    }
}

#[test]
fn the_native_command_puts_the_subcommand_beside_the_program() {
    assert_eq!(documented_native_command(&run()), "cassiopeia map \\\n    --input data/element.json \\\n    --output out");
}

#[test]
fn the_container_command_mounts_the_example_directory_as_the_working_directory() {
    let documented = documented_container_command(&run(), Requirements::default(), ContainerNetwork::Isolated, &ContainerImage::published());

    assert!(documented.contains("--volume \"$PWD:/data\""));
    assert!(documented.contains("--workdir /data"));
    assert!(documented.ends_with("--output out"));
}

#[test]
fn a_run_without_the_catalog_mounts_no_schema_volume() {
    let documented = documented_container_command(&run(), Requirements::default(), ContainerNetwork::Isolated, &ContainerImage::published());

    assert!(!documented.contains("schemas"));
}

#[test]
fn a_run_needing_the_catalog_mounts_the_schema_volume() {
    let requirements = Requirements { smart_data_models: true };
    let documented = documented_container_command(&run(), requirements, ContainerNetwork::Isolated, &ContainerImage::published());

    assert!(documented.contains("$HOME/.cache/cassiopeia-examples/schemas:/var/lib/cassiopeia/schemas"));
}

#[test]
fn podman_is_invoked_without_a_user_mapping() {
    let built = invocation(Runtime::Podman, "/tmp/example", &run().args, None, ContainerNetwork::Isolated, &ContainerImage::published());

    assert_eq!(built.program, ProgramName::Podman);
    assert!(!built.arguments.iter().any(|argument| argument == "--user"));
}

#[test]
fn a_container_run_with_a_cache_mounts_it_beside_the_example_directory() {
    let built = invocation(
        Runtime::Podman,
        "/tmp/example",
        &run().args,
        Some("/tmp/cache"),
        ContainerNetwork::Isolated,
        &ContainerImage::published(),
    );

    assert!(built.arguments.contains(&"/tmp/example:/data".to_owned()));
    assert!(built.arguments.contains(&"/tmp/cache:/var/lib/cassiopeia/schemas".to_owned()));
}

#[test]
fn a_broker_run_documents_and_invokes_host_networking() {
    let documented = documented_container_command(&run(), Requirements::default(), ContainerNetwork::Host, &ContainerImage::published());
    let built = invocation(Runtime::Docker, "/tmp/example", &run().args, None, ContainerNetwork::Host, &ContainerImage::published());

    assert!(documented.contains("--network host"));
    assert!(built.arguments.contains(&"--network".to_owned()));
    assert!(built.arguments.contains(&"host".to_owned()));
}

#[test]
fn a_run_that_needs_no_broker_names_no_network() {
    let documented = documented_container_command(&run(), Requirements::default(), ContainerNetwork::Isolated, &ContainerImage::published());

    assert!(!documented.contains("--network"));
}

#[test]
fn a_native_invocation_passes_the_arguments_through_unchanged() {
    let built = invocation(Runtime::Native, "/tmp/example", &run().args, None, ContainerNetwork::Isolated, &ContainerImage::published());

    assert_eq!(built.program, ProgramName::Cassiopeia);
    assert_eq!(built.arguments, run().args.iter().map(|token| token.as_str().to_owned()).collect::<Vec<String>>());
}

#[test]
fn a_docker_run_maps_the_container_to_a_numeric_identity() {
    let built = invocation(Runtime::Docker, "/tmp/example", &run().args, None, ContainerNetwork::Isolated, &ContainerImage::published());
    let position = built.arguments.iter().position(|argument| argument == "--user");
    let identity = position.and_then(|position| built.arguments.get(position + 1));

    assert_eq!(built.program, ProgramName::Docker);
    assert!(identity.is_some_and(|identity| {
        let parts: Vec<&str> = identity.split(':').collect();
        parts.len() == 2 && parts.iter().all(|part| !part.is_empty() && part.chars().all(|c| c.is_ascii_digit()))
    }));
}

#[test]
fn the_documented_command_read_as_one_line_is_the_native_invocation() {
    let documented = documented_native_command(&run());
    let built = invocation(Runtime::Native, "/tmp/example", &run().args, None, ContainerNetwork::Isolated, &ContainerImage::published());
    let mut words = vec![built.program.to_string()];
    words.extend(built.arguments);

    assert_eq!(documented.replace(" \\\n    ", " "), words.join(" "));
}

fn name() -> Option<ExampleName> {
    ExampleName::try_from("09-csv-manifest".to_owned()).ok()
}

fn exact(entities: usize, contains: &[&str]) -> Option<Output> {
    let quoted: Vec<EntityId> = contains.iter().filter_map(|value| EntityId::try_from((*value).to_owned()).ok()).collect();
    Output::try_from(OutputBlock { entities: Some(entities), contains: quoted, ..file_block("out/ChemicalElement.json") }).ok()
}

fn floor(fewest: usize) -> Option<Output> {
    Output::try_from(OutputBlock { at_least: Some(fewest), ..file_block("out/ChemicalElement.json") }).ok()
}

fn entities(count: usize) -> Vec<FoundEntity> {
    (0..count).map(|ordinal| FoundEntity { id: Some(format!("urn:ngsi-ld:ChemicalElement:{ordinal}")) }).collect()
}

fn identified(ids: &[&str]) -> Vec<FoundEntity> {
    ids.iter().map(|id| FoundEntity { id: Some((*id).to_owned()) }).collect()
}

fn checked(found: &[FoundEntity], declared: Option<Output>, volatility: Volatility) -> Option<Result<bool, VerificationError>> {
    let name = name()?;

    declared.map(|declared| assess(&name, found, &declared, volatility).map(|log| log.is_empty()))
}

#[test]
fn a_matching_document_passes_with_nothing_to_report() {
    let found = identified(&["urn:ngsi-ld:ChemicalElement:H", "urn:ngsi-ld:ChemicalElement:He"]);

    assert_eq!(checked(&found, exact(2, &["urn:ngsi-ld:ChemicalElement:H"]), Volatility::Frozen).and_then(Result::ok), Some(true));
}

#[test]
fn a_frozen_source_that_counts_differently_is_a_failure() {
    let outcome = checked(&entities(1), exact(118, &[]), Volatility::Frozen);

    assert!(outcome.is_some_and(|outcome| matches!(outcome, Err(VerificationError::WrongEntityCount { expected: 118, found: 1, .. }))));
}

#[test]
fn a_live_source_that_counts_a_little_differently_is_reported_and_passes() {
    let outcome = checked(&entities(120), exact(118, &[]), Volatility::Live);

    assert_eq!(outcome.and_then(Result::ok), Some(false));
}

#[test]
fn a_live_source_that_counts_far_differently_is_a_failure() {
    let outcome = checked(&entities(1), exact(118, &[]), Volatility::Live);

    assert!(outcome.is_some_and(|outcome| matches!(outcome, Err(VerificationError::WrongEntityCount { .. }))));
}

#[test]
fn a_quoted_entity_that_is_absent_from_a_frozen_source_is_a_failure() {
    let found = identified(&["urn:ngsi-ld:ChemicalElement:He"]);
    let outcome = checked(&found, exact(1, &["urn:ngsi-ld:ChemicalElement:H"]), Volatility::Frozen);

    assert!(outcome.is_some_and(|outcome| matches!(outcome, Err(VerificationError::MissingEntity { .. }))));
}

#[test]
fn a_quoted_entity_that_is_absent_from_a_live_source_is_reported_and_passes() {
    let found = identified(&["urn:ngsi-ld:ChemicalElement:He"]);
    let outcome = checked(&found, exact(1, &["urn:ngsi-ld:ChemicalElement:H"]), Volatility::Live);

    assert_eq!(outcome.and_then(Result::ok), Some(false));
}

#[test]
fn a_live_feed_passes_when_it_clears_its_floor() {
    assert_eq!(checked(&entities(2), floor(1), Volatility::Live).and_then(Result::ok), Some(true));
}

#[test]
fn a_live_feed_a_little_below_its_floor_is_reported_and_passes() {
    assert_eq!(checked(&entities(100), floor(114), Volatility::Live).and_then(Result::ok), Some(false));
}

#[test]
fn a_live_feed_far_below_its_floor_is_a_failure() {
    let outcome = checked(&entities(10), floor(114), Volatility::Live);

    assert!(outcome.is_some_and(|outcome| matches!(outcome, Err(VerificationError::TooFewEntities { .. }))));
}

#[test]
fn a_frozen_feed_below_its_floor_is_a_failure() {
    let outcome = checked(&[], floor(1), Volatility::Frozen);

    assert!(outcome.is_some_and(|outcome| matches!(outcome, Err(VerificationError::TooFewEntities { .. }))));
}

#[test]
fn an_example_without_assertions_is_reported() {
    let checked = name().map(|name| require_assertions(&name, &[]));

    assert!(checked.is_some_and(|outcome| matches!(outcome, Err(VerificationError::NoAssertions { .. }))));
}

#[test]
fn an_example_with_assertions_passes() {
    let checked = name().zip(exact(1, &[])).map(|(name, declared)| {
        let outputs = [declared];
        require_assertions(&name, &outputs)
    });

    assert!(checked.is_some_and(|outcome| outcome.is_ok()));
}

#[test]
fn a_frozen_source_reports_no_drift_when_everything_matches() {
    let found = identified(&["urn:ngsi-ld:ChemicalElement:H"]);
    let outcome = checked(&found, exact(1, &["urn:ngsi-ld:ChemicalElement:H"]), Volatility::Frozen);

    assert_eq!(outcome.and_then(Result::ok), Some(true));
}

#[test]
fn an_entity_without_a_string_identifier_carries_none() {
    let found = vec![FoundEntity { id: None }];
    let outcome = checked(&found, exact(1, &["urn:ngsi-ld:ChemicalElement:H"]), Volatility::Frozen);

    assert!(outcome.is_some_and(|outcome| matches!(outcome, Err(VerificationError::MissingEntity { .. }))));
}
