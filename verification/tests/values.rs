use cassiopeia_example_runner::assertion_target::AssertionTarget;
use cassiopeia_example_runner::command_line_token::{CommandLineToken, CommandLineTokenError, TokenRole};
use cassiopeia_example_runner::container_image::ContainerImage;
use cassiopeia_example_runner::container_network::ContainerNetwork;
use cassiopeia_example_runner::data_model_name::{DataModelName, DataModelNameError};
use cassiopeia_example_runner::entity_id::{EntityId, EntityIdError};
use cassiopeia_example_runner::example_name::{ExampleName, ExampleNameError};
use cassiopeia_example_runner::example_selector::ExampleSelector;
use cassiopeia_example_runner::license_identifier::{LicenseIdentifier, LicenseIdentifierError};
use cassiopeia_example_runner::program_name::ProgramName;
use cassiopeia_example_runner::publisher_name::{PublisherName, PublisherNameError};
use cassiopeia_example_runner::requirements::Requirements;
use cassiopeia_example_runner::shell_command::{ShellCommand, ShellCommandError};

#[test]
fn a_file_target_reads_as_its_path() {
    assert_eq!(AssertionTarget::File("out/City.json".to_owned()).to_string(), "out/City.json");
}

#[test]
fn a_broker_entity_target_names_the_model() {
    let target = DataModelName::try_from("AirQualityObserved".to_owned()).map(AssertionTarget::BrokerEntities);

    assert_eq!(target.map(|target| target.to_string()).ok(), Some("the broker's AirQualityObserved entities".to_owned()));
}

#[test]
fn a_broker_temporal_target_names_the_entity_and_the_endpoint() {
    let target = EntityId::try_from("urn:ngsi-ld:TropicalCyclone:AL122005".to_owned()).map(AssertionTarget::BrokerTemporal);

    assert_eq!(
        target.map(|target| target.to_string()).ok(),
        Some("urn:ngsi-ld:TropicalCyclone:AL122005 at the broker's temporal endpoint".to_owned())
    );
}

#[test]
fn a_long_flag_opens_a_line() {
    let token = CommandLineToken::try_from("--input".to_owned());

    assert_eq!(token.map(|token| token.role()).ok(), Some(TokenRole::Flag));
}

#[test]
fn a_subcommand_is_a_value() {
    let token = CommandLineToken::try_from("map".to_owned());

    assert_eq!(token.map(|token| token.role()).ok(), Some(TokenRole::Value));
}

#[test]
fn a_path_that_starts_with_a_dash_is_still_a_value() {
    let token = CommandLineToken::try_from("-v".to_owned());

    assert_eq!(token.map(|token| token.role()).ok(), Some(TokenRole::Value));
}

#[test]
fn an_empty_token_is_rejected() {
    assert!(matches!(CommandLineToken::try_from(String::new()), Err(CommandLineTokenError::Empty)));
}

#[test]
fn the_published_image_is_the_tagged_registry_reference() {
    assert_eq!(ContainerImage::published().as_str(), "ghcr.io/vela-tools/cassiopeia:latest");
}

#[test]
fn a_pinned_image_is_kept_as_written() {
    let image = ContainerImage::from_str("ghcr.io/vela-tools/cassiopeia:0.4.1");

    assert_eq!(image.ok().map(|image| image.as_str().to_owned()), Some("ghcr.io/vela-tools/cassiopeia:0.4.1".to_owned()));
}

#[test]
fn a_run_that_needs_no_broker_is_isolated_by_default() {
    assert_eq!(ContainerNetwork::default(), ContainerNetwork::Isolated);
}

#[test]
fn host_networking_prints_the_value_a_container_engine_takes() {
    assert_eq!(ContainerNetwork::Host.to_string(), "host");
}

#[test]
fn an_upper_camel_case_name_is_accepted() {
    assert_eq!(
        DataModelName::try_from("AirQualityObserved".to_owned()).map(|name| name.to_string()).ok(),
        Some("AirQualityObserved".to_owned())
    );
}

#[test]
fn a_lowercase_name_is_rejected() {
    assert!(matches!(DataModelName::try_from("airQualityObserved".to_owned()), Err(DataModelNameError::NotUpperCamelCase { .. })));
}

#[test]
fn a_hyphenated_name_is_rejected() {
    assert!(matches!(DataModelName::try_from("Air-Quality".to_owned()), Err(DataModelNameError::NotUpperCamelCase { .. })));
}

#[test]
fn an_empty_name_is_rejected() {
    assert!(matches!(DataModelName::try_from(String::new()), Err(DataModelNameError::NotUpperCamelCase { .. })));
}

#[test]
fn an_ngsi_ld_urn_is_accepted() {
    assert_eq!(
        EntityId::try_from("urn:ngsi-ld:ChemicalElement:H".to_owned()).map(|id| id.as_str().to_owned()).ok(),
        Some("urn:ngsi-ld:ChemicalElement:H".to_owned())
    );
}

#[test]
fn a_urn_of_another_namespace_is_rejected() {
    assert!(matches!(EntityId::try_from("urn:uuid:0f1e2d3c".to_owned()), Err(EntityIdError::NotAnEntityUrn { .. })));
}

#[test]
fn a_bare_name_is_rejected() {
    assert!(matches!(EntityId::try_from("H".to_owned()), Err(EntityIdError::NotAnEntityUrn { .. })));
}

#[test]
fn an_ordinal_and_a_kebab_case_name_is_accepted() {
    let name = ExampleName::try_from("01-json-field-mapping".to_owned());

    assert_eq!(name.map(|name| name.to_string()).ok(), Some("01-json-field-mapping".to_owned()));
}

#[test]
fn a_name_without_an_ordinal_is_rejected() {
    let name = ExampleName::try_from("json-field-mapping".to_owned());

    assert!(matches!(name, Err(ExampleNameError::NoOrdinal { .. })));
}

#[test]
fn an_ordinal_on_its_own_is_rejected() {
    let name = ExampleName::try_from("01".to_owned());

    assert!(matches!(name, Err(ExampleNameError::NoOrdinal { .. })));
}

#[test]
fn an_uppercase_name_is_rejected() {
    let name = ExampleName::try_from("01-JsonFieldMapping".to_owned());

    assert!(matches!(name, Err(ExampleNameError::NotKebabCase { .. })));
}

#[test]
fn a_doubled_hyphen_is_rejected() {
    let name = ExampleName::try_from("01--json".to_owned());

    assert!(matches!(name, Err(ExampleNameError::NotKebabCase { .. })));
}

#[test]
fn names_order_by_their_ordinal() {
    let mut names = [
        ExampleName::try_from("10-json-relationships".to_owned()).ok(),
        ExampleName::try_from("02-json-id-collision".to_owned()).ok(),
    ];
    names.sort();

    assert_eq!(names.first().and_then(|name| name.as_ref()).map(ExampleName::as_str), Some("02-json-id-collision"));
}

#[test]
fn an_ordinal_is_kept_as_written() {
    let selector = ExampleSelector::from_str("01");

    assert_eq!(selector.map(|selector| selector.as_str().to_owned()).ok(), Some("01".to_owned()));
}

#[test]
fn a_path_is_kept_as_written() {
    let selector = ExampleSelector::from_str("examples/01-json-field-mapping");

    assert_eq!(selector.map(|selector| selector.as_str().to_owned()).ok(), Some("examples/01-json-field-mapping".to_owned()));
}

#[test]
fn an_spdx_identifier_is_accepted() {
    assert_eq!(
        LicenseIdentifier::try_from("CC-BY-4.0".to_owned()).map(|license| license.to_string()).ok(),
        Some("CC-BY-4.0".to_owned())
    );
}

#[test]
fn a_publishers_own_wording_is_accepted() {
    assert!(LicenseIdentifier::try_from("Free reuse with attribution to ARSO".to_owned()).is_ok());
}

#[test]
fn blank_terms_are_rejected() {
    assert!(matches!(LicenseIdentifier::try_from(" ".to_owned()), Err(LicenseIdentifierError::Empty)));
}

#[test]
fn each_program_prints_the_name_it_is_invoked_by() {
    assert_eq!(ProgramName::Cassiopeia.to_string(), "cassiopeia");
    assert_eq!(ProgramName::Docker.to_string(), "docker");
    assert_eq!(ProgramName::Podman.to_string(), "podman");
    assert_eq!(ProgramName::Sh.to_string(), "sh");
}

#[test]
fn an_organisation_is_accepted() {
    let publisher = PublisherName::try_from("Slovenian Environment Agency (ARSO)".to_owned());

    assert_eq!(publisher.map(|publisher| publisher.to_string()).ok(), Some("Slovenian Environment Agency (ARSO)".to_owned()));
}

#[test]
fn a_repository_is_accepted() {
    assert!(PublisherName::try_from("andrejewski/periodic-table".to_owned()).is_ok());
}

#[test]
fn a_blank_publisher_is_rejected() {
    assert!(matches!(PublisherName::try_from("   ".to_owned()), Err(PublisherNameError::Empty)));
}

#[test]
fn an_absent_block_needs_nothing() {
    assert_eq!(Requirements::default(), Requirements { smart_data_models: false });
}

#[test]
fn a_pipeline_is_kept_verbatim() {
    let command = ShellCommand::try_from("awk -f flatten.awk data/hurdat2.txt > data/cyclones.csv".to_owned());

    assert_eq!(
        command.map(|command| command.as_str().to_owned()).ok(),
        Some("awk -f flatten.awk data/hurdat2.txt > data/cyclones.csv".to_owned())
    );
}

#[test]
fn a_multi_line_command_is_kept_verbatim() {
    let command = ShellCommand::try_from("curl --silent \\\n  --output data/movies.json \\\n  https://example.invalid/movies".to_owned());

    assert!(command.is_ok_and(|command| command.as_str().lines().count() == 3));
}

#[test]
fn a_blank_command_is_rejected() {
    assert!(matches!(ShellCommand::try_from("  \n ".to_owned()), Err(ShellCommandError::Empty)));
}
