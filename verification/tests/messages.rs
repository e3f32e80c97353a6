use cassiopeia_example_runner::assertion_target::AssertionTarget;
use cassiopeia_example_runner::broker::BrokerError;
use cassiopeia_example_runner::command_line_token::CommandLineTokenError;
use cassiopeia_example_runner::data_model_name::{DataModelName, DataModelNameError};
use cassiopeia_example_runner::dataset::{Dataset, DatasetError, confirm_read};
use cassiopeia_example_runner::descriptor::DescriptorError;
use cassiopeia_example_runner::entity_id::{EntityId, EntityIdError};
use cassiopeia_example_runner::example_index::ExampleIndexError;
use cassiopeia_example_runner::example_name::{ExampleName, ExampleNameError};
use cassiopeia_example_runner::example_selector::ExampleSelector;
use cassiopeia_example_runner::execution::ExecutionError;
use cassiopeia_example_runner::inspection::inspect_all;
use cassiopeia_example_runner::license_identifier::LicenseIdentifier;
use cassiopeia_example_runner::listing::ListingError;
use cassiopeia_example_runner::output::OutputError;
use cassiopeia_example_runner::page::PageError;
use cassiopeia_example_runner::poll_interval::{PollInterval, PollIntervalError};
use cassiopeia_example_runner::program_name::ProgramName;
use cassiopeia_example_runner::publisher_name::PublisherName;
use cassiopeia_example_runner::scheduled_run::ScheduledRunError;
use cassiopeia_example_runner::schema_cache::SchemaCacheError;
use cassiopeia_example_runner::verification::VerificationError;
use cassiopeia_example_runner::volatility::Volatility;
use std::io::{Error, ErrorKind};
use url::Url;

fn name(text: &str) -> Option<ExampleName> {
    ExampleName::try_from(text.to_owned()).ok()
}

fn dataset() -> Option<Dataset> {
    Some(Dataset {
        file: "data/products.json".to_owned(),
        url: Url::parse("https://example.invalid/source").ok()?,
        source: PublisherName::try_from("a publisher".to_owned()).ok()?,
        license: LicenseIdentifier::try_from("CC0-1.0".to_owned()).ok()?,
        volatility: Volatility::Live,
        records: None,
        command: None,
    })
}

#[test]
fn every_failure_is_gathered_in_the_order_the_examples_were_checked() {
    let outcomes: Vec<Result<(), &str>> = vec![Ok(()), Err("first"), Ok(()), Err("second")];

    assert_eq!(inspect_all(outcomes), Err(vec!["first", "second"]));
}

#[test]
fn examples_that_all_check_out_gather_no_failure() {
    let outcomes: Vec<Result<(), &str>> = vec![Ok(()), Ok(())];

    assert_eq!(inspect_all(outcomes), Ok(()));
    assert_eq!(inspect_all(Vec::<Result<(), &str>>::new()), Ok(()));
}

#[test]
fn a_refused_value_names_itself_and_what_was_expected() {
    let model = DataModelNameError::NotUpperCamelCase { value: "chemical_element".to_owned() };
    let id = EntityIdError::NotAnEntityUrn { value: "element-1".to_owned() };
    let kebab = ExampleNameError::NotKebabCase { value: "Bad_Name".to_owned() };
    let ordinal = ExampleNameError::NoOrdinal { value: "json-mapping".to_owned() };

    assert_eq!(model.to_string(), "chemical_element is not an UpperCamelCase NGSI-LD entity type, such as ChemicalElement");
    assert_eq!(id.to_string(), "element-1 is not an NGSI-LD entity identifier, expected one starting with urn:ngsi-ld:");
    assert_eq!(kebab.to_string(), "Bad_Name is not a kebab-case example directory name");
    assert_eq!(ordinal.to_string(), "json-mapping does not start with an ordinal and a name, such as 01-json-field-mapping");
}

#[test]
fn an_outputs_block_without_a_count_names_its_target() {
    let missing = OutputError::NoCount { target: AssertionTarget::File("output/elements.json".to_owned()) };
    let both = DataModelName::try_from("ChemicalElement".to_owned())
        .ok()
        .map(|model| OutputError::BothCounts { target: AssertionTarget::BrokerEntities(model) }.to_string());

    assert_eq!(
        missing.to_string(),
        "the output output/elements.json has no entity count to check: give it an `entities` or an `at-least`"
    );
    assert_eq!(
        both,
        Some("the output the broker's ChemicalElement entities states both `entities` and `at-least`: keep the one the source warrants".to_owned())
    );
    assert!(OutputError::NoTarget.to_string().starts_with("an [[outputs]] block names nothing to check"));
}

#[test]
fn a_span_too_large_to_read_says_so() {
    let refused = PollInterval::try_from("600000000000s".to_owned()).err().map(|refused| refused.to_string());

    assert_eq!(
        refused,
        Some("600000000000s holds numbers that add up to more than a duration such as 5m or 20s is read with".to_owned())
    );
}

#[test]
fn an_unparsable_span_passes_on_humantime_s_words() {
    let refused = PollInterval::try_from("five minutes".to_owned()).err();

    assert!(matches!(&refused, Some(PollIntervalError::Unparsable { .. })));
    assert!(refused.is_some_and(|refused| refused.to_string().starts_with("five minutes is not a duration such as 5m or 20s: ")));
}

#[test]
fn a_failure_from_outside_is_described_around_its_own_words() {
    let unreadable = PageError::Unreadable { path: "examples/x/README.md".to_owned(), source: Error::from(ErrorKind::NotFound) };
    let descriptor = DescriptorError::Unreadable { path: "examples/x/example.toml".to_owned(), source: Error::from(ErrorKind::NotFound) };

    assert_eq!(unreadable.describe("gone"), "cannot read examples/x/README.md: gone");
    assert!(unreadable.to_string().starts_with("cannot read examples/x/README.md: "));
    assert_eq!(descriptor.describe("gone"), "cannot read examples/x/example.toml: gone");
    assert_eq!(
        ListingError::Descriptor(descriptor).describe("gone"),
        "cannot read examples/x/example.toml: gone"
    );
}

#[test]
fn a_page_that_drifted_from_its_descriptor_says_how() {
    let title = PageError::TitleMismatch {
        path: "examples/x/README.md".to_owned(),
        heading: "Old title".to_owned(),
        title: "New title".to_owned(),
    };
    let command = PageError::MissingCommand { path: "examples/x/README.md".to_owned(), expected: "cassiopeia map".to_owned() };

    assert_eq!(title.to_string(), "examples/x/README.md is titled \"Old title\", but its descriptor says \"New title\"");
    assert_eq!(command.to_string(), "examples/x/README.md does not document this command:\n\ncassiopeia map\n");
    assert_eq!(PageError::NoHeading { path: "README.md".to_owned() }.to_string(), "README.md has no H1 heading");
}

#[test]
fn a_readme_without_its_markers_names_them() {
    let missing = ExampleIndexError::NoMarkers { path: "README.md".to_owned() };

    assert_eq!(missing.to_string(), "README.md has no <!-- examples:start --> and <!-- examples:end --> pair");
}

#[test]
fn a_missing_home_is_reported_exactly() {
    assert_eq!(
        SchemaCacheError::Homeless.to_string(),
        "neither XDG_CACHE_HOME nor HOME is set, so the Smart Data Models cache has nowhere to live"
    );
}

#[test]
fn an_ambiguous_selector_lists_every_candidate() {
    let candidates: Option<Vec<ExampleName>> = vec![name("01-json-field-mapping"), name("01-json-second")].into_iter().collect();
    let wanted = ExampleSelector::from_str("01").ok();
    let failure = wanted.zip(candidates).map(|(wanted, candidates)| ListingError::AmbiguousExample { wanted, candidates }.to_string());

    assert_eq!(failure, Some("01 matches several examples: 01-json-field-mapping, 01-json-second".to_owned()));
}

#[test]
fn an_unreachable_publisher_is_reported_with_the_advice_to_find_another_source() {
    let url = Url::parse("https://example.invalid/source").ok();
    let publisher = PublisherName::try_from("a publisher".to_owned()).ok();
    let failure = url.zip(publisher).zip(name("28-json-advanced-schema")).map(|((url, publisher), example)| {
        DatasetError::Unreachable { example, url: Box::new(url), publisher, reason: "the publisher answered 404 Not Found".to_owned() }
            .to_string()
    });

    assert_eq!(
        failure,
        Some("28-json-advanced-schema cannot obtain https://example.invalid/source from a publisher: the publisher answered 404 Not Found\nthe publisher may have moved or withdrawn the dataset, in which case the example needs a different source rather than a local workaround".to_owned())
    );
    assert_eq!(
        DatasetError::CommandFailed { file: "data/x.csv".to_owned(), code: Some(2) }.to_string(),
        "the command producing data/x.csv exited with 2"
    );
}

#[test]
fn a_failed_read_of_a_download_quotes_the_operating_system() {
    let outcome = dataset()
        .zip(name("28-json-advanced-schema"))
        .map(|(declared, example)| confirm_read("/tmp/x/data/products.json", &example, &declared, Err("No such file".to_owned())));

    assert!(outcome.is_some_and(|outcome| match outcome {
        Err(DatasetError::Unreachable { reason, .. }) => reason == "nothing was written to data/products.json: No such file",
        _ => false,
    }));
}

#[test]
fn a_count_that_does_not_match_gives_both_figures() {
    let wrong = VerificationError::WrongEntityCount { target: AssertionTarget::File("out.json".to_owned()), expected: 118, found: 117 };
    let few = VerificationError::TooFewEntities { target: AssertionTarget::File("out.json".to_owned()), fewest: 10, found: 3 };
    let missing = EntityId::try_from("urn:ngsi-ld:Element:H".to_owned()).ok().map(|declared| {
        VerificationError::MissingEntity { target: AssertionTarget::File("out.json".to_owned()), declared }.to_string()
    });

    assert_eq!(wrong.to_string(), "out.json holds 117 entities, expected 118");
    assert_eq!(few.to_string(), "out.json holds 3 entities, expected at least 10");
    assert_eq!(missing, Some("out.json does not hold urn:ngsi-ld:Element:H".to_owned()));
}

#[test]
fn a_run_that_stops_early_or_badly_is_described_exactly() {
    let early = ScheduledRunError::StoppedEarly { program: ProgramName::Cassiopeia, code: Some(1), cycles: 5 };
    let badly = ScheduledRunError::StoppedBadly { program: ProgramName::Sh, code: -2 };
    let deaf = ScheduledRunError::Unresponsive { program: ProgramName::Docker };

    assert_eq!(early.to_string(), "cassiopeia stopped with 1 before its 5 cycles were done");
    assert_eq!(badly.to_string(), "sh exited with -2 after it was interrupted");
    assert_eq!(deaf.to_string(), "docker did not stop when it was interrupted, and had to be killed");
}

#[test]
fn a_failed_run_names_the_program_and_its_exit() {
    let failed = ExecutionError::RunFailed { program: ProgramName::Cassiopeia, code: None };
    let preparation = ExecutionError::PreparationFailed { description: "unpack the archive".to_owned(), code: Some(1) };
    let nested = ExecutionError::SchemaCache(SchemaCacheError::Homeless);

    assert_eq!(failed.to_string(), "cassiopeia exited with a signal");
    assert_eq!(preparation.to_string(), "the preparation step \"unpack the archive\" exited with 1");
    assert_eq!(nested.to_string(), SchemaCacheError::Homeless.to_string());
    assert_eq!(ExecutionError::Token(CommandLineTokenError::Empty).to_string(), "a command-line token cannot be empty");
}

#[test]
fn a_broker_failure_wrapped_in_a_run_keeps_its_words() {
    let url = Url::parse("http://localhost:1026/ngsi-ld/v1/entities").ok();
    let described = url.map(|url| {
        let failure = VerificationError::Broker(BrokerError::NeverReady { url });
        (failure.to_string(), failure.describe("ignored"))
    });

    assert!(described.is_some_and(|(printed, described)| printed == described
        && printed.starts_with("the broker did not answer http://localhost:1026/ngsi-ld/v1/entities in time")));
}
