use cassiopeia_example_runner::broker::{
    Answered, BrokerError, context_link, endpoint, entities_answer, entities_query, readiness, temporal_answer, temporal_query, triage,
};
use cassiopeia_example_runner::broker_stack::{BrokerStack, BrokerStackError, DOWN, UP, compose_arguments, compose_outcome};
use cassiopeia_example_runner::command_line_token::CommandLineToken;
use cassiopeia_example_runner::container_image::ContainerImage;
use cassiopeia_example_runner::container_network::ContainerNetwork;
use cassiopeia_example_runner::context_broker::ContextBroker;
use cassiopeia_example_runner::data_model_name::DataModelName;
use cassiopeia_example_runner::dataset::{
    Attempt, Dataset, DatasetError, RetryState, Verdict, after_attempt, confirm, first_attempt, is_json_target, next_backoff, opening, produced, status_attempt,
};
use cassiopeia_example_runner::descriptor::Descriptor;
use cassiopeia_example_runner::docs_metadata::render as render_metadata;
use cassiopeia_example_runner::entity_id::EntityId;
use cassiopeia_example_runner::example::Example;
use cassiopeia_example_runner::example_index::{ExampleIndexError, block, regenerate, render};
use cassiopeia_example_runner::example_name::ExampleName;
use cassiopeia_example_runner::example_selector::ExampleSelector;
use cassiopeia_example_runner::execution::{
    DatasetPolicy, ExecutionError, OutputPolicy, Step, dataset_line, example_volatility, finished, plan, prepared,
};
use cassiopeia_example_runner::license_identifier::LicenseIdentifier;
use cassiopeia_example_runner::listing::{ExampleEntry, ListingError, entry_at, names, reading_order, select, summary};
use cassiopeia_example_runner::page::{PageError, check};
use cassiopeia_example_runner::poll_interval::PollInterval;
use cassiopeia_example_runner::poll_schedule::PollSchedule;
use cassiopeia_example_runner::preparation::Preparation;
use cassiopeia_example_runner::program_name::ProgramName;
use cassiopeia_example_runner::publisher_name::PublisherName;
use cassiopeia_example_runner::requirements::Requirements;
use cassiopeia_example_runner::run::Run;
use cassiopeia_example_runner::runtime::{Runtime, documented_container_command, documented_native_command};
use cassiopeia_example_runner::scheduled_run::{ScheduledRunError, after_interrupt, after_window, classify};
use cassiopeia_example_runner::schema_cache::{SchemaCacheError, join_path, resolve};
use cassiopeia_example_runner::shell_command::ShellCommand;
use cassiopeia_example_runner::source_format::SourceFormat;
use cassiopeia_example_runner::verification::{FoundEntity, JsonDocument, require_assertions};
use cassiopeia_example_runner::volatility::Volatility;
use std::io::{Error, ErrorKind};
use std::time::Duration;
use ureq::http::StatusCode;
use url::Url;

fn base() -> Option<Url> {
    Url::parse("http://localhost:9090/").ok()
}

#[test]
fn an_entity_query_is_built_under_the_ngsi_ld_api_root() {
    let built = base().and_then(|base| endpoint(&base, &["entities"]).ok());

    assert_eq!(built.map(|built| built.to_string()), Some("http://localhost:9090/ngsi-ld/v1/entities".to_owned()));
}

#[test]
fn a_temporal_identifier_keeps_its_urn_colons_rather_than_becoming_a_scheme() {
    let built = EntityId::try_from("urn:ngsi-ld:TropicalCyclone:AL122005".to_owned())
        .ok()
        .zip(base())
        .and_then(|(id, base)| endpoint(&base, &["temporal", "entities", id.as_str()]).ok());

    assert_eq!(
        built.map(|built| built.to_string()),
        Some("http://localhost:9090/ngsi-ld/v1/temporal/entities/urn:ngsi-ld:TropicalCyclone:AL122005".to_owned())
    );
}

#[test]
fn a_context_is_offered_to_the_broker_as_a_json_ld_link() {
    let link = Url::parse("https://example.invalid/context.jsonld").ok().map(|context| context_link(&context));

    assert_eq!(
        link,
        Some("<https://example.invalid/context.jsonld>; rel=\"http://www.w3.org/ns/json-ld#context\"; type=\"application/ld+json\"".to_owned())
    );
}

#[test]
fn a_base_written_without_its_trailing_slash_still_builds_the_same_path() {
    let built = Url::parse("http://localhost:9090").ok().and_then(|base| endpoint(&base, &["types"]).ok());

    assert_eq!(built.map(|built| built.to_string()), Some("http://localhost:9090/ngsi-ld/v1/types".to_owned()));
}

#[test]
fn a_type_query_asks_for_the_model_and_a_page_of_entities() {
    let model = DataModelName::try_from("AirQualityObserved".to_owned()).ok();
    let built = base().zip(model).and_then(|(base, model)| entities_query(&base, &model).ok());

    assert_eq!(
        built.map(|built| built.to_string()),
        Some("http://localhost:9090/ngsi-ld/v1/entities?type=AirQualityObserved&limit=1000".to_owned())
    );
}

#[test]
fn a_temporal_query_names_the_identifier_under_the_temporal_endpoint() {
    let id = EntityId::try_from("urn:ngsi-ld:TropicalCyclone:AL122005".to_owned()).ok();
    let built = base().zip(id).and_then(|(base, id)| temporal_query(&base, &id).ok());

    assert_eq!(
        built.map(|built| built.to_string()),
        Some("http://localhost:9090/ngsi-ld/v1/temporal/entities/urn:ngsi-ld:TropicalCyclone:AL122005".to_owned())
    );
}

#[test]
fn a_url_that_cannot_carry_a_path_is_refused_as_a_base() {
    let built = Url::parse("data:text/plain,Stuff").ok().map(|base| endpoint(&base, &["types"]));

    assert!(built.is_some_and(|built| match built {
        Err(BrokerError::NotABase { url }) => url.as_str() == "data:text/plain,Stuff",
        _ => false,
    }));
}

#[test]
fn an_unreachable_broker_is_reported_with_the_transport_failure() {
    let failure = base().map(|url| BrokerError::Unreachable { url, source: Box::new(ureq::Error::HostNotFound) });

    assert_eq!(failure.map(|failure| failure.to_string()), Some("cannot reach the broker at http://localhost:9090/: host not found".to_owned()));
}

#[test]
fn a_missing_path_is_nothing_rather_than_a_failure() {
    let outcome = base().map(|base| triage(&base, StatusCode::NOT_FOUND));

    assert!(outcome.is_some_and(|outcome| matches!(outcome, Ok(Answered::Nothing))));
}

#[test]
fn a_success_has_a_body_to_read() {
    let outcome = base().map(|base| triage(&base, StatusCode::OK));

    assert!(outcome.is_some_and(|outcome| matches!(outcome, Ok(Answered::Body))));
}

#[test]
fn any_other_status_is_a_refusal_naming_it() {
    let outcome = base().map(|base| triage(&base, StatusCode::INTERNAL_SERVER_ERROR));

    assert!(outcome.is_some_and(|outcome| match outcome {
        Err(failure) => failure.to_string() == "the broker answered 500 Internal Server Error for http://localhost:9090/",
        Ok(_) => false,
    }));
}

#[test]
fn a_broker_that_answered_is_ready_and_one_out_of_time_is_not() {
    assert!(base().is_some_and(|base| matches!(readiness(&base, true, true), Some(Ok(())))));
    assert!(base().is_some_and(|base| matches!(readiness(&base, false, true), Some(Err(BrokerError::NeverReady { .. })))));
    assert!(base().is_some_and(|base| readiness(&base, false, false).is_none()));
}

#[test]
fn a_type_query_answer_must_be_an_array() {
    let array = base().map(|base| entities_answer(&base, Some(JsonDocument::Array(vec![FoundEntity { id: None }]))));
    let object = base().map(|base| entities_answer(&base, Some(JsonDocument::Object(FoundEntity { id: None }))));
    let nothing = base().map(|base| entities_answer(&base, None));

    assert!(array.is_some_and(|found| found.is_ok_and(|found| found.len() == 1)));
    assert!(object.is_some_and(|found| matches!(found, Err(BrokerError::NotAnEntityArray { .. }))));
    assert!(nothing.is_some_and(|found| found.is_ok_and(|found| found.is_empty())));
}

#[test]
fn a_folded_temporal_entity_is_read_as_a_one_entity_array() {
    let entity = FoundEntity { id: Some("urn:ngsi-ld:TropicalCyclone:AL122005".to_owned()) };
    let found = base().map(|base| temporal_answer(&base, Some(JsonDocument::Object(entity))));
    let scalar = base().map(|base| temporal_answer(&base, Some(JsonDocument::Scalar)));

    assert!(found.is_some_and(|found| found.is_ok_and(|found| found.len() == 1)));
    assert!(scalar.is_some_and(|found| matches!(found, Err(BrokerError::NotAnEntityArray { .. }))));
}

#[test]
fn the_stack_comes_up_detached_and_waits_for_what_declares_a_healthcheck() {
    assert_eq!(UP, ["up", "-d", "--wait"]);
}

#[test]
fn the_stack_goes_down_with_its_volumes() {
    assert_eq!(DOWN, ["down", "-v"]);
}

#[test]
fn a_missing_engine_is_reported_by_the_name_it_is_invoked_by() {
    let failure = BrokerStackError::NotExecutable { program: ProgramName::Docker, source: Error::from(ErrorKind::NotFound) };

    assert!(failure.to_string().starts_with("cannot execute docker: "));
}

#[test]
fn a_compose_failure_names_the_file_and_the_exit_code() {
    let failure = BrokerStackError::ComposeFailed { compose: "docker-compose.yml".to_owned(), code: Some(1) };

    assert_eq!(failure.to_string(), "compose exited with 1 for docker-compose.yml");
}

#[test]
fn a_stack_stopped_by_a_signal_is_reported_as_such() {
    let failure = BrokerStackError::ComposeFailed { compose: "docker-compose.yml".to_owned(), code: None };

    assert_eq!(failure.to_string(), "compose exited with a signal for docker-compose.yml");
}

fn stack() -> BrokerStack {
    BrokerStack { engine: ProgramName::Docker, directory: "/tmp/example".to_owned(), compose: "docker-compose.yml".to_owned() }
}

#[test]
fn compose_is_run_against_the_stack_file() {
    assert_eq!(compose_arguments(&stack(), &UP), vec!["compose", "--file", "docker-compose.yml", "up", "-d", "--wait"]);
}

#[test]
fn only_a_zero_exit_is_compose_succeeding() {
    assert!(compose_outcome(&stack(), Some(0)).is_ok());
    assert!(matches!(compose_outcome(&stack(), Some(-1)), Err(BrokerStackError::ComposeFailed { code: Some(-1), .. })));
}

fn tokens(values: &[&str]) -> Vec<CommandLineToken> {
    values.iter().filter_map(|value| CommandLineToken::try_from((*value).to_owned()).ok()).collect()
}

fn descriptor(title: &str, label: &str, summary: &str) -> Option<Descriptor> {
    Some(Descriptor {
        example: Example {
            title: title.to_owned(),
            label: label.to_owned(),
            summary: summary.to_owned(),
            formats: vec![SourceFormat::Csv, SourceFormat::GeoJson],
            models: vec![DataModelName::try_from("City".to_owned()).ok()?, DataModelName::try_from("Road".to_owned()).ok()?],
        },
        requirements: Requirements::default(),
        context_broker: None,
        schedule: None,
        preparation: Vec::new(),
        run: Run { args: tokens(&["map", "--input", "data/city.csv", "--output", "out"]) },
        datasets: Vec::new(),
        outputs: Vec::new(),
    })
}

fn entry(name: &str, summary: &str) -> Option<ExampleEntry> {
    Some(ExampleEntry {
        name: ExampleName::try_from(name.to_owned()).ok()?,
        directory: format!("/repo/examples/{name}"),
        descriptor: descriptor("A title", "A label", summary)?,
    })
}

fn entries() -> Option<Vec<ExampleEntry>> {
    Some(vec![entry("01-csv-cities", "Shows cities.")?, entry("02-csv-roads", "Shows roads.")?, entry("10-csv-rivers", "Shows rivers.")?])
}

#[test]
fn every_example_in_the_repository_is_listed_in_reading_order() {
    let ordered = reading_order(vec!["10-csv-rivers".to_owned(), "01-csv-cities".to_owned(), "02-csv-roads".to_owned()]);

    assert_eq!(ordered, vec!["01-csv-cities".to_owned(), "02-csv-roads".to_owned(), "10-csv-rivers".to_owned()]);
}

#[test]
fn an_ordinal_resolves_to_the_example_it_prefixes() {
    let wanted = ExampleSelector::from_str("01").ok();
    let entry = entries().zip(wanted).map(|(entries, wanted)| select(entries, &wanted));

    assert!(entry.is_some_and(|entry| entry.is_ok_and(|entry| entry.name.as_str().starts_with("01-"))));
}

#[test]
fn an_ordinal_that_matches_nothing_is_reported() {
    let wanted = ExampleSelector::from_str("99").ok();
    let entry = entries().zip(wanted).map(|(entries, wanted)| select(entries, &wanted));

    assert!(entry.is_some_and(|entry| matches!(entry, Err(ListingError::NoSuchExample { .. }))));
}

#[test]
fn a_full_name_resolves_to_its_example() {
    let wanted = ExampleSelector::from_str("02-csv-roads").ok();
    let entry = entries().zip(wanted).map(|(entries, wanted)| select(entries, &wanted));

    assert!(entry.is_some_and(|entry| entry.is_ok_and(|entry| entry.name.as_str() == "02-csv-roads")));
}

#[test]
fn an_ordinal_shared_by_two_examples_names_both() {
    let wanted = ExampleSelector::from_str("01").ok();
    let listed = entries().zip(entry("01-json-cities", "Shows cities again.")).map(|(mut entries, extra)| {
        entries.push(extra);
        entries
    });
    let entry = listed.zip(wanted).map(|(entries, wanted)| select(entries, &wanted));

    assert!(entry.is_some_and(|entry| match entry {
        Err(ListingError::AmbiguousExample { candidates, .. }) =>
            candidates.iter().map(|name| name.as_str()).collect::<Vec<&str>>() == vec!["01-csv-cities", "01-json-cities"],
        _ => false,
    }));
}

#[test]
fn every_example_is_in_the_continuous_integration_matrix() {
    assert!(entries().is_some_and(|entries| {
        let matrix = names(&entries);

        !matrix.is_empty() && matrix.len() == entries.len()
    }));
}

#[test]
fn the_readable_listing_carries_one_line_for_each_example() {
    assert!(entries().is_some_and(|entries| summary(&entries).lines().count() == entries.len()));
    assert_eq!(entries().map(|entries| summary(&entries[..1])), Some("01-csv-cities  Shows cities.\n".to_owned()));
}

#[test]
fn an_example_is_named_after_its_directory() {
    let loaded = descriptor("t", "l", "s").map(|descriptor| entry_at("/repo/examples/07-kml-parks".to_owned(), descriptor));
    let unnamed = descriptor("t", "l", "s").map(|descriptor| entry_at("/repo/examples/..".to_owned(), descriptor));
    let misnamed = descriptor("t", "l", "s").map(|descriptor| entry_at("/repo/examples/Parks".to_owned(), descriptor));

    assert!(loaded.is_some_and(|loaded| loaded.is_ok_and(|loaded| loaded.name.as_str() == "07-kml-parks")));
    assert!(unnamed.is_some_and(|unnamed| matches!(unnamed, Err(ListingError::UnnamedDirectory { .. }))));
    assert!(misnamed.is_some_and(|misnamed| matches!(misnamed, Err(ListingError::Name(_)))));
}

#[test]
fn every_example_is_described_once_in_reading_order() {
    assert!(entries().is_some_and(|entries| {
        let rendered = render_metadata(&entries);

        rendered.len() == entries.len() && rendered.first().map(|page| &page.directory) == entries.first().map(|entry| &entry.name)
    }));
}

#[test]
fn a_page_carries_the_title_and_label_its_descriptor_declares() {
    assert!(entries().is_some_and(|entries| {
        let rendered = render_metadata(&entries);

        rendered
            .iter()
            .zip(entries.iter())
            .all(|(page, entry)| page.title == entry.descriptor.example.title && page.label == entry.descriptor.example.label)
    }));
}

#[test]
fn the_index_carries_one_entry_for_each_example() {
    let rendered = entries().map(|entries| (render(&entries), entries.len()));

    assert!(rendered.is_some_and(|(index, count)| index.split("\n\n").count() == count * 2));
}

#[test]
fn each_entry_links_to_the_page_it_names_under_its_label() {
    let rendered = entries().map(|entries| {
        let index = render(&entries);

        entries.iter().all(|entry| {
            index.contains(&format!(
                "**[{label}](examples/{name}/example.md)**",
                label = entry.descriptor.example.label,
                name = entry.name.as_str()
            ))
        })
    });

    assert_eq!(rendered, Some(true));
}

#[test]
fn each_entry_opens_with_a_badge_for_every_format_it_reads() {
    let rendered = entries().map(|entries| {
        let index = render(&entries);

        entries.iter().all(|entry| {
            entry
                .descriptor
                .example
                .formats
                .iter()
                .all(|format| index.contains(&format!(r#"src="https://img.shields.io/badge/format-{}-"#, format.to_string())))
        })
    });

    assert_eq!(rendered, Some(true));
}

#[test]
fn each_entry_closes_with_the_summary_its_descriptor_declares() {
    let rendered = entries().map(|entries| {
        let index = render(&entries);

        entries.iter().all(|entry| index.contains(&entry.descriptor.example.summary))
    });

    assert_eq!(rendered, Some(true));
}

#[test]
fn an_entry_reverses_its_badges_and_quotes_its_models() {
    let text = entry("01-csv-cities", "Shows cities.").map(|entry| block(&entry));

    assert_eq!(
        text,
        Some(
            "<img src=\"https://img.shields.io/badge/format-geojson-2563eb\" alt=\"format: geojson\" height=\"20\" align=\"right\"> \
             <img src=\"https://img.shields.io/badge/format-csv-1d6f42\" alt=\"format: csv\" height=\"20\" align=\"right\"> \
             **[A label](examples/01-csv-cities/example.md)** → `City` `Road`\n\nShows cities."
                .to_owned()
        )
    );
}

#[test]
fn the_generated_region_is_replaced_and_the_rest_of_the_readme_is_left_alone() {
    let text = "# Title\n\nBefore.\n\n<!-- examples:start -->\n\nstale\n<!-- examples:end -->\n\nAfter.\n";
    let outcome = entries().and_then(|entries| regenerate("README.md".to_owned(), text, &entries).ok());

    assert!(outcome.is_some_and(|text| {
        text.starts_with("# Title\n\nBefore.\n\n<!-- examples:start -->\n\n<img ")
            && text.ends_with("<!-- examples:end -->\n\nAfter.\n")
            && !text.contains("stale")
    }));
}

#[test]
fn a_readme_without_markers_is_reported() {
    let outcome = entries().map(|entries| regenerate("README.md".to_owned(), "# Title\n\nNo generated region here.\n", &entries));

    assert!(outcome.is_some_and(|outcome| matches!(outcome, Err(ExampleIndexError::NoMarkers { .. }))));
}

#[test]
fn markers_in_the_wrong_order_are_reported() {
    let outcome = entries().map(|entries| regenerate("README.md".to_owned(), "<!-- examples:end -->\n\n<!-- examples:start -->\n", &entries));

    assert!(outcome.is_some_and(|outcome| matches!(outcome, Err(ExampleIndexError::NoMarkers { .. }))));
}

#[test]
fn regenerating_an_index_twice_changes_nothing_more() {
    let text = "# Title\n\n<!-- examples:start -->\nold\n<!-- examples:end -->\nAfter.\n";
    let once = entries().and_then(|entries| regenerate("README.md".to_owned(), text, &entries).ok());
    let twice = once.clone().zip(entries()).and_then(|(once, entries)| regenerate("README.md".to_owned(), &once, &entries).ok());

    assert!(once.is_some());
    assert_eq!(once, twice);
}

fn page_for(descriptor: &Descriptor) -> String {
    let native = documented_native_command(&descriptor.run);
    let container = documented_container_command(&descriptor.run, descriptor.requirements, descriptor.network(), &ContainerImage::published());

    format!("# {}\n\nProse.\n\n```bash\n{native}\n```\n\n```bash\n{container}\n```\n", descriptor.example.title)
}

#[test]
fn checking_one_example_reports_nothing_when_its_page_matches() {
    let checked = descriptor("A title", "l", "s").map(|descriptor| check("example.md".to_owned(), &page_for(&descriptor), &descriptor));

    assert!(checked.is_some_and(|checked| checked.is_ok()));
}

#[test]
fn an_example_that_does_not_exist_is_reported() {
    let wanted = ExampleSelector::from_str("99").ok();
    let outcome = entries().zip(wanted).map(|(entries, wanted)| select(entries, &wanted));

    assert!(outcome.is_some_and(|outcome| matches!(outcome, Err(ListingError::NoSuchExample { .. }))));
}

#[test]
fn a_page_whose_title_moved_is_reported() {
    let checked = descriptor("A title", "l", "s").map(|descriptor| {
        let page = page_for(&descriptor).replace("# A title", "# Another title");
        check("example.md".to_owned(), &page, &descriptor)
    });

    assert!(checked.is_some_and(|checked| matches!(checked, Err(PageError::TitleMismatch { .. }))));
}

#[test]
fn a_page_without_a_heading_is_reported() {
    let checked = descriptor("A title", "l", "s").map(|descriptor| check("example.md".to_owned(), "Prose only.\n", &descriptor));

    assert!(checked.is_some_and(|checked| matches!(checked, Err(PageError::NoHeading { .. }))));
}

#[test]
fn a_page_missing_its_container_command_is_reported_with_it() {
    let checked = descriptor("A title", "l", "s").map(|descriptor| {
        let native = documented_native_command(&descriptor.run);
        let page = format!("# A title\n\n```bash\n{native}\n```\n");
        (check("example.md".to_owned(), &page, &descriptor), descriptor)
    });

    assert!(checked.is_some_and(|(checked, descriptor)| match checked {
        Err(PageError::MissingCommand { expected, .. }) =>
            expected == documented_container_command(&descriptor.run, descriptor.requirements, ContainerNetwork::Isolated, &ContainerImage::published()),
        _ => false,
    }));
}

#[test]
fn an_example_with_assertions_and_a_matching_page_checks_out() {
    let checked = entry("01-csv-cities", "s").map(|entry| {
        check("example.md".to_owned(), &page_for(&entry.descriptor), &entry.descriptor).is_ok()
            && require_assertions(&entry.name, &entry.descriptor.outputs).is_err()
    });

    assert_eq!(checked, Some(true));
}

fn dataset(file: &str, volatility: Volatility, records: Option<usize>) -> Option<Dataset> {
    Some(Dataset {
        file: file.to_owned(),
        url: Url::parse("https://example.invalid/source").ok()?,
        source: PublisherName::try_from("a publisher".to_owned()).ok()?,
        license: LicenseIdentifier::try_from("CC0-1.0".to_owned()).ok()?,
        volatility,
        records,
        command: ShellCommand::try_from("printf hello > data/produced.txt".to_owned()).ok(),
    })
}

fn example_name() -> Option<ExampleName> {
    ExampleName::try_from("28-json-advanced-schema".to_owned()).ok()
}

#[test]
fn a_command_that_fails_is_reported_with_its_exit_code() {
    let outcome = dataset("data/absent.txt", Volatility::Live, None).map(|declared| produced(&declared, Some(3)));

    assert!(outcome.is_some_and(|outcome| matches!(outcome, Err(DatasetError::CommandFailed { code: Some(3), .. }))));
}

#[test]
fn a_command_that_writes_nothing_is_reported_as_the_publisher_failing() {
    let outcome = dataset("data/produced.txt", Volatility::Live, None)
        .zip(example_name())
        .map(|(declared, name)| confirm("/tmp/x/data/produced.txt", &name, &declared, Err(Error::from(ErrorKind::NotFound))));

    assert!(outcome.is_some_and(|outcome| match outcome {
        Err(DatasetError::Unreachable { reason, .. }) => reason.starts_with("nothing was written to data/produced.txt: "),
        _ => false,
    }));
}

#[test]
fn a_command_that_writes_an_empty_file_is_reported_rather_than_passed_on() {
    let outcome = dataset("data/produced.json", Volatility::Live, None)
        .zip(example_name())
        .map(|(declared, name)| confirm("/tmp/x/data/produced.json", &name, &declared, Ok(Vec::new())));

    assert!(outcome.is_some_and(|outcome| match outcome {
        Err(DatasetError::Unreachable { reason, .. }) => reason == "data/produced.json was written empty",
        _ => false,
    }));
}

#[test]
fn a_holding_page_written_into_a_json_target_is_reported_with_its_opening() {
    let page = b"<!DOCTYPE html><title>503</title>".to_vec();
    let outcome = dataset("data/products.json", Volatility::Live, None)
        .zip(example_name())
        .map(|(declared, name)| confirm("/tmp/x/data/products.json", &name, &declared, Ok(page)));

    assert!(outcome.is_some_and(|outcome| match outcome {
        Err(DatasetError::Unreachable { reason, .. }) => reason.contains("<!DOCTYPE html>"),
        Err(DatasetError::NoShell { .. } | DatasetError::CommandFailed { .. } | DatasetError::Unwritable { .. }) | Ok(()) => false,
    }));
}

#[test]
fn a_holding_page_names_the_parse_failure_and_quotes_the_page() {
    let page = b"<!DOCTYPE html>".to_vec();
    let outcome = dataset("data/products.json", Volatility::Live, None)
        .zip(example_name())
        .map(|(declared, name)| confirm("/tmp/x/data/products.json", &name, &declared, Ok(page)));

    assert!(outcome.is_some_and(|outcome| match outcome {
        Err(DatasetError::Unreachable { reason, .. }) => {
            reason == "data/products.json is not JSON (expected value at line 1 column 1), and it begins: <!DOCTYPE html>"
        }
        _ => false,
    }));
}

#[test]
fn a_holding_page_written_into_a_target_nothing_parses_as_json_is_left_alone() {
    let outcome = dataset("data/amenities.csv", Volatility::Live, None)
        .zip(example_name())
        .map(|(declared, name)| confirm("/tmp/x/data/amenities.csv", &name, &declared, Ok(b"<!DOCTYPE html>".to_vec())));

    assert!(outcome.is_some_and(|outcome| outcome.is_ok()));
}

#[test]
fn a_json_target_is_known_by_its_extension() {
    assert!(is_json_target("data/products.json"));
    assert!(is_json_target("data/parks.geojson"));
    assert!(!is_json_target("data/amenities.csv"));
    assert!(!is_json_target("data/.json"));
    assert!(!is_json_target("data/json"));
}

#[test]
fn an_opening_is_at_most_one_hundred_and_twenty_bytes_on_one_line() {
    let long = vec![b'a'; 200];

    assert_eq!(opening(&long).len(), 120);
    assert_eq!(opening(b"first\nsecond"), "first second");
}

#[test]
fn a_dataset_declares_its_provenance_and_its_volatility() {
    let line = dataset("data/element.json", Volatility::Frozen, Some(118)).map(|declared| dataset_line(&declared));

    assert_eq!(line, Some("    data/element.json from a publisher (CC0-1.0, frozen), 118 records".to_owned()));
}

#[test]
fn a_throttled_publisher_is_asked_again_and_a_missing_file_is_not() {
    let busy = status_attempt(&StatusCode::SERVICE_UNAVAILABLE);
    let throttled = status_attempt(&StatusCode::TOO_MANY_REQUESTS);
    let moved = status_attempt(&StatusCode::NOT_FOUND);

    assert!(matches!(busy, Some(Attempt::Transient(reason)) if reason == "the publisher answered 503 Service Unavailable"));
    assert!(matches!(throttled, Some(Attempt::Transient(_))));
    assert!(matches!(moved, Some(Attempt::Settled(reason)) if reason == "the publisher answered 404 Not Found"));
    assert!(status_attempt(&StatusCode::OK).is_none());
}

#[test]
fn the_last_attempt_gives_up_where_an_earlier_one_retries() {
    let earlier = RetryState { remaining: 1, backoff: Duration::from_secs(2) };
    let last = RetryState { remaining: 0, backoff: Duration::from_secs(16) };

    assert!(matches!(
        after_attempt(earlier, Attempt::Transient("busy".to_owned())),
        Verdict::Retry { reason, wait, next } if reason == "busy" && wait == Duration::from_secs(2) && next.remaining == 0
            && next.backoff == Duration::from_secs(4)
    ));
    assert!(matches!(after_attempt(last, Attempt::Transient("busy".to_owned())), Verdict::GiveUp(reason) if reason == "busy"));
    assert!(matches!(after_attempt(earlier, Attempt::Settled("gone".to_owned())), Verdict::GiveUp(reason) if reason == "gone"));
    assert!(matches!(after_attempt(earlier, Attempt::Body(vec![1])), Verdict::Write(body) if body == vec![1]));
}

#[test]
fn a_publisher_that_stays_busy_is_asked_four_times_with_waits_of_two_four_and_eight_seconds() {
    let mut state = first_attempt();
    let mut waits = Vec::new();
    let mut asked = 0;

    let last = loop {
        asked += 1;
        match after_attempt(state, Attempt::Transient("busy".to_owned())) {
            Verdict::Retry { wait, next, .. } => {
                waits.push(wait);
                state = next;
            }
            verdict => break verdict,
        }
    };

    assert_eq!(asked, 4);
    assert_eq!(waits, vec![Duration::from_secs(2), Duration::from_secs(4), Duration::from_secs(8)]);
    assert!(matches!(last, Verdict::GiveUp(reason) if reason == "busy"));
}

#[test]
fn each_retry_waits_twice_as_long_as_the_last() {
    assert_eq!(next_backoff(Duration::from_secs(2)), Duration::from_secs(4));
    assert_eq!(next_backoff(Duration::MAX), Duration::MAX);
}

#[test]
fn a_run_the_interrupt_terminated_outright_is_a_clean_stop() {
    assert!(classify(ProgramName::Cassiopeia, None).is_ok());
    assert!(classify(ProgramName::Cassiopeia, Some(130)).is_ok());
    assert!(classify(ProgramName::Cassiopeia, Some(0)).is_ok());
}

#[test]
fn a_run_that_fails_on_its_way_out_is_reported_with_its_code() {
    let outcome = classify(ProgramName::Cassiopeia, Some(4));

    assert!(matches!(outcome, Err(ScheduledRunError::StoppedBadly { code: 4, .. })));
}

fn poll(cycles: u32) -> Option<PollSchedule> {
    Some(PollSchedule {
        cycles,
        interval: PollInterval::try_from("1s".to_owned()).ok()?,
        grace: PollInterval::try_from("5s".to_owned()).ok()?,
    })
}

#[test]
fn a_schedule_that_stops_scheduling_before_its_window_is_reported() {
    let outcome = poll(5).map(|declared| after_window(ProgramName::Sh, declared, Some(Some(0))));

    assert!(outcome.is_some_and(|outcome| matches!(outcome, Err(ScheduledRunError::StoppedEarly { cycles: 5, .. }))));
}

#[test]
fn a_run_that_fails_inside_its_window_is_reported_with_its_code() {
    let outcome = poll(2).map(|declared| after_window(ProgramName::Sh, declared, Some(Some(4))));

    assert!(outcome.is_some_and(|outcome| matches!(outcome, Err(ScheduledRunError::StoppedEarly { code: Some(4), .. }))));
}

#[test]
fn a_run_still_polling_when_its_window_closes_is_interrupted_and_one_that_ignores_it_is_reported() {
    assert!(poll(1).is_some_and(|declared| after_window(ProgramName::Sh, declared, None).is_ok()));
    assert!(after_interrupt(ProgramName::Sh, Some(Some(130))).is_ok());
    assert!(matches!(after_interrupt(ProgramName::Sh, None), Err(ScheduledRunError::Unresponsive { .. })));
}

#[test]
fn the_configured_cache_directory_is_used_when_it_is_set() {
    let path = resolve(Some("/var/cache".to_owned()), Some("/home/reader".to_owned()));

    assert_eq!(path.ok(), Some("/var/cache/cassiopeia-examples/schemas".to_owned()));
}

#[test]
fn the_home_directory_carries_the_cache_when_nothing_is_configured() {
    let path = resolve(None, Some("/home/reader".to_owned()));

    assert_eq!(path.ok(), Some("/home/reader/.cache/cassiopeia-examples/schemas".to_owned()));
}

#[test]
fn an_empty_cache_directory_counts_as_unset() {
    let path = resolve(Some(String::new()), Some("/home/reader".to_owned()));

    assert_eq!(path.ok(), Some("/home/reader/.cache/cassiopeia-examples/schemas".to_owned()));
}

#[test]
fn an_environment_with_neither_variable_is_reported_rather_than_guessed() {
    assert!(matches!(resolve(None, None), Err(SchemaCacheError::Homeless)));
}

#[test]
fn a_path_is_joined_the_way_the_standard_library_joins_one() {
    assert_eq!(join_path("/var/cache/", "x"), "/var/cache/x");
    assert_eq!(join_path("", "x"), "x");
    assert_eq!(join_path("/var/cache", "/abs"), "/abs");
}

#[test]
fn a_preparation_step_that_fails_stops_the_run_with_its_exit_code() {
    let step = ShellCommand::try_from("exit 4".to_owned())
        .ok()
        .map(|command| Preparation { description: "a step that cannot succeed".to_owned(), command });
    let outcome = step.map(|step| prepared(&step, Some(4)));

    assert!(outcome.is_some_and(|outcome| matches!(outcome, Err(ExecutionError::PreparationFailed { code: Some(4), .. }))));
}

#[test]
fn a_run_that_exits_non_zero_is_reported_with_its_program() {
    assert!(finished(ProgramName::Cassiopeia, Some(0)).is_ok());
    assert!(matches!(finished(ProgramName::Docker, Some(2)), Err(ExecutionError::RunFailed { program: ProgramName::Docker, code: Some(2) })));
}

#[test]
fn a_whole_run_takes_its_steps_in_order() {
    let plain = descriptor("t", "l", "s").map(|declared| plan(&declared, Runtime::Native, DatasetPolicy::Download, OutputPolicy::Verify));

    assert_eq!(plain, Some(vec![Step::Fetch, Step::Run, Step::Verify]));
}

#[test]
fn a_container_run_of_a_broker_example_needing_the_catalog_takes_every_step() {
    let full = descriptor("t", "l", "s").and_then(|mut declared| {
        declared.requirements = Requirements { smart_data_models: true };
        declared.context_broker = Some(ContextBroker {
            compose: "docker-compose.yml".to_owned(),
            url: Url::parse("http://localhost:9090/").ok()?,
            context: None,
        });
        declared.schedule = poll(2);
        declared.preparation = vec![Preparation { description: "unzip".to_owned(), command: ShellCommand::try_from("unzip a.zip".to_owned()).ok()? }];
        Some(plan(&declared, Runtime::Docker, DatasetPolicy::Reuse, OutputPolicy::Trust))
    });

    assert_eq!(
        full,
        Some(vec![Step::Prepare(0), Step::PlaceSchemaCache, Step::StartBroker, Step::DownloadCatalog, Step::RunScheduled])
    );
}

#[test]
fn an_example_with_a_live_dataset_is_checked_as_live() {
    let datasets: Option<Vec<Dataset>> =
        dataset("a.csv", Volatility::Frozen, None).zip(dataset("b.csv", Volatility::Live, None)).map(|(a, b)| vec![a, b]);

    assert_eq!(datasets.map(|datasets| example_volatility(&datasets)), Some(Volatility::Live));
    assert_eq!(example_volatility(&[]), Volatility::Live);
}

#[test]
fn a_file_holding_an_array_reads_as_its_entities() {
    let found = cassiopeia_example_runner::verification::read_entities(
        "out/City.json".to_owned(),
        r#"[{"id": "urn:ngsi-ld:City:1", "type": "City"}, {"type": "City"}, {"id": 7}, 3]"#,
    );

    assert!(found.is_ok_and(|found| {
        found.iter().map(|entity| entity.id.clone()).collect::<Vec<Option<String>>>()
            == vec![Some("urn:ngsi-ld:City:1".to_owned()), None, None, None]
    }));
}

#[test]
fn a_file_holding_an_object_is_not_an_entity_array() {
    let found = cassiopeia_example_runner::verification::read_entities("out/City.json".to_owned(), r#"{"id": "urn:ngsi-ld:City:1"}"#);

    assert!(matches!(found, Err(cassiopeia_example_runner::verification::VerificationError::NotAnEntityArray { .. })));
}

#[test]
fn a_file_that_is_not_json_is_reported_as_malformed() {
    let found = cassiopeia_example_runner::verification::read_entities("out/City.json".to_owned(), "<!DOCTYPE html>");

    assert!(matches!(found, Err(cassiopeia_example_runner::verification::VerificationError::Malformed { .. })));
}

#[test]
fn a_broker_answer_is_read_as_a_document() {
    let object = base().map(|base| cassiopeia_example_runner::broker::answer_document(&base, r#"{"id": "urn:ngsi-ld:TropicalCyclone:AL122005"}"#));
    let broken = base().map(|base| cassiopeia_example_runner::broker::answer_document(&base, "not json"));

    assert!(object.is_some_and(|object| matches!(object, Ok(JsonDocument::Object(FoundEntity { id: Some(id) })) if id == "urn:ngsi-ld:TropicalCyclone:AL122005")));
    assert!(broken.is_some_and(|broken| matches!(broken, Err(BrokerError::Malformed { .. }))));
}
