//! What a run of an example does, step by step, and how each step's outcome is read.
use vstd::prelude::*;
use crate::broker_stack::{BrokerStackError, exit_description, exit_text, stack_message, stack_wraps_outside_text};
use crate::command_line_token::{CommandLineToken, CommandLineTokenError};
use crate::dataset::{Dataset, DatasetError, dataset_message, dataset_wraps_outside};
use crate::descriptor::Descriptor;
use crate::preparation::Preparation;
use crate::outside::io_error_text;
use crate::program_name::{ProgramName, program_text};
use crate::runtime::Runtime;
use crate::scheduled_run::{ScheduledRunError, scheduled_run_message, scheduled_run_wraps_outside};
use crate::schema_cache::{SchemaCacheError, schema_cache_message};
use crate::text::{decimal, decimal_text};
use crate::verification::{VerificationError, verification_message, verification_wraps_outside};
use crate::volatility::{Volatility, combined, combined_of};

verus! {

/// Whether a run downloads its datasets first.
#[derive(Debug, Clone, Copy, PartialEq, Eq, Structural)]
pub enum DatasetPolicy {
    /// Download every dataset the example declares.
    Download,
    /// Use whatever is already on disk.
    Reuse,
}

/// Whether a run checks its output afterwards.
#[derive(Debug, Clone, Copy, PartialEq, Eq, Structural)]
pub enum OutputPolicy {
    /// Check the output against the descriptor.
    Verify,
    /// Leave the output unchecked.
    Trust,
}

/// Why an example could not be run.
#[derive(Debug)]
pub enum ExecutionError {
    /// A dataset could not be fetched.
    Dataset(DatasetError),
    /// The output did not match the descriptor.
    Verification(VerificationError),
    /// The schema cache could not be placed.
    SchemaCache(SchemaCacheError),
    /// The broker the example delivers to could not be started.
    Broker(BrokerStackError),
    /// The scheduled run could not be bounded.
    Scheduled(ScheduledRunError),
    /// The catalog invocation could not be built.
    Token(CommandLineTokenError),
    /// A preparation step failed.
    PreparationFailed {
        /// What the step was for.
        description: String,
        /// Its exit code, when it had one.
        code: Option<i32>,
    },
    /// Cassiopeia, Docker, Podman, or the shell is not installed.
    NotExecutable {
        /// The program that was invoked.
        program: ProgramName,
        /// The underlying failure.
        source: std::io::Error,
    },
    /// The run itself failed.
    RunFailed {
        /// The program that was invoked.
        program: ProgramName,
        /// Its exit code, when it had one.
        code: Option<i32>,
    },
}

/// One step of a whole run.
#[derive(Debug, Clone, Copy, PartialEq, Eq, Structural)]
pub enum Step {
    /// Download the example's datasets, naming each publisher and licence.
    Fetch,
    /// Run one preparation step, by its place in the descriptor.
    Prepare(usize),
    /// Place the schema cache a container run mounts the Smart Data Models catalog from.
    PlaceSchemaCache,
    /// Bring up the broker the example delivers to; it is taken down once the run is over, whether
    /// the mapping succeeded or failed.
    StartBroker,
    /// Download the Smart Data Models catalog.
    DownloadCatalog,
    /// Invoke the mapping once.
    Run,
    /// Invoke a mapping that keeps polling, and stop it once its cycles have had time to happen.
    RunScheduled,
    /// Check what the run produced against what the example claims about it.
    Verify,
}

/// Whether a run mounts a schema cache: a container run of an example that needs the catalog. A
/// native run reads the catalog through Cassiopeia's own cache, so it needs nothing here.
pub open spec fn needs_schema_cache(runtime: Runtime, smart_data_models: bool) -> bool {
    smart_data_models && runtime != Runtime::Native
}

/// The preparation steps of a descriptor, in order.
pub open spec fn preparations(count: nat) -> Seq<Step>
    decreases count,
{
    if count == 0 {
        Seq::empty()
    } else {
        preparations((count - 1) as nat).push(Step::Prepare((count - 1) as usize))
    }
}

/// One step, where a run calls for it.
pub open spec fn step_if(called: bool, step: Step) -> Seq<Step> {
    if called { seq![step] } else { Seq::empty() }
}

/// Every step a whole run of an example takes, in order.
pub open spec fn plan_of(descriptor: Descriptor, runtime: Runtime, datasets: DatasetPolicy, outputs: OutputPolicy) -> Seq<
    Step,
> {
    step_if(datasets == DatasetPolicy::Download, Step::Fetch) + preparations(descriptor.preparation@.len()) + step_if(
        needs_schema_cache(runtime, descriptor.requirements.smart_data_models),
        Step::PlaceSchemaCache,
    ) + step_if(descriptor.context_broker is Some, Step::StartBroker) + step_if(
        descriptor.requirements.smart_data_models,
        Step::DownloadCatalog,
    ) + seq![if descriptor.schedule is Some { Step::RunScheduled } else { Step::Run }] + step_if(
        outputs == OutputPolicy::Verify,
        Step::Verify,
    )
}

/// The preparation steps of a descriptor with `count` of them, in order.
fn preparation_steps(count: usize) -> (steps: Vec<Step>)
    ensures
        steps@ == preparations(count as nat),
{
    let mut steps: Vec<Step> = Vec::new();
    let mut i: usize = 0;
    while i < count
        invariant
            i <= count,
            steps@ == preparations(i as nat),
        decreases count - i,
    {
        steps.push(Step::Prepare(i));
        i += 1;
    }
    steps
}

/// One step, where a run calls for it.
fn step_when(called: bool, step: Step) -> (steps: Vec<Step>)
    ensures
        steps@ == step_if(called, step),
{
    let mut steps: Vec<Step> = Vec::new();
    if called {
        steps.push(step);
    }
    assert(steps@ =~= step_if(called, step));
    steps
}

/// The steps a whole run of an example takes: fetch, prepare, place the cache, start the broker,
/// download the catalog, run, verify, each only where the example and the policies call for it.
pub fn plan(descriptor: &Descriptor, runtime: Runtime, datasets: DatasetPolicy, outputs: OutputPolicy) -> (steps: Vec<
    Step,
>)
    ensures
        steps@ == plan_of(*descriptor, runtime, datasets, outputs),
{
    let smart = descriptor.requirements.smart_data_models;
    let mut steps = step_when(datasets == DatasetPolicy::Download, Step::Fetch);
    let mut prepare = preparation_steps(descriptor.preparation.len());
    steps.append(&mut prepare);
    let mut cache = step_when(smart && runtime != Runtime::Native, Step::PlaceSchemaCache);
    steps.append(&mut cache);
    let mut broker = step_when(descriptor.context_broker.is_some(), Step::StartBroker);
    steps.append(&mut broker);
    let mut catalog = step_when(smart, Step::DownloadCatalog);
    steps.append(&mut catalog);
    let run = if descriptor.schedule.is_some() { Step::RunScheduled } else { Step::Run };
    steps.push(run);
    let mut check = step_when(outputs == OutputPolicy::Verify, Step::Verify);
    steps.append(&mut check);
    steps
}

/// The catalog download, as the tokens of a Cassiopeia invocation.
pub fn catalog_arguments() -> (arguments: Result<Vec<CommandLineToken>, CommandLineTokenError>)
    ensures
        arguments matches Ok(tokens) && tokens@.len() == 2 && tokens@[0]@ == "sdm"@ && tokens@[1]@ == "download"@,
{
    let mut tokens: Vec<CommandLineToken> = Vec::new();
    proof {
        reveal_strlit("sdm");
        reveal_strlit("download");
    }
    let first = CommandLineToken::try_from("sdm".to_owned())?;
    tokens.push(first);
    let second = CommandLineToken::try_from("download".to_owned())?;
    tokens.push(second);
    Ok(tokens)
}

/// The volatility of a whole example, from what its datasets declare.
pub open spec fn example_volatility_of(datasets: Seq<Dataset>) -> Volatility {
    combined_of(datasets.map_values(|dataset: Dataset| dataset.volatility))
}

/// The volatility a run's output is checked under, worked out the same way for a whole run as for
/// checking an existing output.
pub fn example_volatility(datasets: &[Dataset]) -> (volatility: Volatility)
    ensures
        volatility == example_volatility_of(datasets@),
{
    let mut declared: Vec<Volatility> = Vec::new();
    let mut i: usize = 0;
    while i < datasets.len()
        invariant
            i <= datasets@.len(),
            declared@ == datasets@.take(i as int).map_values(|dataset: Dataset| dataset.volatility),
        decreases datasets.len() - i,
    {
        declared.push(datasets[i].volatility);
        assert(declared@ =~= datasets@.take(i + 1).map_values(|dataset: Dataset| dataset.volatility));
        i += 1;
    }
    assert(datasets@.take(datasets@.len() as int) =~= datasets@);
    combined(declared.as_slice())
}

/// The line a fetch prints for one dataset: where it goes, who publishes it under what licence,
/// whether it moves, and how many records it holds when that is stated.
pub open spec fn dataset_line_of(dataset: Dataset) -> Seq<char> {
    "    "@ + dataset.file@ + " from "@ + dataset.source@ + " ("@ + dataset.license@ + ", "@ + match dataset.volatility {
        Volatility::Frozen => "frozen"@,
        Volatility::Live => "live"@,
    } + ")"@ + match dataset.records {
        Some(records) => ", "@ + decimal(records as nat) + " records"@,
        None => Seq::empty(),
    }
}

/// The line a fetch prints for one dataset.
pub fn dataset_line(dataset: &Dataset) -> (line: String)
    ensures
        line@ == dataset_line_of(*dataset),
{
    let mut line = String::new();
    line.append("    ");
    line.append(dataset.file.as_str());
    line.append(" from ");
    line.append(dataset.source.to_string().as_str());
    line.append(" (");
    line.append(dataset.license.to_string().as_str());
    line.append(", ");
    line.append(dataset.volatility.to_string().as_str());
    line.append(")");
    match dataset.records {
        Some(records) => {
            line.append(", ");
            line.append(decimal_text(records).as_str());
            line.append(" records");
        },
        None => {},
    }
    line
}

/// What a preparation step's exit code says: only a zero exit lets the run go on.
pub fn prepared(step: &Preparation, code: Option<i32>) -> (outcome: Result<(), ExecutionError>)
    ensures
        match outcome {
            Ok(()) => code == Some(0i32),
            Err(ExecutionError::PreparationFailed { description, code: c }) => code != Some(0i32) && description
                == step.description && c == code,
            Err(_) => false,
        },
{
    match code {
        Some(0) => Ok(()),
        _ => Err(ExecutionError::PreparationFailed { description: step.description.clone(), code }),
    }
}

/// What the mapping's exit code says: only a zero exit is a run that worked.
pub fn finished(program: ProgramName, code: Option<i32>) -> (outcome: Result<(), ExecutionError>)
    ensures
        match outcome {
            Ok(()) => code == Some(0i32),
            Err(ExecutionError::RunFailed { program: p, code: c }) => code != Some(0i32) && p == program && c == code,
            Err(_) => false,
        },
{
    match code {
        Some(0) => Ok(()),
        _ => Err(ExecutionError::RunFailed { program, code }),
    }
}

/// What a failed run prints as, where `detail` is what the failure from outside the library that
/// it wraps, if any, prints as.
pub open spec fn execution_message(error: ExecutionError, detail: Seq<char>) -> Seq<char> {
    match error {
        ExecutionError::Dataset(refused) => dataset_message(refused, detail),
        ExecutionError::Verification(refused) => verification_message(refused, detail),
        ExecutionError::SchemaCache(refused) => schema_cache_message(refused, detail),
        ExecutionError::Broker(refused) => stack_message(refused, detail),
        ExecutionError::Scheduled(refused) => scheduled_run_message(refused, detail),
        ExecutionError::Token(_) => "a command-line token cannot be empty"@,
        ExecutionError::PreparationFailed { description, code } => "the preparation step \""@ + description@
            + "\" exited with "@ + exit_text(code),
        ExecutionError::NotExecutable { program, .. } => "cannot execute "@ + program_text(program) + ": "@ + detail,
        ExecutionError::RunFailed { program, code } => program_text(program) + " exited with "@ + exit_text(code),
    }
}

/// Whether a failed run wraps a failure from outside the library, whose words are its own.
pub open spec fn execution_wraps_outside(error: ExecutionError) -> bool {
    match error {
        ExecutionError::Dataset(refused) => dataset_wraps_outside(refused),
        ExecutionError::Verification(refused) => verification_wraps_outside(refused),
        ExecutionError::SchemaCache(refused) => refused is Uncreatable,
        ExecutionError::Broker(refused) => stack_wraps_outside_text(refused),
        ExecutionError::Scheduled(refused) => scheduled_run_wraps_outside(refused),
        ExecutionError::NotExecutable { .. } => true,
        _ => false,
    }
}

impl ExecutionError {
    /// What the failure prints as, given what the failure from outside the library that it wraps,
    /// if any, prints as.
    pub fn describe(&self, detail: &str) -> (text: String)
        ensures
            text@ == execution_message(*self, detail@),
    {
        match self {
            ExecutionError::Dataset(refused) => refused.describe(detail),
            ExecutionError::Verification(refused) => refused.describe(detail),
            ExecutionError::SchemaCache(refused) => refused.describe(detail),
            ExecutionError::Broker(refused) => refused.describe(detail),
            ExecutionError::Scheduled(refused) => refused.describe(detail),
            ExecutionError::Token(_) => "a command-line token cannot be empty".to_owned(),
            ExecutionError::PreparationFailed { description, code } => {
                let mut text = String::new();
                text.append("the preparation step \"");
                text.append(description.as_str());
                text.append("\" exited with ");
                text.append(exit_description(*code).as_str());
                text
            },
            ExecutionError::NotExecutable { program, .. } => {
                let mut text = String::new();
                text.append("cannot execute ");
                text.append(program.to_string().as_str());
                text.append(": ");
                text.append(detail);
                text
            },
            ExecutionError::RunFailed { program, code } => {
                let mut text = String::new();
                text.append(program.to_string().as_str());
                text.append(" exited with ");
                text.append(exit_description(*code).as_str());
                text
            },
        }
    }

    /// What the failure from outside the library that it wraps, if any, prints as, in that
    /// failure's own words.
    fn outside_detail(&self) -> (detail: String)
        ensures
            !execution_wraps_outside(*self) ==> detail@ == Seq::<char>::empty(),
    {
        match self {
            ExecutionError::Dataset(refused) => refused.outside_detail(),
            ExecutionError::Verification(refused) => refused.outside_detail(),
            ExecutionError::SchemaCache(refused) => refused.outside_detail(),
            ExecutionError::Broker(refused) => refused.outside_detail(),
            ExecutionError::Scheduled(refused) => refused.outside_detail(),
            ExecutionError::NotExecutable { source, .. } => io_error_text(source),
            _ => String::new(),
        }
    }

    /// What the failure prints as: exactly for what the library decided, and with the words of
    /// the operating system or the transport for what they refused.
    pub fn to_string(&self) -> (text: String)
        ensures
            exists|detail: Seq<char>| text@ == execution_message(*self, detail),
            !execution_wraps_outside(*self) ==> text@ == execution_message(*self, Seq::empty()),
    {
        let detail = self.outside_detail();
        let text = self.describe(detail.as_str());
        assert(text@ == execution_message(*self, detail@));
        text
    }
}

/// The preparation steps are preparations only.
proof fn lemma_preparations_only_prepare(count: nat)
    ensures
        forall|i: int| 0 <= i < preparations(count).len() ==> (#[trigger] preparations(count)[i]) is Prepare,
    decreases count,
{
    if count > 0 {
        lemma_preparations_only_prepare((count - 1) as nat);
        let earlier = preparations((count - 1) as nat);
        assert forall|i: int| 0 <= i < preparations(count).len() implies (#[trigger] preparations(count)[i]) is Prepare by {
            if i < earlier.len() {
                assert(preparations(count)[i] == earlier[i]);
            }
        }
    }
}

/// A whole run downloads the Smart Data Models catalog exactly when the example needs it, whatever
/// runtime it runs under and whatever the policies: a native run needs the catalog as much as a
/// container run does, and only the cache it is read from differs.
pub proof fn lemma_the_catalog_is_downloaded_exactly_when_needed(
    descriptor: Descriptor,
    runtime: Runtime,
    datasets: DatasetPolicy,
    outputs: OutputPolicy,
)
    ensures
        plan_of(descriptor, runtime, datasets, outputs).contains(Step::DownloadCatalog)
            <==> descriptor.requirements.smart_data_models,
{
    let smart = descriptor.requirements.smart_data_models;
    let fetch = step_if(datasets == DatasetPolicy::Download, Step::Fetch);
    let prepare = preparations(descriptor.preparation@.len());
    let cache = step_if(needs_schema_cache(runtime, smart), Step::PlaceSchemaCache);
    let broker = step_if(descriptor.context_broker is Some, Step::StartBroker);
    let catalog = step_if(smart, Step::DownloadCatalog);
    let run = seq![if descriptor.schedule is Some { Step::RunScheduled } else { Step::Run }];
    let check = step_if(outputs == OutputPolicy::Verify, Step::Verify);
    let head = fetch + prepare + cache + broker;
    let plan = plan_of(descriptor, runtime, datasets, outputs);
    assert(plan =~= head + catalog + run + check);
    lemma_preparations_only_prepare(descriptor.preparation@.len());
    if smart {
        assert(plan[head.len() as int] == Step::DownloadCatalog);
    } else {
        assert forall|i: int| 0 <= i < plan.len() implies plan[i] != Step::DownloadCatalog by {
            if i < fetch.len() {
                assert(plan[i] == fetch[i]);
            } else if i < fetch.len() + prepare.len() {
                assert(plan[i] == prepare[i - fetch.len()]);
            } else if i < fetch.len() + prepare.len() + cache.len() {
                assert(plan[i] == cache[i - fetch.len() - prepare.len()]);
            } else if i < head.len() {
                assert(plan[i] == broker[i - fetch.len() - prepare.len() - cache.len()]);
            } else if i < head.len() + run.len() {
                assert(plan[i] == run[i - head.len()]);
            } else {
                assert(plan[i] == check[i - head.len() - run.len()]);
            }
        }
    }
}

} // verus!
