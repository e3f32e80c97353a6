//! Checks a run's output against what its example claims about it.
use vstd::prelude::*;
use crate::assertion_target::{AssertionTarget, target_text};
use crate::broker::{BrokerError, broker_message};
use crate::context_broker::ContextBroker;
use crate::drift::{Drift, DriftKind, DriftLog};
use crate::entity_count::{EntityCount, Plausibility, meets, plausibility_of, declared_of};
use crate::entity_id::EntityId;
use crate::example_name::ExampleName;
use crate::output::Output;
use crate::volatility::{Mismatch, Volatility, mismatch_of};
use crate::outside::{io_error_text, json_error_message, json_error_text};
use crate::text::{decimal, decimal_text, same};
use crate::json::{JsonValue, document_of, json_of, parse_json, reads_as};

verus! {

/// What the checks read of one entity: its `id` member, when that member is a string.
#[derive(Debug)]
pub struct FoundEntity {
    /// The identifier, when the entity carries one as a string.
    pub id: Option<String>,
}

/// The shape of a JSON document a run or a broker answers with, holding what the checks read.
#[derive(Debug)]
pub enum JsonDocument {
    /// An array, one entry per element.
    Array(Vec<FoundEntity>),
    /// A single object.
    Object(FoundEntity),
    /// `null`, a boolean, a number, or a string.
    Scalar,
}

/// Why a run's output did not match what its example claims.
#[derive(Debug)]
pub enum VerificationError {
    /// The file the run was supposed to write is missing or unreadable.
    Unreadable {
        /// The output file.
        path: String,
        /// The underlying filesystem failure.
        source: std::io::Error,
    },
    /// The file is not JSON.
    Malformed {
        /// The output file.
        path: String,
        /// The parse failure, with its position in the file.
        source: serde_json::Error,
    },
    /// The output is JSON, but not the array of entities a run produces.
    NotAnEntityArray {
        /// What was checked.
        target: AssertionTarget,
    },
    /// An assertion is about a broker, and the example declares no `[context-broker]` block.
    NoBroker {
        /// What was checked.
        target: AssertionTarget,
    },
    /// The broker could not be asked what it holds.
    Broker(BrokerError),
    /// The run produced a different number of entities than the example states.
    WrongEntityCount {
        /// What was checked.
        target: AssertionTarget,
        /// What the descriptor states.
        expected: usize,
        /// What the run produced.
        found: usize,
    },
    /// An example asserts nothing about what it produces.
    NoAssertions {
        /// The example's directory name.
        name: ExampleName,
    },
    /// A source produced fewer entities than the example says it must.
    TooFewEntities {
        /// What was checked.
        target: AssertionTarget,
        /// The floor the descriptor states.
        fewest: usize,
        /// What the run produced.
        found: usize,
    },
    /// An entity the page quotes is not in the output.
    MissingEntity {
        /// What was checked.
        target: AssertionTarget,
        /// The identifier that was expected.
        declared: EntityId,
    },
}

/// Checks that an example claims something about what it produces.
///
/// Every example runs unattended, so every example has to assert what the run produces; without an
/// `[[outputs]]` block the run could produce nothing at all and still pass.
pub fn require_assertions(name: &ExampleName, outputs: &[Output]) -> (checked: Result<(), VerificationError>)
    ensures
        match checked {
            Ok(()) => outputs@.len() > 0,
            Err(error) => outputs@.len() == 0 && error == VerificationError::NoAssertions { name: *name },
        },
{
    if outputs.len() == 0 {
        return Err(VerificationError::NoAssertions { name: name.clone() });
    }
    Ok(())
}

/// The entities a file holds, from the JSON document read out of it: a file run writes an array.
pub fn entities_in_file(path: String, document: JsonDocument) -> (entities: Result<Vec<FoundEntity>, VerificationError>)
    ensures
        match document {
            JsonDocument::Array(found) => entities == Ok::<Vec<FoundEntity>, VerificationError>(found),
            _ => entities == Err::<Vec<FoundEntity>, VerificationError>(
                VerificationError::NotAnEntityArray { target: AssertionTarget::File(path) },
            ),
        },
{
    match document {
        JsonDocument::Array(found) => Ok(found),
        JsonDocument::Object(_) | JsonDocument::Scalar => Err(
            VerificationError::NotAnEntityArray { target: AssertionTarget::File(path) },
        ),
    }
}

/// The entities a file's text holds: the text has to be JSON, and a file run writes an array.
pub fn read_entities(path: String, text: &str) -> (entities: Result<Vec<FoundEntity>, VerificationError>)
    ensures
        match json_of(text@) {
            None => entities matches Err(VerificationError::Malformed { path: p, .. }) && p == path,
            Some(value) => match value {
                JsonValue::Array(items) => entities matches Ok(found) && found@.len() == items@.len() && forall|i: int|
                    0 <= i < items@.len() ==> reads_as(#[trigger] found@[i], items@[i]),
                _ => entities == Err::<Vec<FoundEntity>, VerificationError>(
                    VerificationError::NotAnEntityArray { target: AssertionTarget::File(path) },
                ),
            },
        },
{
    match parse_json(text) {
        Ok(value) => entities_in_file(path, document_of(&value)),
        Err(source) => Err(VerificationError::Malformed { path, source }),
    }
}

/// Where a broker target is queried, or a failure naming the target that has nowhere to go.
pub fn address<'broker>(target: &AssertionTarget, broker: Option<&'broker ContextBroker>) -> (found: Result<
    &'broker ContextBroker,
    VerificationError,
>)
    ensures
        match broker {
            Some(declared) => found == Ok::<&ContextBroker, VerificationError>(declared),
            None => found == Err::<&ContextBroker, VerificationError>(VerificationError::NoBroker { target: *target }),
        },
{
    match broker {
        Some(declared) => Ok(declared),
        None => Err(VerificationError::NoBroker { target: target.clone() }),
    }
}

/// The failure a count that is not satisfied raises, in the terms the count was declared in.
pub open spec fn wrong_count_of(target: AssertionTarget, count: EntityCount, found: usize) -> VerificationError {
    match count {
        EntityCount::Exactly(expected) => VerificationError::WrongEntityCount { target, expected, found },
        EntityCount::AtLeast(fewest) => VerificationError::TooFewEntities { target, fewest, found },
    }
}

/// The failure a count that is not satisfied raises, in the terms the count was declared in.
pub fn wrong_count(target: &AssertionTarget, count: EntityCount, found: usize) -> (error: VerificationError)
    ensures
        error == wrong_count_of(*target, count, found),
{
    match count {
        EntityCount::Exactly(expected) => VerificationError::WrongEntityCount { target: target.clone(), expected, found },
        EntityCount::AtLeast(fewest) => VerificationError::TooFewEntities { target: target.clone(), fewest, found },
    }
}

/// Whether an entity's `id` member is this identifier.
pub open spec fn carries_id(entity: FoundEntity, id: Seq<char>) -> bool {
    match entity.id {
        Some(text) => text@ == id,
        None => false,
    }
}

/// Whether some entity carries this identifier.
pub open spec fn holds(found: Seq<FoundEntity>, id: Seq<char>) -> bool {
    exists|i: int| 0 <= i < found.len() && carries_id(#[trigger] found[i], id)
}

/// The quoted identifiers no entity carries, in the order the example quotes them.
pub open spec fn missing(contains: Seq<EntityId>, found: Seq<FoundEntity>) -> Seq<EntityId>
    decreases contains.len(),
{
    if contains.len() == 0 {
        Seq::empty()
    } else {
        let rest = missing(contains.drop_last(), found);
        if holds(found, contains.last()@) { rest } else { rest.push(contains.last()) }
    }
}

/// What the checks of one output come to: the drifts they report, or the failure they stop at.
///
/// A count that is not met is churn only for a live source within the guard rail, and a failure
/// otherwise; a quoted identifier that is absent is churn for a live source and a failure for a
/// frozen one, and the first absent one is the failure reported. A failing count is reported
/// before any identifier.
pub open spec fn assessment(name: ExampleName, found: Seq<FoundEntity>, output: Output, volatility: Volatility) -> Result<
    Seq<Drift>,
    VerificationError,
> {
    let n = found.len() as usize;
    let absent = missing(output.contains@, found);
    if !meets(output.count, n) && mismatch_of(volatility, plausibility_of(output.count, n)) == Mismatch::Broken {
        Err(wrong_count_of(output.target, output.count, n))
    } else if absent.len() > 0 && volatility == Volatility::Frozen {
        Err(VerificationError::MissingEntity { target: output.target, declared: absent[0] })
    } else {
        let counted: Seq<Drift> = if meets(output.count, n) {
            Seq::empty()
        } else {
            seq![
                Drift {
                    example: name,
                    target: output.target,
                    kind: DriftKind::EntityCount { declared: declared_of(output.count), found: n },
                },
            ]
        };
        Ok(counted + missing_drifts(name, output.target, absent))
    }
}

/// One drift per absent identifier, in order.
pub open spec fn missing_drifts(name: ExampleName, target: AssertionTarget, absent: Seq<EntityId>) -> Seq<Drift> {
    absent.map_values(|id: EntityId| Drift { example: name, target, kind: DriftKind::MissingEntity { declared: id } })
}

/// Whether some entity carries this identifier.
fn carries(found: &[FoundEntity], id: &EntityId) -> (present: bool)
    ensures
        present == holds(found@, id@),
{
    let mut i: usize = 0;
    while i < found.len()
        invariant
            i <= found.len(),
            forall|j: int| 0 <= j < i ==> !carries_id(#[trigger] found@[j], id@),
        decreases found.len() - i,
    {
        if let Some(text) = &found[i].id {
            if same(text.as_str(), id.as_str()) {
                assert(carries_id(found@[i as int], id@));
                return true;
            }
        }
        i += 1;
    }
    false
}

/// Checks entities against what the example claims about them.
///
/// Separate from the reading of a target so the assertions can be checked without touching a
/// filesystem or a broker.
pub fn assess(name: &ExampleName, found: &[FoundEntity], output: &Output, volatility: Volatility) -> (checked: Result<
    DriftLog,
    VerificationError,
>)
    ensures
        match checked {
            Ok(log) => assessment(*name, found@, *output, volatility) == Ok::<Seq<Drift>, VerificationError>(log@),
            Err(error) => assessment(*name, found@, *output, volatility) == Err::<Seq<Drift>, VerificationError>(error),
        },
{
    let mut log = DriftLog::default();
    let n = found.len();
    let ghost absent = missing(output.contains@, found@);
    if !output.count.satisfied_by(n) {
        match volatility.classify(output.count.plausibility(n)) {
            Mismatch::Broken => return Err(wrong_count(&output.target, output.count, n)),
            Mismatch::Churn => log.record(
                Drift {
                    example: name.clone(),
                    target: output.target.clone(),
                    kind: DriftKind::EntityCount { declared: output.count.declared(), found: n },
                },
            ),
        }
    }
    let ghost counted = log@;
    let mut i: usize = 0;
    while i < output.contains.len()
        invariant
            i <= output.contains.len(),
            log@ == counted + missing_drifts(*name, output.target, missing(output.contains@.take(i as int), found@)),
            volatility == Volatility::Frozen ==> missing(output.contains@.take(i as int), found@).len() == 0,
            n == found@.len(),
            !(!meets(output.count, n) && mismatch_of(volatility, plausibility_of(output.count, n)) == Mismatch::Broken),
            counted == if meets(output.count, n) {
                Seq::<Drift>::empty()
            } else {
                seq![
                    Drift {
                        example: *name,
                        target: output.target,
                        kind: DriftKind::EntityCount { declared: declared_of(output.count), found: n },
                    },
                ]
            },
        decreases output.contains.len() - i,
    {
        let ghost before = output.contains@.take(i as int);
        assert(output.contains@.take(i + 1).drop_last() =~= before);
        let declared = &output.contains[i];
        if !carries(found, declared) {
            match volatility.classify(Plausibility::Churnable) {
                Mismatch::Broken => {
                    assert(missing(output.contains@.take(i + 1), found@) =~= seq![*declared]);
                    proof {
                        lemma_missing_prefix(output.contains@, found@, i + 1);
                    }
                    assert(volatility == Volatility::Frozen);
                    assert(missing(output.contains@, found@)[0] == *declared);
                    assert(missing(output.contains@, found@).len() > 0);
                    assert(!(!meets(output.count, n) && mismatch_of(volatility, plausibility_of(output.count, n))
                        == Mismatch::Broken));
                    let target = output.target.clone();
                    let id = declared.clone();
                    return Err(VerificationError::MissingEntity { target, declared: id });
                },
                Mismatch::Churn => {
                    let ghost prior = log@;
                    log.record(
                        Drift {
                            example: name.clone(),
                            target: output.target.clone(),
                            kind: DriftKind::MissingEntity { declared: declared.clone() },
                        },
                    );
                    assert(missing_drifts(*name, output.target, missing(output.contains@.take(i + 1), found@))
                        =~= missing_drifts(*name, output.target, missing(before, found@)).push(
                        Drift { example: *name, target: output.target, kind: DriftKind::MissingEntity { declared: *declared } },
                    ));
                },
            }
        }
        i += 1;
    }
    assert(output.contains@.take(output.contains.len() as int) =~= output.contains@);
    Ok(log)
}

/// The identifiers missing from a longer stretch of the quoted list start with those missing from a
/// shorter one.
proof fn lemma_missing_prefix(contains: Seq<EntityId>, found: Seq<FoundEntity>, k: int)
    requires
        0 <= k <= contains.len(),
    ensures
        missing(contains, found).len() >= missing(contains.take(k), found).len(),
        forall|j: int| 0 <= j < missing(contains.take(k), found).len() ==> missing(contains, found)[j] == missing(
            contains.take(k),
            found,
        )[j],
    decreases contains.len() - k,
{
    if k < contains.len() {
        lemma_missing_prefix(contains, found, k + 1);
        assert(contains.take(k + 1).drop_last() =~= contains.take(k));
    } else {
        assert(contains.take(k) =~= contains);
    }
}

/// An output of a frozen source never drifts: every difference the checks find in one is a
/// failure, so the checks either fail or report nothing.
pub proof fn lemma_frozen_output_never_drifts(name: ExampleName, found: Seq<FoundEntity>, output: Output)
    ensures
        match assessment(name, found, output, Volatility::Frozen) {
            Ok(drifts) => drifts.len() == 0,
            Err(_) => true,
        },
{
    let n = found.len() as usize;
    if meets(output.count, n) && missing(output.contains@, found).len() == 0 {
        assert(missing_drifts(name, output.target, missing(output.contains@, found)) =~= Seq::<Drift>::empty());
    }
}

/// What a verification failure prints as, where `detail` is what the operating system's or the
/// transport's failure, if any, prints as.
pub open spec fn verification_message(error: VerificationError, detail: Seq<char>) -> Seq<char> {
    match error {
        VerificationError::Unreadable { path, .. } => "cannot read "@ + path@ + ": "@ + detail,
        VerificationError::Malformed { path, source } => path@ + " is not valid JSON: "@ + json_error_message(source),
        VerificationError::NotAnEntityArray { target } => target_text(target) + " does not hold a JSON array of entities"@,
        VerificationError::NoBroker { target } => target_text(target)
            + " cannot be checked: the example declares no [context-broker] block to query"@,
        VerificationError::Broker(refused) => broker_message(refused, detail),
        VerificationError::WrongEntityCount { target, expected, found } => target_text(target) + " holds "@ + decimal(
            found as nat,
        ) + " entities, expected "@ + decimal(expected as nat),
        VerificationError::NoAssertions { name } => name@ + " declares no [[outputs]] to check"@,
        VerificationError::TooFewEntities { target, fewest, found } => target_text(target) + " holds "@ + decimal(
            found as nat,
        ) + " entities, expected at least "@ + decimal(fewest as nat),
        VerificationError::MissingEntity { target, declared } => target_text(target) + " does not hold "@ + declared@,
    }
}

/// Whether a verification failure wraps one of the operating system's or the transport's, whose
/// words come from outside the library.
pub open spec fn verification_wraps_outside(error: VerificationError) -> bool {
    match error {
        VerificationError::Unreadable { .. } => true,
        VerificationError::Broker(refused) => refused is Unreachable,
        _ => false,
    }
}

impl VerificationError {
    /// What the failure prints as, given what the failure it wraps, if any, prints as.
    pub fn describe(&self, detail: &str) -> (text: String)
        ensures
            text@ == verification_message(*self, detail@),
    {
        let mut text = String::new();
        match self {
            VerificationError::Unreadable { path, .. } => {
                text.append("cannot read ");
                text.append(path.as_str());
                text.append(": ");
                text.append(detail);
            },
            VerificationError::Malformed { path, source } => {
                text.append(path.as_str());
                text.append(" is not valid JSON: ");
                text.append(json_error_text(source).as_str());
            },
            VerificationError::NotAnEntityArray { target } => {
                text.append(target.to_string().as_str());
                text.append(" does not hold a JSON array of entities");
            },
            VerificationError::NoBroker { target } => {
                text.append(target.to_string().as_str());
                text.append(" cannot be checked: the example declares no [context-broker] block to query");
            },
            VerificationError::Broker(refused) => {
                text.append(refused.describe(detail).as_str());
            },
            VerificationError::WrongEntityCount { target, expected, found } => {
                text.append(target.to_string().as_str());
                text.append(" holds ");
                text.append(decimal_text(*found).as_str());
                text.append(" entities, expected ");
                text.append(decimal_text(*expected).as_str());
            },
            VerificationError::NoAssertions { name } => {
                text.append(name.as_str());
                text.append(" declares no [[outputs]] to check");
            },
            VerificationError::TooFewEntities { target, fewest, found } => {
                text.append(target.to_string().as_str());
                text.append(" holds ");
                text.append(decimal_text(*found).as_str());
                text.append(" entities, expected at least ");
                text.append(decimal_text(*fewest).as_str());
            },
            VerificationError::MissingEntity { target, declared } => {
                text.append(target.to_string().as_str());
                text.append(" does not hold ");
                text.append(declared.as_str());
            },
        }
        text
    }

    /// What the failure it wraps, if any, prints as, in that failure's own words.
    pub(crate) fn outside_detail(&self) -> (detail: String)
        ensures
            !verification_wraps_outside(*self) ==> detail@ == Seq::<char>::empty(),
    {
        match self {
            VerificationError::Unreadable { source, .. } => io_error_text(source),
            VerificationError::Broker(refused) => refused.outside_detail(),
            _ => String::new(),
        }
    }

    /// What the failure prints as: exactly for what the output holds, and with the operating
    /// system's or the transport's words for what could not be read or reached.
    pub fn to_string(&self) -> (text: String)
        ensures
            exists|detail: Seq<char>| text@ == verification_message(*self, detail),
            !verification_wraps_outside(*self) ==> text@ == verification_message(*self, Seq::empty()),
    {
        let detail = self.outside_detail();
        let text = self.describe(detail.as_str());
        assert(text@ == verification_message(*self, detail@));
        text
    }
}

/// An identifier some entity carries is never among those reported missing.
proof fn lemma_a_held_id_is_not_missing(contains: Seq<EntityId>, found: Seq<FoundEntity>, id: Seq<char>)
    requires
        holds(found, id),
    ensures
        forall|k: int| 0 <= k < missing(contains, found).len() ==> (#[trigger] missing(contains, found)[k])@ != id,
    decreases contains.len(),
{
    if contains.len() > 0 {
        let rest = missing(contains.drop_last(), found);
        lemma_a_held_id_is_not_missing(contains.drop_last(), found, id);
        if !holds(found, contains.last()@) {
            assert(contains.last()@ != id);
            assert forall|k: int| 0 <= k < missing(contains, found).len() implies (#[trigger] missing(
                contains,
                found,
            )[k])@ != id by {
                if k < rest.len() {
                    assert(missing(contains, found)[k] == rest[k]);
                }
            }
        }
    }
}

/// A quoted identifier no entity carries is among those reported missing.
proof fn lemma_an_absent_id_is_missing(contains: Seq<EntityId>, found: Seq<FoundEntity>, k: int)
    requires
        0 <= k < contains.len(),
        !holds(found, contains[k]@),
    ensures
        missing(contains, found).len() > 0,
    decreases contains.len(),
{
    if k < contains.len() - 1 {
        lemma_an_absent_id_is_missing(contains.drop_last(), found, k);
    }
}

/// A quoted identifier counts as present when any entity of the output carries it, wherever that
/// entity stands: the assessment then neither fails with it missing nor records a drift for it.
pub proof fn lemma_an_id_anywhere_in_the_output_is_present(
    name: ExampleName,
    found: Seq<FoundEntity>,
    output: Output,
    volatility: Volatility,
    i: int,
    id: Seq<char>,
)
    requires
        0 <= i < found.len(),
        found[i].id matches Some(text) && text@ == id,
    ensures
        match assessment(name, found, output, volatility) {
            Err(VerificationError::MissingEntity { declared, .. }) => declared@ != id,
            Ok(drifts) => forall|j: int|
                0 <= j < drifts.len() ==> ((#[trigger] drifts[j]).kind matches DriftKind::MissingEntity { declared }
                    ==> declared@ != id),
            Err(_) => true,
        },
{
    assert(carries_id(found[i], id));
    assert(holds(found, id));
    let absent = missing(output.contains@, found);
    lemma_a_held_id_is_not_missing(output.contains@, found, id);
    let n = found.len() as usize;
    if !meets(output.count, n) && mismatch_of(volatility, plausibility_of(output.count, n)) == Mismatch::Broken {
    } else if absent.len() > 0 && volatility == Volatility::Frozen {
        assert(absent[0]@ != id);
    } else {
        let counted: Seq<Drift> = if meets(output.count, n) {
            Seq::empty()
        } else {
            seq![
                Drift {
                    example: name,
                    target: output.target,
                    kind: DriftKind::EntityCount { declared: declared_of(output.count), found: n },
                },
            ]
        };
        let drifts = counted + missing_drifts(name, output.target, absent);
        assert forall|j: int| 0 <= j < drifts.len() implies ((#[trigger] drifts[j]).kind matches DriftKind::MissingEntity {
            declared,
        } ==> declared@ != id) by {
            if j >= counted.len() {
                let k = j - counted.len();
                assert(drifts[j] == missing_drifts(name, output.target, absent)[k]);
                assert(absent[k]@ != id);
            }
        }
    }
}

/// A frozen output whose count holds fails when one of its quoted identifiers is carried by no
/// entity at all.
pub proof fn lemma_an_id_no_entity_carries_fails_a_frozen_output(
    name: ExampleName,
    found: Seq<FoundEntity>,
    output: Output,
    k: int,
)
    requires
        0 <= k < output.contains@.len(),
        forall|i: int| 0 <= i < found.len() ==> !((#[trigger] found[i]).id matches Some(text) && text@ == output.contains@[k]@),
        meets(output.count, found.len() as usize),
    ensures
        assessment(name, found, output, Volatility::Frozen) matches Err(VerificationError::MissingEntity { .. }),
{
    if holds(found, output.contains@[k]@) {
        let i = choose|i: int| 0 <= i < found.len() && carries_id(#[trigger] found[i], output.contains@[k]@);
        assert(!(found[i].id matches Some(text) && text@ == output.contains@[k]@));
    }
    lemma_an_absent_id_is_missing(output.contains@, found, k);
}

} // verus!
