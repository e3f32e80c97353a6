//! What a broker is asked, and how its answers are read.
use vstd::prelude::*;
use vstd::string::*;
use url::Url;
use ureq::http::StatusCode;
use crate::data_model_name::DataModelName;
use crate::entity_id::EntityId;
use crate::outside::{json_error_message, json_error_text, status_message, status_text, transport_error_text};
use crate::text::{concat, decimal, decimal_text};
use crate::verification::{FoundEntity, JsonDocument};
use crate::json::{document_of, document_reads, json_of, parse_json};

verus! {

/// The serialization of a URL, which is what `Url::as_str` hands out.
pub uninterp spec fn url_text(url: Url) -> Seq<char>;

/// Whether a URL is cannot-be-a-base, so that its path cannot take segments.
pub uninterp spec fn url_cannot_be_a_base(url: Url) -> bool;

/// The URL that appending path segments to a base gives, after the base's trailing empty segment
/// is dropped.
pub uninterp spec fn url_with_segments(base: Url, segments: Seq<Seq<char>>) -> Url;

/// The URL that appending form-encoded query pairs to another gives.
pub uninterp spec fn url_with_pairs(url: Url, pairs: Seq<(Seq<char>, Seq<char>)>) -> Url;

/// The number of an HTTP status.
pub uninterp spec fn status_number(status: StatusCode) -> u16;

/// `Url::as_str` hands out the URL's serialization.
pub assume_specification[ url::Url::as_str ](url: &Url) -> (text: &str)
    ensures
        text@ == url_text(*url),
;

/// A clone of a URL is the same URL: the url crate derives `Clone` over its fields.
pub assume_specification[ <url::Url as Clone>::clone ](url: &Url) -> (copy: Url)
    ensures
        copy == *url,
;

/// `StatusCode::as_u16` hands out the status's number.
pub assume_specification[ ureq::http::StatusCode::as_u16 ](status: &StatusCode) -> (number: u16)
    ensures
        number == status_number(*status),
;

/// Appends path segments to a copy of a base URL, through `Url::path_segments_mut`,
/// `PathSegmentsMut::pop_if_empty` and `PathSegmentsMut::extend`.
///
/// The url crate refuses the segments exactly when the base is cannot-be-a-base; otherwise the
/// result is a function of the base and the segments. Each segment adds at most a separator and,
/// per character, four UTF-8 bytes each written as a three-character escape. The crate panics
/// when the serialization's length no longer fits a `u32`, which the `requires` rules out.
#[verifier::external_body]
fn with_segments(base: &Url, segments: &[&str]) -> (built: Option<Url>)
    requires
        url_text(*base).len() + segments_growth(strs(segments@)) <= URL_LENGTH_LIMIT,
    ensures
        built is None <==> url_cannot_be_a_base(*base),
        built is Some ==> built->0 == url_with_segments(*base, strs(segments@)),
        built is Some ==> url_text(built->0).len() <= url_text(*base).len() + segments_growth(strs(segments@)),
{
    let mut built = base.clone();
    match built.path_segments_mut() {
        Ok(mut path) => {
            path.pop_if_empty().extend(segments);
        },
        Err(()) => return None,
    }
    Some(built)
}

/// Appends form-encoded query pairs to a URL, through `Url::query_pairs_mut` and
/// `Serializer::extend_pairs`; the result is a function of the URL and the pairs. The query adds at
/// most a `?`, and per pair an `&`, an `=`, and three characters for each byte of its key and
/// value. The url crate panics when the serialization's length no longer fits a `u32`, which the
/// `requires` rules out.
#[verifier::external_body]
fn with_pairs(url: Url, pairs: &[(&str, &str)]) -> (built: Url)
    requires
        url_text(url).len() + pairs_growth(str_pairs(pairs@)) <= URL_LENGTH_LIMIT,
    ensures
        built == url_with_pairs(url, str_pairs(pairs@)),
        url_text(built).len() <= url_text(url).len() + pairs_growth(str_pairs(pairs@)),
{
    let mut built = url;
    built.query_pairs_mut().extend_pairs(pairs);
    built
}

/// The texts of some string slices.
pub open spec fn strs(list: Seq<&str>) -> Seq<Seq<char>> {
    list.map_values(|s: &str| s@)
}

/// The longest serialization the url crate holds: it keeps positions in it as `u32`.
pub const URL_LENGTH_LIMIT: u64 = 4_294_967_295;

/// How much appending path segments can lengthen a URL's serialization: a separator per segment,
/// and twelve characters per character of it, four UTF-8 bytes each escaped as three.
pub open spec fn segments_growth(segments: Seq<Seq<char>>) -> int
    decreases segments.len(),
{
    if segments.len() == 0 {
        0
    } else {
        segments_growth(segments.drop_last()) + 1 + 12 * segments.last().len()
    }
}

/// How much appending query pairs can lengthen a URL's serialization: the `?`, and per pair the
/// `&` and `=` around twelve characters per character of its key and value.
pub open spec fn pairs_growth(pairs: Seq<(Seq<char>, Seq<char>)>) -> int
    decreases pairs.len(),
{
    if pairs.len() == 0 {
        1
    } else {
        pairs_growth(pairs.drop_last()) + 2 + 12 * (pairs.last().0.len() + pairs.last().1.len())
    }
}

/// Whether a broker's base URL leaves room for a query naming some text: the fixed part of any
/// endpoint the runner builds, and the text, fit the url crate's limit.
pub open spec fn room_for(base: Url, text: Seq<char>) -> bool {
    url_text(base).len() + 12 * text.len() + 1000 <= URL_LENGTH_LIMIT
}

/// Whether a broker's base URL leaves room for a query naming some text. A query that does not
/// fit is one the url crate would panic on, so it is tested before one is built.
pub fn has_room(base: &Url, text: &str) -> (fits: bool)
    ensures
        fits == room_for(*base, text@),
{
    let used = base.as_str().unicode_len() as u128;
    let named = text.unicode_len() as u128;
    used + 12 * named + 1000 <= URL_LENGTH_LIMIT as u128
}

/// The texts of some pairs of string slices.
pub open spec fn str_pairs(list: Seq<(&str, &str)>) -> Seq<(Seq<char>, Seq<char>)> {
    list.map_values(|p: (&str, &str)| (p.0@, p.1@))
}

/// The path every NGSI-LD request goes under (ETSI GS CIM 009 v1.9.1, clause 6.2.1), followed by
/// the segments of one endpoint.
pub open spec fn api_path(segments: Seq<Seq<char>>) -> Seq<Seq<char>> {
    seq!["ngsi-ld"@, "v1"@] + segments
}

/// The media type a broker answers in when the entity's terms travel with it, which is what the
/// broker examples deliver under (clause 6.3.5).
pub open spec fn linked_json() -> Seq<char> {
    "application/ld+json"@
}

/// The most entities one query asks the broker for.
///
/// Brokers page their answers, and an assertion only ever needs enough entities to count them and
/// find the identifiers a page quotes. A floor above this would need paging, and no example
/// declares one.
pub const QUERY_LIMIT: usize = 1000;

/// The growth of two stretches of segments is the sum of theirs.
proof fn lemma_growth_of_two(first: Seq<Seq<char>>, rest: Seq<Seq<char>>)
    ensures
        segments_growth(first + rest) == segments_growth(first) + segments_growth(rest),
    decreases rest.len(),
{
    if rest.len() == 0 {
        assert(first + rest =~= first);
    } else {
        lemma_growth_of_two(first, rest.drop_last());
        assert((first + rest).drop_last() =~= first + rest.drop_last());
    }
}

/// The growth of one segment.
proof fn lemma_growth_of_one(segment: Seq<char>)
    ensures
        segments_growth(seq![segment]) == 1 + 12 * segment.len(),
{
    assert(seq![segment].drop_last() =~= Seq::<Seq<char>>::empty());
    assert(segments_growth(Seq::<Seq<char>>::empty()) == 0);
    assert(seq![segment].last() == segment);
}

/// The API root adds its own two segments to an endpoint's growth.
proof fn lemma_api_growth(segments: Seq<Seq<char>>)
    ensures
        segments_growth(api_path(segments)) == 110 + segments_growth(segments),
{
    reveal_strlit("ngsi-ld");
    reveal_strlit("v1");
    let root = seq!["ngsi-ld"@, "v1"@];
    assert(root =~= seq!["ngsi-ld"@] + seq!["v1"@]);
    lemma_growth_of_two(seq!["ngsi-ld"@], seq!["v1"@]);
    lemma_growth_of_one("ngsi-ld"@);
    lemma_growth_of_one("v1"@);
    lemma_growth_of_two(root, segments);
}

/// The growth of the segments an endpoint names, one to three of them.
proof fn lemma_named_growth(a: Seq<char>, b: Seq<char>, c: Seq<char>)
    ensures
        segments_growth(seq![a]) == 1 + 12 * a.len(),
        segments_growth(seq![a, b, c]) == 3 + 12 * (a.len() + b.len() + c.len()),
{
    lemma_growth_of_one(a);
    lemma_growth_of_one(b);
    lemma_growth_of_one(c);
    assert(seq![a, b, c] =~= seq![a] + seq![b] + seq![c]);
    lemma_growth_of_two(seq![a], seq![b]);
    lemma_growth_of_two(seq![a] + seq![b], seq![c]);
}

/// The growth of the two pairs a type query carries.
proof fn lemma_pairs_growth(first: (Seq<char>, Seq<char>), second: (Seq<char>, Seq<char>))
    ensures
        pairs_growth(seq![first, second]) == 5 + 12 * (first.0.len() + first.1.len() + second.0.len() + second.1.len()),
{
    let both = seq![first, second];
    assert(both.drop_last() =~= seq![first]);
    assert(seq![first].drop_last() =~= Seq::<(Seq<char>, Seq<char>)>::empty());
    assert(pairs_growth(Seq::<(Seq<char>, Seq<char>)>::empty()) == 1);
    assert(pairs_growth(seq![first]) == 3 + 12 * (first.0.len() + first.1.len()));
    assert(both.last() == second);
}

/// One NGSI-LD endpoint under a broker's base URL.
///
/// Built segment by segment rather than by joining text, because an entity identifier is a URN and
/// carries the colons that would otherwise be read as a scheme.
pub fn endpoint(base: &Url, segments: &[&str]) -> (built: Result<Url, BrokerError>)
    requires
        url_text(*base).len() + segments_growth(api_path(strs(segments@))) <= URL_LENGTH_LIMIT,
    ensures
        built is Ok ==> url_text(built->Ok_0).len() <= url_text(*base).len() + segments_growth(
            api_path(strs(segments@)),
        ),
        match built {
            Ok(url) => !url_cannot_be_a_base(*base) && url == url_with_segments(*base, api_path(strs(segments@))),
            Err(BrokerError::NotABase { url }) => url_cannot_be_a_base(*base) && url == *base,
            Err(_) => false,
        },
{
    let mut path: Vec<&str> = Vec::new();
    path.push("ngsi-ld");
    path.push("v1");
    let mut i: usize = 0;
    while i < segments.len()
        invariant
            i <= segments.len(),
            strs(path@) == api_path(strs(segments@.take(i as int))),
        decreases segments.len() - i,
    {
        let ghost before = path@;
        path.push(segments[i]);
        assert(strs(path@) =~= strs(before).push(segments@[i as int]@));
        assert(strs(segments@.take(i + 1)) =~= strs(segments@.take(i as int)).push(segments@[i as int]@));
        i += 1;
    }
    assert(segments@.take(segments.len() as int) =~= segments@);
    proof {
        assert(strs(path@) =~= api_path(strs(segments@)));
    }
    match with_segments(base, path.as_slice()) {
        Some(url) => Ok(url),
        None => Err(BrokerError::NotABase { url: base.clone() }),
    }
}

/// The query for every entity of one type, at most a page of them.
pub fn entities_query(base: &Url, model: &DataModelName) -> (query: Result<Url, BrokerError>)
    requires
        room_for(*base, model@),
    ensures
        match query {
            Ok(url) => !url_cannot_be_a_base(*base) && url == url_with_pairs(
                url_with_segments(*base, api_path(seq!["entities"@])),
                seq![("type"@, model@), ("limit"@, decimal(QUERY_LIMIT as nat))],
            ),
            Err(BrokerError::NotABase { url }) => url_cannot_be_a_base(*base) && url == *base,
            Err(_) => false,
        },
{
    let segments: [&str; 1] = ["entities"];
    assert(strs(segments@) =~= seq!["entities"@]);
    proof {
        lemma_api_growth(seq!["entities"@]);
        lemma_named_growth("entities"@, "entities"@, "entities"@);
        reveal_strlit("entities");
    }
    let built = endpoint(base, &segments)?;
    let limit = decimal_text(QUERY_LIMIT);
    let pairs: [(&str, &str); 2] = [("type", model.as_str()), ("limit", limit.as_str())];
    assert(str_pairs(pairs@) =~= seq![("type"@, model@), ("limit"@, decimal(QUERY_LIMIT as nat))]);
    proof {
        reveal_strlit("type");
        reveal_strlit("limit");
        reveal_with_fuel(decimal, 5);
        assert(decimal(1000).len() == 4);
        lemma_pairs_growth(("type"@, model@), ("limit"@, decimal(QUERY_LIMIT as nat)));
    }
    Ok(with_pairs(built, &pairs))
}

/// The endpoint that holds the folded temporal representation of one entity.
///
/// The temporal endpoint is where a series representation belongs (ETSI GS CIM 009 v1.9.1, clause
/// 5.2.20). An identifier is asked for as it was written, so nothing here has to be expanded.
pub fn temporal_query(base: &Url, id: &EntityId) -> (query: Result<Url, BrokerError>)
    requires
        room_for(*base, id@),
    ensures
        match query {
            Ok(url) => !url_cannot_be_a_base(*base) && url == url_with_segments(
                *base,
                api_path(seq!["temporal"@, "entities"@, id@]),
            ),
            Err(BrokerError::NotABase { url }) => url_cannot_be_a_base(*base) && url == *base,
            Err(_) => false,
        },
{
    let segments: [&str; 3] = ["temporal", "entities", id.as_str()];
    assert(strs(segments@) =~= seq!["temporal"@, "entities"@, id@]);
    proof {
        lemma_api_growth(seq!["temporal"@, "entities"@, id@]);
        lemma_named_growth("temporal"@, "entities"@, id@);
        reveal_strlit("temporal");
        reveal_strlit("entities");
    }
    endpoint(base, &segments)
}

/// The endpoint polled to learn whether a broker is serving its API yet.
pub fn readiness_query(base: &Url) -> (query: Result<Url, BrokerError>)
    requires
        room_for(*base, Seq::empty()),
    ensures
        match query {
            Ok(url) => !url_cannot_be_a_base(*base) && url == url_with_segments(*base, api_path(seq!["types"@])),
            Err(BrokerError::NotABase { url }) => url_cannot_be_a_base(*base) && url == *base,
            Err(_) => false,
        },
{
    let segments: [&str; 1] = ["types"];
    assert(strs(segments@) =~= seq!["types"@]);
    proof {
        lemma_api_growth(seq!["types"@]);
        lemma_named_growth("types"@, "types"@, "types"@);
        reveal_strlit("types");
    }
    endpoint(base, &segments)
}

/// The `Link` header text that tells a broker which context to expand a query's terms against
/// (ETSI GS CIM 009 v1.9.1, clause 6.3.5).
pub open spec fn context_link_of(context: Seq<char>) -> Seq<char> {
    "<"@ + context + ">; rel=\"http://www.w3.org/ns/json-ld#context\"; type=\""@ + linked_json() + "\""@
}

/// The `Link` header that tells a broker which context to expand a query's terms against.
pub fn context_link(context: &Url) -> (link: String)
    ensures
        link@ == context_link_of(url_text(*context)),
{
    let opened = concat("<", context.as_str());
    let related = concat(opened.as_str(), ">; rel=\"http://www.w3.org/ns/json-ld#context\"; type=\"");
    let typed = concat(related.as_str(), "application/ld+json");
    concat(typed.as_str(), "\"")
}

/// Whether an HTTP status number is a success, which the `http` crate defines as 200 to 299.
pub open spec fn succeeded(number: u16) -> bool {
    200 <= number <= 299
}

/// What a broker's status says about the answer that came with it.
#[derive(Debug, Clone, Copy, PartialEq, Eq, Structural)]
pub enum Answered {
    /// The broker holds nothing at this path: a 404.
    Nothing,
    /// The broker answered with a body worth reading.
    Body,
}

/// Reads a broker's status: a 404 is "nothing here" rather than a failure, any other status outside
/// the successes is a refusal naming the endpoint.
pub fn triage(endpoint: &Url, status: StatusCode) -> (answered: Result<Answered, BrokerError>)
    ensures
        match answered {
            Ok(Answered::Nothing) => status_number(status) == 404,
            Ok(Answered::Body) => succeeded(status_number(status)),
            Err(BrokerError::Refused { url, status: refused }) => url == *endpoint && refused == status
                && status_number(status) != 404 && !succeeded(status_number(status)),
            Err(_) => false,
        },
{
    let number = status.as_u16();
    if number == 404 {
        Ok(Answered::Nothing)
    } else if 200 <= number && number <= 299 {
        Ok(Answered::Body)
    } else {
        Err(BrokerError::Refused { url: endpoint.clone(), status })
    }
}

/// Whether a readiness poll is over: the broker answered, or the deadline passed.
///
/// Compose reports a service as up once its container is running, and only `PostGIS` declares a
/// healthcheck, so neither says anything about whether Scorpio has finished starting its runtime
/// and serving the API. This poll is what actually gates a run. `None` means the probe is asked
/// again after a pause.
pub fn readiness(endpoint: &Url, answered: bool, expired: bool) -> (verdict: Option<Result<(), BrokerError>>)
    ensures
        answered ==> verdict == Some(Ok::<(), BrokerError>(())),
        !answered && expired ==> verdict == Some(Err::<(), BrokerError>(BrokerError::NeverReady { url: *endpoint })),
        !answered && !expired ==> verdict is None,
{
    if answered {
        Some(Ok(()))
    } else if expired {
        Some(Err(BrokerError::NeverReady { url: endpoint.clone() }))
    } else {
        None
    }
}

/// The entities of a type query's answer: an array, where a broker that holds nothing of a type
/// answers with an empty array, and a path the broker does not serve at all with nothing.
pub fn entities_answer(endpoint: &Url, answer: Option<JsonDocument>) -> (entities: Result<Vec<FoundEntity>, BrokerError>)
    ensures
        match answer {
            Some(JsonDocument::Array(found)) => entities == Ok::<Vec<FoundEntity>, BrokerError>(found),
            Some(_) => entities == Err::<Vec<FoundEntity>, BrokerError>(BrokerError::NotAnEntityArray { url: *endpoint }),
            None => entities matches Ok(found) && found@.len() == 0,
        },
{
    match answer {
        Some(JsonDocument::Array(found)) => Ok(found),
        Some(JsonDocument::Object(_)) | Some(JsonDocument::Scalar) => Err(BrokerError::NotAnEntityArray { url: endpoint.clone() }),
        None => Ok(Vec::new()),
    }
}

/// The entities of a temporal query's answer, as an array so that the same assertions apply to it
/// as to any other target: the folded `EntityTemporal` is one object, and an identifier the
/// endpoint holds nothing for is a 404 rather than an empty answer.
pub fn temporal_answer(endpoint: &Url, answer: Option<JsonDocument>) -> (entities: Result<Vec<FoundEntity>, BrokerError>)
    ensures
        match answer {
            Some(JsonDocument::Object(entity)) => entities matches Ok(found) && found@ == seq![entity],
            Some(JsonDocument::Array(found)) => entities == Ok::<Vec<FoundEntity>, BrokerError>(found),
            Some(JsonDocument::Scalar) => entities == Err::<Vec<FoundEntity>, BrokerError>(
                BrokerError::NotAnEntityArray { url: *endpoint },
            ),
            None => entities matches Ok(found) && found@.len() == 0,
        },
{
    match answer {
        Some(JsonDocument::Object(entity)) => {
            let mut found: Vec<FoundEntity> = Vec::new();
            found.push(entity);
            Ok(found)
        },
        Some(JsonDocument::Array(found)) => Ok(found),
        Some(JsonDocument::Scalar) => Err(BrokerError::NotAnEntityArray { url: endpoint.clone() }),
        None => Ok(Vec::new()),
    }
}

/// A broker's answer read as a JSON document, or the failure naming the endpoint when it is not
/// JSON.
pub fn answer_document(endpoint: &Url, body: &str) -> (document: Result<JsonDocument, BrokerError>)
    ensures
        match json_of(body@) {
            None => document matches Err(BrokerError::Malformed { url, .. }) && url == *endpoint,
            Some(value) => document matches Ok(read) && document_reads(read, value),
        },
{
    match parse_json(body) {
        Ok(value) => Ok(document_of(&value)),
        Err(source) => Err(BrokerError::Malformed { url: endpoint.clone(), source }),
    }
}

/// Why a broker could not be asked what it holds.
#[derive(Debug)]
pub enum BrokerError {
    /// The broker did not start, or did not finish starting, in the time it was given.
    NeverReady {
        /// The endpoint that was polled.
        url: Url,
    },
    /// The URL an example declares cannot carry a path.
    NotABase {
        /// The URL the descriptor declares.
        url: Url,
    },
    /// The broker could not be reached at all.
    Unreachable {
        /// The endpoint that was requested.
        url: Url,
        /// The underlying transport failure.
        source: Box<ureq::Error>,
    },
    /// The broker answered, and refused.
    Refused {
        /// The endpoint that was requested.
        url: Url,
        /// The status it answered with.
        status: StatusCode,
    },
    /// The broker's answer is not JSON.
    Malformed {
        /// The endpoint that was requested.
        url: Url,
        /// The parse failure, with its position in the answer.
        source: serde_json::Error,
    },
    /// The broker's answer is JSON, but not entities.
    NotAnEntityArray {
        /// The endpoint that was requested.
        url: Url,
    },
}

/// What a broker failure prints as, where `detail` is what the transport failure it wraps, if any,
/// prints as.
pub open spec fn broker_message(error: BrokerError, detail: Seq<char>) -> Seq<char> {
    match error {
        BrokerError::NeverReady { url } => "the broker did not answer "@ + url_text(url)
            + " in time: bring the stack up and wait for it before running the example"@,
        BrokerError::NotABase { url } => url_text(url) + " is not a base URL a broker path can be built on"@,
        BrokerError::Unreachable { url, source } => "cannot reach the broker at "@ + url_text(url) + ": "@
            + detail,
        BrokerError::Refused { url, status } => "the broker answered "@ + status_message(status) + " for "@
            + url_text(url),
        BrokerError::Malformed { url, source } => "the broker's answer for "@ + url_text(url)
            + " is not valid JSON: "@ + json_error_message(source),
        BrokerError::NotAnEntityArray { url } => "the broker's answer for "@ + url_text(url)
            + " does not hold NGSI-LD entities"@,
    }
}

impl BrokerError {
    /// What the failure prints as, given what the transport failure it wraps, if any, prints as.
    pub fn describe(&self, detail: &str) -> (text: String)
        ensures
            text@ == broker_message(*self, detail@),
    {
        let mut text = String::new();
        match self {
            BrokerError::NeverReady { url } => {
                text.append("the broker did not answer ");
                text.append(url.as_str());
                text.append(" in time: bring the stack up and wait for it before running the example");
            },
            BrokerError::NotABase { url } => {
                text.append(url.as_str());
                text.append(" is not a base URL a broker path can be built on");
            },
            BrokerError::Unreachable { url, .. } => {
                text.append("cannot reach the broker at ");
                text.append(url.as_str());
                text.append(": ");
                text.append(detail);
            },
            BrokerError::Refused { url, status } => {
                text.append("the broker answered ");
                text.append(status_text(status).as_str());
                text.append(" for ");
                text.append(url.as_str());
            },
            BrokerError::Malformed { url, source } => {
                text.append("the broker's answer for ");
                text.append(url.as_str());
                text.append(" is not valid JSON: ");
                text.append(json_error_text(source).as_str());
            },
            BrokerError::NotAnEntityArray { url } => {
                text.append("the broker's answer for ");
                text.append(url.as_str());
                text.append(" does not hold NGSI-LD entities");
            },
        }
        text
    }

    /// What the transport failure the failure wraps, if any, prints as; nothing for any other.
    pub(crate) fn outside_detail(&self) -> (detail: String)
        ensures
            !(*self is Unreachable) ==> detail@ == Seq::<char>::empty(),
    {
        match self {
            BrokerError::Unreachable { source, .. } => transport_error_text(&**source),
            _ => String::new(),
        }
    }

    /// What the failure prints as. A transport failure is described in the words its own
    /// `Display` gives it; every other failure is described exactly.
    pub fn to_string(&self) -> (text: String)
        ensures
            exists|detail: Seq<char>| text@ == broker_message(*self, detail),
            !(*self is Unreachable) ==> text@ == broker_message(*self, Seq::empty()),
    {
        let detail = self.outside_detail();
        let text = self.describe(detail.as_str());
        assert(text@ == broker_message(*self, detail@));
        text
    }
}

} // verus!
