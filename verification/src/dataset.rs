//! One file an example downloads before it runs, and how its download is judged.
use vstd::prelude::*;
use vstd::string::*;
use std::time::Duration;
use url::Url;
use ureq::http::StatusCode;
use crate::broker::{status_number, url_text};
use crate::broker_stack::{exit_description, exit_text};
use crate::example_name::ExampleName;
use crate::license_identifier::LicenseIdentifier;
use crate::listing::file_name_of;
use crate::outside::{io_error_text, json_error_message, json_error_text, status_message, status_text};
use crate::poll_interval::{duration_nanos, duration_new, nanos_per_second};
use crate::poll_schedule::{duration_of_nanos, max_duration_nanos, nanos_in, saturated};
use crate::publisher_name::PublisherName;
use crate::shell_command::ShellCommand;
use crate::text::{replace_char, replaced, same};
use crate::volatility::Volatility;

verus! {

/// One file an example downloads before it runs.
#[derive(Debug)]
pub struct Dataset {
    /// Where the file is written, relative to the example directory.
    pub file: String,
    /// Where it is fetched from.
    pub url: Url,
    /// The publishing organisation or repository.
    pub source: PublisherName,
    /// The licence the publisher releases it under.
    pub license: LicenseIdentifier,
    /// Whether the publisher has finished with the file. Required: only the author of an example
    /// knows whether a source is a closed range or a feed, and getting it wrong turns either
    /// upstream churn into a red build or a broken mapping into a note nobody reads.
    pub volatility: Volatility,
    /// How many records the file holds, when the number is stable enough to state.
    pub records: Option<usize>,
    /// The shell command that produces the file, for a source a plain GET cannot fetch: a query
    /// the publisher expects as form parameters, a response that needs reshaping, or a set of byte
    /// ranges. The `url` stays as the provenance record even then.
    pub command: Option<ShellCommand>,
}

/// Why a dataset could not be fetched.
#[derive(Debug)]
pub enum DatasetError {
    /// The publisher did not serve the file. A moved dataset is a defect in the example, not
    /// something to work around locally.
    Unreachable {
        /// The example whose run was stopped.
        example: ExampleName,
        /// The URL that was requested, boxed so that a failure a whole run is threaded through
        /// stays small enough to hand back by value.
        url: Box<Url>,
        /// Who publishes it.
        publisher: PublisherName,
        /// What went wrong, in the publisher's own terms where there are any.
        reason: String,
    },
    /// The shell that produces a dataset could not be started.
    NoShell {
        /// The underlying failure.
        source: std::io::Error,
    },
    /// The command that was supposed to produce the file failed.
    CommandFailed {
        /// The file it was supposed to produce.
        file: String,
        /// Its exit code, when it had one.
        code: Option<i32>,
    },
    /// The downloaded file could not be written.
    Unwritable {
        /// The path that was written to.
        path: String,
        /// The underlying filesystem failure.
        source: std::io::Error,
    },
}

/// How many times a download is attempted before the publisher is treated as gone.
pub const ATTEMPTS: u32 = 4;

/// How long the first retry waits, in seconds. Each later one waits twice as long.
pub const FIRST_BACKOFF_SECS: u64 = 2;

/// The most bytes of a file a failure quotes.
pub const SHOWN: usize = 120;

/// The failure a reader sees when a publisher stops serving a dataset.
pub fn unreachable(name: &ExampleName, dataset: &Dataset, reason: String) -> (error: DatasetError)
    ensures
        error == (DatasetError::Unreachable {
            example: *name,
            url: Box::new(dataset.url),
            publisher: dataset.source,
            reason,
        }),
{
    DatasetError::Unreachable {
        example: name.clone(),
        url: Box::new(dataset.url.clone()),
        publisher: dataset.source.clone(),
        reason,
    }
}

/// What a command that produces a dataset comes to: only a zero exit is success.
pub fn produced(dataset: &Dataset, code: Option<i32>) -> (outcome: Result<(), DatasetError>)
    ensures
        match outcome {
            Ok(()) => code == Some(0i32),
            Err(DatasetError::CommandFailed { file, code: c }) => code != Some(0i32) && file == dataset.file && c == code,
            Err(_) => false,
        },
{
    match code {
        Some(0) => Ok(()),
        _ => Err(DatasetError::CommandFailed { file: dataset.file.clone(), code }),
    }
}

/// What one attempt at a download came to.
#[derive(Debug)]
pub enum Attempt {
    /// The body arrived.
    Body(Vec<u8>),
    /// The publisher is busy or briefly broken, and is worth asking again.
    Transient(String),
    /// The publisher answered, and the answer will not change.
    Settled(String),
}

/// Whether a status is worth riding out: Open Food Facts answers an unthrottled client with 503
/// and Overpass answers a busy one with 429 or 504, so server errors and 429 are asked again.
pub open spec fn transient_status(number: u16) -> bool {
    500 <= number <= 599 || number == 429
}

/// What a publisher's answer is taken to say, when it says something other than "here is the
/// file": `None` for a success, whose body is read next.
pub fn status_attempt(status: &StatusCode) -> (attempt: Option<Attempt>)
    ensures
        match attempt {
            None => 200 <= status_number(*status) <= 299,
            Some(Attempt::Transient(reason)) => transient_status(status_number(*status)) && reason@
                == "the publisher answered "@ + status_message(*status),
            Some(Attempt::Settled(reason)) => !transient_status(status_number(*status)) && !(200 <= status_number(
                *status,
            ) <= 299) && reason@ == "the publisher answered "@ + status_message(*status),
            Some(Attempt::Body(_)) => false,
        },
{
    let number = status.as_u16();
    if (500 <= number && number <= 599) || number == 429 {
        let mut reason = String::new();
        reason.append("the publisher answered ");
        reason.append(status_text(status).as_str());
        return Some(Attempt::Transient(reason));
    }
    if !(200 <= number && number <= 299) {
        let mut reason = String::new();
        reason.append("the publisher answered ");
        reason.append(status_text(status).as_str());
        return Some(Attempt::Settled(reason));
    }
    None
}

/// Where a download stands between attempts: how many attempts are still to come after the one
/// being made, and how long to wait before the next.
#[derive(Debug, Clone, Copy)]
pub struct RetryState {
    /// The attempts still allowed after this one.
    pub remaining: u32,
    /// How long to wait before asking again.
    pub backoff: Duration,
}

/// How long the wait after the `k`-th failed attempt lasts, in nanoseconds: two seconds, doubled
/// each time.
pub open spec fn backoff_nanos(k: nat) -> int
    decreases k,
{
    if k == 0 {
        FIRST_BACKOFF_SECS * nanos_per_second()
    } else {
        2 * backoff_nanos((k - 1) as nat)
    }
}

/// Whether a state is the one a download is in while making its attempt numbered `k`, counted from
/// zero.
pub open spec fn attempt_state(state: RetryState, k: nat) -> bool {
    &&& k < ATTEMPTS
    &&& state.remaining == ATTEMPTS - 1 - k
    &&& duration_nanos(state.backoff) == backoff_nanos(k)
}

/// The state a download starts in: every other attempt still to come, and a two-second wait.
pub fn first_attempt() -> (state: RetryState)
    ensures
        attempt_state(state, 0),
{
    RetryState { remaining: ATTEMPTS - 1, backoff: duration_new(FIRST_BACKOFF_SECS, 0) }
}

/// What the download loop does after one attempt.
#[derive(Debug)]
pub enum Verdict {
    /// Write the body that arrived.
    Write(Vec<u8>),
    /// Wait, and ask again from the next state; the reason is what the publisher said this time.
    Retry {
        /// What the publisher said.
        reason: String,
        /// How long to wait first.
        wait: Duration,
        /// Where the download stands for its next attempt.
        next: RetryState,
    },
    /// Stop asking: the publisher has settled, or the attempts ran out.
    GiveUp(String),
}

/// What the download loop does after an attempt made in a state.
///
/// A throttled or briefly unavailable publisher is asked again after the state's wait, with one
/// attempt fewer to come and the wait doubled; one that answers that the file is not there is not,
/// because that is a move rather than a blip and repeating cannot help.
pub fn after_attempt(state: RetryState, attempt: Attempt) -> (verdict: Verdict)
    ensures
        match (attempt, verdict) {
            (Attempt::Body(body), Verdict::Write(written)) => written == body,
            (Attempt::Settled(reason), Verdict::GiveUp(stated)) => stated == reason,
            (Attempt::Transient(reason), Verdict::Retry { reason: stated, wait, next }) => state.remaining > 0
                && stated == reason && wait == state.backoff && next.remaining == state.remaining - 1
                && duration_nanos(next.backoff) == saturated(2 * duration_nanos(state.backoff)),
            (Attempt::Transient(reason), Verdict::GiveUp(stated)) => state.remaining == 0 && stated == reason,
            _ => false,
        },
{
    match attempt {
        Attempt::Body(body) => Verdict::Write(body),
        Attempt::Settled(reason) => Verdict::GiveUp(reason),
        Attempt::Transient(reason) => {
            if state.remaining > 0 {
                let next = RetryState { remaining: state.remaining - 1, backoff: next_backoff(state.backoff) };
                Verdict::Retry { reason, wait: state.backoff, next }
            } else {
                Verdict::GiveUp(reason)
            }
        },
    }
}

/// A download is asked at most `ATTEMPTS` times, waiting two, four and eight seconds between the
/// attempts: the state a retry moves to is the next attempt's, and the last attempt's state leaves
/// no retry, so a transient failure there gives up.
pub proof fn lemma_a_download_is_asked_at_most_four_times(state: RetryState, next: RetryState, k: nat)
    requires
        attempt_state(state, k),
        next.remaining == state.remaining - 1,
        duration_nanos(next.backoff) == saturated(2 * duration_nanos(state.backoff)),
    ensures
        k + 1 < ATTEMPTS ==> attempt_state(next, k + 1),
        k + 1 == ATTEMPTS ==> state.remaining == 0,
        backoff_nanos(0) == 2_000_000_000,
        backoff_nanos(1) == 4_000_000_000,
        backoff_nanos(2) == 8_000_000_000,
{
    reveal_with_fuel(backoff_nanos, 4);
    if k + 1 < ATTEMPTS {
        assert(backoff_nanos(k) <= 8_000_000_000) by {
            reveal_with_fuel(backoff_nanos, 4);
        }
        assert(backoff_nanos(k + 1) == 2 * backoff_nanos(k));
    }
}

/// The wait before the next retry: twice the last one, saturating at `Duration::MAX` as
/// `Duration::saturating_mul` does.
pub fn next_backoff(backoff: Duration) -> (next: Duration)
    ensures
        duration_nanos(next) == saturated(2 * duration_nanos(backoff)),
{
    let total = nanos_in(backoff);
    let max: u128 = 18_446_744_073_709_551_615 * 1_000_000_000 + 999_999_999;
    let doubled = if total > max / 2 { max } else { total * 2 };
    duration_of_nanos(doubled)
}

/// Where the last dot of a name is, or -1 when it has none.
pub open spec fn last_dot(name: Seq<char>) -> int
    decreases name.len(),
{
    if name.len() == 0 {
        -1
    } else if name.last() == '.' {
        name.len() - 1
    } else {
        last_dot(name.drop_last())
    }
}

/// A name's last dot is in the part of it before a tail that holds none.
proof fn lemma_last_dot_before(name: Seq<char>, k: int)
    requires
        0 <= k <= name.len(),
        forall|j: int| k <= j < name.len() ==> name[j] != '.',
    ensures
        last_dot(name) == last_dot(name.take(k)),
    decreases name.len() - k,
{
    if k < name.len() {
        lemma_last_dot_before(name, k + 1);
        assert(name.take(k + 1).drop_last() =~= name.take(k));
    } else {
        assert(name.take(k) =~= name);
    }
}

/// The part of a file name after its final dot, as `Path::extension` reads it: none for a name
/// without a dot, or whose only dot opens it.
pub open spec fn extension_of(path: Seq<char>) -> Option<Seq<char>> {
    match file_name_of(path) {
        None => None,
        Some(name) => if last_dot(name) > 0 {
            Some(name.skip(last_dot(name) + 1))
        } else {
            None
        },
    }
}

/// Whether a later stage parses a file as JSON, which it does for the `json` and `geojson`
/// extensions: those have to parse here, so that a publisher's holding page written into
/// `data/products.json` fails as a download rather than several stages later as a mapping.
pub open spec fn json_target(path: Seq<char>) -> bool {
    extension_of(path) == Some("json"@) || extension_of(path) == Some("geojson"@)
}

/// Whether a file is one a later stage parses as JSON.
pub fn is_json_target(path: &str) -> (json: bool)
    ensures
        json == json_target(path@),
{
    let name = match crate::listing::file_name(path) {
        Some(name) => name,
        None => return false,
    };
    let n = name.unicode_len();
    let mut k: usize = n;
    while k > 0 && name.get_char(k - 1) != '.'
        invariant
            k <= n,
            n == name@.len(),
            forall|j: int| k <= j < n ==> name@[j] != '.',
        decreases k,
    {
        k -= 1;
    }
    proof {
        lemma_last_dot_before(name@, k as int);
        if k > 0 {
            assert(name@.take(k as int).last() == '.');
        } else {
            assert(name@.take(0) =~= Seq::<char>::empty());
        }
    }
    if k <= 1 {
        return false;
    }
    let extension = name.substring_char(k, n);
    assert(extension@ =~= name@.skip(k as int));
    same(extension, "json") || same(extension, "geojson")
}

/// How some bytes fail to parse as one JSON document, or `None` where they parse.
pub uninterp spec fn json_slice_error(content: Seq<u8>) -> Option<serde_json::Error>;

/// Whether some bytes parse as one JSON document.
pub open spec fn parses_as_json(content: Seq<u8>) -> bool {
    json_slice_error(content) is None
}

/// Some bytes decoded as UTF-8, each invalid sequence turned into U+FFFD.
pub uninterp spec fn utf8_lossy(content: Seq<u8>) -> Seq<char>;

/// Parses some bytes as JSON through `serde_json::from_slice` into a `serde_json::Value`, keeping
/// only whether it worked and the failure when it did not.
#[verifier::external_body]
fn json_check(content: &[u8]) -> (checked: Result<(), serde_json::Error>)
    ensures
        match checked {
            Ok(()) => json_slice_error(content@) is None,
            Err(failure) => json_slice_error(content@) == Some(failure),
        },
{
    match serde_json::from_slice::<serde_json::Value>(content) {
        Ok(_) => Ok(()),
        Err(source) => Err(source),
    }
}

/// Decodes some bytes through `String::from_utf8_lossy`.
#[verifier::external_body]
fn lossy(content: &[u8]) -> (text: String)
    ensures
        text@ == utf8_lossy(content@),
{
    String::from_utf8_lossy(content).into_owned()
}

/// The first line or so of a file that was supposed to be data, so a holding page is recognisable
/// in the failure it causes.
pub open spec fn opening_of(content: Seq<u8>) -> Seq<char> {
    replaced(utf8_lossy(content.take(if content.len() < SHOWN { content.len() as int } else { SHOWN as int })), '\n', " "@)
}

/// The first line or so of a file that was supposed to be data.
pub fn opening(content: &[u8]) -> (text: String)
    ensures
        text@ == opening_of(content@),
{
    let n = if content.len() < SHOWN { content.len() } else { SHOWN };
    let mut head: Vec<u8> = Vec::new();
    let mut i: usize = 0;
    while i < n
        invariant
            n <= content@.len(),
            i <= n,
            head@ == content@.take(i as int),
        decreases n - i,
    {
        head.push(content[i]);
        assert(head@ =~= content@.take(i + 1));
        i += 1;
    }
    let decoded = lossy(head.as_slice());
    replace_char(decoded.as_str(), '\n', " ")
}

/// Checks that a download actually produced something a mapping can read: `content` is what
/// reading the destination gave, or what the operating system's failure to read it prints as.
///
/// A publisher that is down often answers with a holding page rather than a failure, and a command
/// that writes that page into the target leaves a file the shell was perfectly happy with. This is
/// what turns "the publisher is down" into a message that says so.
pub fn confirm_read(destination: &str, name: &ExampleName, dataset: &Dataset, content: Result<Vec<u8>, String>) -> (checked:
    Result<(), DatasetError>)
    ensures
        match content {
            Err(detail) => checked matches Err(DatasetError::Unreachable { example, url, publisher, reason })
                && example == *name && *url == dataset.url && publisher == dataset.source && reason@
                == "nothing was written to "@ + dataset.file@ + ": "@ + detail@,
            Ok(bytes) => if bytes@.len() == 0 {
                checked matches Err(DatasetError::Unreachable { example, url, publisher, reason }) && example == *name
                    && *url == dataset.url && publisher == dataset.source && reason@ == dataset.file@
                    + " was written empty"@
            } else if json_target(destination@) && !parses_as_json(bytes@) {
                checked matches Err(DatasetError::Unreachable { example, url, publisher, reason }) && example == *name
                    && *url == dataset.url && publisher == dataset.source && reason@ == dataset.file@
                    + " is not JSON ("@ + json_error_message(json_slice_error(bytes@)->0) + "), and it begins: "@
                    + opening_of(bytes@)
            } else {
                checked is Ok
            },
        },
{
    let bytes = match content {
        Ok(bytes) => bytes,
        Err(detail) => {
            let mut reason = String::new();
            reason.append("nothing was written to ");
            reason.append(dataset.file.as_str());
            reason.append(": ");
            reason.append(detail.as_str());
            return Err(unreachable(name, dataset, reason));
        },
    };
    if bytes.len() == 0 {
        let mut reason = String::new();
        reason.append(dataset.file.as_str());
        reason.append(" was written empty");
        return Err(unreachable(name, dataset, reason));
    }
    if is_json_target(destination) {
        match json_check(bytes.as_slice()) {
            Ok(()) => {},
            Err(source) => {
                let detail = json_error_text(&source);
                let mut reason = String::new();
                reason.append(dataset.file.as_str());
                reason.append(" is not JSON (");
                reason.append(detail.as_str());
                reason.append("), and it begins: ");
                reason.append(opening(bytes.as_slice()).as_str());
                assert(reason@ == dataset.file@ + " is not JSON ("@ + detail@ + "), and it begins: "@ + opening_of(
                    bytes@,
                ));
                return Err(unreachable(name, dataset, reason));
            },
        }
    }
    Ok(())
}

/// Checks that a download actually produced something a mapping can read: `content` is what
/// reading the destination gave.
///
/// What the bytes say is decided exactly, as `confirm_read` states; a failure to read them is
/// reported in the words the operating system's error prints as, which come from outside the
/// library.
pub fn confirm(destination: &str, name: &ExampleName, dataset: &Dataset, content: Result<Vec<u8>, std::io::Error>) -> (checked:
    Result<(), DatasetError>)
    ensures
        match content {
            Err(_) => checked matches Err(DatasetError::Unreachable { example, url, publisher, reason })
                && example == *name && *url == dataset.url && publisher == dataset.source && exists|detail: Seq<char>|
                reason@ == "nothing was written to "@ + dataset.file@ + ": "@ + detail,
            Ok(bytes) => if bytes@.len() == 0 {
                checked matches Err(DatasetError::Unreachable { example, url, publisher, reason }) && example == *name
                    && *url == dataset.url && publisher == dataset.source && reason@ == dataset.file@
                    + " was written empty"@
            } else if json_target(destination@) && !parses_as_json(bytes@) {
                checked matches Err(DatasetError::Unreachable { example, url, publisher, reason }) && example == *name
                    && *url == dataset.url && publisher == dataset.source && reason@ == dataset.file@
                    + " is not JSON ("@ + json_error_message(json_slice_error(bytes@)->0) + "), and it begins: "@
                    + opening_of(bytes@)
            } else {
                checked is Ok
            },
        },
{
    match content {
        Ok(bytes) => confirm_read(destination, name, dataset, Ok(bytes)),
        Err(source) => {
            let detail = io_error_text(&source);
            let checked = confirm_read(destination, name, dataset, Err(detail));
            assert(checked matches Err(DatasetError::Unreachable { reason, .. }) ==> reason@ == "nothing was written to "@
                + dataset.file@ + ": "@ + detail@);
            checked
        },
    }
}

/// What a dataset failure prints as, where `detail` is what the operating system's failure, if
/// any, prints as.
pub open spec fn dataset_message(error: DatasetError, detail: Seq<char>) -> Seq<char> {
    match error {
        DatasetError::Unreachable { example, url, publisher, reason } => example@ + " cannot obtain "@ + url_text(*url)
            + " from "@ + publisher@ + ": "@ + reason@
            + "\nthe publisher may have moved or withdrawn the dataset, in which case the example needs a different source rather than a local workaround"@,
        DatasetError::NoShell { .. } => "cannot start sh: "@ + detail,
        DatasetError::CommandFailed { file, code } => "the command producing "@ + file@ + " exited with "@ + exit_text(
            code,
        ),
        DatasetError::Unwritable { path, .. } => "cannot write "@ + path@ + ": "@ + detail,
    }
}

/// Whether a dataset failure wraps one of the operating system's, whose words come from outside
/// the library.
pub open spec fn dataset_wraps_outside(error: DatasetError) -> bool {
    error is NoShell || error is Unwritable
}

impl DatasetError {
    /// What the failure prints as, given what the operating system's failure, if any, prints as.
    pub fn describe(&self, detail: &str) -> (text: String)
        ensures
            text@ == dataset_message(*self, detail@),
    {
        let mut text = String::new();
        match self {
            DatasetError::Unreachable { example, url, publisher, reason } => {
                text.append(example.as_str());
                text.append(" cannot obtain ");
                text.append(url.as_str());
                text.append(" from ");
                text.append(publisher.to_string().as_str());
                text.append(": ");
                text.append(reason.as_str());
                text.append(
                    "\nthe publisher may have moved or withdrawn the dataset, in which case the example needs a different source rather than a local workaround",
                );
            },
            DatasetError::NoShell { .. } => {
                text.append("cannot start sh: ");
                text.append(detail);
            },
            DatasetError::CommandFailed { file, code } => {
                text.append("the command producing ");
                text.append(file.as_str());
                text.append(" exited with ");
                text.append(exit_description(*code).as_str());
            },
            DatasetError::Unwritable { path, .. } => {
                text.append("cannot write ");
                text.append(path.as_str());
                text.append(": ");
                text.append(detail);
            },
        }
        text
    }

    /// What the operating system's failure, if any, prints as; nothing for a failure of the
    /// library's own.
    pub(crate) fn outside_detail(&self) -> (detail: String)
        ensures
            !dataset_wraps_outside(*self) ==> detail@ == Seq::<char>::empty(),
    {
        match self {
            DatasetError::NoShell { source } => io_error_text(source),
            DatasetError::Unwritable { source, .. } => io_error_text(source),
            _ => String::new(),
        }
    }

    /// What the failure prints as: exactly for a publisher or a command that failed, and with the
    /// operating system's words for a shell it would not start or a file it would not write.
    pub fn to_string(&self) -> (text: String)
        ensures
            exists|detail: Seq<char>| text@ == dataset_message(*self, detail),
            !dataset_wraps_outside(*self) ==> text@ == dataset_message(*self, Seq::empty()),
    {
        let detail = self.outside_detail();
        let text = self.describe(detail.as_str());
        assert(text@ == dataset_message(*self, detail@));
        text
    }
}

} // verus!
