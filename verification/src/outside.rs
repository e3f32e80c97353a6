//! The outside types the library carries without looking inside them, and the text they print as.
use vstd::prelude::*;
use ureq::http::StatusCode;

verus! {

/// A parse failure from `humantime::parse_duration`.
#[verifier::external_type_specification]
#[verifier::external_body]
pub struct ExDurationError(humantime::DurationError);

/// A moment on the monotonic clock.
#[verifier::external_type_specification]
#[verifier::external_body]
pub struct ExInstant(std::time::Instant);

/// A URL, as the `url` crate parses one.
#[verifier::external_type_specification]
#[verifier::external_body]
pub struct ExUrl(url::Url);

/// A failure the operating system reported for a file or a process.
#[verifier::external_type_specification]
#[verifier::external_body]
pub struct ExIoError(std::io::Error);

/// A JSON parse failure, with its position in the text.
#[verifier::external_type_specification]
#[verifier::external_body]
pub struct ExJsonError(serde_json::Error);

/// A JSON value, as serde_json parses one.
#[verifier::external_type_specification]
#[verifier::external_body]
pub struct ExJsonValue(serde_json::Value);

/// A transport failure from the HTTP client.
#[verifier::external_type_specification]
#[verifier::external_body]
pub struct ExUreqError(ureq::Error);

/// An HTTP status code.
#[verifier::external_type_specification]
#[verifier::external_body]
pub struct ExStatusCode(ureq::http::StatusCode);

/// A TOML parse failure, with its position in the text.
#[verifier::external_type_specification]
#[verifier::external_body]
pub struct ExTomlError(toml::de::Error);

/// A failure code the kernel answered a system call with.
#[verifier::external_type_specification]
#[verifier::external_body]
pub struct ExErrno(rustix::io::Errno);

/// The message a JSON parse failure prints as, with its position.
pub uninterp spec fn json_error_message(error: serde_json::Error) -> Seq<char>;

/// What an HTTP status prints as: its number and its canonical reason.
pub uninterp spec fn status_message(status: StatusCode) -> Seq<char>;

/// The `Display` text of a `std::io::Error`.
///
/// Nothing is stated of the text: for an operating-system failure it is the C library's
/// description of the error code, which depends on the library and on the process's locale.
#[verifier::external_body]
pub(crate) fn io_error_text(error: &std::io::Error) -> String {
    format!("{error}")
}

/// The `Display` text of a `ureq::Error`.
///
/// Nothing is stated of the text: a failed connection prints the operating system's description
/// of it, which depends on the C library and on the process's locale.
#[verifier::external_body]
pub(crate) fn transport_error_text(error: &ureq::Error) -> String {
    format!("{error}")
}

/// The `Display` text of a `serde_json::Error`.
#[verifier::external_body]
pub(crate) fn json_error_text(error: &serde_json::Error) -> (text: String)
    ensures
        text@ == json_error_message(*error),
{
    format!("{error}")
}

/// The `Display` text of an `http::StatusCode`.
#[verifier::external_body]
pub(crate) fn status_text(status: &StatusCode) -> (text: String)
    ensures
        text@ == status_message(*status),
{
    format!("{status}")
}

/// The `Display` text of a `humantime::DurationError`.
///
/// Nothing is stated of the text beyond its being humantime's own description of where and why a
/// span could not be read; the library passes it on as it is.
#[verifier::external_body]
pub(crate) fn duration_error_text(error: &humantime::DurationError) -> String {
    format!("{error}")
}

/// The `Display` text of a `toml::de::Error`.
///
/// Nothing is stated of the text beyond its being the parser's own description of the failure and
/// where in the document it lies; the library passes it on as it is.
#[verifier::external_body]
pub(crate) fn toml_error_text(error: &toml::de::Error) -> String {
    format!("{error}")
}

/// The `Display` text of a `rustix::io::Errno`.
///
/// Nothing is stated of the text: with the standard library present, rustix prints it as the
/// matching `std::io::Error`, whose words are the C library's description of the code.
#[verifier::external_body]
pub(crate) fn errno_text(error: &rustix::io::Errno) -> String {
    format!("{error}")
}

} // verus!
