//! A span of time a descriptor states in the words a manifest's schedule uses.
use vstd::prelude::*;
use core::time::Duration;
use crate::outside::duration_error_text;
use crate::text::{chars_of, is_digit, is_lower, is_upper};

verus! {

/// The nanoseconds in one second.
pub open spec fn nanos_per_second() -> int {
    1_000_000_000
}

/// The number of seconds `humantime::parse_duration` reads out of a text, and the nanoseconds
/// beyond them, or nothing when it refuses the text.
pub uninterp spec fn humantime_parse(text: Seq<char>) -> Option<(u64, u32)>;

/// The text `humantime::format_duration` writes for a span of seconds and nanoseconds.
pub uninterp spec fn humantime_format(secs: u64, nanos: u32) -> Seq<char>;

/// The whole seconds `Duration::as_secs` reports for a duration.
pub uninterp spec fn duration_secs(duration: Duration) -> u64;

/// The nanoseconds beyond the whole seconds that `Duration::subsec_nanos` reports for a duration.
pub uninterp spec fn duration_subsec_nanos(duration: Duration) -> u32;

/// The duration `Duration::new` builds out of whole seconds and nanoseconds.
pub uninterp spec fn duration_from(secs: u64, nanos: u32) -> Duration;

/// The length of a duration in nanoseconds.
pub open spec fn duration_nanos(duration: Duration) -> int {
    duration_secs(duration) * nanos_per_second() + duration_subsec_nanos(duration)
}

/// `Duration::as_secs`: the whole seconds in a duration.
pub assume_specification[ core::time::Duration::as_secs ](duration: &Duration) -> (secs: u64)
    ensures
        secs == duration_secs(*duration),
;

/// `Duration::subsec_nanos`: the nanoseconds beyond the whole seconds, which the standard library
/// documents as always below one billion.
pub assume_specification[ core::time::Duration::subsec_nanos ](duration: &Duration) -> (nanos: u32)
    ensures
        nanos == duration_subsec_nanos(*duration),
        nanos < 1_000_000_000,
;

/// `humantime::parse_duration`, read as whole seconds and the nanoseconds beyond them.
///
/// The contract names the outcome rather than restating humantime's grammar. humantime builds its
/// result with `Duration::new`, which panics when the parts add up to `u64::MAX` seconds and one
/// carried second; every other overflow it reports as an error. Each number it reads is a run of
/// ASCII digits, with whitespace allowed between them, that ends at a letter of its unit or at the
/// point before a fraction; no unit is longer than a year of 31,557,600 seconds, and a fraction
/// adds less than one unit. `years_bound` counts every number as that many years plus one, so a
/// text within `MOST_YEARS` adds up to at most 500,000,000,000 years' worth, about
/// 1.58 * 10^19 seconds, below `u64::MAX`: the `requires` rules the panic out.
#[verifier::external_body]
fn parse_duration(text: &str) -> (parsed: Result<(u64, u32), humantime::DurationError>)
    requires
        years_bound(text@) <= MOST_YEARS,
    ensures
        match parsed {
            Ok(span) => humantime_parse(text@) == Some(span) && span.1 < 1_000_000_000,
            Err(_) => humantime_parse(text@) is None,
        },
{
    match humantime::parse_duration(text) {
        Ok(duration) => Ok((duration.as_secs(), duration.subsec_nanos())),
        Err(source) => Err(source),
    }
}

/// Whether a character closes a number: a letter of a unit, or the point before a fraction.
pub open spec fn closes_number(c: char) -> bool {
    is_upper(c) || is_lower(c) || c == '\u{b5}' || c == '.'
}

/// Where reading the numbers of a text stands: between numbers, inside a number's whole part, or
/// inside a fraction.
pub enum NumberPart {
    /// Between numbers.
    Between,
    /// Inside the whole part of a number.
    Whole,
    /// Inside the digits after a point.
    Fraction,
}

/// The numbers of a text read left to right: the total counted for the numbers already closed,
/// each as its value plus one, the value of the whole part being read, and where the reading
/// stands. A digit between numbers opens a new whole part, and one inside a whole part extends it;
/// the point closes a whole part and opens a fraction, whose digits count for nothing; a letter
/// closes whatever is open; any other character leaves the reading where it was.
pub open spec fn number_scan(text: Seq<char>) -> (int, int, NumberPart)
    decreases text.len(),
{
    if text.len() == 0 {
        (0, 0, NumberPart::Between)
    } else {
        let (total, value, part) = number_scan(text.drop_last());
        let c = text.last();
        if is_digit(c) {
            match part {
                NumberPart::Between => (total, c as int - '0' as int, NumberPart::Whole),
                NumberPart::Whole => (total, value * 10 + (c as int - '0' as int), NumberPart::Whole),
                NumberPart::Fraction => (total, value, NumberPart::Fraction),
            }
        } else if c == '.' {
            match part {
                NumberPart::Whole => (total + value + 1, 0, NumberPart::Fraction),
                _ => (total, value, NumberPart::Fraction),
            }
        } else if closes_number(c) {
            match part {
                NumberPart::Whole => (total + value + 1, 0, NumberPart::Between),
                _ => (total, value, NumberPart::Between),
            }
        } else {
            (total, value, part)
        }
    }
}

/// What a text's numbers add up to when each counts as its value plus one.
pub open spec fn years_bound(text: Seq<char>) -> int {
    let (total, value, part) = number_scan(text);
    match part {
        NumberPart::Whole => total + value + 1,
        _ => total,
    }
}

/// The most a span's numbers may add up to, each counted as its value plus one: five hundred
/// billion, far beyond any schedule, and small enough that humantime can add up whatever they say.
pub const MOST_YEARS: u64 = 500_000_000_000;

/// Whether a string's numbers, each counted as its value plus one, add up to at most `MOST_YEARS`.
fn fits_reading(text: &str) -> (fits: bool)
    ensures
        fits == (years_bound(text@) <= MOST_YEARS),
{
    let chars = chars_of(text);
    let cap: u64 = MOST_YEARS + 1;
    let mut total: u64 = 0;
    let mut value: u64 = 0;
    let mut part = NumberPart::Between;
    let mut i: usize = 0;
    while i < chars.len()
        invariant
            chars@ == text@,
            i <= chars.len(),
            cap == MOST_YEARS + 1,
            total <= cap,
            value <= cap,
            ({
                let (t, v, p) = number_scan(text@.take(i as int));
                &&& 0 <= t
                &&& 0 <= v
                &&& total == if t < cap { t } else { cap as int }
                &&& value == if v < cap { v } else { cap as int }
                &&& p == part
            }),
        decreases chars.len() - i,
    {
        assert(text@.take(i + 1).drop_last() =~= text@.take(i as int));
        let c = chars[i];
        if '0' <= c && c <= '9' {
            let digit = (c as u32 - '0' as u32) as u64;
            match part {
                NumberPart::Between => {
                    value = digit;
                    part = NumberPart::Whole;
                },
                NumberPart::Whole => {
                    value = if value > cap / 10 { cap } else {
                        let grown = value * 10 + digit;
                        if grown > cap { cap } else { grown }
                    };
                },
                NumberPart::Fraction => {},
            }
        } else if c == '.' || ('A' <= c && c <= 'Z') || ('a' <= c && c <= 'z') || c == '\u{b5}' {
            match part {
                NumberPart::Whole => {
                    total = if total + value + 1 > cap { cap } else { total + value + 1 };
                    value = 0;
                },
                _ => {},
            }
            part = if c == '.' { NumberPart::Fraction } else { NumberPart::Between };
        }
        i += 1;
    }
    assert(text@.take(chars.len() as int) =~= text@);
    let bound = match part {
        NumberPart::Whole => if total + value + 1 > cap { cap } else { total + value + 1 },
        _ => total,
    };
    bound <= MOST_YEARS
}

/// `humantime::format_duration`, written out as text.
///
/// humantime documents the text it writes as reading back to the same value through
/// `parse_duration`, and that is the one fact stated here beside the name.
#[verifier::external_body]
fn format_duration(secs: u64, nanos: u32) -> (text: String)
    requires
        nanos < 1_000_000_000,
    ensures
        text@ == humantime_format(secs, nanos),
        humantime_parse(text@) == Some((secs, nanos)),
{
    humantime::format_duration(Duration::new(secs, nanos)).to_string()
}

/// `Duration::new`, which the standard library documents as keeping the seconds and nanoseconds
/// it is given when the nanoseconds are below one billion.
#[verifier::external_body]
pub(crate) fn duration_new(secs: u64, nanos: u32) -> (duration: Duration)
    requires
        nanos < 1_000_000_000,
    ensures
        duration == duration_from(secs, nanos),
        duration_secs(duration) == secs,
        duration_subsec_nanos(duration) == nanos,
{
    Duration::new(secs, nanos)
}

/// A span of time a descriptor states in the same words a manifest's schedule states it, such as
/// `5m` or `20s`.
///
/// A newtype rather than a bare number of seconds so that a descriptor and the manifest beside it
/// cannot disagree about the unit, and so that the runner never has to be told which one was meant.
#[derive(Debug, Clone, Copy, PartialEq, Eq)]
pub struct PollInterval {
    secs: u64,
    nanos: u32,
}

/// Why a span of time could not be read.
#[derive(Debug)]
pub enum PollIntervalError {
    /// The value's numbers add up to more than a span is read with.
    TooLong {
        /// The value as it was written.
        value: String,
    },
    /// The value is not a duration.
    Unparsable {
        /// The value as it was written.
        value: String,
        /// What the parser objected to.
        source: humantime::DurationError,
    },
}

impl PollInterval {
    /// Every span keeps its nanoseconds below one second.
    #[verifier::type_invariant]
    closed spec fn below_one_second(self) -> bool {
        self.nanos < 1_000_000_000
    }

    /// The whole seconds in the span.
    pub closed spec fn secs(self) -> u64 {
        self.secs
    }

    /// The nanoseconds beyond the whole seconds.
    pub closed spec fn subsec(self) -> u32 {
        self.nanos
    }

    /// The length of the span in nanoseconds.
    pub open spec fn nanos(self) -> int {
        self.secs() * nanos_per_second() + self.subsec()
    }

    /// The span as the standard library measures it.
    pub fn as_duration(self) -> (duration: Duration)
        ensures
            duration_secs(duration) == self.secs(),
            duration_subsec_nanos(duration) == self.subsec(),
    {
        proof {
            use_type_invariant(&self);
        }
        duration_new(self.secs, self.nanos)
    }

    /// Reads a span written the way a manifest writes one, whose numbers, each counted as its value
    /// plus one, add up to at most `MOST_YEARS`.
    pub fn try_from(value: String) -> (interval: Result<PollInterval, PollIntervalError>)
        ensures
            match interval {
                Ok(interval) => years_bound(value@) <= MOST_YEARS && humantime_parse(value@) == Some(
                    (interval.secs(), interval.subsec()),
                ),
                Err(PollIntervalError::TooLong { value: kept }) => years_bound(value@) > MOST_YEARS && kept == value,
                Err(PollIntervalError::Unparsable { value: kept, .. }) => years_bound(value@) <= MOST_YEARS && humantime_parse(
                    value@,
                ) is None && kept == value,
            },
    {
        if !fits_reading(value.as_str()) {
            return Err(PollIntervalError::TooLong { value });
        }
        match parse_duration(value.as_str()) {
            Ok((secs, nanos)) => Ok(PollInterval { secs, nanos }),
            Err(source) => Err(PollIntervalError::Unparsable { value, source }),
        }
    }

    /// The span as humantime writes it.
    pub fn to_string(&self) -> (text: String)
        ensures
            text@ == humantime_format(self.secs(), self.subsec()),
            humantime_parse(text@) == Some((self.secs(), self.subsec())),
    {
        proof {
            use_type_invariant(self);
        }
        format_duration(self.secs, self.nanos)
    }
}

/// What a refused span prints as, where `detail` is what humantime's objection prints as.
pub open spec fn poll_interval_message(error: PollIntervalError, detail: Seq<char>) -> Seq<char> {
    match error {
        PollIntervalError::TooLong { value } => value@
            + " holds numbers that add up to more than a duration such as 5m or 20s is read with"@,
        PollIntervalError::Unparsable { value, .. } => value@ + " is not a duration such as 5m or 20s: "@ + detail,
    }
}

impl PollIntervalError {
    /// What the failure prints as, given what humantime's objection, if any, prints as.
    pub fn describe(&self, detail: &str) -> (text: String)
        ensures
            text@ == poll_interval_message(*self, detail@),
    {
        let mut text = String::new();
        match self {
            PollIntervalError::TooLong { value } => {
                text.append(value.as_str());
                text.append(" holds numbers that add up to more than a duration such as 5m or 20s is read with");
            },
            PollIntervalError::Unparsable { value, .. } => {
                text.append(value.as_str());
                text.append(" is not a duration such as 5m or 20s: ");
                text.append(detail);
            },
        }
        text
    }

    /// What the failure prints as. humantime's objection is given in its own words; a span that is
    /// too large is described exactly.
    pub fn to_string(&self) -> (text: String)
        ensures
            exists|detail: Seq<char>| text@ == poll_interval_message(*self, detail),
            *self is TooLong ==> text@ == poll_interval_message(*self, Seq::empty()),
    {
        let detail = match self {
            PollIntervalError::Unparsable { source, .. } => duration_error_text(source),
            PollIntervalError::TooLong { .. } => String::new(),
        };
        let text = self.describe(detail.as_str());
        assert(text@ == poll_interval_message(*self, detail@));
        text
    }
}

} // verus!
