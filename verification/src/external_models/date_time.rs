//! Timestamps in the notation of ISO 8601.
//!
//! Whether a text is such a timestamp is what the `time` crate says of it:
//! this module asks it, and keeps the text as it was written.

use crate::strings::{option_view, prefixed, result_view};
use crate::validation::{Outcome, PathStep, Validate, ValidationContext, ValidationResult};
use vstd::prelude::*;

verus! {

/// A moment in time with its offset from UTC, as the `time` crate holds it.
#[verifier::external_type_specification]
#[verifier::external_body]
pub struct ExOffsetDateTime(time::OffsetDateTime);

/// The error, in the words of the `time` crate, with which
/// `time::OffsetDateTime::parse` refuses `text` as a timestamp of ISO 8601,
/// where it refuses it.
pub uninterp spec fn iso8601_parse_failure(text: Seq<char>) -> Option<Seq<char>>;

/// Parses `text` with `time::OffsetDateTime::parse`, by the description
/// `Iso8601::DEFAULT`, and gives the error in words where parsing fails.
/// What it answers depends on `text` alone.
#[verifier::external_body]
fn offset_date_time_parse(text: &str) -> (failure: Option<String>)
    ensures
        option_view(failure) == iso8601_parse_failure(text@),
{
    time::OffsetDateTime::parse(text, &time::format_description::well_known::Iso8601::DEFAULT)
        .err().map(|error| error.to_string())
}

/// Reads the clock with `time::OffsetDateTime::now_utc`. Nothing is known
/// of the moment that comes back. The call panics only where the clock of
/// the machine stands outside the years that the `time` crate can hold.
#[verifier::external_body]
fn now_utc() -> time::OffsetDateTime {
    time::OffsetDateTime::now_utc()
}

/// Writes `moment` with `time::OffsetDateTime::format`, by the description
/// `Iso8601::DEFAULT`. Nothing comes back where the crate reports an error.
#[verifier::external_body]
fn offset_date_time_format(moment: time::OffsetDateTime) -> Option<String> {
    moment.format(&time::format_description::well_known::Iso8601::DEFAULT).ok()
}

/// The start of the message of the error for a text that is no timestamp.
pub open spec fn not_iso8601_prefix() -> Seq<char> {
    "DateTime does not conform to ISO 8601: "@
}

/// The message of the violation that a text that is no timestamp gives.
pub open spec fn not_iso8601_message() -> Seq<char> {
    "DateTime does not conform to ISO 8601"@
}

/// Why there is no timestamp.
#[derive(Debug, Eq)]
pub enum DateTimeError {
    /// The text is no timestamp of ISO 8601.
    InvalidDateTime(String),
    /// The current time could not be had.
    FailedCurrentTime,
}

impl PartialEq for DateTimeError {
    fn eq(&self, other: &Self) -> (equal: bool) {
        match (self, other) {
            (DateTimeError::InvalidDateTime(a), DateTimeError::InvalidDateTime(b)) => *a == *b,
            (DateTimeError::FailedCurrentTime, DateTimeError::FailedCurrentTime) => true,
            _ => false,
        }
    }
}

impl vstd::std_specs::cmp::PartialEqSpecImpl for DateTimeError {
    open spec fn obeys_eq_spec() -> bool {
        true
    }

    open spec fn eq_spec(&self, other: &Self) -> bool {
        self@ == other@
    }
}

/// The mathematical model of a [`DateTimeError`].
pub enum DateTimeFault {
    InvalidDateTime(Seq<char>),
    FailedCurrentTime,
}

impl DateTimeFault {
    /// The error in words.
    pub open spec fn to_text(self) -> Seq<char> {
        match self {
            DateTimeFault::InvalidDateTime(message) => "Invalid DateTime: "@ + message,
            DateTimeFault::FailedCurrentTime => "Failed to get current time"@,
        }
    }
}

impl View for DateTimeError {
    type V = DateTimeFault;

    open spec fn view(&self) -> DateTimeFault {
        match *self {
            DateTimeError::InvalidDateTime(message) => DateTimeFault::InvalidDateTime(message@),
            DateTimeError::FailedCurrentTime => DateTimeFault::FailedCurrentTime,
        }
    }
}

impl ToString for DateTimeError {
    /// The error in words.
    fn to_string(&self) -> (text: String)
        ensures
            text@ == self@.to_text(),
    {
        match self {
            DateTimeError::InvalidDateTime(message) => prefixed(
                "Invalid DateTime: ",
                message.as_str(),
            ),
            DateTimeError::FailedCurrentTime => "Failed to get current time".to_owned(),
        }
    }
}

/// A timestamp, kept in the very words in which it was given.
#[derive(Debug, Eq)]
pub struct DateTime(pub String);

impl View for DateTime {
    type V = Seq<char>;

    open spec fn view(&self) -> Seq<char> {
        self.0@
    }
}

impl DeepView for DateTime {
    type V = Seq<char>;

    open spec fn deep_view(&self) -> Seq<char> {
        self@
    }
}

impl Clone for DateTime {
    fn clone(&self) -> (copy: Self)
        ensures
            copy@ == self@,
    {
        DateTime(self.0.clone())
    }
}

impl PartialEq for DateTime {
    fn eq(&self, other: &Self) -> (equal: bool) {
        self.0 == other.0
    }
}

impl vstd::std_specs::cmp::PartialEqSpecImpl for DateTime {
    open spec fn obeys_eq_spec() -> bool {
        true
    }

    open spec fn eq_spec(&self, other: &Self) -> bool {
        self@ == other@
    }
}

impl DateTime {
    /// What [`DateTime::from_formatted`] gives.
    pub open spec fn spec_from_formatted(formatted: Option<Seq<char>>) -> Result<
        Seq<char>,
        DateTimeFault,
    > {
        match formatted {
            Some(text) => Ok(text),
            None => Err(DateTimeFault::FailedCurrentTime),
        }
    }

    /// What [`DateTime::from_parse`] gives.
    pub open spec fn spec_from_parse(value: Seq<char>, failure: Option<Seq<char>>) -> Result<
        Seq<char>,
        DateTimeFault,
    > {
        match failure {
            None => Ok(value),
            Some(reason) => Err(DateTimeFault::InvalidDateTime(not_iso8601_prefix() + reason)),
        }
    }

    /// What [`DateTime::try_from`] gives.
    pub open spec fn spec_try_from(value: Seq<char>) -> Result<Seq<char>, DateTimeFault> {
        Self::spec_from_parse(value, iso8601_parse_failure(value))
    }

    /// The current time in UTC, written in the notation of ISO 8601. Where
    /// there is no timestamp, the error is `FailedCurrentTime`.
    pub fn now() -> (result: Result<Self, DateTimeError>)
        ensures
            result matches Err(error) ==> error@ == DateTimeFault::FailedCurrentTime,
    {
        Self::from_formatted(offset_date_time_format(now_utc()))
    }

    /// The timestamp that holds `formatted`, the current time as it was
    /// written, or the error `FailedCurrentTime` where it could not be
    /// written.
    pub fn from_formatted(formatted: Option<String>) -> (result: Result<Self, DateTimeError>)
        ensures
            result_view(result) == Self::spec_from_formatted(option_view(formatted)),
    {
        match formatted {
            Some(text) => Ok(DateTime(text)),
            None => Err(DateTimeError::FailedCurrentTime),
        }
    }

    /// Takes `value` as a timestamp where parsing it gave no `failure`, and
    /// gives the error that holds the failure where it gave one.
    pub fn from_parse(value: String, failure: Option<String>) -> (result: Result<
        Self,
        DateTimeError,
    >)
        ensures
            result_view(result) == Self::spec_from_parse(value@, option_view(failure)),
    {
        match failure {
            None => Ok(DateTime(value)),
            Some(reason) => Err(
                DateTimeError::InvalidDateTime(
                    prefixed("DateTime does not conform to ISO 8601: ", reason.as_str()),
                ),
            ),
        }
    }
}

impl ToString for DateTime {
    /// A copy of the timestamp, letter for letter as it was given.
    fn to_string(&self) -> (text: String)
        ensures
            text@ == self@,
    {
        self.0.clone()
    }
}

impl TryFrom<String> for DateTime {
    type Error = DateTimeError;

    /// Takes `value` as a timestamp where it is one of ISO 8601, and keeps
    /// it letter for letter.
    fn try_from(value: String) -> (result: Result<Self, DateTimeError>)
        ensures
            result_view(result) == Self::spec_try_from(value@),
    {
        let failure = offset_date_time_parse(value.as_str());
        Self::from_parse(value, failure)
    }
}

/// The error that comes back holds a new string, so the conversion states
/// the model of what it gives, not the value itself.
impl vstd::std_specs::convert::TryFromSpecImpl<String> for DateTime {
    open spec fn obeys_try_from_spec() -> bool {
        false
    }

    open spec fn try_from_spec(value: String) -> Result<Self, DateTimeError> {
        match iso8601_parse_failure(value@) {
            None => Ok(DateTime(value)),
            Some(reason) => Err(
                DateTimeError::InvalidDateTime(
                    choose|message: String| message@ == not_iso8601_prefix() + reason,
                ),
            ),
        }
    }
}

impl Validate for DateTime {
    open spec fn spec_validate(&self, path: Seq<PathStep>) -> Outcome {
        if iso8601_parse_failure(self@) is None {
            Outcome::Passed
        } else {
            Outcome::failure(not_iso8601_message(), path)
        }
    }

    proof fn lemma_validate_located(&self, path: Seq<PathStep>) {
    }

    proof fn lemma_passes_anywhere(&self, path: Seq<PathStep>, other: Seq<PathStep>) {
    }

    fn validate_with_context(&self, context: ValidationContext) -> (result: ValidationResult) {
        match offset_date_time_parse(self.0.as_str()) {
            None => ValidationResult::Passed,
            Some(_) => ValidationResult::failure("DateTime does not conform to ISO 8601", context),
        }
    }
}

/// A text that is taken as a timestamp is kept letter for letter, so that
/// writing the timestamp out gives the text back; and every text is either
/// taken or refused as no timestamp.
pub proof fn lemma_try_from_keeps_text(value: Seq<char>)
    ensures
        DateTime::spec_try_from(value) matches Ok(text) ==> text == value,
        DateTime::spec_try_from(value) is Ok <==> iso8601_parse_failure(value) is None,
        DateTime::spec_try_from(value) matches Err(fault) ==> fault is InvalidDateTime,
{
}

/// A timestamp that holds what `DateTime::try_from` took passes
/// validation, wherever it stands.
pub proof fn lemma_try_from_validates(value: Seq<char>, timestamp: DateTime, path: Seq<PathStep>)
    requires
        DateTime::spec_try_from(value) == Ok::<Seq<char>, DateTimeFault>(timestamp@),
    ensures
        timestamp.spec_validate(path) == Outcome::Passed,
{
}

} // verus!
