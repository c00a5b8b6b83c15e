//! References to resources in the notation of RFC 3986.
//!
//! Whether a text is such a reference is what the `fluent-uri` crate says
//! of it: this module asks it, and keeps the text as it was written.

use crate::strings::{prefixed, result_view};
use crate::validation::{Outcome, PathStep, Validate, ValidationContext, ValidationResult};
use vstd::prelude::*;

verus! {

/// The longest text, in bytes, that the parser takes: the largest `i32`.
pub const MAX_URI_BYTES: usize = 0x7fff_ffff;

/// Whether `fluent_uri::Uri::parse` takes `text` as a URI reference.
pub uninterp spec fn fluent_uri_parses(text: Seq<char>) -> bool;

/// Parses `text` with `fluent_uri::Uri::parse` and says whether it is a URI
/// reference. What it answers depends on `text` alone. The crate panics on
/// a text of more bytes than `i32::MAX`, so such a text is not handed to
/// it.
#[verifier::external_body]
fn uri_parse(text: &str) -> (parses: bool)
    requires
        text.len() <= MAX_URI_BYTES,
    ensures
        parses == fluent_uri_parses(text@),
{
    fluent_uri::Uri::parse(text).is_ok()
}

/// The number of bytes that `text` takes as a string.
pub open spec fn byte_length(text: Seq<char>) -> usize {
    vstd::utf8::encode_utf8(text).len() as usize
}

/// Whether `text` is a URI reference: it takes no more bytes than the
/// parser accepts, and the parser takes it.
pub open spec fn is_uri(text: Seq<char>) -> bool {
    byte_length(text) <= MAX_URI_BYTES && fluent_uri_parses(text)
}

/// The message of the error and of the violation that a text that is no
/// URI reference gives.
pub open spec fn not_rfc3986_message() -> Seq<char> {
    "Uri does not conform to RFC 3986"@
}

/// Why a text was not taken as a URI reference.
#[derive(Debug, Eq)]
pub enum UriError {
    /// The text is no URI reference of RFC 3986.
    InvalidUri(String),
}

/// The mathematical model of a [`UriError`].
pub enum UriFault {
    InvalidUri(Seq<char>),
}

impl UriFault {
    /// The error in words.
    pub open spec fn to_text(self) -> Seq<char> {
        match self {
            UriFault::InvalidUri(message) => "Invalid URI: "@ + message,
        }
    }
}

impl View for UriError {
    type V = UriFault;

    open spec fn view(&self) -> UriFault {
        match *self {
            UriError::InvalidUri(message) => UriFault::InvalidUri(message@),
        }
    }
}

impl PartialEq for UriError {
    fn eq(&self, other: &Self) -> (equal: bool) {
        match (self, other) {
            (UriError::InvalidUri(a), UriError::InvalidUri(b)) => *a == *b,
        }
    }
}

impl vstd::std_specs::cmp::PartialEqSpecImpl for UriError {
    open spec fn obeys_eq_spec() -> bool {
        true
    }

    open spec fn eq_spec(&self, other: &Self) -> bool {
        self@ == other@
    }
}

impl ToString for UriError {
    /// The error in words.
    fn to_string(&self) -> (text: String)
        ensures
            text@ == self@.to_text(),
    {
        match self {
            UriError::InvalidUri(message) => prefixed("Invalid URI: ", message.as_str()),
        }
    }
}

/// A reference to a resource, kept in the very words in which it was given.
#[derive(Debug, Eq)]
pub struct Uri(pub String);

impl View for Uri {
    type V = Seq<char>;

    open spec fn view(&self) -> Seq<char> {
        self.0@
    }
}

impl DeepView for Uri {
    type V = Seq<char>;

    open spec fn deep_view(&self) -> Seq<char> {
        self@
    }
}

impl Clone for Uri {
    fn clone(&self) -> (copy: Self)
        ensures
            copy@ == self@,
    {
        Uri(self.0.clone())
    }
}

impl PartialEq for Uri {
    fn eq(&self, other: &Self) -> (equal: bool) {
        self.0 == other.0
    }
}

impl vstd::std_specs::cmp::PartialEqSpecImpl for Uri {
    open spec fn obeys_eq_spec() -> bool {
        true
    }

    open spec fn eq_spec(&self, other: &Self) -> bool {
        self@ == other@
    }
}

impl Uri {
    /// What [`Uri::try_from`] gives.
    pub open spec fn spec_try_from(value: Seq<char>) -> Result<Seq<char>, UriFault> {
        Self::spec_from_check(value, is_uri(value))
    }

    /// What [`Uri::from_check`] gives.
    pub open spec fn spec_from_check(value: Seq<char>, accepted: bool) -> Result<
        Seq<char>,
        UriFault,
    > {
        if accepted {
            Ok(value)
        } else {
            Err(UriFault::InvalidUri(not_rfc3986_message()))
        }
    }

    /// Whether `text` is a URI reference.
    pub fn check(text: &str) -> (accepted: bool)
        ensures
            accepted == is_uri(text@),
    {
        if text.len() > MAX_URI_BYTES {
            false
        } else {
            uri_parse(text)
        }
    }

    /// Takes `value` as a URI reference where `accepted` says that it is
    /// one.
    pub fn from_check(value: String, accepted: bool) -> (result: Result<Self, UriError>)
        ensures
            result_view(result) == Self::spec_from_check(value@, accepted),
    {
        if accepted {
            Ok(Uri(value))
        } else {
            Err(UriError::InvalidUri("Uri does not conform to RFC 3986".to_owned()))
        }
    }
}

impl ToString for Uri {
    /// A copy of the reference, letter for letter as it was given.
    fn to_string(&self) -> (text: String)
        ensures
            text@ == self@,
    {
        self.0.clone()
    }
}

impl TryFrom<String> for Uri {
    type Error = UriError;

    /// Takes `value` as a URI reference where it is one, and keeps it
    /// letter for letter.
    fn try_from(value: String) -> (result: Result<Self, UriError>)
        ensures
            result_view(result) == Self::spec_try_from(value@),
    {
        let accepted = Self::check(value.as_str());
        Self::from_check(value, accepted)
    }
}

/// The error that comes back holds a new string, so the conversion states
/// the model of what it gives, not the value itself.
impl vstd::std_specs::convert::TryFromSpecImpl<String> for Uri {
    open spec fn obeys_try_from_spec() -> bool {
        false
    }

    open spec fn try_from_spec(value: String) -> Result<Self, UriError> {
        if is_uri(value@) {
            Ok(Uri(value))
        } else {
            Err(UriError::InvalidUri(choose|message: String| message@ == not_rfc3986_message()))
        }
    }
}

impl Validate for Uri {
    open spec fn spec_validate(&self, path: Seq<PathStep>) -> Outcome {
        if is_uri(self@) {
            Outcome::Passed
        } else {
            Outcome::failure(not_rfc3986_message(), path)
        }
    }

    proof fn lemma_validate_located(&self, path: Seq<PathStep>) {
    }

    proof fn lemma_passes_anywhere(&self, path: Seq<PathStep>, other: Seq<PathStep>) {
    }

    fn validate_with_context(&self, context: ValidationContext) -> (result: ValidationResult) {
        if Self::check(self.0.as_str()) {
            ValidationResult::Passed
        } else {
            ValidationResult::failure("Uri does not conform to RFC 3986", context)
        }
    }
}

/// A reference that `Uri::try_from` took is the text that was given, and
/// it passes validation wherever it stands.
pub proof fn lemma_uri_try_from_validates(value: Seq<char>, uri: Uri, path: Seq<PathStep>)
    requires
        Uri::spec_try_from(value) == Ok::<Seq<char>, UriFault>(uri@),
    ensures
        uri@ == value,
        uri.spec_validate(path) == Outcome::Passed,
{
}

} // verus!
