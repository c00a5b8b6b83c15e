//! License identifiers and license expressions as SPDX defines them.
//!
//! The list of licenses and the grammar of expressions are those of the
//! `spdx` crate: this module asks it, and builds on what it answers.

use crate::strings::{option_view, prefixed, push_char, result_view};
use crate::validation::{Outcome, PathStep, Validate, ValidationContext, ValidationResult};
use vstd::prelude::*;

verus! {

/// Whether `spdx::license_id` finds a license for `name`.
pub uninterp spec fn spdx_license_id_exists(name: Seq<char>) -> bool;

/// The identifier of the license that `spdx::imprecise_license_id` matches
/// `name` to, where it matches one.
pub uninterp spec fn spdx_imprecise_license_id(name: Seq<char>) -> Option<Seq<char>>;

/// The reason for which `spdx::Expression::parse` refuses `expression`,
/// where it refuses it.
pub uninterp spec fn spdx_parse_failure(expression: Seq<char>) -> Option<Seq<char>>;

/// The reason for which `spdx::Expression::parse_mode` refuses `expression`
/// in its lax mode, where it refuses it.
pub uninterp spec fn spdx_lax_parse_failure(expression: Seq<char>) -> Option<Seq<char>>;

/// Asks `spdx::license_id` whether `name` is in its list of licenses. What
/// it answers depends on `name` alone.
#[verifier::external_body]
fn license_id(name: &str) -> (found: bool)
    ensures
        found == spdx_license_id_exists(name@),
{
    spdx::license_id(name).is_some()
}

/// Asks `spdx::imprecise_license_id` for the license that `name` loosely
/// names, and gives the identifier of that license as the list spells it.
/// What it answers depends on `name` alone. It takes the license from
/// `spdx::license_id`, by the very identifier that it gives back, so that
/// identifier is one that `spdx::license_id` finds.
#[verifier::external_body]
fn imprecise_license_id(name: &str) -> (matched: Option<String>)
    ensures
        option_view(matched) == spdx_imprecise_license_id(name@),
        matched matches Some(id) ==> spdx_license_id_exists(id@),
{
    spdx::imprecise_license_id(name).map(|matched| matched.0.name.to_string())
}

/// Parses `expression` with `spdx::Expression::parse` and gives the reason
/// of the error, as the crate words it, where parsing fails. What it
/// answers depends on `expression` alone.
#[verifier::external_body]
fn expression_parse(expression: &str) -> (failure: Option<String>)
    ensures
        option_view(failure) == spdx_parse_failure(expression@),
{
    spdx::Expression::parse(expression).err().map(|error| error.reason.to_string())
}

/// Parses `expression` with `spdx::Expression::parse_mode` in the mode
/// `spdx::ParseMode::LAX` and gives the reason of the error, as the crate
/// words it, where parsing fails. What it answers depends on `expression`
/// alone.
#[verifier::external_body]
fn expression_parse_lax(expression: &str) -> (failure: Option<String>)
    ensures
        option_view(failure) == spdx_lax_parse_failure(expression@),
{
    spdx::Expression::parse_mode(expression, spdx::ParseMode::LAX).err().map(
        |error| error.reason.to_string(),
    )
}

/// The message of the error for a text that is no license identifier.
pub open spec fn not_a_valid_identifier(value: Seq<char>) -> Seq<char> {
    "Not a valid identifier: "@ + value
}

/// The message of the violation that an unknown license identifier gives.
pub open spec fn invalid_identifier_message() -> Seq<char> {
    "SPDX identifier is not valid"@
}

/// The message of the violation that a malformed license expression gives.
pub open spec fn invalid_expression_message() -> Seq<char> {
    "SPDX expression is not valid"@
}

/// Why a text was not taken as a license identifier.
#[derive(Debug, Eq)]
pub enum SpdxIdentifierError {
    /// The text is no identifier of the list of licenses.
    InvalidSpdxIdentifier(String),
    /// The text does not even loosely name a license of the list.
    InvalidImpreciseSpdxIdentifier(String),
}

impl PartialEq for SpdxIdentifierError {
    fn eq(&self, other: &Self) -> (equal: bool) {
        match (self, other) {
            (
                SpdxIdentifierError::InvalidSpdxIdentifier(a),
                SpdxIdentifierError::InvalidSpdxIdentifier(b),
            ) => *a == *b,
            (
                SpdxIdentifierError::InvalidImpreciseSpdxIdentifier(a),
                SpdxIdentifierError::InvalidImpreciseSpdxIdentifier(b),
            ) => *a == *b,
            _ => false,
        }
    }
}

impl vstd::std_specs::cmp::PartialEqSpecImpl for SpdxIdentifierError {
    open spec fn obeys_eq_spec() -> bool {
        true
    }

    open spec fn eq_spec(&self, other: &Self) -> bool {
        self@ == other@
    }
}

/// The mathematical model of a [`SpdxIdentifierError`].
pub enum SpdxIdentifierFault {
    InvalidSpdxIdentifier(Seq<char>),
    InvalidImpreciseSpdxIdentifier(Seq<char>),
}

impl SpdxIdentifierFault {
    /// The error in words.
    pub open spec fn to_text(self) -> Seq<char> {
        match self {
            SpdxIdentifierFault::InvalidSpdxIdentifier(message) => "Invalid SPDX identifier: "@
                + message,
            SpdxIdentifierFault::InvalidImpreciseSpdxIdentifier(message) => {
                "Invalid Imprecise SPDX identifier: "@ + message
            },
        }
    }
}

impl View for SpdxIdentifierError {
    type V = SpdxIdentifierFault;

    open spec fn view(&self) -> SpdxIdentifierFault {
        match *self {
            SpdxIdentifierError::InvalidSpdxIdentifier(message) => {
                SpdxIdentifierFault::InvalidSpdxIdentifier(message@)
            },
            SpdxIdentifierError::InvalidImpreciseSpdxIdentifier(message) => {
                SpdxIdentifierFault::InvalidImpreciseSpdxIdentifier(message@)
            },
        }
    }
}

impl ToString for SpdxIdentifierError {
    /// The error in words.
    fn to_string(&self) -> (text: String)
        ensures
            text@ == self@.to_text(),
    {
        match self {
            SpdxIdentifierError::InvalidSpdxIdentifier(message) => prefixed(
                "Invalid SPDX identifier: ",
                message.as_str(),
            ),
            SpdxIdentifierError::InvalidImpreciseSpdxIdentifier(message) => prefixed(
                "Invalid Imprecise SPDX identifier: ",
                message.as_str(),
            ),
        }
    }
}

/// The identifier of one license of the SPDX list of licenses.
#[derive(Debug, Eq)]
pub struct SpdxIdentifier(pub String);

impl View for SpdxIdentifier {
    type V = Seq<char>;

    open spec fn view(&self) -> Seq<char> {
        self.0@
    }
}

impl DeepView for SpdxIdentifier {
    type V = Seq<char>;

    open spec fn deep_view(&self) -> Seq<char> {
        self@
    }
}

impl Clone for SpdxIdentifier {
    fn clone(&self) -> (copy: Self)
        ensures
            copy@ == self@,
    {
        SpdxIdentifier(self.0.clone())
    }
}

impl PartialEq for SpdxIdentifier {
    fn eq(&self, other: &Self) -> (equal: bool) {
        self.0 == other.0
    }
}

impl vstd::std_specs::cmp::PartialEqSpecImpl for SpdxIdentifier {
    open spec fn obeys_eq_spec() -> bool {
        true
    }

    open spec fn eq_spec(&self, other: &Self) -> bool {
        self@ == other@
    }
}

impl SpdxIdentifier {
    /// What [`SpdxIdentifier::from_lookup`] gives.
    pub open spec fn spec_from_lookup(value: Seq<char>, found: bool) -> Result<
        Seq<char>,
        SpdxIdentifierFault,
    > {
        if found {
            Ok(value)
        } else {
            Err(SpdxIdentifierFault::InvalidSpdxIdentifier(not_a_valid_identifier(value)))
        }
    }

    /// What [`SpdxIdentifier::try_from`] gives.
    pub open spec fn spec_try_from(value: Seq<char>) -> Result<Seq<char>, SpdxIdentifierFault> {
        Self::spec_from_lookup(value, spdx_license_id_exists(value))
    }

    /// What [`SpdxIdentifier::from_imprecise_match`] gives.
    pub open spec fn spec_from_imprecise_match(
        value: Seq<char>,
        matched: Option<Seq<char>>,
    ) -> Result<Seq<char>, SpdxIdentifierFault> {
        match matched {
            Some(canonical) => Ok(canonical),
            None => Err(
                SpdxIdentifierFault::InvalidImpreciseSpdxIdentifier(not_a_valid_identifier(value)),
            ),
        }
    }

    /// What [`SpdxIdentifier::imprecise`] gives.
    pub open spec fn spec_imprecise(value: Seq<char>) -> Result<Seq<char>, SpdxIdentifierFault> {
        Self::spec_from_imprecise_match(value, spdx_imprecise_license_id(value))
    }

    /// Takes `value` as a license identifier where `found` says that the
    /// list of licenses holds it.
    pub fn from_lookup(value: String, found: bool) -> (result: Result<Self, SpdxIdentifierError>)
        ensures
            result_view(result) == Self::spec_from_lookup(value@, found),
    {
        if found {
            Ok(SpdxIdentifier(value))
        } else {
            Err(
                SpdxIdentifierError::InvalidSpdxIdentifier(
                    prefixed("Not a valid identifier: ", value.as_str()),
                ),
            )
        }
    }

    /// Finds the license that `value` loosely names, as the `spdx` crate
    /// matches loose names, and gives the identifier of that license as the
    /// list of licenses spells it. That identifier passes validation.
    pub fn imprecise(value: String) -> (result: Result<Self, SpdxIdentifierError>)
        ensures
            result_view(result) == Self::spec_imprecise(value@),
            result matches Ok(id) ==> spdx_license_id_exists(id@),
    {
        let matched = imprecise_license_id(value.as_str());
        Self::from_imprecise_match(value, matched)
    }

    /// The identifier `matched` that was found for `value`, or the error
    /// for `value` where none was found.
    pub fn from_imprecise_match(value: String, matched: Option<String>) -> (result: Result<
        Self,
        SpdxIdentifierError,
    >)
        ensures
            result_view(result) == Self::spec_from_imprecise_match(value@, option_view(matched)),
    {
        match matched {
            Some(canonical) => Ok(SpdxIdentifier(canonical)),
            None => Err(
                SpdxIdentifierError::InvalidImpreciseSpdxIdentifier(
                    prefixed("Not a valid identifier: ", value.as_str()),
                ),
            ),
        }
    }
}

impl ToString for SpdxIdentifier {
    /// A copy of the identifier.
    fn to_string(&self) -> (text: String)
        ensures
            text@ == self@,
    {
        self.0.clone()
    }
}

impl TryFrom<String> for SpdxIdentifier {
    type Error = SpdxIdentifierError;

    /// Takes `value` as a license identifier where the list of licenses of
    /// the `spdx` crate holds it, and keeps it letter for letter.
    fn try_from(value: String) -> (result: Result<Self, SpdxIdentifierError>)
        ensures
            result_view(result) == Self::spec_try_from(value@),
    {
        let found = license_id(value.as_str());
        Self::from_lookup(value, found)
    }
}

/// The error that comes back holds a new string, so the conversion states
/// the model of what it gives, not the value itself.
impl vstd::std_specs::convert::TryFromSpecImpl<String> for SpdxIdentifier {
    open spec fn obeys_try_from_spec() -> bool {
        false
    }

    open spec fn try_from_spec(value: String) -> Result<Self, SpdxIdentifierError> {
        if spdx_license_id_exists(value@) {
            Ok(SpdxIdentifier(value))
        } else {
            Err(
                SpdxIdentifierError::InvalidSpdxIdentifier(
                    choose|message: String| message@ == not_a_valid_identifier(value@),
                ),
            )
        }
    }
}

impl Validate for SpdxIdentifier {
    open spec fn spec_validate(&self, path: Seq<PathStep>) -> Outcome {
        if spdx_license_id_exists(self@) {
            Outcome::Passed
        } else {
            Outcome::failure(invalid_identifier_message(), path)
        }
    }

    proof fn lemma_validate_located(&self, path: Seq<PathStep>) {
    }

    proof fn lemma_passes_anywhere(&self, path: Seq<PathStep>, other: Seq<PathStep>) {
    }

    fn validate_with_context(&self, context: ValidationContext) -> (result: ValidationResult) {
        if license_id(self.0.as_str()) {
            ValidationResult::Passed
        } else {
            ValidationResult::failure("SPDX identifier is not valid", context)
        }
    }
}

/// Why a text was not taken as a license expression.
#[derive(Debug, Eq)]
pub enum SpdxExpressionError {
    /// The text does not follow the grammar of license expressions.
    InvalidSpdxExpression(String),
    /// The text cannot be read as a license expression even leniently.
    InvalidLaxSpdxExpression(String),
}

impl PartialEq for SpdxExpressionError {
    fn eq(&self, other: &Self) -> (equal: bool) {
        match (self, other) {
            (
                SpdxExpressionError::InvalidSpdxExpression(a),
                SpdxExpressionError::InvalidSpdxExpression(b),
            ) => *a == *b,
            (
                SpdxExpressionError::InvalidLaxSpdxExpression(a),
                SpdxExpressionError::InvalidLaxSpdxExpression(b),
            ) => *a == *b,
            _ => false,
        }
    }
}

impl vstd::std_specs::cmp::PartialEqSpecImpl for SpdxExpressionError {
    open spec fn obeys_eq_spec() -> bool {
        true
    }

    open spec fn eq_spec(&self, other: &Self) -> bool {
        self@ == other@
    }
}

/// The mathematical model of a [`SpdxExpressionError`].
pub enum SpdxExpressionFault {
    InvalidSpdxExpression(Seq<char>),
    InvalidLaxSpdxExpression(Seq<char>),
}

impl SpdxExpressionFault {
    /// The error in words.
    pub open spec fn to_text(self) -> Seq<char> {
        match self {
            SpdxExpressionFault::InvalidSpdxExpression(message) => "Invalid SPDX expression: "@
                + message,
            SpdxExpressionFault::InvalidLaxSpdxExpression(message) => {
                "Invalid Lax SPDX expression: "@ + message
            },
        }
    }
}

impl View for SpdxExpressionError {
    type V = SpdxExpressionFault;

    open spec fn view(&self) -> SpdxExpressionFault {
        match *self {
            SpdxExpressionError::InvalidSpdxExpression(message) => {
                SpdxExpressionFault::InvalidSpdxExpression(message@)
            },
            SpdxExpressionError::InvalidLaxSpdxExpression(message) => {
                SpdxExpressionFault::InvalidLaxSpdxExpression(message@)
            },
        }
    }
}

impl ToString for SpdxExpressionError {
    /// The error in words.
    fn to_string(&self) -> (text: String)
        ensures
            text@ == self@.to_text(),
    {
        match self {
            SpdxExpressionError::InvalidSpdxExpression(message) => prefixed(
                "Invalid SPDX expression: ",
                message.as_str(),
            ),
            SpdxExpressionError::InvalidLaxSpdxExpression(message) => prefixed(
                "Invalid Lax SPDX expression: ",
                message.as_str(),
            ),
        }
    }
}

/// `text` with each slash replaced by the word `OR` between two spaces.
pub open spec fn slash_to_or(text: Seq<char>) -> Seq<char>
    decreases text.len(),
{
    if text.len() == 0 {
        Seq::empty()
    } else if text.last() == '/' {
        slash_to_or(text.drop_last()) + " OR "@
    } else {
        slash_to_or(text.drop_last()).push(text.last())
    }
}

/// A copy of `text` in which each slash is replaced by the word `OR`
/// between two spaces.
fn replace_slashes(text: &str) -> (replaced: String)
    ensures
        replaced@ == slash_to_or(text@),
{
    let mut replaced = String::new();
    proof {
        assert(text@.take(0) =~= Seq::<char>::empty());
    }
    for c in it: text.chars()
        invariant
            it.seq() == text@,
            replaced@ == slash_to_or(text@.take(it.index() as int)),
    {
        proof {
            let next = text@.take(it.index() + 1);
            assert(next.drop_last() =~= text@.take(it.index() as int));
            assert(next.last() == c);
        }
        if c == '/' {
            replaced.append(" OR ");
        } else {
            push_char(&mut replaced, c);
        }
    }
    proof {
        assert(text@.take(text@.len() as int) =~= text@);
    }
    replaced
}

/// A license expression: license identifiers joined by `AND`, `OR` and
/// `WITH`, as SPDX defines them.
#[derive(Debug, Eq)]
pub struct SpdxExpression(pub String);

impl View for SpdxExpression {
    type V = Seq<char>;

    open spec fn view(&self) -> Seq<char> {
        self.0@
    }
}

impl DeepView for SpdxExpression {
    type V = Seq<char>;

    open spec fn deep_view(&self) -> Seq<char> {
        self@
    }
}

impl Clone for SpdxExpression {
    fn clone(&self) -> (copy: Self)
        ensures
            copy@ == self@,
    {
        SpdxExpression(self.0.clone())
    }
}

impl PartialEq for SpdxExpression {
    fn eq(&self, other: &Self) -> (equal: bool) {
        self.0 == other.0
    }
}

impl vstd::std_specs::cmp::PartialEqSpecImpl for SpdxExpression {
    open spec fn obeys_eq_spec() -> bool {
        true
    }

    open spec fn eq_spec(&self, other: &Self) -> bool {
        self@ == other@
    }
}

impl SpdxExpression {
    /// What [`SpdxExpression::from_parse`] gives.
    pub open spec fn spec_from_parse(value: Seq<char>, failure: Option<Seq<char>>) -> Result<
        Seq<char>,
        SpdxExpressionFault,
    > {
        match failure {
            None => Ok(value),
            Some(reason) => Err(SpdxExpressionFault::InvalidSpdxExpression(reason)),
        }
    }

    /// What [`SpdxExpression::try_from`] gives.
    pub open spec fn spec_try_from(value: Seq<char>) -> Result<Seq<char>, SpdxExpressionFault> {
        Self::spec_from_parse(value, spdx_parse_failure(value))
    }

    /// What [`SpdxExpression::from_strict_result`] gives.
    pub open spec fn spec_from_strict_result(
        strict: Result<Seq<char>, SpdxExpressionFault>,
    ) -> Result<Seq<char>, SpdxExpressionFault> {
        match strict {
            Ok(converted) => Ok(converted),
            Err(fault) => Err(SpdxExpressionFault::InvalidLaxSpdxExpression(fault.to_text())),
        }
    }

    /// What [`SpdxExpression::convert_lax`] gives for an expression that
    /// holds `text`.
    pub open spec fn spec_convert_lax(text: Seq<char>) -> Result<Seq<char>, SpdxExpressionFault> {
        Self::spec_from_strict_result(Self::spec_try_from(slash_to_or(text)))
    }

    /// What [`SpdxExpression::from_lax_parse`] gives.
    pub open spec fn spec_from_lax_parse(value: Seq<char>, failure: Option<Seq<char>>) -> Result<
        Seq<char>,
        SpdxExpressionFault,
    > {
        match failure {
            None => Self::spec_convert_lax(value),
            Some(reason) => Err(SpdxExpressionFault::InvalidLaxSpdxExpression(reason)),
        }
    }

    /// What [`SpdxExpression::parse_lax`] gives.
    pub open spec fn spec_parse_lax(value: Seq<char>) -> Result<Seq<char>, SpdxExpressionFault> {
        Self::spec_from_lax_parse(value, spdx_lax_parse_failure(value))
    }

    /// Takes `value` as a license expression where parsing it gave no
    /// `failure`, and gives the error that holds the failure where it gave
    /// one.
    pub fn from_parse(value: String, failure: Option<String>) -> (result: Result<
        Self,
        SpdxExpressionError,
    >)
        ensures
            result_view(result) == Self::spec_from_parse(value@, option_view(failure)),
    {
        match failure {
            None => Ok(SpdxExpression(value)),
            Some(reason) => Err(SpdxExpressionError::InvalidSpdxExpression(reason)),
        }
    }

    /// Takes a text that is nearly a license expression: one that may hold
    /// slashes in place of `OR`. The text must parse leniently; then each
    /// slash becomes the word `OR` between two spaces, and what comes of it
    /// must follow the grammar strictly. The expression holds the text
    /// after that change.
    pub fn parse_lax(value: String) -> (result: Result<Self, SpdxExpressionError>)
        ensures
            result_view(result) == Self::spec_parse_lax(value@),
    {
        let failure = expression_parse_lax(value.as_str());
        Self::from_lax_parse(value, failure)
    }

    /// Goes on from a lenient parse of `value`: where it gave a `failure`,
    /// the error holds it; where it gave none, the outcome is that of
    /// [`SpdxExpression::convert_lax`] on `value`.
    pub fn from_lax_parse(value: String, failure: Option<String>) -> (result: Result<
        Self,
        SpdxExpressionError,
    >)
        ensures
            result_view(result) == Self::spec_from_lax_parse(value@, option_view(failure)),
    {
        match failure {
            None => SpdxExpression(value).convert_lax(),
            Some(reason) => Err(SpdxExpressionError::InvalidLaxSpdxExpression(reason)),
        }
    }

    /// Replaces each slash of this text by the word `OR` between two
    /// spaces and takes what comes of it as a license expression where it
    /// follows the grammar strictly. Where it does not, the error is a
    /// lenient one that holds the strict error in words.
    pub fn convert_lax(self) -> (result: Result<Self, SpdxExpressionError>)
        ensures
            result_view(result) == Self::spec_convert_lax(self@),
    {
        let converted = replace_slashes(self.0.as_str());
        Self::from_strict_result(Self::try_from(converted))
    }

    /// What a lenient reading makes of the outcome `strict` of a strict
    /// one: the expression where there is one, else a lenient error that
    /// holds the strict error in words.
    pub fn from_strict_result(strict: Result<Self, SpdxExpressionError>) -> (result: Result<
        Self,
        SpdxExpressionError,
    >)
        ensures
            result_view(result) == Self::spec_from_strict_result(result_view(strict)),
    {
        match strict {
            Ok(converted) => Ok(converted),
            Err(error) => Err(SpdxExpressionError::InvalidLaxSpdxExpression(error.to_string())),
        }
    }
}

impl ToString for SpdxExpression {
    /// A copy of the expression.
    fn to_string(&self) -> (text: String)
        ensures
            text@ == self@,
    {
        self.0.clone()
    }
}

impl TryFrom<String> for SpdxExpression {
    type Error = SpdxExpressionError;

    /// Takes `value` as a license expression where it follows the grammar
    /// of license expressions strictly.
    fn try_from(value: String) -> (result: Result<Self, SpdxExpressionError>)
        ensures
            result_view(result) == Self::spec_try_from(value@),
    {
        let failure = expression_parse(value.as_str());
        Self::from_parse(value, failure)
    }
}

/// The error that comes back holds a new string, so the conversion states
/// the model of what it gives, not the value itself.
impl vstd::std_specs::convert::TryFromSpecImpl<String> for SpdxExpression {
    open spec fn obeys_try_from_spec() -> bool {
        false
    }

    open spec fn try_from_spec(value: String) -> Result<Self, SpdxExpressionError> {
        match spdx_parse_failure(value@) {
            None => Ok(SpdxExpression(value)),
            Some(reason) => Err(
                SpdxExpressionError::InvalidSpdxExpression(
                    choose|message: String| message@ == reason,
                ),
            ),
        }
    }
}

impl Validate for SpdxExpression {
    open spec fn spec_validate(&self, path: Seq<PathStep>) -> Outcome {
        if spdx_parse_failure(self@) is None {
            Outcome::Passed
        } else {
            Outcome::failure(invalid_expression_message(), path)
        }
    }

    proof fn lemma_validate_located(&self, path: Seq<PathStep>) {
    }

    proof fn lemma_passes_anywhere(&self, path: Seq<PathStep>, other: Seq<PathStep>) {
    }

    fn validate_with_context(&self, context: ValidationContext) -> (result: ValidationResult) {
        match expression_parse(self.0.as_str()) {
            None => ValidationResult::Passed,
            Some(_) => ValidationResult::failure("SPDX expression is not valid", context),
        }
    }
}

/// An identifier that `SpdxIdentifier::try_from` took is the text that was
/// given, and it passes validation wherever it stands.
pub proof fn lemma_identifier_try_from_validates(
    value: Seq<char>,
    id: SpdxIdentifier,
    path: Seq<PathStep>,
)
    requires
        SpdxIdentifier::spec_try_from(value) == Ok::<Seq<char>, SpdxIdentifierFault>(id@),
    ensures
        id@ == value,
        id.spec_validate(path) == Outcome::Passed,
{
}

/// An expression that `SpdxExpression::try_from` took is the text that was
/// given, and it passes validation wherever it stands.
pub proof fn lemma_expression_try_from_validates(
    value: Seq<char>,
    expression: SpdxExpression,
    path: Seq<PathStep>,
)
    requires
        SpdxExpression::spec_try_from(value) == Ok::<Seq<char>, SpdxExpressionFault>(expression@),
    ensures
        expression@ == value,
        expression.spec_validate(path) == Outcome::Passed,
{
}

/// Reading a text leniently gives, where it gives an expression, the
/// expression that reading strictly gives for the text with its slashes
/// replaced; and that expression passes validation wherever it stands.
pub proof fn lemma_parse_lax_is_strict_after_replacing(
    value: Seq<char>,
    expression: SpdxExpression,
    path: Seq<PathStep>,
)
    requires
        SpdxExpression::spec_parse_lax(value) == Ok::<Seq<char>, SpdxExpressionFault>(expression@),
    ensures
        expression@ == slash_to_or(value),
        SpdxExpression::spec_try_from(slash_to_or(value)) == SpdxExpression::spec_parse_lax(value),
        expression.spec_validate(path) == Outcome::Passed,
{
}

/// Replacing slashes leaves a text without slashes as it is.
pub proof fn lemma_slash_to_or_without_slash(text: Seq<char>)
    requires
        forall|i: int| 0 <= i < text.len() ==> text[i] != '/',
    ensures
        slash_to_or(text) == text,
    decreases text.len(),
{
    if text.len() > 0 {
        lemma_slash_to_or_without_slash(text.drop_last());
        assert(text.drop_last().push(text.last()) =~= text);
    }
}

/// The text that replacing slashes gives holds no slash.
pub proof fn lemma_slash_to_or_removes_slashes(text: Seq<char>)
    ensures
        forall|i: int| 0 <= i < slash_to_or(text).len() ==> slash_to_or(text)[i] != '/',
    decreases text.len(),
{
    reveal_strlit(" OR ");
    if text.len() > 0 {
        let front = slash_to_or(text.drop_last());
        lemma_slash_to_or_removes_slashes(text.drop_last());
        assert forall|i: int| 0 <= i < slash_to_or(text).len() implies slash_to_or(text)[i]
            != '/' by {
            if i < front.len() {
                assert(slash_to_or(text)[i] == front[i]);
            } else if text.last() == '/' {
                assert(slash_to_or(text)[i] == " OR "@[i - front.len()]);
            }
        }
    }
}

} // verus!
