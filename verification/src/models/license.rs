//! Licenses: a single license, named or identified, or an expression over
//! several.

use crate::external_models::normalized_string::{is_normalized, normalize, NormalizedString};
use crate::external_models::spdx::{
    spdx_license_id_exists, SpdxExpression, SpdxIdentifier, SpdxIdentifierError,
    SpdxIdentifierFault,
};
use crate::external_models::uri::Uri;
use crate::models::attached_text::{AttachedText, AttachedTextModel};
use crate::sequences::vec_eq;
use crate::strings::result_view;
use crate::validation::{
    case_path, field_path, lemma_merge_violations, lemma_optional_passes_anywhere,
    lemma_validate_each_located, lemma_validate_each_passes_anywhere,
    lemma_validate_optional_located, lemma_within_parent, spec_validate_each,
    spec_validate_optional, validate_each, Outcome, PathStep, Validate, ValidationContext,
    ValidationResult,
};
use vstd::prelude::*;

verus! {

/// What says which license a record is about.
#[derive(Debug, Eq)]
pub enum LicenseIdentifier {
    /// An identifier of the SPDX list of licenses.
    SpdxId(SpdxIdentifier),
    /// The name of a license that the SPDX list does not hold.
    Name(NormalizedString),
}

/// The mathematical model of a [`LicenseIdentifier`].
pub enum LicenseIdentifierModel {
    SpdxId(Seq<char>),
    Name(Seq<char>),
}

impl View for LicenseIdentifier {
    type V = LicenseIdentifierModel;

    open spec fn view(&self) -> LicenseIdentifierModel {
        match *self {
            LicenseIdentifier::SpdxId(id) => LicenseIdentifierModel::SpdxId(id@),
            LicenseIdentifier::Name(name) => LicenseIdentifierModel::Name(name@),
        }
    }
}

impl DeepView for LicenseIdentifier {
    type V = LicenseIdentifierModel;

    open spec fn deep_view(&self) -> LicenseIdentifierModel {
        self@
    }
}

impl Clone for LicenseIdentifier {
    fn clone(&self) -> (copy: Self)
        ensures
            copy@ == self@,
    {
        match self {
            LicenseIdentifier::SpdxId(id) => LicenseIdentifier::SpdxId(id.clone()),
            LicenseIdentifier::Name(name) => LicenseIdentifier::Name(name.clone()),
        }
    }
}

impl PartialEq for LicenseIdentifier {
    fn eq(&self, other: &Self) -> (equal: bool) {
        match (self, other) {
            (LicenseIdentifier::SpdxId(a), LicenseIdentifier::SpdxId(b)) => *a == *b,
            (LicenseIdentifier::Name(a), LicenseIdentifier::Name(b)) => *a == *b,
            _ => false,
        }
    }
}

impl vstd::std_specs::cmp::PartialEqSpecImpl for LicenseIdentifier {
    open spec fn obeys_eq_spec() -> bool {
        true
    }

    open spec fn eq_spec(&self, other: &Self) -> bool {
        self@ == other@
    }
}

impl Validate for LicenseIdentifier {
    open spec fn spec_validate(&self, path: Seq<PathStep>) -> Outcome {
        match *self {
            LicenseIdentifier::Name(name) => name.spec_validate(case_path(path, "Name"@)),
            LicenseIdentifier::SpdxId(id) => id.spec_validate(case_path(path, "SpdxId"@)),
        }
    }

    proof fn lemma_validate_located(&self, path: Seq<PathStep>) {
        match *self {
            LicenseIdentifier::Name(name) => {
                let step = PathStep::Case { name: "Name"@ };
                name.lemma_validate_located(path.push(step));
                lemma_within_parent(self.spec_validate(path), path, step);
            },
            LicenseIdentifier::SpdxId(id) => {
                let step = PathStep::Case { name: "SpdxId"@ };
                id.lemma_validate_located(path.push(step));
                lemma_within_parent(self.spec_validate(path), path, step);
            },
        }
    }

    proof fn lemma_passes_anywhere(&self, path: Seq<PathStep>, other: Seq<PathStep>) {
        match *self {
            LicenseIdentifier::Name(name) => {
                name.lemma_passes_anywhere(case_path(path, "Name"@), case_path(other, "Name"@));
            },
            LicenseIdentifier::SpdxId(id) => {
                id.lemma_passes_anywhere(case_path(path, "SpdxId"@), case_path(other, "SpdxId"@));
            },
        }
    }

    fn validate_with_context(&self, context: ValidationContext) -> (result: ValidationResult) {
        match self {
            LicenseIdentifier::Name(name) => {
                let name_context = context.with_enum_variant("Name");
                name.validate_with_context(name_context)
            },
            LicenseIdentifier::SpdxId(id) => {
                let spdxid_context = context.with_enum_variant("SpdxId");
                id.validate_with_context(spdxid_context)
            },
        }
    }
}

/// A license: which one it is, its wording where that is attached, and
/// where it can be read where that is known.
#[derive(Debug, Eq)]
pub struct License {
    pub license_identifier: LicenseIdentifier,
    pub text: Option<AttachedText>,
    pub url: Option<Uri>,
}

/// The mathematical model of a [`License`].
pub struct LicenseModel {
    pub license_identifier: LicenseIdentifierModel,
    pub text: Option<AttachedTextModel>,
    pub url: Option<Seq<char>>,
}

impl View for License {
    type V = LicenseModel;

    open spec fn view(&self) -> LicenseModel {
        LicenseModel {
            license_identifier: self.license_identifier@,
            text: self.text.deep_view(),
            url: self.url.deep_view(),
        }
    }
}

impl DeepView for License {
    type V = LicenseModel;

    open spec fn deep_view(&self) -> LicenseModel {
        self@
    }
}

impl Clone for License {
    fn clone(&self) -> (copy: Self)
        ensures
            copy@ == self@,
    {
        let text = match &self.text {
            Some(text) => Some(text.clone()),
            None => None,
        };
        let url = match &self.url {
            Some(url) => Some(url.clone()),
            None => None,
        };
        License { license_identifier: self.license_identifier.clone(), text, url }
    }
}

impl PartialEq for License {
    fn eq(&self, other: &Self) -> (equal: bool) {
        self.license_identifier == other.license_identifier && self.text == other.text && self.url
            == other.url
    }
}

impl vstd::std_specs::cmp::PartialEqSpecImpl for License {
    open spec fn obeys_eq_spec() -> bool {
        true
    }

    open spec fn eq_spec(&self, other: &Self) -> bool {
        self@ == other@
    }
}

impl License {
    /// The model of the license that holds nothing but `identifier`.
    pub open spec fn bare(identifier: LicenseIdentifierModel) -> LicenseModel {
        LicenseModel { license_identifier: identifier, text: None, url: None }
    }

    /// What [`License::license_id`] gives.
    pub open spec fn spec_license_id(license: Seq<char>) -> Result<
        LicenseModel,
        SpdxIdentifierFault,
    > {
        match SpdxIdentifier::spec_try_from(license) {
            Ok(id) => Ok(Self::bare(LicenseIdentifierModel::SpdxId(id))),
            Err(fault) => Err(fault),
        }
    }

    /// The license that the normalized form of `license` names, without
    /// text and without a place to read it. It passes validation wherever
    /// it stands.
    pub fn named_license(license: &str) -> (named: Self)
        ensures
            named@ == Self::bare(LicenseIdentifierModel::Name(normalize(license@))),
            forall|path: Seq<PathStep>| #[trigger] named.spec_validate(path) == Outcome::Passed,
    {
        let named = License {
            license_identifier: LicenseIdentifier::Name(NormalizedString::new(license)),
            text: None,
            url: None,
        };
        assert(is_normalized(normalize(license@)));
        named
    }

    /// The license that `license` identifies in the SPDX list of licenses,
    /// without text and without a place to read it. Where there is one, it
    /// passes validation wherever it stands.
    pub fn license_id(license: &str) -> (result: Result<Self, SpdxIdentifierError>)
        ensures
            result_view(result) == Self::spec_license_id(license@),
            result matches Ok(identified) ==> forall|path: Seq<PathStep>| #[trigger]
                identified.spec_validate(path) == Outcome::Passed,
    {
        match SpdxIdentifier::try_from(license.to_owned()) {
            Ok(id) => {
                assert(spdx_license_id_exists(id@));
                Ok(
                    License {
                        license_identifier: LicenseIdentifier::SpdxId(id),
                        text: None,
                        url: None,
                    },
                )
            },
            Err(error) => Err(error),
        }
    }
}

impl Validate for License {
    open spec fn spec_validate(&self, path: Seq<PathStep>) -> Outcome {
        self.license_identifier.spec_validate(
            field_path(path, "License"@, "license_identifier"@),
        ).merge(spec_validate_optional(self.text, field_path(path, "License"@, "text"@))).merge(
            spec_validate_optional(self.url, field_path(path, "License"@, "url"@)),
        )
    }

    proof fn lemma_validate_located(&self, path: Seq<PathStep>) {
        let identifier_step = PathStep::Field { record: "License"@, field: "license_identifier"@ };
        let text_step = PathStep::Field { record: "License"@, field: "text"@ };
        let url_step = PathStep::Field { record: "License"@, field: "url"@ };
        let identifier = self.license_identifier.spec_validate(path.push(identifier_step));
        let text = spec_validate_optional(self.text, path.push(text_step));
        let url = spec_validate_optional(self.url, path.push(url_step));
        self.license_identifier.lemma_validate_located(path.push(identifier_step));
        lemma_validate_optional_located(self.text, path.push(text_step));
        lemma_validate_optional_located(self.url, path.push(url_step));
        lemma_within_parent(identifier, path, identifier_step);
        lemma_within_parent(text, path, text_step);
        lemma_within_parent(url, path, url_step);
        lemma_merge_violations(identifier, text);
        lemma_merge_violations(identifier.merge(text), url);
    }

    proof fn lemma_passes_anywhere(&self, path: Seq<PathStep>, other: Seq<PathStep>) {
        self.license_identifier.lemma_passes_anywhere(
            field_path(path, "License"@, "license_identifier"@),
            field_path(other, "License"@, "license_identifier"@),
        );
        lemma_optional_passes_anywhere(
            self.text,
            field_path(path, "License"@, "text"@),
            field_path(other, "License"@, "text"@),
        );
        lemma_optional_passes_anywhere(
            self.url,
            field_path(path, "License"@, "url"@),
            field_path(other, "License"@, "url"@),
        );
    }

    fn validate_with_context(&self, context: ValidationContext) -> (result: ValidationResult) {
        let license_identifier_context = context.with_struct("License", "license_identifier");
        let mut result = ValidationResult::Passed.merge(
            self.license_identifier.validate_with_context(license_identifier_context),
        );
        if let Some(text) = &self.text {
            let context = context.with_struct("License", "text");
            result = result.merge(text.validate_with_context(context));
        }
        if let Some(url) = &self.url {
            let context = context.with_struct("License", "url");
            result = result.merge(url.validate_with_context(context));
        }
        result
    }
}

/// Either a single license or an expression over several.
#[derive(Debug, Eq)]
pub enum LicenseChoice {
    License(License),
    Expression(SpdxExpression),
}

/// The mathematical model of a [`LicenseChoice`].
pub enum LicenseChoiceModel {
    License(LicenseModel),
    Expression(Seq<char>),
}

impl View for LicenseChoice {
    type V = LicenseChoiceModel;

    open spec fn view(&self) -> LicenseChoiceModel {
        match *self {
            LicenseChoice::License(license) => LicenseChoiceModel::License(license@),
            LicenseChoice::Expression(expression) => LicenseChoiceModel::Expression(expression@),
        }
    }
}

impl DeepView for LicenseChoice {
    type V = LicenseChoiceModel;

    open spec fn deep_view(&self) -> LicenseChoiceModel {
        self@
    }
}

impl Clone for LicenseChoice {
    fn clone(&self) -> (copy: Self)
        ensures
            copy@ == self@,
    {
        match self {
            LicenseChoice::License(license) => LicenseChoice::License(license.clone()),
            LicenseChoice::Expression(expression) => LicenseChoice::Expression(expression.clone()),
        }
    }
}

impl PartialEq for LicenseChoice {
    fn eq(&self, other: &Self) -> (equal: bool) {
        match (self, other) {
            (LicenseChoice::License(a), LicenseChoice::License(b)) => *a == *b,
            (LicenseChoice::Expression(a), LicenseChoice::Expression(b)) => *a == *b,
            _ => false,
        }
    }
}

impl vstd::std_specs::cmp::PartialEqSpecImpl for LicenseChoice {
    open spec fn obeys_eq_spec() -> bool {
        true
    }

    open spec fn eq_spec(&self, other: &Self) -> bool {
        self@ == other@
    }
}

impl LicenseChoice {
    /// Whether this is a single license, not an expression.
    pub fn is_license(&self) -> (single: bool)
        ensures
            single == (*self is License),
    {
        match self {
            LicenseChoice::License(_) => true,
            LicenseChoice::Expression(_) => false,
        }
    }
}

impl Validate for LicenseChoice {
    open spec fn spec_validate(&self, path: Seq<PathStep>) -> Outcome {
        match *self {
            LicenseChoice::License(license) => license.spec_validate(case_path(path, "License"@)),
            LicenseChoice::Expression(expression) => expression.spec_validate(
                case_path(path, "Expression"@),
            ),
        }
    }

    proof fn lemma_validate_located(&self, path: Seq<PathStep>) {
        match *self {
            LicenseChoice::License(license) => {
                let step = PathStep::Case { name: "License"@ };
                license.lemma_validate_located(path.push(step));
                lemma_within_parent(self.spec_validate(path), path, step);
            },
            LicenseChoice::Expression(expression) => {
                let step = PathStep::Case { name: "Expression"@ };
                expression.lemma_validate_located(path.push(step));
                lemma_within_parent(self.spec_validate(path), path, step);
            },
        }
    }

    proof fn lemma_passes_anywhere(&self, path: Seq<PathStep>, other: Seq<PathStep>) {
        match *self {
            LicenseChoice::License(license) => {
                license.lemma_passes_anywhere(
                    case_path(path, "License"@),
                    case_path(other, "License"@),
                );
            },
            LicenseChoice::Expression(expression) => {
                expression.lemma_passes_anywhere(
                    case_path(path, "Expression"@),
                    case_path(other, "Expression"@),
                );
            },
        }
    }

    fn validate_with_context(&self, context: ValidationContext) -> (result: ValidationResult) {
        match self {
            LicenseChoice::License(license) => {
                let license_context = context.with_enum_variant("License");
                ValidationResult::Passed.merge(license.validate_with_context(license_context))
            },
            LicenseChoice::Expression(expression) => {
                let expression_context = context.with_enum_variant("Expression");
                ValidationResult::Passed.merge(
                    expression.validate_with_context(expression_context),
                )
            },
        }
    }
}

/// The licenses of a component, in their order.
#[derive(Debug, Eq)]
pub struct Licenses(pub Vec<LicenseChoice>);

impl View for Licenses {
    type V = Seq<LicenseChoiceModel>;

    open spec fn view(&self) -> Seq<LicenseChoiceModel> {
        self.0.deep_view()
    }
}

impl DeepView for Licenses {
    type V = Seq<LicenseChoiceModel>;

    open spec fn deep_view(&self) -> Seq<LicenseChoiceModel> {
        self@
    }
}

impl Clone for Licenses {
    fn clone(&self) -> (copy: Self)
        ensures
            copy@ == self@,
    {
        let copy = Licenses(self.0.clone());
        assert(copy@ =~= self@);
        copy
    }
}

impl PartialEq for Licenses {
    fn eq(&self, other: &Self) -> (equal: bool) {
        vec_eq(&self.0, &other.0)
    }
}

impl vstd::std_specs::cmp::PartialEqSpecImpl for Licenses {
    open spec fn obeys_eq_spec() -> bool {
        true
    }

    open spec fn eq_spec(&self, other: &Self) -> bool {
        self@ == other@
    }
}

impl Validate for Licenses {
    open spec fn spec_validate(&self, path: Seq<PathStep>) -> Outcome {
        spec_validate_each(self.0@, path)
    }

    proof fn lemma_validate_located(&self, path: Seq<PathStep>) {
        lemma_validate_each_located(self.0@, path);
    }

    proof fn lemma_passes_anywhere(&self, path: Seq<PathStep>, other: Seq<PathStep>) {
        lemma_validate_each_passes_anywhere(self.0@, path, other);
    }

    fn validate_with_context(&self, context: ValidationContext) -> (result: ValidationResult) {
        validate_each(&self.0, &context)
    }
}

} // verus!
