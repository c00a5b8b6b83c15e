//! Text that is attached to a record, such as the wording of a license.

use crate::external_models::normalized_string::NormalizedString;
use crate::validation::{
    field_path, lemma_optional_passes_anywhere, lemma_validate_optional_located,
    lemma_within_parent, spec_validate_optional, Outcome, PathStep, Validate, ValidationContext,
    ValidationResult,
};
use vstd::prelude::*;

verus! {

/// An attached text: what it holds, and of what kind that is where the
/// kind is known.
#[derive(Debug, Eq)]
pub struct AttachedText {
    pub content_type: Option<NormalizedString>,
    pub content: String,
}

/// The mathematical model of an [`AttachedText`].
pub struct AttachedTextModel {
    pub content_type: Option<Seq<char>>,
    pub content: Seq<char>,
}

impl View for AttachedText {
    type V = AttachedTextModel;

    open spec fn view(&self) -> AttachedTextModel {
        AttachedTextModel { content_type: self.content_type.deep_view(), content: self.content@ }
    }
}

impl DeepView for AttachedText {
    type V = AttachedTextModel;

    open spec fn deep_view(&self) -> AttachedTextModel {
        self@
    }
}

impl Clone for AttachedText {
    fn clone(&self) -> (copy: Self)
        ensures
            copy@ == self@,
    {
        let content_type = match &self.content_type {
            Some(kind) => Some(kind.clone()),
            None => None,
        };
        AttachedText { content_type, content: self.content.clone() }
    }
}

impl PartialEq for AttachedText {
    fn eq(&self, other: &Self) -> (equal: bool) {
        self.content_type == other.content_type && self.content == other.content
    }
}

impl vstd::std_specs::cmp::PartialEqSpecImpl for AttachedText {
    open spec fn obeys_eq_spec() -> bool {
        true
    }

    open spec fn eq_spec(&self, other: &Self) -> bool {
        self@ == other@
    }
}

impl AttachedText {
    /// The attached text `content` of the kind `content_type`.
    pub fn new(content_type: Option<NormalizedString>, content: &str) -> (text: Self)
        ensures
            text@ == (AttachedTextModel {
                content_type: content_type.deep_view(),
                content: content@,
            }),
    {
        AttachedText { content_type, content: content.to_owned() }
    }
}

impl Validate for AttachedText {
    open spec fn spec_validate(&self, path: Seq<PathStep>) -> Outcome {
        spec_validate_optional(
            self.content_type,
            field_path(path, "AttachedText"@, "content_type"@),
        )
    }

    proof fn lemma_validate_located(&self, path: Seq<PathStep>) {
        let below = PathStep::Field { record: "AttachedText"@, field: "content_type"@ };
        lemma_validate_optional_located(self.content_type, path.push(below));
        lemma_within_parent(self.spec_validate(path), path, below);
    }

    proof fn lemma_passes_anywhere(&self, path: Seq<PathStep>, other: Seq<PathStep>) {
        lemma_optional_passes_anywhere(
            self.content_type,
            field_path(path, "AttachedText"@, "content_type"@),
            field_path(other, "AttachedText"@, "content_type"@),
        );
    }

    fn validate_with_context(&self, context: ValidationContext) -> (result: ValidationResult) {
        let mut result = ValidationResult::Passed;
        if let Some(content_type) = &self.content_type {
            let context = context.with_struct("AttachedText", "content_type");
            result = result.merge(content_type.validate_with_context(context));
        }
        result
    }
}

} // verus!
