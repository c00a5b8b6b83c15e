//! Name-value pairs that carry what the rest of a document has no place
//! for.

use crate::external_models::normalized_string::{is_normalized, normalize, NormalizedString};
use crate::sequences::vec_eq;
use crate::validation::{
    field_path, lemma_validate_each_located, lemma_validate_each_passes_anywhere,
    lemma_within_parent, spec_validate_each, validate_each, Outcome, PathStep, Validate,
    ValidationContext, ValidationResult,
};
use vstd::prelude::*;

verus! {

/// A property: a name and a value.
#[derive(Debug, Eq)]
pub struct Property {
    pub name: String,
    pub value: NormalizedString,
}

/// The mathematical model of a [`Property`].
pub struct PropertyModel {
    pub name: Seq<char>,
    pub value: Seq<char>,
}

impl View for Property {
    type V = PropertyModel;

    open spec fn view(&self) -> PropertyModel {
        PropertyModel { name: self.name@, value: self.value@ }
    }
}

impl DeepView for Property {
    type V = PropertyModel;

    open spec fn deep_view(&self) -> PropertyModel {
        self@
    }
}

impl Clone for Property {
    fn clone(&self) -> (copy: Self)
        ensures
            copy@ == self@,
    {
        Property { name: self.name.clone(), value: self.value.clone() }
    }
}

impl PartialEq for Property {
    fn eq(&self, other: &Self) -> (equal: bool) {
        self.name == other.name && self.value == other.value
    }
}

impl vstd::std_specs::cmp::PartialEqSpecImpl for Property {
    open spec fn obeys_eq_spec() -> bool {
        true
    }

    open spec fn eq_spec(&self, other: &Self) -> bool {
        self@ == other@
    }
}

impl Property {
    /// The property `name` with the normalized form of `value`. It passes
    /// validation wherever it stands.
    pub fn new(name: &str, value: &str) -> (property: Self)
        ensures
            property@ == (PropertyModel { name: name@, value: normalize(value@) }),
            is_normalized(property.value@),
            forall|path: Seq<PathStep>| #[trigger] property.spec_validate(path) == Outcome::Passed,
    {
        Property { name: name.to_owned(), value: NormalizedString::new(value) }
    }
}

impl Validate for Property {
    open spec fn spec_validate(&self, path: Seq<PathStep>) -> Outcome {
        self.value.spec_validate(field_path(path, "Property"@, "value"@))
    }

    proof fn lemma_validate_located(&self, path: Seq<PathStep>) {
        let value_step = PathStep::Field { record: "Property"@, field: "value"@ };
        self.value.lemma_validate_located(path.push(value_step));
        lemma_within_parent(self.spec_validate(path), path, value_step);
    }

    proof fn lemma_passes_anywhere(&self, path: Seq<PathStep>, other: Seq<PathStep>) {
        self.value.lemma_passes_anywhere(
            field_path(path, "Property"@, "value"@),
            field_path(other, "Property"@, "value"@),
        );
    }

    fn validate_with_context(&self, context: ValidationContext) -> (result: ValidationResult) {
        let value_context = context.with_struct("Property", "value");
        ValidationResult::Passed.merge(self.value.validate_with_context(value_context))
    }
}

/// The properties of a node, in their order.
#[derive(Debug, Eq)]
pub struct Properties(pub Vec<Property>);

impl View for Properties {
    type V = Seq<PropertyModel>;

    open spec fn view(&self) -> Seq<PropertyModel> {
        self.0.deep_view()
    }
}

impl DeepView for Properties {
    type V = Seq<PropertyModel>;

    open spec fn deep_view(&self) -> Seq<PropertyModel> {
        self@
    }
}

impl Clone for Properties {
    fn clone(&self) -> (copy: Self)
        ensures
            copy@ == self@,
    {
        let copy = Properties(self.0.clone());
        assert(copy@ =~= self@);
        copy
    }
}

impl PartialEq for Properties {
    fn eq(&self, other: &Self) -> (equal: bool) {
        vec_eq(&self.0, &other.0)
    }
}

impl vstd::std_specs::cmp::PartialEqSpecImpl for Properties {
    open spec fn obeys_eq_spec() -> bool {
        true
    }

    open spec fn eq_spec(&self, other: &Self) -> bool {
        self@ == other@
    }
}

impl Validate for Properties {
    open spec fn spec_validate(&self, path: Seq<PathStep>) -> Outcome {
        spec_validate_each(self.0@, path)
    }

    proof fn lemma_validate_located(&self, path: Seq<PathStep>) {
        lemma_validate_each_located(self.0@, path);
    }

    proof fn lemma_passes_anywhere(&self, path: Seq<PathStep>, other: Seq<PathStep>) {
        lemma_validate_each_passes_anywhere(self.0@, path, other);
    }

    fn validate_with_context(&self, context: ValidationContext) -> (result: ValidationResult) {
        validate_each(&self.0, &context)
    }
}

} // verus!
