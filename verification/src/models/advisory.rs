//! Notices of a threat to a component, to a service or to a system.

use crate::external_models::normalized_string::NormalizedString;
use crate::external_models::uri::Uri;
use crate::sequences::vec_eq;
use crate::validation::{
    field_path, lemma_merge_violations, lemma_optional_passes_anywhere,
    lemma_validate_each_located, lemma_validate_each_passes_anywhere,
    lemma_validate_optional_located, lemma_within_parent, spec_validate_each,
    spec_validate_optional, validate_each, Outcome, PathStep, Validate, ValidationContext,
    ValidationResult,
};
use vstd::prelude::*;

verus! {

/// An advisory: where it can be read, and its title where it has one.
#[derive(Debug, Eq)]
pub struct Advisory {
    pub title: Option<NormalizedString>,
    pub url: Uri,
}

/// The mathematical model of an [`Advisory`].
pub struct AdvisoryModel {
    pub title: Option<Seq<char>>,
    pub url: Seq<char>,
}

impl View for Advisory {
    type V = AdvisoryModel;

    open spec fn view(&self) -> AdvisoryModel {
        AdvisoryModel { title: self.title.deep_view(), url: self.url@ }
    }
}

impl DeepView for Advisory {
    type V = AdvisoryModel;

    open spec fn deep_view(&self) -> AdvisoryModel {
        self@
    }
}

impl Clone for Advisory {
    fn clone(&self) -> (copy: Self)
        ensures
            copy@ == self@,
    {
        let title = match &self.title {
            Some(title) => Some(title.clone()),
            None => None,
        };
        Advisory { title, url: self.url.clone() }
    }
}

impl PartialEq for Advisory {
    fn eq(&self, other: &Self) -> (equal: bool) {
        self.title == other.title && self.url == other.url
    }
}

impl vstd::std_specs::cmp::PartialEqSpecImpl for Advisory {
    open spec fn obeys_eq_spec() -> bool {
        true
    }

    open spec fn eq_spec(&self, other: &Self) -> bool {
        self@ == other@
    }
}

impl Advisory {
    /// The advisory without a title that can be read at `url`.
    pub fn new(url: Uri) -> (advisory: Self)
        ensures
            advisory@ == (AdvisoryModel { title: None, url: url@ }),
            forall|path: Seq<PathStep>| #[trigger]
                advisory.spec_validate(path) == url.spec_validate(
                    field_path(path, "Advisory"@, "url"@),
                ),
    {
        Advisory { title: None, url }
    }
}

impl Validate for Advisory {
    open spec fn spec_validate(&self, path: Seq<PathStep>) -> Outcome {
        spec_validate_optional(self.title, field_path(path, "Advisory"@, "title"@)).merge(
            self.url.spec_validate(field_path(path, "Advisory"@, "url"@)),
        )
    }

    proof fn lemma_validate_located(&self, path: Seq<PathStep>) {
        let title_step = PathStep::Field { record: "Advisory"@, field: "title"@ };
        let url_step = PathStep::Field { record: "Advisory"@, field: "url"@ };
        let title = spec_validate_optional(self.title, path.push(title_step));
        let url = self.url.spec_validate(path.push(url_step));
        lemma_validate_optional_located(self.title, path.push(title_step));
        self.url.lemma_validate_located(path.push(url_step));
        lemma_within_parent(title, path, title_step);
        lemma_within_parent(url, path, url_step);
        lemma_merge_violations(title, url);
    }

    proof fn lemma_passes_anywhere(&self, path: Seq<PathStep>, other: Seq<PathStep>) {
        lemma_optional_passes_anywhere(
            self.title,
            field_path(path, "Advisory"@, "title"@),
            field_path(other, "Advisory"@, "title"@),
        );
        self.url.lemma_passes_anywhere(
            field_path(path, "Advisory"@, "url"@),
            field_path(other, "Advisory"@, "url"@),
        );
    }

    fn validate_with_context(&self, context: ValidationContext) -> (result: ValidationResult) {
        let mut result = ValidationResult::Passed;
        if let Some(title) = &self.title {
            let context = context.with_struct("Advisory", "title");
            result = result.merge(title.validate_with_context(context));
        }
        let url_context = context.with_struct("Advisory", "url");
        result.merge(self.url.validate_with_context(url_context))
    }
}

/// The advisories of a vulnerability, in their order.
#[derive(Debug, Eq)]
pub struct Advisories(pub Vec<Advisory>);

impl View for Advisories {
    type V = Seq<AdvisoryModel>;

    open spec fn view(&self) -> Seq<AdvisoryModel> {
        self.0.deep_view()
    }
}

impl DeepView for Advisories {
    type V = Seq<AdvisoryModel>;

    open spec fn deep_view(&self) -> Seq<AdvisoryModel> {
        self@
    }
}

impl Clone for Advisories {
    fn clone(&self) -> (copy: Self)
        ensures
            copy@ == self@,
    {
        let copy = Advisories(self.0.clone());
        assert(copy@ =~= self@);
        copy
    }
}

impl PartialEq for Advisories {
    fn eq(&self, other: &Self) -> (equal: bool) {
        vec_eq(&self.0, &other.0)
    }
}

impl vstd::std_specs::cmp::PartialEqSpecImpl for Advisories {
    open spec fn obeys_eq_spec() -> bool {
        true
    }

    open spec fn eq_spec(&self, other: &Self) -> bool {
        self@ == other@
    }
}

impl Validate for Advisories {
    open spec fn spec_validate(&self, path: Seq<PathStep>) -> Outcome {
        spec_validate_each(self.0@, path)
    }

    proof fn lemma_validate_located(&self, path: Seq<PathStep>) {
        lemma_validate_each_located(self.0@, path);
    }

    proof fn lemma_passes_anywhere(&self, path: Seq<PathStep>, other: Seq<PathStep>) {
        lemma_validate_each_passes_anywhere(self.0@, path, other);
    }

    fn validate_with_context(&self, context: ValidationContext) -> (result: ValidationResult) {
        validate_each(&self.0, &context)
    }
}

} // verus!
