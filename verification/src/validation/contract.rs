//! The contract that every node of a document fulfils, and how records,
//! optional fields and sequences are validated on top of it.

use crate::validation::outcome::{
    lemma_merge_all_located, lemma_merge_all_passed, lemma_merge_all_single,
    lemma_within_shorter, merge_all, Outcome, ValidationResult,
};
use crate::validation::path::{index_path, PathStep, ValidationContext};
use vstd::prelude::*;

verus! {

/// The contract of every node of a document: it can be validated at the
/// place where it stands, and it reports each violation with the place
/// where it was found.
pub trait Validate {
    /// What validating this node yields when the node stands at `path`.
    spec fn spec_validate(&self, path: Seq<PathStep>) -> Outcome;

    /// A node that fails names at least one violation, and every violation
    /// that it names lies at the node's own place or below it.
    proof fn lemma_validate_located(&self, path: Seq<PathStep>)
        ensures
            self.spec_validate(path).well_formed(),
            self.spec_validate(path).within(path),
    ;

    /// Whether a node passes does not depend on where it stands.
    proof fn lemma_passes_anywhere(&self, path: Seq<PathStep>, other: Seq<PathStep>)
        ensures
            self.spec_validate(path) is Passed <==> self.spec_validate(other) is Passed,
    ;

    /// Validates this node, which stands at `context`.
    fn validate_with_context(&self, context: ValidationContext) -> (result: ValidationResult)
        ensures
            result@ == self.spec_validate(context@),
    ;

    /// Validates this node as the root of a document.
    fn validate(&self) -> (result: ValidationResult)
        ensures
            result@ == self.spec_validate(Seq::empty()),
    {
        self.validate_with_context(ValidationContext::new())
    }
}

/// What each element of a sequence that stands at `path` yields, the
/// element at position `i` being validated at `path` followed by `i`.
pub open spec fn element_outcomes<T: Validate>(items: Seq<T>, path: Seq<PathStep>) -> Seq<Outcome> {
    Seq::new(items.len(), |i: int| items[i].spec_validate(index_path(path, i as nat)))
}

/// What validating a sequence yields: the outcomes of its elements, merged
/// by ascending position.
pub open spec fn spec_validate_each<T: Validate>(items: Seq<T>, path: Seq<PathStep>) -> Outcome {
    merge_all(element_outcomes(items, path))
}

/// Validates the elements of a sequence that stands at `context`, each at
/// its own position, and merges what they yield by ascending position.
pub fn validate_each<T: Validate>(items: &Vec<T>, context: &ValidationContext) -> (result:
    ValidationResult)
    ensures
        result@ == spec_validate_each(items@, context@),
{
    let ghost outcomes = element_outcomes(items@, context@);
    let mut result = ValidationResult::Passed;
    let mut i: usize = 0;
    proof {
        assert(outcomes.take(0) =~= Seq::<Outcome>::empty());
    }
    while i < items.len()
        invariant
            i <= items.len(),
            outcomes == element_outcomes(items@, context@),
            result@ == merge_all(outcomes.take(i as int)),
        decreases items.len() - i,
    {
        let element = items[i].validate_with_context(context.with_index(i));
        proof {
            let next = outcomes.take(i + 1);
            assert(next.drop_last() =~= outcomes.take(i as int));
            assert(next.last() == outcomes[i as int]);
        }
        result = result.merge(element);
        i += 1;
    }
    proof {
        assert(outcomes.take(i as int) =~= outcomes);
    }
    result
}

/// In a sequence where the element at `position` fails with a single
/// violation and every other element passes, validating the sequence
/// yields exactly that violation, and the path of the violation leads
/// through `position`.
pub proof fn lemma_single_failing_element<T: Validate>(
    items: Seq<T>,
    path: Seq<PathStep>,
    position: int,
)
    requires
        0 <= position < items.len(),
        element_outcomes(items, path)[position] is Failed,
        element_outcomes(items, path)[position].violations().len() == 1,
        forall|j: int|
            0 <= j < items.len() && j != position ==> #[trigger] element_outcomes(
                items,
                path,
            )[j] is Passed,
    ensures
        spec_validate_each(items, path) == element_outcomes(items, path)[position],
        spec_validate_each(items, path) is Failed,
        spec_validate_each(items, path).violations().len() == 1,
        index_path(path, position as nat).is_prefix_of(
            spec_validate_each(items, path).violations()[0].path,
        ),
{
    let outcomes = element_outcomes(items, path);
    lemma_merge_all_single(outcomes, position);
    items[position].lemma_validate_located(index_path(path, position as nat));
}

/// A sequence whose elements all pass, each at its own position, passes.
pub proof fn lemma_validate_each_passes<T: Validate>(items: Seq<T>, path: Seq<PathStep>)
    requires
        forall|i: int|
            0 <= i < items.len() ==> #[trigger] element_outcomes(items, path)[i] is Passed,
    ensures
        spec_validate_each(items, path) == Outcome::Passed,
{
    lemma_merge_all_passed(element_outcomes(items, path));
}

/// Whether a sequence passes does not depend on where it stands.
pub proof fn lemma_validate_each_passes_anywhere<T: Validate>(
    items: Seq<T>,
    path: Seq<PathStep>,
    other: Seq<PathStep>,
)
    ensures
        spec_validate_each(items, path) is Passed <==> spec_validate_each(items, other) is Passed,
{
    let here = element_outcomes(items, path);
    let there = element_outcomes(items, other);
    lemma_merge_all_passed(here);
    lemma_merge_all_passed(there);
    assert forall|i: int| 0 <= i < items.len() implies (#[trigger] here[i] is Passed
        <==> there[i] is Passed) by {
        items[i].lemma_passes_anywhere(index_path(path, i as nat), index_path(other, i as nat));
    }
    if spec_validate_each(items, path) is Passed {
        assert forall|i: int| 0 <= i < there.len() implies #[trigger] there[i] is Passed by {
            assert(here[i] is Passed);
        }
    }
    if spec_validate_each(items, other) is Passed {
        assert forall|i: int| 0 <= i < here.len() implies #[trigger] here[i] is Passed by {
            assert(there[i] is Passed);
        }
    }
}

/// A sequence of elements that each pass on their own passes, wherever it
/// stands.
pub proof fn lemma_valid_elements_compose<T: Validate>(items: Seq<T>, path: Seq<PathStep>)
    requires
        forall|i: int| 0 <= i < items.len() ==> (#[trigger] items[i]).spec_validate(Seq::empty())
            is Passed,
    ensures
        spec_validate_each(items, path) == Outcome::Passed,
{
    assert forall|i: int| 0 <= i < items.len() implies #[trigger] element_outcomes(
        items,
        path,
    )[i] is Passed by {
        items[i].lemma_passes_anywhere(Seq::empty(), index_path(path, i as nat));
    }
    lemma_validate_each_passes(items, path);
}

/// Validating a sequence yields a well-formed outcome whose violations all
/// lie below the sequence.
pub proof fn lemma_validate_each_located<T: Validate>(items: Seq<T>, path: Seq<PathStep>)
    ensures
        spec_validate_each(items, path).well_formed(),
        spec_validate_each(items, path).within(path),
{
    let outcomes = element_outcomes(items, path);
    assert forall|i: int| 0 <= i < outcomes.len() implies (#[trigger] outcomes[i]).well_formed()
        && outcomes[i].within(path) by {
        let below = index_path(path, i as nat);
        items[i].lemma_validate_located(below);
        lemma_within_shorter(outcomes[i], below, path);
    }
    lemma_merge_all_located(outcomes, path);
}

/// What validating a field that may be absent yields when the field stands
/// at `path`: nothing where it is absent, else what its value yields.
pub open spec fn spec_validate_optional<T: Validate>(
    field: Option<T>,
    path: Seq<PathStep>,
) -> Outcome {
    match field {
        Some(value) => value.spec_validate(path),
        None => Outcome::Passed,
    }
}

/// Whether a field that may be absent passes does not depend on where it
/// stands.
pub proof fn lemma_optional_passes_anywhere<T: Validate>(
    field: Option<T>,
    path: Seq<PathStep>,
    other: Seq<PathStep>,
)
    ensures
        spec_validate_optional(field, path) is Passed <==> spec_validate_optional(
            field,
            other,
        ) is Passed,
{
    if let Some(value) = field {
        value.lemma_passes_anywhere(path, other);
    }
}

/// Validating a field that may be absent yields a well-formed outcome
/// whose violations all lie at the field or below it.
pub proof fn lemma_validate_optional_located<T: Validate>(field: Option<T>, path: Seq<PathStep>)
    ensures
        spec_validate_optional(field, path).well_formed(),
        spec_validate_optional(field, path).within(path),
{
    if let Some(value) = field {
        value.lemma_validate_located(path);
    }
}

} // verus!
