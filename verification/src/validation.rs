//! Validation paths, validation outcomes and the recursive validation
//! contract that every node of a document fulfils.

pub mod contract;
pub mod outcome;
pub mod path;

pub use contract::{
    element_outcomes, lemma_optional_passes_anywhere, lemma_single_failing_element,
    lemma_valid_elements_compose, lemma_validate_each_located, lemma_validate_each_passes,
    lemma_validate_each_passes_anywhere, lemma_validate_optional_located, spec_validate_each,
    spec_validate_optional, validate_each, Validate,
};
pub use outcome::{
    lemma_merge_all_keeps_every_violation, lemma_merge_all_located, lemma_merge_all_passed,
    lemma_merge_all_single, lemma_merge_associative, lemma_merge_identity,
    lemma_merge_violations, lemma_within_parent, lemma_within_shorter, merge_all,
    violations_in_order, FailureReason, Outcome, ValidationResult, Violation,
};
pub use path::{
    case_path, field_path, index_path, PathStep, ValidationContext, ValidationPathComponent,
};
