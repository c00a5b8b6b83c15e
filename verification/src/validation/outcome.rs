//! What a validation pass found, and how findings are merged.

use crate::sequences::vec_eq;
use crate::validation::path::{PathStep, ValidationContext};
use vstd::prelude::*;

verus! {

/// One violation: what is wrong, and where in the document.
#[derive(Debug, Eq)]
pub struct FailureReason {
    pub message: String,
    pub context: ValidationContext,
}

/// The mathematical model of a [`FailureReason`].
pub struct Violation {
    pub message: Seq<char>,
    pub path: Seq<PathStep>,
}

impl View for FailureReason {
    type V = Violation;

    open spec fn view(&self) -> Violation {
        Violation { message: self.message@, path: self.context@ }
    }
}

impl DeepView for FailureReason {
    type V = Violation;

    open spec fn deep_view(&self) -> Violation {
        self@
    }
}

impl Clone for FailureReason {
    fn clone(&self) -> (copy: Self)
        ensures
            copy@ == self@,
    {
        FailureReason { message: self.message.clone(), context: self.context.clone() }
    }
}

impl PartialEq for FailureReason {
    fn eq(&self, other: &Self) -> (equal: bool) {
        self.message == other.message && self.context == other.context
    }
}

impl vstd::std_specs::cmp::PartialEqSpecImpl for FailureReason {
    open spec fn obeys_eq_spec() -> bool {
        true
    }

    open spec fn eq_spec(&self, other: &Self) -> bool {
        self@ == other@
    }
}

impl FailureReason {
    /// The violation `message` found at `context`.
    pub fn new(message: &str, context: ValidationContext) -> (reason: Self)
        ensures
            reason@ == (Violation { message: message@, path: context@ }),
    {
        FailureReason { message: message.to_owned(), context }
    }
}

/// What a validation pass found: nothing, or every violation in the order
/// in which the pass met them.
#[derive(Debug, Eq)]
pub enum ValidationResult {
    Passed,
    Failed { reasons: Vec<FailureReason> },
}

/// The mathematical model of a [`ValidationResult`].
pub enum Outcome {
    Passed,
    Failed { reasons: Seq<Violation> },
}

impl Outcome {
    /// The outcome of a single violation `message` found at `path`.
    pub open spec fn failure(message: Seq<char>, path: Seq<PathStep>) -> Outcome {
        Outcome::Failed { reasons: seq![Violation { message, path }] }
    }

    /// The violations of an outcome; none where it passed.
    pub open spec fn violations(self) -> Seq<Violation> {
        match self {
            Outcome::Passed => Seq::empty(),
            Outcome::Failed { reasons } => reasons,
        }
    }

    /// This outcome followed by `other`: passed where both passed, else
    /// failed with the violations of this outcome before those of `other`.
    pub open spec fn merge(self, other: Outcome) -> Outcome {
        match (self, other) {
            (Outcome::Passed, Outcome::Passed) => Outcome::Passed,
            (Outcome::Passed, Outcome::Failed { reasons }) => Outcome::Failed { reasons },
            (Outcome::Failed { reasons }, Outcome::Passed) => Outcome::Failed { reasons },
            (Outcome::Failed { reasons: left }, Outcome::Failed { reasons: right }) => {
                Outcome::Failed { reasons: left + right }
            },
        }
    }

    /// A failed outcome names at least one violation.
    pub open spec fn well_formed(self) -> bool {
        self is Failed ==> self.violations().len() > 0
    }

    /// Every violation of this outcome lies at `path` or below it.
    pub open spec fn within(self, path: Seq<PathStep>) -> bool {
        forall|i: int|
            0 <= i < self.violations().len() ==> path.is_prefix_of(
                #[trigger] self.violations()[i].path,
            )
    }
}

/// The outcomes of a sequence of checks merged from the first to the last.
pub open spec fn merge_all(outcomes: Seq<Outcome>) -> Outcome
    decreases outcomes.len(),
{
    if outcomes.len() == 0 {
        Outcome::Passed
    } else {
        merge_all(outcomes.drop_last()).merge(outcomes.last())
    }
}

impl View for ValidationResult {
    type V = Outcome;

    open spec fn view(&self) -> Outcome {
        match *self {
            ValidationResult::Passed => Outcome::Passed,
            ValidationResult::Failed { reasons } => Outcome::Failed {
                reasons: reasons.deep_view(),
            },
        }
    }
}

impl Clone for ValidationResult {
    fn clone(&self) -> (copy: Self)
        ensures
            copy@ == self@,
    {
        match self {
            ValidationResult::Passed => ValidationResult::Passed,
            ValidationResult::Failed { reasons } => {
                let copy = reasons.clone();
                assert(copy.deep_view() =~= reasons.deep_view());
                ValidationResult::Failed { reasons: copy }
            },
        }
    }
}

impl Default for ValidationResult {
    fn default() -> (result: Self)
        ensures
            result@ == Outcome::Passed,
    {
        ValidationResult::Passed
    }
}

impl PartialEq for ValidationResult {
    fn eq(&self, other: &Self) -> (equal: bool) {
        match (self, other) {
            (ValidationResult::Passed, ValidationResult::Passed) => true,
            (
                ValidationResult::Failed { reasons: left },
                ValidationResult::Failed { reasons: right },
            ) => vec_eq(left, right),
            _ => false,
        }
    }
}

impl vstd::std_specs::cmp::PartialEqSpecImpl for ValidationResult {
    open spec fn obeys_eq_spec() -> bool {
        true
    }

    open spec fn eq_spec(&self, other: &Self) -> bool {
        self@ == other@
    }
}

impl ValidationResult {
    /// The outcome of a check that found the single violation `reason` at
    /// `context`.
    pub fn failure(reason: &str, context: ValidationContext) -> (result: Self)
        ensures
            result@ == Outcome::failure(reason@, context@),
    {
        let mut reasons: Vec<FailureReason> = Vec::new();
        reasons.push(FailureReason::new(reason, context));
        let result = ValidationResult::Failed { reasons };
        assert(result@.violations() =~= seq![Violation { message: reason@, path: context@ }]);
        result
    }

    /// This outcome followed by `other`.
    pub fn merge(self, other: Self) -> (merged: Self)
        ensures
            merged@ == self@.merge(other@),
    {
        match (self, other) {
            (ValidationResult::Passed, ValidationResult::Passed) => ValidationResult::Passed,
            (ValidationResult::Passed, ValidationResult::Failed { reasons }) => {
                ValidationResult::Failed { reasons }
            },
            (ValidationResult::Failed { reasons }, ValidationResult::Passed) => {
                ValidationResult::Failed { reasons }
            },
            (
                ValidationResult::Failed { reasons: left },
                ValidationResult::Failed { reasons: right },
            ) => {
                let mut reasons = left;
                let mut rest = right;
                reasons.append(&mut rest);
                assert(reasons.deep_view() =~= left.deep_view() + right.deep_view());
                ValidationResult::Failed { reasons }
            },
        }
    }
}

/// Merging is associative: how three outcomes are grouped does not change
/// what they merge to.
pub proof fn lemma_merge_associative(a: Outcome, b: Outcome, c: Outcome)
    ensures
        a.merge(b).merge(c) == a.merge(b.merge(c)),
{
    assert(a.violations() + b.violations() + c.violations() =~= a.violations() + (b.violations()
        + c.violations()));
}

/// `Passed` is the identity of merging, on the left and on the right.
pub proof fn lemma_merge_identity(a: Outcome)
    ensures
        Outcome::Passed.merge(a) == a,
        a.merge(Outcome::Passed) == a,
{
}

/// The violations of a merge are those of the left outcome followed by
/// those of the right one, and the merge passes only where both pass.
pub proof fn lemma_merge_violations(a: Outcome, b: Outcome)
    ensures
        a.merge(b).violations() == a.violations() + b.violations(),
        a.merge(b) is Passed <==> a is Passed && b is Passed,
        a.well_formed() && b.well_formed() ==> a.merge(b).well_formed(),
{
    assert(a.merge(b).violations() =~= a.violations() + b.violations());
}

/// The violations of a merged sequence of outcomes lie within `path` where
/// those of each outcome do, and a merged sequence of well-formed outcomes
/// is well formed.
pub proof fn lemma_merge_all_located(outcomes: Seq<Outcome>, path: Seq<PathStep>)
    requires
        forall|i: int| 0 <= i < outcomes.len() ==> (#[trigger] outcomes[i]).well_formed(),
        forall|i: int| 0 <= i < outcomes.len() ==> (#[trigger] outcomes[i]).within(path),
    ensures
        merge_all(outcomes).well_formed(),
        merge_all(outcomes).within(path),
    decreases outcomes.len(),
{
    if outcomes.len() > 0 {
        lemma_merge_all_located(outcomes.drop_last(), path);
        lemma_merge_violations(merge_all(outcomes.drop_last()), outcomes.last());
    }
}

/// The violations of a sequence of outcomes: those of the first outcome,
/// then those of the second, and so on.
pub open spec fn violations_in_order(outcomes: Seq<Outcome>) -> Seq<Violation>
    decreases outcomes.len(),
{
    if outcomes.len() == 0 {
        Seq::empty()
    } else {
        violations_in_order(outcomes.drop_last()) + outcomes.last().violations()
    }
}

/// Merging drops nothing and reorders nothing: a merged sequence of
/// outcomes holds every violation of every outcome, in the order of the
/// outcomes.
pub proof fn lemma_merge_all_keeps_every_violation(outcomes: Seq<Outcome>)
    ensures
        merge_all(outcomes).violations() == violations_in_order(outcomes),
    decreases outcomes.len(),
{
    if outcomes.len() > 0 {
        lemma_merge_all_keeps_every_violation(outcomes.drop_last());
        lemma_merge_violations(merge_all(outcomes.drop_last()), outcomes.last());
    }
}

/// A merged sequence of outcomes passes exactly where each of them passes.
pub proof fn lemma_merge_all_passed(outcomes: Seq<Outcome>)
    ensures
        merge_all(outcomes) is Passed <==> forall|i: int|
            0 <= i < outcomes.len() ==> #[trigger] outcomes[i] is Passed,
    decreases outcomes.len(),
{
    if outcomes.len() > 0 {
        lemma_merge_all_passed(outcomes.drop_last());
        if merge_all(outcomes) is Passed {
            assert forall|i: int| 0 <= i < outcomes.len() implies #[trigger] outcomes[i]
                is Passed by {
                if i < outcomes.len() - 1 {
                    assert(outcomes.drop_last()[i] is Passed);
                }
            }
        } else if forall|i: int| 0 <= i < outcomes.len() ==> #[trigger] outcomes[i] is Passed {
            let front = outcomes.drop_last();
            assert forall|i: int| 0 <= i < front.len() implies #[trigger] front[i] is Passed by {
                assert(outcomes[i] is Passed);
            }
            assert(outcomes[outcomes.len() - 1] is Passed);
        }
    }
}

/// Where all outcomes of a sequence pass but the one at `position`, the
/// sequence merges to that one outcome.
pub proof fn lemma_merge_all_single(outcomes: Seq<Outcome>, position: int)
    requires
        0 <= position < outcomes.len(),
        outcomes[position] is Failed,
        forall|j: int|
            0 <= j < outcomes.len() && j != position ==> #[trigger] outcomes[j] is Passed,
    ensures
        merge_all(outcomes) == outcomes[position],
    decreases outcomes.len(),
{
    let front = outcomes.drop_last();
    if position == outcomes.len() - 1 {
        lemma_merge_all_passed(front);
        assert forall|j: int| 0 <= j < front.len() implies #[trigger] front[j] is Passed by {
            assert(outcomes[j] is Passed);
        }
    } else {
        assert forall|j: int| 0 <= j < front.len() && j != position implies #[trigger] front[j]
            is Passed by {
            assert(outcomes[j] is Passed);
        }
        lemma_merge_all_single(front, position);
        assert(outcomes.last() == outcomes[outcomes.len() - 1]);
    }
}

/// An outcome whose violations lie within a path lies within every prefix
/// of that path.
pub proof fn lemma_within_shorter(outcome: Outcome, path: Seq<PathStep>, prefix: Seq<PathStep>)
    requires
        outcome.within(path),
        prefix.is_prefix_of(path),
    ensures
        outcome.within(prefix),
{
    assert forall|i: int| 0 <= i < outcome.violations().len() implies prefix.is_prefix_of(
        #[trigger] outcome.violations()[i].path,
    ) by {
        let full = outcome.violations()[i].path;
        assert(path.is_prefix_of(full));
        assert(prefix =~= path.subrange(0, prefix.len() as int));
        assert(path =~= full.subrange(0, path.len() as int));
        assert(prefix =~= full.subrange(0, prefix.len() as int));
    }
}

/// An outcome that lies one step below `path` lies within `path`.
pub proof fn lemma_within_parent(outcome: Outcome, path: Seq<PathStep>, step: PathStep)
    requires
        outcome.within(path.push(step)),
    ensures
        outcome.within(path),
{
    lemma_within_shorter(outcome, path.push(step), path);
}

} // verus!
