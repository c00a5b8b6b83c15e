//! Small helpers on vectors that the rest of the library builds on.

use vstd::prelude::*;
use vstd::std_specs::cmp::PartialEqSpec;

verus! {

/// Whether `==` on `T` says exactly that two values have the same model.
pub open spec fn eq_is_model_equality<T: PartialEq + DeepView>() -> bool {
    &&& T::obeys_eq_spec()
    &&& forall|x: T, y: T| #[trigger] x.eq_spec(&y) <==> x.deep_view() == y.deep_view()
}

/// Whether two vectors hold equal elements at every position: whether they
/// have the same model.
pub fn vec_eq<T: PartialEq + DeepView>(left: &Vec<T>, right: &Vec<T>) -> (equal: bool)
    requires
        eq_is_model_equality::<T>(),
    ensures
        equal == (left.deep_view() == right.deep_view()),
{
    if left.len() != right.len() {
        assert(left.deep_view().len() != right.deep_view().len());
        return false;
    }
    let mut i: usize = 0;
    while i < left.len()
        invariant
            i <= left.len(),
            left.len() == right.len(),
            eq_is_model_equality::<T>(),
            forall|j: int| 0 <= j < i ==> left[j].deep_view() == right[j].deep_view(),
        decreases left.len() - i,
    {
        if !(left[i] == right[i]) {
            assert(!left[i as int].eq_spec(&right[i as int]));
            assert(left.deep_view()[i as int] != right.deep_view()[i as int]);
            return false;
        }
        i += 1;
    }
    assert(left.deep_view() =~= right.deep_view());
    true
}

} // verus!
