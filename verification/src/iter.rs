use vstd::prelude::*;
use vstd::slice::slice_to_vec;
use vstd::std_specs::cmp::PartialEqSpec;

use crate::failure::debug_repr;
use crate::{MatchError, Matcher};

verus! {

/// Matches an iterable value looking for a specific element to be present.
/// It is used with the function [`contain_element`].
pub struct ContainsMatcher<T> {
    /// The element the candidate must contain.
    pub element_contained: T,
}

impl<V: PartialEq + core::fmt::Debug> Matcher<Vec<V>> for ContainsMatcher<V> {
    open spec fn valid(&self) -> bool {
        V::obeys_eq_spec()
    }

    /// Some element of the candidate, scanned in order, is equal to the one
    /// looked for.
    open spec fn spec_matches(&self, actual: Vec<V>) -> bool {
        exists|i: int|
            0 <= i < actual@.len() && actual@[i].eq_spec(&self.element_contained)
    }

    fn matches(&self, actual_value: &Vec<V>) -> (r: Result<(), MatchError>)
        ensures
            r matches Err(e) ==> e is MissingElement,
    {
        let mut ix: usize = 0;
        while ix < actual_value.len()
            invariant
                ix <= actual_value.len(),
                V::obeys_eq_spec() ==> forall|i: int|
                    0 <= i < ix ==> !actual_value@[i].eq_spec(&self.element_contained),
            decreases actual_value.len() - ix,
        {
            if actual_value[ix].eq(&self.element_contained) {
                return Ok(());
            }
            ix += 1;
        }
        Err(MatchError::MissingElement {
            actual: debug_repr(actual_value),
            element: debug_repr(&self.element_contained),
        })
    }
}

/// Expects the provided value to contain an element.
pub fn contain_element<T>(element: T) -> (m: ContainsMatcher<T>)
    ensures
        m.element_contained == element,
{
    ContainsMatcher { element_contained: element }
}

/// Matches an iterable value looking for all the specified elements to be
/// present, and no more, without an specified order.
/// It is used with the function [`consist_of`].
///
/// Elements are checked for presence only: how often an element occurs on
/// either side is not counted.
pub struct ConsistOfMatcher<T> {
    /// The elements the candidate must consist of.
    pub elements_to_consist_of: Vec<T>,
}

impl<V: PartialEq + core::fmt::Debug> ConsistOfMatcher<V> {
    /// The value occurs somewhere in the expected list (the value under
    /// comparison stands on the left, as the scan compares it).
    pub open spec fn spec_present_in_expected(&self, x: V) -> bool {
        exists|j: int|
            0 <= j < self.elements_to_consist_of@.len()
                && x.eq_spec(&self.elements_to_consist_of@[j])
    }

    /// The value occurs somewhere in the candidate (the value under
    /// comparison stands on the left, as the scan compares it).
    pub open spec fn spec_present_in_actual(&self, actual: Seq<V>, x: V) -> bool {
        exists|i: int| 0 <= i < actual.len() && x.eq_spec(&actual[i])
    }

    /// Every element of the candidate occurs somewhere in the expected list.
    pub open spec fn spec_candidate_covered(&self, actual: Seq<V>) -> bool {
        forall|i: int|
            0 <= i < actual.len() ==> #[trigger] self.spec_present_in_expected(actual[i])
    }

    /// Every element of the expected list occurs somewhere in the candidate.
    pub open spec fn spec_expected_covered(&self, actual: Seq<V>) -> bool {
        forall|j: int|
            0 <= j < self.elements_to_consist_of@.len()
                ==> #[trigger] self.spec_present_in_actual(
                actual,
                self.elements_to_consist_of@[j],
            )
    }

    fn check_if_there_are_values_in_actual_not_present_in_expected(
        &self,
        actual_value: &Vec<V>,
    ) -> (r: Result<(), MatchError>)
        ensures
            V::obeys_eq_spec() ==> (r is Ok <==> self.spec_candidate_covered(actual_value@)),
            r matches Err(e) ==> (e matches MatchError::UnexpectedElement { position, .. }
                && position < actual_value@.len()),
            V::obeys_eq_spec() ==> (r matches Err(e) ==> (e matches MatchError::UnexpectedElement {
                position,
                ..
            } ==> !self.spec_present_in_expected(actual_value@[position as int]) && (forall|k: int|
                0 <= k < position ==> self.spec_present_in_expected(actual_value@[k])))),
    {
        let mut i: usize = 0;
        while i < actual_value.len()
            invariant
                i <= actual_value.len(),
                V::obeys_eq_spec() ==> forall|k: int|
                    0 <= k < i ==> #[trigger] self.spec_present_in_expected(actual_value@[k]),
            decreases actual_value.len() - i,
        {
            let mut j: usize = 0;
            let mut found: bool = false;
            while j < self.elements_to_consist_of.len()
                invariant_except_break
                    !found,
                    V::obeys_eq_spec() ==> forall|t: int|
                        0 <= t < j ==> !actual_value@[i as int].eq_spec(
                            &self.elements_to_consist_of@[t],
                        ),
                invariant
                    j <= self.elements_to_consist_of@.len(),
                    i < actual_value@.len(),
                ensures
                    V::obeys_eq_spec() ==> (found <==> self.spec_present_in_expected(
                        actual_value@[i as int],
                    )),
                decreases self.elements_to_consist_of.len() - j,
            {
                if actual_value[i].eq(&self.elements_to_consist_of[j]) {
                    found = true;
                    break;
                }
                j += 1;
            }
            if !found {
                return Err(MatchError::UnexpectedElement {
                    actual: debug_repr(actual_value),
                    expected: debug_repr(&self.elements_to_consist_of),
                    position: i,
                    element: debug_repr(&actual_value[i]),
                });
            }
            i += 1;
        }
        Ok(())
    }

    fn check_if_there_are_values_in_expected_not_present_in_actual(
        &self,
        actual_value: &Vec<V>,
    ) -> (r: Result<(), MatchError>)
        ensures
            V::obeys_eq_spec() ==> (r is Ok <==> self.spec_expected_covered(actual_value@)),
            r matches Err(e) ==> (e matches MatchError::MissingExpected { position, .. }
                && position < self.elements_to_consist_of@.len()),
            V::obeys_eq_spec() ==> (r matches Err(e) ==> (e matches MatchError::MissingExpected {
                position,
                ..
            } ==> !self.spec_present_in_actual(
                actual_value@,
                self.elements_to_consist_of@[position as int],
            ) && (forall|k: int|
                0 <= k < position ==> self.spec_present_in_actual(
                    actual_value@,
                    self.elements_to_consist_of@[k],
                )))),
    {
        let mut j: usize = 0;
        while j < self.elements_to_consist_of.len()
            invariant
                j <= self.elements_to_consist_of@.len(),
                V::obeys_eq_spec() ==> forall|k: int|
                    0 <= k < j ==> #[trigger] self.spec_present_in_actual(
                        actual_value@,
                        self.elements_to_consist_of@[k],
                    ),
            decreases self.elements_to_consist_of.len() - j,
        {
            let mut i: usize = 0;
            let mut found: bool = false;
            while i < actual_value.len()
                invariant_except_break
                    !found,
                    V::obeys_eq_spec() ==> forall|t: int|
                        0 <= t < i ==> !self.elements_to_consist_of@[j as int].eq_spec(
                            &actual_value@[t],
                        ),
                invariant
                    i <= actual_value@.len(),
                    j < self.elements_to_consist_of@.len(),
                ensures
                    V::obeys_eq_spec() ==> (found <==> self.spec_present_in_actual(
                        actual_value@,
                        self.elements_to_consist_of@[j as int],
                    )),
                decreases actual_value.len() - i,
            {
                if self.elements_to_consist_of[j].eq(&actual_value[i]) {
                    found = true;
                    break;
                }
                i += 1;
            }
            if !found {
                return Err(MatchError::MissingExpected {
                    actual: debug_repr(actual_value),
                    expected: debug_repr(&self.elements_to_consist_of),
                    position: j,
                    element: debug_repr(&self.elements_to_consist_of[j]),
                });
            }
            j += 1;
        }
        Ok(())
    }
}

impl<V: PartialEq + core::fmt::Debug> Matcher<Vec<V>> for ConsistOfMatcher<V> {
    open spec fn valid(&self) -> bool {
        V::obeys_eq_spec()
    }

    /// Every candidate element occurs in the expected list, and every
    /// expected element occurs in the candidate; order and multiplicity do
    /// not matter.
    open spec fn spec_matches(&self, actual: Vec<V>) -> bool {
        self.spec_candidate_covered(actual@) && self.spec_expected_covered(actual@)
    }

    fn matches(&self, actual_value: &Vec<V>) -> (r: Result<(), MatchError>)
        ensures
            r matches Err(e) ==> (e is UnexpectedElement || e is MissingExpected),
            V::obeys_eq_spec() ==> (r matches Err(e) && e is UnexpectedElement
                ==> !self.spec_candidate_covered(actual_value@)),
            V::obeys_eq_spec() ==> (r matches Err(e) && e is MissingExpected
                ==> !self.spec_expected_covered(actual_value@)),
            // The candidate pass runs first: an uncovered candidate element is
            // always what is reported, even where the expected pass would fail
            // too.
            V::obeys_eq_spec() && !self.spec_candidate_covered(actual_value@) ==> (r matches Err(e)
                && e is UnexpectedElement),
            // What is reported is the first unmet condition of the failing
            // pass: every earlier position satisfies that pass.
            V::obeys_eq_spec() ==> (r matches Err(e) ==> (e matches MatchError::UnexpectedElement {
                position,
                ..
            } ==> position < actual_value@.len() && !self.spec_present_in_expected(
                actual_value@[position as int],
            ) && (forall|k: int|
                0 <= k < position ==> self.spec_present_in_expected(actual_value@[k])))),
            V::obeys_eq_spec() ==> (r matches Err(e) ==> (e matches MatchError::MissingExpected {
                position,
                ..
            } ==> position < self.elements_to_consist_of@.len() && !self.spec_present_in_actual(
                actual_value@,
                self.elements_to_consist_of@[position as int],
            ) && (forall|k: int|
                0 <= k < position ==> self.spec_present_in_actual(
                    actual_value@,
                    self.elements_to_consist_of@[k],
                )))),
    {
        let checked = self.check_if_there_are_values_in_actual_not_present_in_expected(
            actual_value,
        );
        match checked {
            Ok(()) => self.check_if_there_are_values_in_expected_not_present_in_actual(
                actual_value,
            ),
            Err(e) => Err(e),
        }
    }
}

/// How often an element occurs is not counted by a consist-of check:
/// appending to the candidate another copy of an element it already holds
/// changes neither of the two conditions the check decides.
pub proof fn lemma_duplicates_not_counted<V: PartialEq + core::fmt::Debug>(
    m: ConsistOfMatcher<V>,
    actual: Seq<V>,
    i: int,
)
    requires
        0 <= i < actual.len(),
    ensures
        m.spec_candidate_covered(actual.push(actual[i])) <==> m.spec_candidate_covered(actual),
        m.spec_expected_covered(actual.push(actual[i])) <==> m.spec_expected_covered(actual),
{
    let pushed = actual.push(actual[i]);
    assert(pushed[actual.len() as int] == actual[i]);
    if m.spec_candidate_covered(actual) {
        assert forall|k: int| 0 <= k < pushed.len() implies #[trigger] m.spec_present_in_expected(
            pushed[k],
        ) by {
            if k < actual.len() {
                assert(m.spec_present_in_expected(actual[k]));
            } else {
                assert(m.spec_present_in_expected(actual[i]));
            }
        }
    }
    if m.spec_candidate_covered(pushed) {
        assert forall|k: int| 0 <= k < actual.len() implies #[trigger] m.spec_present_in_expected(
            actual[k],
        ) by {
            assert(m.spec_present_in_expected(pushed[k]));
        }
    }
    if m.spec_expected_covered(actual) {
        assert forall|j: int|
            0 <= j < m.elements_to_consist_of@.len() implies #[trigger] m.spec_present_in_actual(
            pushed,
            m.elements_to_consist_of@[j],
        ) by {
            assert(m.spec_present_in_actual(actual, m.elements_to_consist_of@[j]));
            let w: int = choose|t: int|
                0 <= t < actual.len() && m.elements_to_consist_of@[j].eq_spec(&actual[t]);
            assert(m.elements_to_consist_of@[j].eq_spec(&pushed[w]));
        }
    }
    if m.spec_expected_covered(pushed) {
        assert forall|j: int|
            0 <= j < m.elements_to_consist_of@.len() implies #[trigger] m.spec_present_in_actual(
            actual,
            m.elements_to_consist_of@[j],
        ) by {
            assert(m.spec_present_in_actual(pushed, m.elements_to_consist_of@[j]));
            let w: int = choose|t: int|
                0 <= t < pushed.len() && m.elements_to_consist_of@[j].eq_spec(&pushed[t]);
            if w < actual.len() {
                assert(m.elements_to_consist_of@[j].eq_spec(&actual[w]));
            } else {
                assert(m.elements_to_consist_of@[j].eq_spec(&actual[i]));
            }
        }
    }
}

/// Expects the provided value to consist of the specified elements, in an
/// unspecified order.
///
/// The elements are copied out of the slice, so `T` must be `Copy`; for
/// elements that can only be cloned, build a [`ConsistOfMatcher`] directly
/// from a `Vec` of them.
pub fn consist_of<T: Copy>(elements: &[T]) -> (m: ConsistOfMatcher<T>)
    ensures
        m.elements_to_consist_of@ == elements@,
{
    ConsistOfMatcher { elements_to_consist_of: slice_to_vec(elements) }
}

} // verus!
