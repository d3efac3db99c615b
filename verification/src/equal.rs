use vstd::prelude::*;
use vstd::std_specs::cmp::PartialEqSpec;

use crate::failure::{comparison_repr, debug_repr};
use crate::{MatchError, Matcher};

verus! {

/// The [`EqualityMatcher`] provides equality matching that can be accessed
/// with functions like [`equal`].
pub struct EqualityMatcher<T> {
    /// The value a candidate must be equal to.
    pub expected: T,
}

impl<T> EqualityMatcher<T> {
    /// Builds a matcher that accepts exactly the values equal to `expected`.
    pub fn new(expected: T) -> (m: Self)
        ensures
            m.expected == expected,
    {
        EqualityMatcher { expected }
    }
}

impl<T: PartialEq + core::fmt::Debug> Matcher<T> for EqualityMatcher<T> {
    open spec fn valid(&self) -> bool {
        T::obeys_eq_spec()
    }

    open spec fn spec_matches(&self, actual: T) -> bool {
        self.expected.eq_spec(&actual)
    }

    fn matches(&self, actual_value: &T) -> (r: Result<(), MatchError>)
        ensures
            r matches Err(e) ==> e is NotEqual,
    {
        if self.expected.eq(actual_value) {
            Ok(())
        } else {
            Err(MatchError::NotEqual { diff: comparison_repr(&self.expected, actual_value) })
        }
    }
}

/// Expects the provided value to match with equality.
pub fn equal<T>(other: T) -> (m: EqualityMatcher<T>)
    ensures
        m.expected == other,
{
    EqualityMatcher::new(other)
}

/// The [`InequalityMatcher`] provides inequality matching that can be
/// accessed with functions like [`not_equal`].
pub struct InequalityMatcher<T> {
    /// The value a candidate must differ from.
    pub expected: T,
}

impl<T> InequalityMatcher<T> {
    /// Builds a matcher that accepts exactly the values not equal to
    /// `expected`.
    pub fn new(expected: T) -> (m: Self)
        ensures
            m.expected == expected,
    {
        InequalityMatcher { expected }
    }
}

impl<T: PartialEq + core::fmt::Debug> Matcher<T> for InequalityMatcher<T> {
    open spec fn valid(&self) -> bool {
        T::obeys_eq_spec()
    }

    open spec fn spec_matches(&self, actual: T) -> bool {
        !self.expected.eq_spec(&actual)
    }

    fn matches(&self, actual_value: &T) -> (r: Result<(), MatchError>)
        ensures
            r matches Err(e) ==> e is Equal,
    {
        if self.expected.eq(actual_value) {
            Err(MatchError::Equal { value: debug_repr(actual_value) })
        } else {
            Ok(())
        }
    }
}

/// Expects the provided value to differ from `other`.
pub fn not_equal<T>(other: T) -> (m: InequalityMatcher<T>)
    ensures
        m.expected == other,
{
    InequalityMatcher::new(other)
}

/// `not_equal(a)` is the exact logical negation of `equal(a)`: every
/// candidate is accepted by exactly one of the two matchers built from the
/// same expected value.
pub proof fn lemma_not_equal_negates_equal<T: PartialEq + core::fmt::Debug>(
    expected: T,
    actual: T,
)
    ensures
        (InequalityMatcher { expected }).spec_matches(actual) <==> !(EqualityMatcher {
            expected,
        }).spec_matches(actual),
{
}

/// Where equality on `T` is reflexive at `a`, as the contract of `Eq`
/// demands of a well-behaved comparison, `equal(a)` accepts `a` itself and
/// `not_equal(a)` rejects it.
pub proof fn lemma_equal_accepts_itself<T: PartialEq + core::fmt::Debug>(a: T)
    requires
        a.eq_spec(&a),
    ensures
        (EqualityMatcher { expected: a }).spec_matches(a),
        !(InequalityMatcher { expected: a }).spec_matches(a),
{
}

} // verus!
