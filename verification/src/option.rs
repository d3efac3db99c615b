use core::marker::PhantomData;
use vstd::prelude::*;

use crate::failure::debug_repr;
use crate::{MatchError, Matcher};

verus! {

/// Provides matching of an optional value that carries something, accessed
/// with the function [`be_some`].
pub struct SomeOptionMatcher<M, T> {
    /// The matcher the carried value is checked against.
    pub inner_matcher: M,
    /// Marks the candidate's element type, which the matcher itself does not
    /// store.
    pub phantom: PhantomData<T>,
}

impl<M, T> Matcher<Option<T>> for SomeOptionMatcher<M, T> where M: Matcher<T> {
    open spec fn valid(&self) -> bool {
        self.inner_matcher.valid()
    }

    /// The candidate carries a value and the inner matcher accepts it.
    open spec fn spec_matches(&self, actual: Option<T>) -> bool {
        actual matches Some(inner) && self.inner_matcher.spec_matches(inner)
    }

    fn matches(&self, actual_value: &Option<T>) -> (r: Result<(), MatchError>)
        ensures
            actual_value is None ==> r == Err::<(), MatchError>(MatchError::ExpectedSome),
            // A carried value is checked by the inner matcher alone, and its
            // outcome is surfaced verbatim.
            (*actual_value) matches Some(v) ==> call_ensures(
                M::matches,
                (&self.inner_matcher, &v),
                r,
            ),
    {
        match actual_value {
            Some(inner) => self.inner_matcher.matches(inner),
            None => Err(MatchError::ExpectedSome),
        }
    }
}

/// Expects the provided value to be an [`Option`] of variant [`Some`] that
/// contains something that matches an inner matcher.
pub fn be_some<M, T>(expected: M) -> (m: SomeOptionMatcher<M, T>) where M: Matcher<T>
    ensures
        m.inner_matcher == expected,
{
    SomeOptionMatcher { inner_matcher: expected, phantom: PhantomData }
}

/// Provides matching of an empty optional value, accessed with the function
/// [`be_none`].
pub struct NoneOptionMatcher {}

impl<T: core::fmt::Debug> Matcher<Option<T>> for NoneOptionMatcher {
    open spec fn valid(&self) -> bool {
        true
    }

    /// The candidate carries no value.
    open spec fn spec_matches(&self, actual: Option<T>) -> bool {
        actual is None
    }

    fn matches(&self, actual_value: &Option<T>) -> (r: Result<(), MatchError>)
        ensures
            r matches Err(e) ==> e is ExpectedNone,
    {
        match actual_value {
            Some(value) => Err(MatchError::ExpectedNone { value: debug_repr(value) }),
            None => Ok(()),
        }
    }
}

/// Expects the provided value to be an [`Option`] of variant [`None`].
#[must_use]
pub fn be_none() -> NoneOptionMatcher {
    NoneOptionMatcher {  }
}

/// For a candidate that carries a value, `be_some(m)` accepts exactly when
/// `m` accepts the carried value, and an empty candidate is always rejected;
/// `be_none()` accepts exactly the empty candidate.
pub proof fn lemma_option_matchers<M: Matcher<T>, T: core::fmt::Debug>(
    m: SomeOptionMatcher<M, T>,
    actual: Option<T>,
)
    ensures
        actual matches Some(inner) ==> (m.spec_matches(actual)
            <==> m.inner_matcher.spec_matches(inner)),
        actual is None ==> !m.spec_matches(actual),
        (NoneOptionMatcher {  }).spec_matches(actual) <==> actual is None,
{
}

} // verus!
