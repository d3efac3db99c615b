use core::marker::PhantomData;
use vstd::prelude::*;

use crate::equal::EqualityMatcher;
use crate::failure::debug_repr;
use crate::{MatchError, Matcher};

verus! {

/// Provides matching of a success outcome, accessed with the function
/// [`be_ok`].
pub struct OkResultMatcher<M, T> {
    /// The matcher the success value is checked against.
    pub inner_matcher: M,
    /// Marks the candidate's success type, which the matcher itself does not
    /// store.
    pub phantom: PhantomData<T>,
}

impl<M, T, E> Matcher<Result<T, E>> for OkResultMatcher<M, T> where
    M: Matcher<T>,
    E: core::fmt::Debug,
 {
    open spec fn valid(&self) -> bool {
        self.inner_matcher.valid()
    }

    /// The candidate is a success and the inner matcher accepts its value.
    open spec fn spec_matches(&self, actual: Result<T, E>) -> bool {
        actual matches Ok(inner) && self.inner_matcher.spec_matches(inner)
    }

    fn matches(&self, actual_value: &Result<T, E>) -> (r: Result<(), MatchError>)
        ensures
            actual_value is Err ==> (r matches Err(e) && e is ExpectedOk),
            // A success value is checked by the inner matcher alone, and its
            // outcome is surfaced verbatim.
            (*actual_value) matches Ok(v) ==> call_ensures(
                M::matches,
                (&self.inner_matcher, &v),
                r,
            ),
    {
        match actual_value {
            Ok(inner) => self.inner_matcher.matches(inner),
            Err(err) => Err(MatchError::ExpectedOk { error: debug_repr(err) }),
        }
    }
}

/// Provides matching of a failure outcome, accessed with the function
/// [`be_err`].
pub struct ErrResultMatcher<M, E> {
    /// The matcher the error value is checked against.
    pub inner_matcher: M,
    /// Marks the candidate's error type, which the matcher itself does not
    /// store.
    pub phantom: PhantomData<E>,
}

impl<M, T, E> Matcher<Result<T, E>> for ErrResultMatcher<M, E> where
    M: Matcher<E>,
    T: core::fmt::Debug,
 {
    open spec fn valid(&self) -> bool {
        self.inner_matcher.valid()
    }

    /// The candidate is a failure and the inner matcher accepts its error.
    open spec fn spec_matches(&self, actual: Result<T, E>) -> bool {
        actual matches Err(inner) && self.inner_matcher.spec_matches(inner)
    }

    fn matches(&self, actual_value: &Result<T, E>) -> (r: Result<(), MatchError>)
        ensures
            actual_value is Ok ==> (r matches Err(e) && e is ExpectedErr),
            // An error value is checked by the inner matcher alone, and its
            // outcome is surfaced verbatim.
            (*actual_value) matches Err(v) ==> call_ensures(
                M::matches,
                (&self.inner_matcher, &v),
                r,
            ),
    {
        match actual_value {
            Ok(ok) => Err(MatchError::ExpectedErr { value: debug_repr(ok) }),
            Err(inner) => self.inner_matcher.matches(inner),
        }
    }
}

/// Expects the provided value to be a [`Result`] of variant [`Ok`] that
/// contains something that matches an inner matcher.
pub fn be_ok<M, T>(expected: M) -> (m: OkResultMatcher<M, T>) where M: Matcher<T>
    ensures
        m.inner_matcher == expected,
{
    OkResultMatcher { inner_matcher: expected, phantom: PhantomData }
}

/// Expects the provided value to be a [`Result`] of variant [`Err`] that
/// contains something that matches an inner matcher.
pub fn be_err<M, T>(expected: M) -> (m: ErrResultMatcher<M, T>) where M: Matcher<T>
    ensures
        m.inner_matcher == expected,
{
    ErrResultMatcher { inner_matcher: expected, phantom: PhantomData }
}

/// For a success `Ok(x)`, `be_ok(m)` accepts exactly when `m` accepts `x`,
/// and every failure candidate is rejected; symmetrically, for a failure
/// `Err(e)`, `be_err(m)` accepts exactly when `m` accepts `e`, and every
/// success candidate is rejected.
pub proof fn lemma_result_matchers<M: Matcher<T>, N: Matcher<E>, T: core::fmt::Debug, E: core::fmt::Debug>(
    ok_matcher: OkResultMatcher<M, T>,
    err_matcher: ErrResultMatcher<N, E>,
    actual: Result<T, E>,
)
    ensures
        actual matches Ok(inner) ==> (ok_matcher.spec_matches(actual)
            <==> ok_matcher.inner_matcher.spec_matches(inner)),
        actual is Err ==> !ok_matcher.spec_matches(actual),
        actual matches Err(inner) ==> (err_matcher.spec_matches(actual)
            <==> err_matcher.inner_matcher.spec_matches(inner)),
        actual is Ok ==> !err_matcher.spec_matches(actual),
{
}

/// Nested matchers compose: checked against a boolean outcome, the matcher
/// `be_ok(be_true())` is well formed and accepts exactly `Ok(true)` — the
/// inner equality check rejects `Ok(false)`, and the outer variant check
/// rejects every failure.
pub proof fn lemma_nested_composition<E: core::fmt::Debug>(actual: Result<bool, E>)
    ensures
        (EqualityMatcher { expected: true }).valid(),
        (OkResultMatcher::<EqualityMatcher<bool>, bool> {
            inner_matcher: EqualityMatcher { expected: true },
            phantom: PhantomData,
        }).spec_matches(actual) <==> (actual matches Ok(b) && b),
{
}

} // verus!
