//! A matcher/assertion library designed to help you write expressive tests.
//!
//! A value under test is checked with [`Subject::should`] against a
//! [`Matcher`]; a failed check is reported as a [`MatchError`] that
//! describes which check rejected the value and why.

use vstd::prelude::*;

mod boolean;
mod equal;
mod failure;
mod iter;
pub mod matcher;
mod option;
mod result;

pub use crate::failure::MatchError;

pub use crate::boolean::{be_false, be_true};
pub use crate::equal::{equal, not_equal, EqualityMatcher, InequalityMatcher};
pub use crate::iter::{consist_of, contain_element, ConsistOfMatcher, ContainsMatcher};
pub use crate::option::{be_none, be_some, NoneOptionMatcher, SomeOptionMatcher};
pub use crate::result::{be_err, be_ok, ErrResultMatcher, OkResultMatcher};

verus! {

/// A Matcher is a trait that can be implemented by custom types to perform
/// assertions.
///
/// `spec_matches` is the mathematical statement of the condition the matcher
/// checks; `valid` holds when the comparisons the matcher relies on agree
/// with their specifications, so that `matches` can promise to decide
/// `spec_matches` exactly.
pub trait Matcher<T>: Sized {
    /// Holds when the matcher's underlying comparisons obey their
    /// specifications, so the outcome of `matches` is pinned down.
    spec fn valid(&self) -> bool;

    /// The condition this matcher checks, as a specification.
    spec fn spec_matches(&self, actual: T) -> bool;

    /// Contains the behavior of the implementing matcher to assert with
    /// values: `Ok(())` exactly when the candidate satisfies the matcher's
    /// condition, and an error describing the failed check otherwise.
    fn matches(&self, actual_value: &T) -> (r: Result<(), MatchError>)
        ensures
            self.valid() ==> (r is Ok <==> self.spec_matches(*actual_value)),
    ;
}

/// The Subject trait allows all types, once imported, to be asserted with the
/// different matchers provided by this crate.
pub trait Subject<M>: Sized where M: Matcher<Self> {
    /// Evaluates a matcher against `self`, forwarding the matcher's outcome
    /// unchanged: the result is one that a direct call of the matcher's
    /// `matches` could have returned, so dispatch adds no behavior of its
    /// own.
    fn should(&self, matcher: M) -> (r: Result<(), MatchError>)
        ensures
            matcher.valid() ==> (r is Ok <==> matcher.spec_matches(*self)),
            call_ensures(M::matches, (&matcher, self), r),
    ;
}

/// Generic implementation of the Subject trait for all the types.
impl<T, M: Matcher<T>> Subject<M> for T {
    fn should(&self, matcher: M) -> (r: Result<(), MatchError>) {
        matcher.matches(self)
    }
}

} // verus!
