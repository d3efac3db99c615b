use vstd::prelude::*;

use crate::equal::EqualityMatcher;
use crate::Matcher;

verus! {

/// Expects the provided value to match with `true`.
#[must_use]
pub fn be_true() -> (m: EqualityMatcher<bool>)
    ensures
        m.expected == true,
{
    EqualityMatcher::new(true)
}

/// Expects the provided value to match with `false`.
#[must_use]
pub fn be_false() -> (m: EqualityMatcher<bool>)
    ensures
        m.expected == false,
{
    EqualityMatcher::new(false)
}

/// The matcher built by [`be_true`] accepts exactly `true`, and the matcher
/// built by [`be_false`] accepts exactly `false`; on booleans both matchers
/// decide their condition exactly.
pub proof fn lemma_boolean_matchers(b: bool)
    ensures
        (EqualityMatcher { expected: true }).spec_matches(b) <==> b,
        (EqualityMatcher { expected: false }).spec_matches(b) <==> !b,
        (EqualityMatcher { expected: b }).valid(),
{
}

} // verus!
