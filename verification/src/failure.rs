use vstd::prelude::*;
use vstd::string::StringExecFns;

verus! {

/// The reason a matcher rejected a candidate value.
///
/// Each variant identifies the check that failed; the embedded strings are
/// human-readable renderings of the values involved, and [`Self::message`]
/// assembles the full diagnostic text.
#[derive(Debug)]
pub enum MatchError {
    /// An equality check failed; `diff` renders the expected and actual
    /// values side by side.
    NotEqual { diff: String },
    /// An inequality check failed: the two values were equal.
    Equal { value: String },
    /// A containment check failed: `element` does not occur in the candidate
    /// `actual`.
    MissingElement { actual: String, element: String },
    /// A consist-of check failed: the candidate `actual` holds, at
    /// `position`, an `element` that occurs nowhere in the `expected` list.
    UnexpectedElement { actual: String, expected: String, position: usize, element: String },
    /// A consist-of check failed: the `expected` list holds, at `position`,
    /// an `element` that occurs nowhere in the candidate `actual`.
    MissingExpected { actual: String, expected: String, position: usize, element: String },
    /// An optional value was expected to carry a value, but it was empty.
    ExpectedSome,
    /// An optional value was expected to be empty, but it carried `value`.
    ExpectedNone { value: String },
    /// An outcome was expected to be a success, but it was the failure
    /// `error`.
    ExpectedOk { error: String },
    /// An outcome was expected to be a failure, but it was the success
    /// `value`.
    ExpectedErr { value: String },
}

/// The character of the decimal digit `d`.
pub open spec fn spec_digit(d: nat) -> char {
    if d == 0 {
        '0'
    } else if d == 1 {
        '1'
    } else if d == 2 {
        '2'
    } else if d == 3 {
        '3'
    } else if d == 4 {
        '4'
    } else if d == 5 {
        '5'
    } else if d == 6 {
        '6'
    } else if d == 7 {
        '7'
    } else if d == 8 {
        '8'
    } else {
        '9'
    }
}

/// The text of `n` written in decimal: the digits of `n / 10` first, then
/// the last digit.
pub open spec fn spec_decimal(n: nat) -> Seq<char>
    decreases n,
{
    if n < 10 {
        seq![spec_digit(n)]
    } else {
        spec_decimal(n / 10).push(spec_digit(n % 10))
    }
}

/// The decimal digit `d` as text.
fn digit_str(d: usize) -> (r: &'static str)
    requires
        d < 10,
    ensures
        r@ == seq![spec_digit(d as nat)],
{
    proof {
        reveal_strlit("0");
        reveal_strlit("1");
        reveal_strlit("2");
        reveal_strlit("3");
        reveal_strlit("4");
        reveal_strlit("5");
        reveal_strlit("6");
        reveal_strlit("7");
        reveal_strlit("8");
        reveal_strlit("9");
        assert("0"@ =~= seq![spec_digit(0)]);
        assert("1"@ =~= seq![spec_digit(1)]);
        assert("2"@ =~= seq![spec_digit(2)]);
        assert("3"@ =~= seq![spec_digit(3)]);
        assert("4"@ =~= seq![spec_digit(4)]);
        assert("5"@ =~= seq![spec_digit(5)]);
        assert("6"@ =~= seq![spec_digit(6)]);
        assert("7"@ =~= seq![spec_digit(7)]);
        assert("8"@ =~= seq![spec_digit(8)]);
        assert("9"@ =~= seq![spec_digit(9)]);
    }
    if d == 0 {
        "0"
    } else if d == 1 {
        "1"
    } else if d == 2 {
        "2"
    } else if d == 3 {
        "3"
    } else if d == 4 {
        "4"
    } else if d == 5 {
        "5"
    } else if d == 6 {
        "6"
    } else if d == 7 {
        "7"
    } else if d == 8 {
        "8"
    } else {
        "9"
    }
}

/// Renders `n` in decimal.
fn decimal_string(n: usize) -> (r: String)
    ensures
        r@ == spec_decimal(n as nat),
    decreases n,
{
    let last = digit_str(n % 10);
    if n < 10 {
        last.to_owned()
    } else {
        let mut s = decimal_string(n / 10);
        s.append(last);
        proof {
            assert(s@ =~= spec_decimal(n as nat));
        }
        s
    }
}

impl MatchError {
    /// The full diagnostic text of the failure: a fixed description of the
    /// failed check with the renderings of the values involved embedded.
    pub open spec fn spec_message(self) -> Seq<char> {
        match self {
            MatchError::NotEqual { diff } => "expected both values to be equal:\n"@ + diff@,
            MatchError::Equal { value } => "expected both values to differ, but both were\n  `"@
                + value@ + "`"@,
            MatchError::MissingElement { actual, element } => "expected\n  `"@ + actual@
                + "`\nto contain\n  `"@ + element@ + "`\nbut it's not present"@,
            MatchError::UnexpectedElement { actual, expected, position, element } => "expected:\n  `"@
                + actual@ + "`\nto consist of:\n  `"@ + expected@
                + "`\nbut the extra element at position `"@ + spec_decimal(position as nat)
                + "` in the original value:\n  `"@ + element@
                + "`\nwas not expected to be present"@,
            MatchError::MissingExpected { actual, expected, position, element } => "expected:\n  `"@
                + actual@ + "`\nto consist of:\n  `"@ + expected@
                + "`\nbut the element at position `"@ + spec_decimal(position as nat)
                + "` in the expectation:\n  `"@ + element@
                + "`\nwas missing in the original value"@,
            MatchError::ExpectedSome => "expected Option to be Some, but it was None"@,
            MatchError::ExpectedNone { value } => "expected Option to be None but it was Some("@
                + value@ + ")"@,
            MatchError::ExpectedOk { error } => "expected to be Ok, but there was an error: "@
                + error@,
            MatchError::ExpectedErr { value } => "expected to be an error but it was Ok: "@
                + value@,
        }
    }

    /// Renders the failure for human diagnosis.
    pub fn message(&self) -> (r: String)
        ensures
            r@ == self.spec_message(),
    {
        match self {
            MatchError::NotEqual { diff } => {
                let mut s = String::from_str("expected both values to be equal:\n");
                s.append(diff.as_str());
                s
            },
            MatchError::Equal { value } => {
                let mut s = String::from_str("expected both values to differ, but both were\n  `");
                s.append(value.as_str());
                s.append("`");
                s
            },
            MatchError::MissingElement { actual, element } => {
                let mut s = String::from_str("expected\n  `");
                s.append(actual.as_str());
                s.append("`\nto contain\n  `");
                s.append(element.as_str());
                s.append("`\nbut it's not present");
                s
            },
            MatchError::UnexpectedElement { actual, expected, position, element } => {
                let mut s = String::from_str("expected:\n  `");
                s.append(actual.as_str());
                s.append("`\nto consist of:\n  `");
                s.append(expected.as_str());
                s.append("`\nbut the extra element at position `");
                s.append(decimal_string(*position).as_str());
                s.append("` in the original value:\n  `");
                s.append(element.as_str());
                s.append("`\nwas not expected to be present");
                s
            },
            MatchError::MissingExpected { actual, expected, position, element } => {
                let mut s = String::from_str("expected:\n  `");
                s.append(actual.as_str());
                s.append("`\nto consist of:\n  `");
                s.append(expected.as_str());
                s.append("`\nbut the element at position `");
                s.append(decimal_string(*position).as_str());
                s.append("` in the expectation:\n  `");
                s.append(element.as_str());
                s.append("`\nwas missing in the original value");
                s
            },
            MatchError::ExpectedSome => {
                String::from_str("expected Option to be Some, but it was None")
            },
            MatchError::ExpectedNone { value } => {
                let mut s = String::from_str("expected Option to be None but it was Some(");
                s.append(value.as_str());
                s.append(")");
                s
            },
            MatchError::ExpectedOk { error } => {
                let mut s = String::from_str("expected to be Ok, but there was an error: ");
                s.append(error.as_str());
                s
            },
            MatchError::ExpectedErr { value } => {
                let mut s = String::from_str("expected to be an error but it was Ok: ");
                s.append(value.as_str());
                s
            },
        }
    }
}

/// Relies on `pretty_assertions::Comparison`: renders the `Debug`
/// representations of the two values side by side as a diff, for failure
/// messages. Nothing is claimed of the text.
#[verifier::external_body]
pub(crate) fn comparison_repr<T: core::fmt::Debug, U: core::fmt::Debug>(
    expected: &T,
    actual: &U,
) -> String {
    format!("{}", pretty_assertions::Comparison::new(expected, actual))
}

/// Relies on std's `format!` macro: renders a value with its `Debug`
/// implementation, for failure messages. Nothing is claimed of the text.
#[verifier::external_body]
pub(crate) fn debug_repr<T: core::fmt::Debug>(value: &T) -> String {
    format!("{:?}", value)
}

} // verus!
