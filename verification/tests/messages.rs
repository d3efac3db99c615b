use expects::matcher::{be_none, be_ok, be_some, be_true, consist_of, contain_element, equal};
use expects::Subject;

#[test]
fn a_missing_element_is_reported_with_both_values() {
    let err = vec![1, 2, 3].should(contain_element(4)).unwrap_err();
    assert_eq!(
        err.message(),
        "expected\n  `[1, 2, 3]`\nto contain\n  `4`\nbut it's not present"
    );
}

#[test]
fn an_extra_element_is_reported_with_its_position() {
    let err = vec![1, 2, 3].should(consist_of(&[3, 1])).unwrap_err();
    assert_eq!(
        err.message(),
        "expected:\n  `[1, 2, 3]`\nto consist of:\n  `[3, 1]`\n\
         but the extra element at position `1` in the original value:\n  `2`\n\
         was not expected to be present"
    );
}

#[test]
fn a_missing_expected_element_is_reported_with_its_position() {
    let err = vec![1, 2, 3].should(consist_of(&[3, 1, 2, 4])).unwrap_err();
    assert_eq!(
        err.message(),
        "expected:\n  `[1, 2, 3]`\nto consist of:\n  `[3, 1, 2, 4]`\n\
         but the element at position `3` in the expectation:\n  `4`\n\
         was missing in the original value"
    );
}

#[test]
fn a_position_of_several_digits_is_rendered_in_decimal() {
    let candidate: Vec<i32> = (0..11).collect();
    let expected: Vec<i32> = (0..12).collect();
    let err = candidate.should(consist_of(&expected)).unwrap_err();
    let message = err.message();
    assert!(message.contains("at position `11` in the expectation"), "{}", message);
}

#[test]
fn an_empty_optional_is_reported_as_such() {
    let err = Option::<bool>::None.should(be_some(be_true())).unwrap_err();
    assert_eq!(err.message(), "expected Option to be Some, but it was None");
}

#[test]
fn an_unexpected_value_in_an_optional_is_reported() {
    let err = Some(7).should(be_none()).unwrap_err();
    assert_eq!(err.message(), "expected Option to be None but it was Some(7)");
}

#[test]
fn an_unexpected_failure_is_reported_with_its_error() {
    let err = Result::<bool, &str>::Err("boom").should(be_ok(be_true())).unwrap_err();
    assert_eq!(
        err.message(),
        "expected to be Ok, but there was an error: \"boom\""
    );
}

#[test]
fn an_unexpected_success_is_reported_with_its_value() {
    let err = Result::<i32, i32>::Ok(3).should(expects::matcher::be_err(equal(3))).unwrap_err();
    assert_eq!(err.message(), "expected to be an error but it was Ok: 3");
}

#[test]
fn an_equality_failure_renders_a_diff_of_both_values() {
    let err = 4.should(equal(3)).unwrap_err();
    let message = err.message();
    assert!(message.starts_with("expected both values to be equal:\n"), "{}", message);
    assert!(message.contains('3') && message.contains('4'), "{}", message);
}

#[test]
fn an_inequality_failure_reports_the_shared_value() {
    let err = "foo".should(expects::matcher::not_equal("foo")).unwrap_err();
    assert_eq!(
        err.message(),
        "expected both values to differ, but both were\n  `\"foo\"`"
    );
}
