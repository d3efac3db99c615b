use expects::matcher::{
    be_err, be_false, be_none, be_ok, be_some, be_true, consist_of, contain_element, equal,
    not_equal,
};
use expects::{MatchError, Matcher, Subject};

#[test]
fn equal_accepts_the_same_value() {
    assert!("foo".should(equal("foo")).is_ok());
    assert!(3.should(equal(3)).is_ok());
    assert!(5.6.should(equal(5.6)).is_ok());
    assert!(String::from("foo").should(equal(String::from("foo"))).is_ok());
}

#[test]
fn equal_rejects_a_different_value() {
    let r = "foo".should(equal("bar"));
    assert!(matches!(r, Err(MatchError::NotEqual { .. })));
    assert!(matches!(4.should(equal(3)), Err(MatchError::NotEqual { .. })));
}

#[test]
fn not_equal_is_the_negation_of_equal() {
    assert!("foo".should(not_equal("bar")).is_ok());
    assert!(3.should(not_equal(4)).is_ok());
    assert!(5.6.should(not_equal(6.6)).is_ok());
    let r = "foo".should(not_equal("foo"));
    assert!(matches!(r, Err(MatchError::Equal { .. })));
}

#[test]
fn be_true_accepts_only_true() {
    assert!(true.should(be_true()).is_ok());
    assert!(matches!(false.should(be_true()), Err(MatchError::NotEqual { .. })));
}

#[test]
fn be_false_accepts_only_false() {
    assert!(false.should(be_false()).is_ok());
    assert!(matches!(true.should(be_false()), Err(MatchError::NotEqual { .. })));
}

#[test]
fn contain_element_finds_each_present_element() {
    let v = vec![1, 2, 3];
    assert!(v.should(contain_element(1)).is_ok());
    assert!(v.should(contain_element(2)).is_ok());
    assert!(v.should(contain_element(3)).is_ok());
}

#[test]
fn contain_element_rejects_an_absent_element() {
    let v = vec![1, 2, 3];
    assert!(matches!(v.should(contain_element(4)), Err(MatchError::MissingElement { .. })));
}

#[test]
fn contain_element_rejects_an_empty_candidate() {
    let v: Vec<i32> = Vec::new();
    assert!(matches!(v.should(contain_element(4)), Err(MatchError::MissingElement { .. })));
}

#[test]
fn consist_of_ignores_order() {
    assert!(vec![1, 2, 3].should(consist_of(&[3, 1, 2])).is_ok());
}

#[test]
fn consist_of_rejects_an_extra_candidate_element() {
    let r = vec![1, 2, 3].should(consist_of(&[3, 1]));
    match r {
        Err(MatchError::UnexpectedElement { position, element, .. }) => {
            assert_eq!(position, 1);
            assert_eq!(element, "2");
        }
        other => panic!("expected an unexpected-element failure, got {:?}", other),
    }
}

#[test]
fn consist_of_rejects_a_missing_expected_element() {
    let r = vec![1, 2, 3].should(consist_of(&[3, 1, 2, 4]));
    match r {
        Err(MatchError::MissingExpected { position, element, .. }) => {
            assert_eq!(position, 3);
            assert_eq!(element, "4");
        }
        other => panic!("expected a missing-element failure, got {:?}", other),
    }
}

#[test]
fn consist_of_does_not_count_duplicates() {
    assert!(vec![1, 1, 2].should(consist_of(&[1, 2])).is_ok());
    assert!(vec![1, 2].should(consist_of(&[1, 1, 2])).is_ok());
}

#[test]
fn consist_of_accepts_two_empty_sides() {
    let v: Vec<i32> = Vec::new();
    assert!(v.should(consist_of(&[])).is_ok());
}

#[test]
fn consist_of_rejects_an_expected_element_against_an_empty_candidate() {
    let v: Vec<i32> = Vec::new();
    assert!(matches!(v.should(consist_of(&[1])), Err(MatchError::MissingExpected { .. })));
}

#[test]
fn be_some_delegates_to_the_inner_matcher() {
    assert!(Some(true).should(be_some(be_true())).is_ok());
    assert!(Some(5).should(be_some(equal(5))).is_ok());
    assert!(matches!(
        Some(false).should(be_some(be_true())),
        Err(MatchError::NotEqual { .. })
    ));
}

#[test]
fn be_some_rejects_an_empty_optional() {
    let r = Option::<bool>::None.should(be_some(be_true()));
    assert!(matches!(r, Err(MatchError::ExpectedSome)));
}

#[test]
fn be_none_accepts_only_an_empty_optional() {
    assert!(Option::<()>::None.should(be_none()).is_ok());
    assert!(matches!(Some(()).should(be_none()), Err(MatchError::ExpectedNone { .. })));
}

#[test]
fn be_ok_delegates_to_the_inner_matcher() {
    assert!(Result::<bool, ()>::Ok(true).should(be_ok(be_true())).is_ok());
    let r = Result::<bool, ()>::Ok(false).should(be_ok(be_true()));
    assert!(matches!(r, Err(MatchError::NotEqual { .. })));
}

#[test]
fn be_ok_rejects_a_failure() {
    let r = Result::<bool, i32>::Err(7).should(be_ok(be_true()));
    assert!(matches!(r, Err(MatchError::ExpectedOk { .. })));
}

#[test]
fn be_err_delegates_to_the_inner_matcher() {
    assert!(Result::<(), bool>::Err(true).should(be_err(be_true())).is_ok());
    let r = Result::<(), bool>::Err(false).should(be_err(be_true()));
    assert!(matches!(r, Err(MatchError::NotEqual { .. })));
}

#[test]
fn be_err_rejects_a_success() {
    let r = Result::<i32, bool>::Ok(3).should(be_err(be_true()));
    assert!(matches!(r, Err(MatchError::ExpectedErr { .. })));
}

#[test]
fn nesting_matchers_reports_the_layer_that_rejected() {
    assert!(Some(Result::<bool, ()>::Ok(true)).should(be_some(be_ok(be_true()))).is_ok());
    let inner = Some(Result::<bool, ()>::Ok(false)).should(be_some(be_ok(be_true())));
    assert!(matches!(inner, Err(MatchError::NotEqual { .. })));
    let middle = Some(Result::<bool, ()>::Err(())).should(be_some(be_ok(be_true())));
    assert!(matches!(middle, Err(MatchError::ExpectedOk { .. })));
    let outer = Option::<Result<bool, ()>>::None.should(be_some(be_ok(be_true())));
    assert!(matches!(outer, Err(MatchError::ExpectedSome)));
}

#[test]
fn should_forwards_the_matcher_outcome_unchanged() {
    let direct = equal(3).matches(&4);
    let dispatched = 4.should(equal(3));
    assert!(matches!(direct, Err(MatchError::NotEqual { .. })));
    assert!(matches!(dispatched, Err(MatchError::NotEqual { .. })));
    assert!(equal(3).matches(&3).is_ok());
    assert!(3.should(equal(3)).is_ok());
}
