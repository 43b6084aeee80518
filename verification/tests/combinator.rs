use type_lib::combinator::{And, Not, Or};
use type_lib::rules::{Ascii, MaxLen, MinLen, NonEmpty};
use type_lib::Validator;

#[test]
fn and_requires_both() {
    type R = And<NonEmpty, MaxLen<4>>;
    assert!(R::validate("abc").is_ok());
    assert_eq!(R::validate("").unwrap_err().code(), "non_empty");
    assert_eq!(R::validate("toolong").unwrap_err().code(), "max_len");
}

#[test]
fn or_accepts_either() {
    type R = Or<NonEmpty, MaxLen<0>>;
    assert!(R::validate("x").is_ok()); // NonEmpty passes
    assert!(R::validate("").is_ok()); // NonEmpty fails, but MaxLen<0> passes on ""
}

#[test]
fn or_returns_second_error_when_both_fail() {
    type R = Or<MinLen<5>, MinLen<10>>;
    // "abc" (len 3) fails both bounds; Or returns the second rule's error.
    assert_eq!(R::validate("abc").unwrap_err().code(), "min_len");
}

#[test]
fn not_inverts() {
    type R = Not<Ascii>;
    assert!(R::validate("café").is_ok());
    assert_eq!(R::validate("ascii").unwrap_err().code(), "not");
}

#[test]
fn not_error_carries_its_message() {
    let err = <Not<Ascii> as Validator<str>>::validate("plain").unwrap_err();
    assert_eq!(err.message(), "value matched a rule it was required to violate");
}

#[test]
fn and_returns_first_error_when_both_fail() {
    type R = And<MinLen<5>, Ascii>;
    // "é" fails both: it is short and not ASCII; And reports the first rule.
    assert_eq!(R::validate("é").unwrap_err().code(), "min_len");
}

#[test]
fn double_negation_matches_rule() {
    type R = Not<Not<NonEmpty>>;
    assert!(R::validate("x").is_ok());
    assert!(R::validate("").is_err());
}

#[test]
fn de_morgan_on_concrete_values() {
    type L = Not<And<NonEmpty, Ascii>>;
    type R = Or<Not<NonEmpty>, Not<Ascii>>;
    for s in ["", "abc", "é", "éé"] {
        assert_eq!(L::validate(s).is_ok(), R::validate(s).is_ok());
    }
}

#[test]
fn and_commutes_on_acceptance() {
    for s in ["", "ab", "abcdef", "é"] {
        assert_eq!(
            And::<NonEmpty, MaxLen<3>>::validate(s).is_ok(),
            And::<MaxLen<3>, NonEmpty>::validate(s).is_ok()
        );
    }
}
