use type_lib::rules::{InRange, Minus, Negative, NonNegative, NonPositive, Plus, Positive};
use type_lib::Validator;

#[test]
fn sign_rules_on_integers() {
    assert!(Positive::validate(&1_i32).is_ok());
    assert!(Positive::validate(&0_i32).is_err());
    assert!(NonNegative::validate(&0_i32).is_ok());
    assert!(NonNegative::validate(&-1_i32).is_err());
    assert!(Negative::validate(&-1_i32).is_ok());
    assert!(Negative::validate(&0_i32).is_err());
    assert!(NonPositive::validate(&0_i32).is_ok());
    assert!(NonPositive::validate(&1_i32).is_err());
}

#[test]
fn in_range_inclusive_bounds_and_codes() {
    assert!(InRange::<Plus<0>, Plus<100>>::validate(&0_u8).is_ok());
    assert!(InRange::<Plus<0>, Plus<100>>::validate(&100_u8).is_ok());
    assert_eq!(
        InRange::<Plus<0>, Plus<100>>::validate(&101_i32).unwrap_err().code(),
        "in_range",
    );
    assert!(InRange::<Minus<5>, Plus<5>>::validate(&-5_i16).is_ok());
    assert!(InRange::<Minus<5>, Plus<5>>::validate(&-6_i16).is_err());
}

#[test]
fn sign_rule_codes() {
    assert_eq!(Positive::validate(&0_i8).unwrap_err().code(), "positive");
    assert_eq!(NonNegative::validate(&-1_i64).unwrap_err().code(), "non_negative");
    assert_eq!(Negative::validate(&0_i128).unwrap_err().code(), "negative");
    assert_eq!(NonPositive::validate(&1_isize).unwrap_err().code(), "non_positive");
}

#[test]
fn sign_rules_are_complements() {
    for v in [i16::MIN, -1, 0, 1, i16::MAX] {
        assert_eq!(NonNegative::validate(&v).is_ok(), Negative::validate(&v).is_err());
        assert_eq!(NonPositive::validate(&v).is_ok(), Positive::validate(&v).is_err());
    }
}

#[test]
fn in_range_extremes() {
    assert!(InRange::<Minus<9223372036854775808>, Plus<9223372036854775807>>::validate(&i64::MIN).is_ok());
    assert!(InRange::<Minus<9223372036854775808>, Plus<9223372036854775807>>::validate(&i64::MAX).is_ok());
    assert!(InRange::<Plus<0>, Plus<10>>::validate(&u32::MAX).is_err());
    assert!(InRange::<Minus<3>, Minus<1>>::validate(&-2_i8).is_ok());
    assert!(InRange::<Minus<3>, Minus<1>>::validate(&0_i8).is_err());
    // An empty range accepts nothing.
    assert!(InRange::<Plus<5>, Plus<4>>::validate(&5_i32).is_err());
}
