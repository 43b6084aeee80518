use type_lib::rules::{HasLength, LenRange, MaxLen, MinLen, NonEmpty};
use type_lib::Validator;

#[test]
fn has_length_counts_chars_and_elements() {
    assert_eq!("héllo".length(), 5);
    assert_eq!([1, 2, 3][..].length(), 3);

    // The blanket impl for references lets a rule see through one `&`.
    let slice: &[u8] = b"abc";
    assert_eq!(slice.length(), 3);
}

#[test]
fn non_empty_rules() {
    assert!(NonEmpty::validate("x").is_ok());
    assert_eq!(NonEmpty::validate("").unwrap_err().code(), "non_empty");
}

#[test]
fn min_max_len_boundaries() {
    assert!(MinLen::<2>::validate("ab").is_ok());
    assert!(MinLen::<2>::validate("a").is_err());
    assert!(MaxLen::<2>::validate("ab").is_ok());
    assert!(MaxLen::<2>::validate("abc").is_err());
}

#[test]
fn len_range_inclusive_bounds() {
    assert!(LenRange::<2, 4>::validate("ab").is_ok());
    assert!(LenRange::<2, 4>::validate("abcd").is_ok());
    assert!(LenRange::<2, 4>::validate("a").is_err());
    assert!(LenRange::<2, 4>::validate("abcde").is_err());
}

#[test]
fn owned_values_have_lengths() {
    assert_eq!(String::from("héllo").length(), 5);
    assert_eq!(vec![1u8, 2, 3, 4].length(), 4);
    assert!(NonEmpty::validate(&Vec::<u8>::new()).is_err());
    assert!(MaxLen::<3>::validate(&String::from("abcd")).is_err());
}

#[test]
fn length_rule_codes() {
    assert_eq!(MinLen::<2>::validate("a").unwrap_err().code(), "min_len");
    assert_eq!(MaxLen::<0>::validate("a").unwrap_err().code(), "max_len");
    assert_eq!(LenRange::<2, 3>::validate("a").unwrap_err().code(), "len_range");
    assert_eq!(
        LenRange::<2, 3>::validate("a").unwrap_err().message(),
        "value length is out of range"
    );
}

#[test]
fn len_range_agrees_with_min_and_max() {
    for s in ["", "a", "ab", "abc", "abcd", "héllo"] {
        assert_eq!(
            LenRange::<2, 4>::validate(s).is_ok(),
            MinLen::<2>::validate(s).is_ok() && MaxLen::<4>::validate(s).is_ok()
        );
        assert_eq!(NonEmpty::validate(s).is_ok(), MinLen::<1>::validate(s).is_ok());
    }
}

#[test]
fn rules_see_through_references() {
    let s: &str = "abc";
    assert!(MinLen::<3>::validate(&s).is_ok());
    assert!(MinLen::<4>::validate(&s).is_err());
}
