use type_lib::{Refined, ValidationError, Validator};

#[derive(Debug)]
struct NonEmpty;

impl Validator<&str> for NonEmpty {
    type Error = ValidationError;

    fn validate(value: &&str) -> Result<(), Self::Error> {
        if value.is_empty() {
            Err(ValidationError::new("non_empty", "value must not be empty"))
        } else {
            Ok(())
        }
    }
}

#[derive(Debug)]
struct Positive;

impl Validator<i32> for Positive {
    type Error = ValidationError;

    fn validate(value: &i32) -> Result<(), Self::Error> {
        if *value > 0 {
            Ok(())
        } else {
            Err(ValidationError::new("positive", "value must be > 0"))
        }
    }
}

/// A `Clone`-but-not-`Copy` value type for exercising the `Clone` impl.
#[derive(Clone, PartialEq, Debug)]
struct Tag(i32);

struct AnyTag;

impl Validator<Tag> for AnyTag {
    type Error = ValidationError;

    fn validate(_value: &Tag) -> Result<(), Self::Error> {
        Ok(())
    }
}

#[test]
fn new_accepts_valid_and_rejects_invalid() {
    assert!(Refined::<&str, NonEmpty>::new("ok").is_ok());
    let err = Refined::<&str, NonEmpty>::new("").unwrap_err();
    assert_eq!(err.code(), "non_empty");
}

#[test]
fn accessors_return_inner() {
    let n = Refined::<i32, Positive>::new(42).unwrap();
    assert_eq!(*n.get(), 42);
    assert_eq!(*n.as_ref(), 42);
    assert_eq!(*n, 42); // Deref
    assert_eq!(n.into_inner(), 42);
}

#[test]
fn delegated_traits_compare_by_value() {
    let a = Refined::<i32, Positive>::new(1).unwrap();
    let b = Refined::<i32, Positive>::new(1).unwrap();
    let c = Refined::<i32, Positive>::new(2).unwrap();
    assert_eq!(a, b);
    assert!(a < c);
}

#[test]
fn copy_inner_makes_refined_copy() {
    let a = Refined::<i32, Positive>::new(3).unwrap();
    let b = a; // Copy: `a` is still usable afterwards.
    assert_eq!(*a.get(), 3);
    assert_eq!(*b.get(), 3);
}

#[test]
fn clone_of_copy_value_holds_same_value() {
    let a = Refined::<i32, Positive>::new(9).unwrap();
    let b = a.clone();
    assert_eq!(*b.get(), 9);
    assert_eq!(a, b);
}

#[test]
fn non_copy_value_is_duplicated_by_rewrapping_a_clone() {
    let a = Refined::<Tag, AnyTag>::new(Tag(7)).unwrap();
    let b = Refined::<Tag, AnyTag>::new(a.get().clone()).unwrap();
    assert_eq!(*a.get(), Tag(7));
    assert_eq!(*b.get(), Tag(7));
}

#[test]
fn layout_is_transparent_over_t() {
    assert_eq!(
        core::mem::size_of::<Refined<i32, Positive>>(),
        core::mem::size_of::<i32>(),
    );
    assert_eq!(
        core::mem::size_of::<Refined<&str, NonEmpty>>(),
        core::mem::size_of::<&str>(),
    );
}

#[test]
fn rejected_value_reports_rule_error() {
    let err = Refined::<i32, Positive>::new(0).unwrap_err();
    assert_eq!(err, ValidationError::new("positive", "value must be > 0"));
}

#[test]
fn rewrapping_inner_value_succeeds() {
    let count = Refined::<i32, Positive>::new(5).unwrap();
    let bumped = Refined::<i32, Positive>::new(count.into_inner() + 1).unwrap();
    assert_eq!(*bumped, 6);
}

#[derive(Debug)]
struct NonBlank;

impl Validator<String> for NonBlank {
    type Error = ValidationError;

    fn validate(value: &String) -> Result<(), Self::Error> {
        if value.trim().is_empty() {
            Err(ValidationError::new("non_blank", "value must not be blank"))
        } else {
            Ok(())
        }
    }
}

#[test]
fn duplicate_of_refined_string_holds_equal_string() {
    let a = Refined::<String, NonBlank>::new("alice".to_owned()).unwrap();
    let b = a.duplicate();
    assert_eq!(b.get(), "alice");
    assert_eq!(a, b);
}
