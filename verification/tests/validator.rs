use type_lib::{ValidationError, Validator};

struct NonEmpty;

impl<S: AsRef<str> + ?Sized> Validator<S> for NonEmpty {
    type Error = ValidationError;

    fn validate(value: &S) -> Result<(), Self::Error> {
        if value.as_ref().is_empty() {
            Err(ValidationError::new("non_empty", "value must not be empty"))
        } else {
            Ok(())
        }
    }
}

#[test]
fn validator_accepts_valid_value() {
    assert!(NonEmpty::validate("hello").is_ok());
}

#[test]
fn rejects_invalid_value() {
    let err = NonEmpty::validate("").unwrap_err();
    assert_eq!(err.code(), "non_empty");
}

#[test]
fn rule_is_reusable_across_borrow_forms() {
    // Same marker type, different value representations.
    assert!(<NonEmpty as Validator<str>>::validate("ok").is_ok());
    let owned = "ok";
    assert!(<NonEmpty as Validator<&str>>::validate(&owned).is_ok());
}
