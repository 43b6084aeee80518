use type_lib::ValidationError;

#[test]
fn new_preserves_code_and_message() {
    let err = ValidationError::new("non_empty", "value must not be empty");
    assert_eq!(err.code(), "non_empty");
    assert_eq!(err.message(), "value must not be empty");
}

#[test]
fn display_joins_code_and_message() {
    let err = ValidationError::new("out_of_range", "expected 1..=10");
    let text = err.to_string();
    assert_eq!(text.as_str(), "out_of_range: expected 1..=10");
}

#[test]
fn equal_errors_compare_equal() {
    let a = ValidationError::new("c", "m");
    let b = ValidationError::new("c", "m");
    let c = ValidationError::new("c", "other");
    assert_eq!(a, b);
    assert_ne!(a, c);
}

#[test]
fn errors_differing_in_code_differ() {
    let a = ValidationError::new("a", "m");
    let b = ValidationError::new("b", "m");
    assert_ne!(a, b);
}

#[test]
fn error_is_copy() {
    let a = ValidationError::new("c", "m");
    let b = a;
    assert_eq!(a.code(), b.code());
}
