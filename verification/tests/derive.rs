//! Validated newtypes as `#[derive(Validated)]` writes them: a one-field tuple
//! struct with a checked `new`, `get`, `into_inner`, `Deref` and `AsRef`.

use type_lib::combinator::And;
use type_lib::newtype::{check_newtype, FieldsShape, ItemShape, NewtypeError, NewtypeInput};
use type_lib::rules::{InRange, LenRange, Plus, Trimmed};
use type_lib::{ValidationError, Validator};

#[derive(Debug, Clone, PartialEq)]
struct Username(String);

impl Username {
    fn new(
        value: String,
    ) -> Result<Self, <And<Trimmed, LenRange<3, 16>> as Validator<String>>::Error> {
        <And<Trimmed, LenRange<3, 16>> as Validator<String>>::validate(&value)?;
        Ok(Username(value))
    }

    fn get(&self) -> &String {
        &self.0
    }

    fn into_inner(self) -> String {
        self.0
    }
}

impl core::ops::Deref for Username {
    type Target = String;

    fn deref(&self) -> &Self::Target {
        &self.0
    }
}

#[derive(Debug, PartialEq)]
struct Percent(i32);

impl Percent {
    fn new(value: i32) -> Result<Self, <InRange<Plus<0>, Plus<100>> as Validator<i32>>::Error> {
        <InRange<Plus<0>, Plus<100>> as Validator<i32>>::validate(&value)?;
        Ok(Percent(value))
    }
}

impl core::ops::Deref for Percent {
    type Target = i32;

    fn deref(&self) -> &Self::Target {
        &self.0
    }
}

#[test]
fn derive_accepts_valid_value() {
    let user = Username::new("alice".to_owned()).expect("valid username");
    assert_eq!(user.get(), "alice");
    assert_eq!(&*user, "alice"); // Deref
    assert_eq!(user.into_inner(), "alice");
}

#[test]
fn rejects_invalid_value_with_validator_error() {
    // Too short, and not trimmed.
    let err: ValidationError = Username::new("  x  ".to_owned()).unwrap_err();
    assert!(err.code() == "trimmed" || err.code() == "len_range");

    let err = Percent::new(150).unwrap_err();
    assert_eq!(err.code(), "in_range");
}

#[test]
fn numeric_newtype_round_trips() {
    let p = Percent::new(42).expect("in range");
    assert_eq!(*p, 42);
    assert_eq!(p, Percent::new(42).expect("in range"));
}

#[test]
fn standard_derives_coexist() {
    // `Clone`/`PartialEq`/`Debug` derived alongside the validated newtype.
    let a = Username::new("bob".to_owned()).expect("valid");
    let b = a.clone();
    assert_eq!(a, b);
    assert_eq!(format!("{b:?}"), "Username(\"bob\")");
}

fn input(has_generics: bool, item: ItemShape, valid_attrs: Vec<bool>) -> NewtypeInput {
    NewtypeInput { has_generics, item, valid_attrs }
}

const NEWTYPE: ItemShape = ItemShape::Struct(FieldsShape::Unnamed(1));

#[test]
fn newtype_shape_is_accepted() {
    assert_eq!(check_newtype(&input(false, NEWTYPE, vec![true])), Ok(0));
}

#[test]
fn newtype_rejections_in_order() {
    assert_eq!(check_newtype(&input(true, ItemShape::Enum, vec![])), Err(NewtypeError::Generic));
    assert_eq!(
        check_newtype(&input(false, ItemShape::Enum, vec![true])),
        Err(NewtypeError::NotAStruct)
    );
    assert_eq!(
        check_newtype(&input(false, ItemShape::Union, vec![true])),
        Err(NewtypeError::NotAStruct)
    );
    assert_eq!(
        check_newtype(&input(false, ItemShape::Struct(FieldsShape::Unnamed(2)), vec![true])),
        Err(NewtypeError::NotSingleField)
    );
    assert_eq!(
        check_newtype(&input(false, ItemShape::Struct(FieldsShape::Named), vec![true])),
        Err(NewtypeError::NotSingleField)
    );
    assert_eq!(
        check_newtype(&input(false, ItemShape::Struct(FieldsShape::Unit), vec![])),
        Err(NewtypeError::NotSingleField)
    );
    assert_eq!(check_newtype(&input(false, NEWTYPE, vec![])), Err(NewtypeError::MissingValidator));
    assert_eq!(
        check_newtype(&input(false, NEWTYPE, vec![false, true])),
        Err(NewtypeError::UnparsableValidator(0))
    );
    assert_eq!(
        check_newtype(&input(false, NEWTYPE, vec![true, false])),
        Err(NewtypeError::DuplicateValidator(1))
    );
}

#[test]
fn newtype_rejection_messages() {
    assert_eq!(
        NewtypeError::Generic.message(),
        Some("#[derive(Validated)] does not support generic types; use a concrete newtype")
    );
    assert_eq!(
        NewtypeError::DuplicateValidator(1).message(),
        Some("duplicate #[valid(...)] attribute; specify exactly one")
    );
    assert_eq!(NewtypeError::UnparsableValidator(0).message(), None);
}
