//! The shape rules behind deriving a validated newtype.
//!
//! Deriving `Validated` turns a one-field tuple struct annotated with
//! `#[valid(<Validator>)]` into a named domain type with a checked
//! constructor. Before any code is generated the annotated item is checked:
//! it must have no generic parameters, be a struct, have exactly one unnamed
//! field, and carry exactly one `#[valid(..)]` attribute whose argument is a
//! type. This module holds those checks over a plain description of the
//! item, [`NewtypeInput`]; reading the item from tokens and writing the
//! generated code is left to the macro front end.

use vstd::prelude::*;

verus! {

/// The fields of a struct.
#[derive(Debug, Clone, Copy, PartialEq, Eq)]
pub enum FieldsShape {
    /// Named fields, `struct S { a: T }`.
    Named,
    /// Unnamed fields, `struct S(T, U)`, with their number.
    Unnamed(usize),
    /// No fields, `struct S;`.
    Unit,
}

/// The kind of item the derive is applied to.
#[derive(Debug, Clone, Copy, PartialEq, Eq)]
pub enum ItemShape {
    /// A struct, with the shape of its fields.
    Struct(FieldsShape),
    /// An enum.
    Enum,
    /// A union.
    Union,
}

/// A plain description of the item that the derive is applied to.
pub struct NewtypeInput {
    /// Whether the item declares generic parameters.
    pub has_generics: bool,
    /// The kind of item and, for a struct, the shape of its fields.
    pub item: ItemShape,
    /// One entry per `#[valid(..)]` attribute, in source order: whether its
    /// argument parses as a type.
    pub valid_attrs: Vec<bool>,
}

/// Why a derive input is rejected.
#[derive(Debug, Clone, Copy, PartialEq, Eq)]
pub enum NewtypeError {
    /// The item declares generic parameters.
    Generic,
    /// The item is not a struct.
    NotAStruct,
    /// The struct is not a tuple struct with exactly one field.
    NotSingleField,
    /// The `#[valid(..)]` attribute at this position (among the `#[valid(..)]`
    /// attributes) does not hold a type.
    UnparsableValidator(usize),
    /// A second `#[valid(..)]` attribute, at this position.
    DuplicateValidator(usize),
    /// No `#[valid(..)]` attribute.
    MissingValidator,
}

/// The verdict on the item's kind and fields.
pub open spec fn spec_single_field(item: ItemShape) -> Result<(), NewtypeError> {
    match item {
        ItemShape::Struct(FieldsShape::Unnamed(n)) => if n == 1 {
            Ok(())
        } else {
            Err(NewtypeError::NotSingleField)
        },
        ItemShape::Struct(_) => Err(NewtypeError::NotSingleField),
        _ => Err(NewtypeError::NotAStruct),
    }
}

/// The verdict on the `#[valid(..)]` attributes: the position of the one
/// whose type names the validator, or why there is none.
pub open spec fn spec_validator_attr(attrs: Seq<bool>) -> Result<usize, NewtypeError> {
    if attrs.len() == 0 {
        Err(NewtypeError::MissingValidator)
    } else if !attrs[0] {
        Err(NewtypeError::UnparsableValidator(0))
    } else if attrs.len() > 1 {
        Err(NewtypeError::DuplicateValidator(1))
    } else {
        Ok(0)
    }
}

/// The verdict on a whole derive input: generic parameters are reported
/// first, then the item's shape, then its `#[valid(..)]` attributes.
pub open spec fn spec_check_newtype(
    has_generics: bool,
    item: ItemShape,
    attrs: Seq<bool>,
) -> Result<usize, NewtypeError> {
    if has_generics {
        Err(NewtypeError::Generic)
    } else {
        match spec_single_field(item) {
            Err(e) => Err(e),
            Ok(()) => spec_validator_attr(attrs),
        }
    }
}

/// Checks that the item is a struct with exactly one unnamed field.
pub fn check_single_field(item: ItemShape) -> (res: Result<(), NewtypeError>)
    ensures
        res == spec_single_field(item),
        res is Ok <==> item == ItemShape::Struct(FieldsShape::Unnamed(1)),
{
    match item {
        ItemShape::Struct(FieldsShape::Unnamed(n)) if n == 1 => Ok(()),
        ItemShape::Struct(_) => Err(NewtypeError::NotSingleField),
        _ => Err(NewtypeError::NotAStruct),
    }
}

/// Scans the `#[valid(..)]` attributes in order and returns the position of
/// the one that names the validator: the first one, when it holds a type and
/// no second one follows.
pub fn find_validator_attr(attrs: &Vec<bool>) -> (res: Result<usize, NewtypeError>)
    ensures
        res == spec_validator_attr(attrs@),
        res is Ok <==> attrs@ == seq![true],
{
    let mut found: Option<usize> = None;
    let mut i: usize = 0;
    while i < attrs.len()
        invariant
            i <= attrs.len(),
            i == 0 ==> found is None,
            i > 0 ==> (i == 1 && found == Some(0usize) && attrs@[0]),
        decreases attrs.len() - i,
    {
        if found.is_some() {
            return Err(NewtypeError::DuplicateValidator(i));
        }
        if !attrs[i] {
            return Err(NewtypeError::UnparsableValidator(i));
        }
        found = Some(i);
        i = i + 1;
    }
    proof {
        if attrs@.len() == 1 && attrs@[0] {
            assert(attrs@ =~= seq![true]);
        }
    }
    match found {
        Some(k) => Ok(k),
        None => Err(NewtypeError::MissingValidator),
    }
}

/// Checks a derive input and returns the position of the `#[valid(..)]`
/// attribute that names the validator.
///
/// Succeeds exactly when the item has no generic parameters, is a tuple
/// struct with exactly one field, and carries exactly one `#[valid(..)]`
/// attribute, which holds a type.
pub fn check_newtype(input: &NewtypeInput) -> (res: Result<usize, NewtypeError>)
    ensures
        res == spec_check_newtype(input.has_generics, input.item, input.valid_attrs@),
        res is Ok <==> (!input.has_generics && input.item == ItemShape::Struct(
            FieldsShape::Unnamed(1),
        ) && input.valid_attrs@ == seq![true]),
        res is Ok ==> res == Ok::<usize, NewtypeError>(0),
{
    if input.has_generics {
        return Err(NewtypeError::Generic);
    }
    check_single_field(input.item)?;
    find_validator_attr(&input.valid_attrs)
}

impl NewtypeError {
    /// The diagnostic text of a rejection, for those whose text is fixed;
    /// `None` for an unparsable attribute, whose text is the parser's.
    pub open spec fn spec_message(self) -> Option<&'static str> {
        match self {
            NewtypeError::Generic => Some(
                "#[derive(Validated)] does not support generic types; use a concrete newtype",
            ),
            NewtypeError::NotAStruct => Some("#[derive(Validated)] can only be applied to structs"),
            NewtypeError::NotSingleField => Some(
                "#[derive(Validated)] requires a tuple struct with exactly one field, e.g. `struct Name(String);`",
            ),
            NewtypeError::UnparsableValidator(_) => None,
            NewtypeError::DuplicateValidator(_) => Some(
                "duplicate #[valid(...)] attribute; specify exactly one",
            ),
            NewtypeError::MissingValidator => Some(
                "#[derive(Validated)] requires a #[valid(<Validator>)] attribute, e.g. `#[valid(NonEmpty)]`",
            ),
        }
    }

    /// Returns the diagnostic text of a rejection whose text is fixed.
    pub fn message(&self) -> (text: Option<&'static str>)
        ensures
            text == self.spec_message(),
    {
        match self {
            NewtypeError::Generic => Some(
                "#[derive(Validated)] does not support generic types; use a concrete newtype",
            ),
            NewtypeError::NotAStruct => Some("#[derive(Validated)] can only be applied to structs"),
            NewtypeError::NotSingleField => Some(
                "#[derive(Validated)] requires a tuple struct with exactly one field, e.g. `struct Name(String);`",
            ),
            NewtypeError::UnparsableValidator(_) => None,
            NewtypeError::DuplicateValidator(_) => Some(
                "duplicate #[valid(...)] attribute; specify exactly one",
            ),
            NewtypeError::MissingValidator => Some(
                "#[derive(Validated)] requires a #[valid(<Validator>)] attribute, e.g. `#[valid(NonEmpty)]`",
            ),
        }
    }
}

} // verus!
