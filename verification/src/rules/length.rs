//! Length-based rules for strings, slices, and other measurable values.
//!
//! Each rule works on any type that implements [`HasLength`]: `str`, `[T]`,
//! `String`, `Vec<T>`, and shared references to any of them. For strings the
//! length is the number of `char`s (Unicode scalar values), not of bytes; for
//! slices and vectors it is the number of elements.

use vstd::prelude::*;
use vstd::string::StrSliceExecFns;

use crate::{ValidationError, Validator};

verus! {

/// A value with a measurable length, used by the length rules.
pub trait HasLength {
    /// The length of the value: chars for strings, elements otherwise.
    spec fn spec_length(&self) -> nat;

    /// Returns the length of the value.
    fn length(&self) -> (len: usize)
        ensures
            len == self.spec_length(),
    ;
}

impl HasLength for str {
    open spec fn spec_length(&self) -> nat {
        self@.len()
    }

    fn length(&self) -> (len: usize) {
        self.unicode_len()
    }
}

impl<T> HasLength for [T] {
    open spec fn spec_length(&self) -> nat {
        self@.len()
    }

    fn length(&self) -> (len: usize) {
        self.len()
    }
}

impl<U: HasLength + ?Sized> HasLength for &U {
    open spec fn spec_length(&self) -> nat {
        (**self).spec_length()
    }

    fn length(&self) -> (len: usize) {
        U::length(*self)
    }
}

impl HasLength for String {
    open spec fn spec_length(&self) -> nat {
        self@.len()
    }

    fn length(&self) -> (len: usize) {
        self.as_str().unicode_len()
    }
}

impl<T> HasLength for Vec<T> {
    open spec fn spec_length(&self) -> nat {
        self@.len()
    }

    fn length(&self) -> (len: usize) {
        self.len()
    }
}

/// The error of [`NonEmpty`].
pub open spec fn non_empty_error() -> ValidationError {
    ValidationError::spec_new("non_empty", "value must not be empty")
}

/// The error of [`MinLen`].
pub open spec fn min_len_error() -> ValidationError {
    ValidationError::spec_new("min_len", "value is too short")
}

/// The error of [`MaxLen`].
pub open spec fn max_len_error() -> ValidationError {
    ValidationError::spec_new("max_len", "value is too long")
}

/// The error of [`LenRange`].
pub open spec fn len_range_error() -> ValidationError {
    ValidationError::spec_new("len_range", "value length is out of range")
}

/// Accepts any value whose length is greater than zero.
#[derive(Debug, Clone, Copy, PartialEq, Eq, PartialOrd, Ord, Hash, Default)]
pub struct NonEmpty;

impl<T: HasLength + ?Sized> Validator<T> for NonEmpty {
    type Error = ValidationError;

    open spec fn spec_validate(value: &T) -> Result<(), ValidationError> {
        if value.spec_length() > 0 {
            Ok(())
        } else {
            Err(non_empty_error())
        }
    }

    fn validate(value: &T) -> (res: Result<(), ValidationError>)
        ensures
            res is Ok <==> value.spec_length() > 0,
            res is Err ==> res == Err::<(), ValidationError>(
                ValidationError::spec_new("non_empty", "value must not be empty"),
            ),
    {
        if value.length() > 0 {
            Ok(())
        } else {
            Err(ValidationError::new("non_empty", "value must not be empty"))
        }
    }
}

/// Accepts values with at least `MIN` elements (inclusive).
#[derive(Debug, Clone, Copy, PartialEq, Eq, PartialOrd, Ord, Hash, Default)]
pub struct MinLen<const MIN: usize>;

impl<const MIN: usize, T: HasLength + ?Sized> Validator<T> for MinLen<MIN> {
    type Error = ValidationError;

    open spec fn spec_validate(value: &T) -> Result<(), ValidationError> {
        if value.spec_length() >= MIN {
            Ok(())
        } else {
            Err(min_len_error())
        }
    }

    fn validate(value: &T) -> (res: Result<(), ValidationError>)
        ensures
            res is Ok <==> value.spec_length() >= MIN,
            res is Err ==> res == Err::<(), ValidationError>(
                ValidationError::spec_new("min_len", "value is too short"),
            ),
    {
        if value.length() >= MIN {
            Ok(())
        } else {
            Err(ValidationError::new("min_len", "value is too short"))
        }
    }
}

/// Accepts values with at most `MAX` elements (inclusive).
#[derive(Debug, Clone, Copy, PartialEq, Eq, PartialOrd, Ord, Hash, Default)]
pub struct MaxLen<const MAX: usize>;

impl<const MAX: usize, T: HasLength + ?Sized> Validator<T> for MaxLen<MAX> {
    type Error = ValidationError;

    open spec fn spec_validate(value: &T) -> Result<(), ValidationError> {
        if value.spec_length() <= MAX {
            Ok(())
        } else {
            Err(max_len_error())
        }
    }

    fn validate(value: &T) -> (res: Result<(), ValidationError>)
        ensures
            res is Ok <==> value.spec_length() <= MAX,
            res is Err ==> res == Err::<(), ValidationError>(
                ValidationError::spec_new("max_len", "value is too long"),
            ),
    {
        if value.length() <= MAX {
            Ok(())
        } else {
            Err(ValidationError::new("max_len", "value is too long"))
        }
    }
}

/// Accepts values whose length is in the inclusive range `MIN..=MAX`.
#[derive(Debug, Clone, Copy, PartialEq, Eq, PartialOrd, Ord, Hash, Default)]
pub struct LenRange<const MIN: usize, const MAX: usize>;

impl<const MIN: usize, const MAX: usize, T: HasLength + ?Sized> Validator<T> for LenRange<MIN, MAX> {
    type Error = ValidationError;

    open spec fn spec_validate(value: &T) -> Result<(), ValidationError> {
        if MIN <= value.spec_length() <= MAX {
            Ok(())
        } else {
            Err(len_range_error())
        }
    }

    fn validate(value: &T) -> (res: Result<(), ValidationError>)
        ensures
            res is Ok <==> (MIN <= value.spec_length() && value.spec_length() <= MAX),
            res is Err ==> res == Err::<(), ValidationError>(
                ValidationError::spec_new("len_range", "value length is out of range"),
            ),
    {
        let len = value.length();
        if len >= MIN && len <= MAX {
            Ok(())
        } else {
            Err(ValidationError::new("len_range", "value length is out of range"))
        }
    }
}

/// `LenRange<MIN, MAX>` accepts exactly the values that both `MinLen<MIN>`
/// and `MaxLen<MAX>` accept.
pub proof fn lemma_len_range_is_min_and_max<const MIN: usize, const MAX: usize, T: HasLength + ?Sized>(
    value: &T,
)
    ensures
        (<LenRange<MIN, MAX> as Validator<T>>::spec_validate(value) is Ok) <==> (
        <MinLen<MIN> as Validator<T>>::spec_validate(value) is Ok && <MaxLen<
            MAX,
        > as Validator<T>>::spec_validate(value) is Ok),
{
}

/// `NonEmpty` accepts exactly the values that `MinLen<1>` accepts.
pub proof fn lemma_non_empty_is_min_len_one<T: HasLength + ?Sized>(value: &T)
    ensures
        (<NonEmpty as Validator<T>>::spec_validate(value) is Ok) <==> (<MinLen<
            1,
        > as Validator<T>>::spec_validate(value) is Ok),
{
}

/// A reference has the length of the value it points to, so the length
/// rules give the same verdict on `&x` as on `x`.
pub proof fn lemma_rules_see_through_references<const MIN: usize, const MAX: usize, U: HasLength + ?Sized>(
    value: &U,
)
    ensures
        (&value).spec_length() == value.spec_length(),
        <NonEmpty as Validator<&U>>::spec_validate(&value) == <NonEmpty as Validator<
            U,
        >>::spec_validate(value),
        <MinLen<MIN> as Validator<&U>>::spec_validate(&value) == <MinLen<
            MIN,
        > as Validator<U>>::spec_validate(value),
        <MaxLen<MAX> as Validator<&U>>::spec_validate(&value) == <MaxLen<
            MAX,
        > as Validator<U>>::spec_validate(value),
        <LenRange<MIN, MAX> as Validator<&U>>::spec_validate(&value) == <LenRange<
            MIN,
            MAX,
        > as Validator<U>>::spec_validate(value),
{
}

/// The length of a string is its number of `char`s, and the length of a
/// slice or a vector its number of elements.
pub proof fn lemma_length_counts<E>(s: &str, owned: String, slice: &[E], v: Vec<E>)
    ensures
        s.spec_length() == s@.len(),
        owned.spec_length() == owned@.len(),
        slice.spec_length() == slice@.len(),
        v.spec_length() == v@.len(),
{
}

/// The length rules decide by the length alone: `NonEmpty` accepts exactly a
/// length above zero, `MinLen<MIN>` a length of at least `MIN`, `MaxLen<MAX>`
/// a length of at most `MAX`, and `LenRange<MIN, MAX>` a length from `MIN` to
/// `MAX`, both bounds included; a rejection carries the rule's own code.
pub proof fn lemma_length_rules_by_length<const MIN: usize, const MAX: usize, T: HasLength + ?Sized>(
    value: &T,
)
    ensures
        (<NonEmpty as Validator<T>>::spec_validate(value) is Ok) <==> value.spec_length() > 0,
        (<MinLen<MIN> as Validator<T>>::spec_validate(value) is Ok) <==> value.spec_length()
            >= MIN,
        (<MaxLen<MAX> as Validator<T>>::spec_validate(value) is Ok) <==> value.spec_length()
            <= MAX,
        (<LenRange<MIN, MAX> as Validator<T>>::spec_validate(value) is Ok) <==> (MIN
            <= value.spec_length() && value.spec_length() <= MAX),
        value.spec_length() == 0 ==> <NonEmpty as Validator<T>>::spec_validate(value) == Err::<
            (),
            ValidationError,
        >(ValidationError::spec_new("non_empty", "value must not be empty")),
        value.spec_length() < MIN ==> <MinLen<MIN> as Validator<T>>::spec_validate(value) == Err::<
            (),
            ValidationError,
        >(ValidationError::spec_new("min_len", "value is too short")),
        value.spec_length() > MAX ==> <MaxLen<MAX> as Validator<T>>::spec_validate(value) == Err::<
            (),
            ValidationError,
        >(ValidationError::spec_new("max_len", "value is too long")),
        !(MIN <= value.spec_length() && value.spec_length() <= MAX) ==> <LenRange<
            MIN,
            MAX,
        > as Validator<T>>::spec_validate(value) == Err::<(), ValidationError>(
            ValidationError::spec_new("len_range", "value length is out of range"),
        ),
{
}

} // verus!
