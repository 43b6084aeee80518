//! Numeric rules: sign checks and inclusive integer ranges.
//!
//! The sign rules ([`Positive`], [`NonNegative`], [`Negative`],
//! [`NonPositive`]) apply to the signed integer primitives. [`InRange`]
//! applies to the integer primitives that fit losslessly in an `i64`
//! (`i8`/`i16`/`i32`/`i64`, `u8`/`u16`/`u32`); its bounds are the types
//! [`Plus<N>`] (the bound `N`) and [`Minus<N>`] (the bound `-N`), so
//! `InRange<Minus<10>, Plus<10>>` is the range `-10..=10`.

use core::marker::PhantomData;
use vstd::prelude::*;

use crate::{ValidationError, Validator};

verus! {

/// The error of [`Positive`].
pub open spec fn positive_error() -> ValidationError {
    ValidationError::spec_new("positive", "value must be greater than zero")
}

/// The error of [`NonNegative`].
pub open spec fn non_negative_error() -> ValidationError {
    ValidationError::spec_new("non_negative", "value must not be negative")
}

/// The error of [`Negative`].
pub open spec fn negative_error() -> ValidationError {
    ValidationError::spec_new("negative", "value must be less than zero")
}

/// The error of [`NonPositive`].
pub open spec fn non_positive_error() -> ValidationError {
    ValidationError::spec_new("non_positive", "value must not be positive")
}

/// The error of [`InRange`].
pub open spec fn in_range_error() -> ValidationError {
    ValidationError::spec_new("in_range", "value is out of range")
}

/// Accepts strictly positive numbers (`value > 0`).
#[derive(Debug, Clone, Copy, PartialEq, Eq, PartialOrd, Ord, Hash, Default)]
pub struct Positive;

/// Accepts non-negative numbers (`value >= 0`).
#[derive(Debug, Clone, Copy, PartialEq, Eq, PartialOrd, Ord, Hash, Default)]
pub struct NonNegative;

/// Accepts strictly negative numbers (`value < 0`).
#[derive(Debug, Clone, Copy, PartialEq, Eq, PartialOrd, Ord, Hash, Default)]
pub struct Negative;

/// Accepts non-positive numbers (`value <= 0`).
#[derive(Debug, Clone, Copy, PartialEq, Eq, PartialOrd, Ord, Hash, Default)]
pub struct NonPositive;

impl Validator<i8> for Positive {
    type Error = ValidationError;

    open spec fn spec_validate(value: &i8) -> Result<(), ValidationError> {
        if *value > 0 {
            Ok(())
        } else {
            Err(positive_error())
        }
    }

    fn validate(value: &i8) -> (res: Result<(), ValidationError>)
        ensures
            res is Ok <==> *value > 0,
            res is Err ==> res == Err::<(), ValidationError>(
                ValidationError::spec_new("positive", "value must be greater than zero"),
            ),
    {
        if *value > 0 {
            Ok(())
        } else {
            Err(ValidationError::new("positive", "value must be greater than zero"))
        }
    }
}

impl Validator<i8> for NonNegative {
    type Error = ValidationError;

    open spec fn spec_validate(value: &i8) -> Result<(), ValidationError> {
        if *value >= 0 {
            Ok(())
        } else {
            Err(non_negative_error())
        }
    }

    fn validate(value: &i8) -> (res: Result<(), ValidationError>)
        ensures
            res is Ok <==> *value >= 0,
            res is Err ==> res == Err::<(), ValidationError>(
                ValidationError::spec_new("non_negative", "value must not be negative"),
            ),
    {
        if *value >= 0 {
            Ok(())
        } else {
            Err(ValidationError::new("non_negative", "value must not be negative"))
        }
    }
}

impl Validator<i8> for Negative {
    type Error = ValidationError;

    open spec fn spec_validate(value: &i8) -> Result<(), ValidationError> {
        if *value < 0 {
            Ok(())
        } else {
            Err(negative_error())
        }
    }

    fn validate(value: &i8) -> (res: Result<(), ValidationError>)
        ensures
            res is Ok <==> *value < 0,
            res is Err ==> res == Err::<(), ValidationError>(
                ValidationError::spec_new("negative", "value must be less than zero"),
            ),
    {
        if *value < 0 {
            Ok(())
        } else {
            Err(ValidationError::new("negative", "value must be less than zero"))
        }
    }
}

impl Validator<i8> for NonPositive {
    type Error = ValidationError;

    open spec fn spec_validate(value: &i8) -> Result<(), ValidationError> {
        if *value <= 0 {
            Ok(())
        } else {
            Err(non_positive_error())
        }
    }

    fn validate(value: &i8) -> (res: Result<(), ValidationError>)
        ensures
            res is Ok <==> *value <= 0,
            res is Err ==> res == Err::<(), ValidationError>(
                ValidationError::spec_new("non_positive", "value must not be positive"),
            ),
    {
        if *value <= 0 {
            Ok(())
        } else {
            Err(ValidationError::new("non_positive", "value must not be positive"))
        }
    }
}

impl Validator<i16> for Positive {
    type Error = ValidationError;

    open spec fn spec_validate(value: &i16) -> Result<(), ValidationError> {
        if *value > 0 {
            Ok(())
        } else {
            Err(positive_error())
        }
    }

    fn validate(value: &i16) -> (res: Result<(), ValidationError>)
        ensures
            res is Ok <==> *value > 0,
            res is Err ==> res == Err::<(), ValidationError>(
                ValidationError::spec_new("positive", "value must be greater than zero"),
            ),
    {
        if *value > 0 {
            Ok(())
        } else {
            Err(ValidationError::new("positive", "value must be greater than zero"))
        }
    }
}

impl Validator<i16> for NonNegative {
    type Error = ValidationError;

    open spec fn spec_validate(value: &i16) -> Result<(), ValidationError> {
        if *value >= 0 {
            Ok(())
        } else {
            Err(non_negative_error())
        }
    }

    fn validate(value: &i16) -> (res: Result<(), ValidationError>)
        ensures
            res is Ok <==> *value >= 0,
            res is Err ==> res == Err::<(), ValidationError>(
                ValidationError::spec_new("non_negative", "value must not be negative"),
            ),
    {
        if *value >= 0 {
            Ok(())
        } else {
            Err(ValidationError::new("non_negative", "value must not be negative"))
        }
    }
}

impl Validator<i16> for Negative {
    type Error = ValidationError;

    open spec fn spec_validate(value: &i16) -> Result<(), ValidationError> {
        if *value < 0 {
            Ok(())
        } else {
            Err(negative_error())
        }
    }

    fn validate(value: &i16) -> (res: Result<(), ValidationError>)
        ensures
            res is Ok <==> *value < 0,
            res is Err ==> res == Err::<(), ValidationError>(
                ValidationError::spec_new("negative", "value must be less than zero"),
            ),
    {
        if *value < 0 {
            Ok(())
        } else {
            Err(ValidationError::new("negative", "value must be less than zero"))
        }
    }
}

impl Validator<i16> for NonPositive {
    type Error = ValidationError;

    open spec fn spec_validate(value: &i16) -> Result<(), ValidationError> {
        if *value <= 0 {
            Ok(())
        } else {
            Err(non_positive_error())
        }
    }

    fn validate(value: &i16) -> (res: Result<(), ValidationError>)
        ensures
            res is Ok <==> *value <= 0,
            res is Err ==> res == Err::<(), ValidationError>(
                ValidationError::spec_new("non_positive", "value must not be positive"),
            ),
    {
        if *value <= 0 {
            Ok(())
        } else {
            Err(ValidationError::new("non_positive", "value must not be positive"))
        }
    }
}

impl Validator<i32> for Positive {
    type Error = ValidationError;

    open spec fn spec_validate(value: &i32) -> Result<(), ValidationError> {
        if *value > 0 {
            Ok(())
        } else {
            Err(positive_error())
        }
    }

    fn validate(value: &i32) -> (res: Result<(), ValidationError>)
        ensures
            res is Ok <==> *value > 0,
            res is Err ==> res == Err::<(), ValidationError>(
                ValidationError::spec_new("positive", "value must be greater than zero"),
            ),
    {
        if *value > 0 {
            Ok(())
        } else {
            Err(ValidationError::new("positive", "value must be greater than zero"))
        }
    }
}

impl Validator<i32> for NonNegative {
    type Error = ValidationError;

    open spec fn spec_validate(value: &i32) -> Result<(), ValidationError> {
        if *value >= 0 {
            Ok(())
        } else {
            Err(non_negative_error())
        }
    }

    fn validate(value: &i32) -> (res: Result<(), ValidationError>)
        ensures
            res is Ok <==> *value >= 0,
            res is Err ==> res == Err::<(), ValidationError>(
                ValidationError::spec_new("non_negative", "value must not be negative"),
            ),
    {
        if *value >= 0 {
            Ok(())
        } else {
            Err(ValidationError::new("non_negative", "value must not be negative"))
        }
    }
}

impl Validator<i32> for Negative {
    type Error = ValidationError;

    open spec fn spec_validate(value: &i32) -> Result<(), ValidationError> {
        if *value < 0 {
            Ok(())
        } else {
            Err(negative_error())
        }
    }

    fn validate(value: &i32) -> (res: Result<(), ValidationError>)
        ensures
            res is Ok <==> *value < 0,
            res is Err ==> res == Err::<(), ValidationError>(
                ValidationError::spec_new("negative", "value must be less than zero"),
            ),
    {
        if *value < 0 {
            Ok(())
        } else {
            Err(ValidationError::new("negative", "value must be less than zero"))
        }
    }
}

impl Validator<i32> for NonPositive {
    type Error = ValidationError;

    open spec fn spec_validate(value: &i32) -> Result<(), ValidationError> {
        if *value <= 0 {
            Ok(())
        } else {
            Err(non_positive_error())
        }
    }

    fn validate(value: &i32) -> (res: Result<(), ValidationError>)
        ensures
            res is Ok <==> *value <= 0,
            res is Err ==> res == Err::<(), ValidationError>(
                ValidationError::spec_new("non_positive", "value must not be positive"),
            ),
    {
        if *value <= 0 {
            Ok(())
        } else {
            Err(ValidationError::new("non_positive", "value must not be positive"))
        }
    }
}

impl Validator<i64> for Positive {
    type Error = ValidationError;

    open spec fn spec_validate(value: &i64) -> Result<(), ValidationError> {
        if *value > 0 {
            Ok(())
        } else {
            Err(positive_error())
        }
    }

    fn validate(value: &i64) -> (res: Result<(), ValidationError>)
        ensures
            res is Ok <==> *value > 0,
            res is Err ==> res == Err::<(), ValidationError>(
                ValidationError::spec_new("positive", "value must be greater than zero"),
            ),
    {
        if *value > 0 {
            Ok(())
        } else {
            Err(ValidationError::new("positive", "value must be greater than zero"))
        }
    }
}

impl Validator<i64> for NonNegative {
    type Error = ValidationError;

    open spec fn spec_validate(value: &i64) -> Result<(), ValidationError> {
        if *value >= 0 {
            Ok(())
        } else {
            Err(non_negative_error())
        }
    }

    fn validate(value: &i64) -> (res: Result<(), ValidationError>)
        ensures
            res is Ok <==> *value >= 0,
            res is Err ==> res == Err::<(), ValidationError>(
                ValidationError::spec_new("non_negative", "value must not be negative"),
            ),
    {
        if *value >= 0 {
            Ok(())
        } else {
            Err(ValidationError::new("non_negative", "value must not be negative"))
        }
    }
}

impl Validator<i64> for Negative {
    type Error = ValidationError;

    open spec fn spec_validate(value: &i64) -> Result<(), ValidationError> {
        if *value < 0 {
            Ok(())
        } else {
            Err(negative_error())
        }
    }

    fn validate(value: &i64) -> (res: Result<(), ValidationError>)
        ensures
            res is Ok <==> *value < 0,
            res is Err ==> res == Err::<(), ValidationError>(
                ValidationError::spec_new("negative", "value must be less than zero"),
            ),
    {
        if *value < 0 {
            Ok(())
        } else {
            Err(ValidationError::new("negative", "value must be less than zero"))
        }
    }
}

impl Validator<i64> for NonPositive {
    type Error = ValidationError;

    open spec fn spec_validate(value: &i64) -> Result<(), ValidationError> {
        if *value <= 0 {
            Ok(())
        } else {
            Err(non_positive_error())
        }
    }

    fn validate(value: &i64) -> (res: Result<(), ValidationError>)
        ensures
            res is Ok <==> *value <= 0,
            res is Err ==> res == Err::<(), ValidationError>(
                ValidationError::spec_new("non_positive", "value must not be positive"),
            ),
    {
        if *value <= 0 {
            Ok(())
        } else {
            Err(ValidationError::new("non_positive", "value must not be positive"))
        }
    }
}

impl Validator<i128> for Positive {
    type Error = ValidationError;

    open spec fn spec_validate(value: &i128) -> Result<(), ValidationError> {
        if *value > 0 {
            Ok(())
        } else {
            Err(positive_error())
        }
    }

    fn validate(value: &i128) -> (res: Result<(), ValidationError>)
        ensures
            res is Ok <==> *value > 0,
            res is Err ==> res == Err::<(), ValidationError>(
                ValidationError::spec_new("positive", "value must be greater than zero"),
            ),
    {
        if *value > 0 {
            Ok(())
        } else {
            Err(ValidationError::new("positive", "value must be greater than zero"))
        }
    }
}

impl Validator<i128> for NonNegative {
    type Error = ValidationError;

    open spec fn spec_validate(value: &i128) -> Result<(), ValidationError> {
        if *value >= 0 {
            Ok(())
        } else {
            Err(non_negative_error())
        }
    }

    fn validate(value: &i128) -> (res: Result<(), ValidationError>)
        ensures
            res is Ok <==> *value >= 0,
            res is Err ==> res == Err::<(), ValidationError>(
                ValidationError::spec_new("non_negative", "value must not be negative"),
            ),
    {
        if *value >= 0 {
            Ok(())
        } else {
            Err(ValidationError::new("non_negative", "value must not be negative"))
        }
    }
}

impl Validator<i128> for Negative {
    type Error = ValidationError;

    open spec fn spec_validate(value: &i128) -> Result<(), ValidationError> {
        if *value < 0 {
            Ok(())
        } else {
            Err(negative_error())
        }
    }

    fn validate(value: &i128) -> (res: Result<(), ValidationError>)
        ensures
            res is Ok <==> *value < 0,
            res is Err ==> res == Err::<(), ValidationError>(
                ValidationError::spec_new("negative", "value must be less than zero"),
            ),
    {
        if *value < 0 {
            Ok(())
        } else {
            Err(ValidationError::new("negative", "value must be less than zero"))
        }
    }
}

impl Validator<i128> for NonPositive {
    type Error = ValidationError;

    open spec fn spec_validate(value: &i128) -> Result<(), ValidationError> {
        if *value <= 0 {
            Ok(())
        } else {
            Err(non_positive_error())
        }
    }

    fn validate(value: &i128) -> (res: Result<(), ValidationError>)
        ensures
            res is Ok <==> *value <= 0,
            res is Err ==> res == Err::<(), ValidationError>(
                ValidationError::spec_new("non_positive", "value must not be positive"),
            ),
    {
        if *value <= 0 {
            Ok(())
        } else {
            Err(ValidationError::new("non_positive", "value must not be positive"))
        }
    }
}

impl Validator<isize> for Positive {
    type Error = ValidationError;

    open spec fn spec_validate(value: &isize) -> Result<(), ValidationError> {
        if *value > 0 {
            Ok(())
        } else {
            Err(positive_error())
        }
    }

    fn validate(value: &isize) -> (res: Result<(), ValidationError>)
        ensures
            res is Ok <==> *value > 0,
            res is Err ==> res == Err::<(), ValidationError>(
                ValidationError::spec_new("positive", "value must be greater than zero"),
            ),
    {
        if *value > 0 {
            Ok(())
        } else {
            Err(ValidationError::new("positive", "value must be greater than zero"))
        }
    }
}

impl Validator<isize> for NonNegative {
    type Error = ValidationError;

    open spec fn spec_validate(value: &isize) -> Result<(), ValidationError> {
        if *value >= 0 {
            Ok(())
        } else {
            Err(non_negative_error())
        }
    }

    fn validate(value: &isize) -> (res: Result<(), ValidationError>)
        ensures
            res is Ok <==> *value >= 0,
            res is Err ==> res == Err::<(), ValidationError>(
                ValidationError::spec_new("non_negative", "value must not be negative"),
            ),
    {
        if *value >= 0 {
            Ok(())
        } else {
            Err(ValidationError::new("non_negative", "value must not be negative"))
        }
    }
}

impl Validator<isize> for Negative {
    type Error = ValidationError;

    open spec fn spec_validate(value: &isize) -> Result<(), ValidationError> {
        if *value < 0 {
            Ok(())
        } else {
            Err(negative_error())
        }
    }

    fn validate(value: &isize) -> (res: Result<(), ValidationError>)
        ensures
            res is Ok <==> *value < 0,
            res is Err ==> res == Err::<(), ValidationError>(
                ValidationError::spec_new("negative", "value must be less than zero"),
            ),
    {
        if *value < 0 {
            Ok(())
        } else {
            Err(ValidationError::new("negative", "value must be less than zero"))
        }
    }
}

impl Validator<isize> for NonPositive {
    type Error = ValidationError;

    open spec fn spec_validate(value: &isize) -> Result<(), ValidationError> {
        if *value <= 0 {
            Ok(())
        } else {
            Err(non_positive_error())
        }
    }

    fn validate(value: &isize) -> (res: Result<(), ValidationError>)
        ensures
            res is Ok <==> *value <= 0,
            res is Err ==> res == Err::<(), ValidationError>(
                ValidationError::spec_new("non_positive", "value must not be positive"),
            ),
    {
        if *value <= 0 {
            Ok(())
        } else {
            Err(ValidationError::new("non_positive", "value must not be positive"))
        }
    }
}

/// A bound of an [`InRange`] rule.
pub trait IntBound {
    /// The value of the bound.
    spec fn spec_bound() -> int;

    /// Returns the value of the bound.
    fn bound() -> (b: i128)
        ensures
            b == Self::spec_bound(),
    ;
}

/// The bound `N`.
#[derive(Debug, Clone, Copy, PartialEq, Eq, PartialOrd, Ord, Hash, Default)]
pub struct Plus<const N: u64>;

/// The bound `-N`.
#[derive(Debug, Clone, Copy, PartialEq, Eq, PartialOrd, Ord, Hash, Default)]
pub struct Minus<const N: u64>;

impl<const N: u64> IntBound for Plus<N> {
    open spec fn spec_bound() -> int {
        N as int
    }

    fn bound() -> (b: i128) {
        N as i128
    }
}

impl<const N: u64> IntBound for Minus<N> {
    open spec fn spec_bound() -> int {
        -(N as int)
    }

    fn bound() -> (b: i128) {
        -(N as i128)
    }
}

/// Accepts integers within the inclusive range from the bound `L` to the
/// bound `H`.
///
/// Implemented for the integer types that convert losslessly to `i64`
/// (`i8`/`i16`/`i32`/`i64`, `u8`/`u16`/`u32`).
#[derive(Debug, PartialEq, Eq, PartialOrd, Ord, Hash)]
pub struct InRange<L, H>(PhantomData<(L, H)>);

impl<L: IntBound, H: IntBound> Validator<i8> for InRange<L, H> {
    type Error = ValidationError;

    open spec fn spec_validate(value: &i8) -> Result<(), ValidationError> {
        if L::spec_bound() <= *value as int <= H::spec_bound() {
            Ok(())
        } else {
            Err(in_range_error())
        }
    }

    fn validate(value: &i8) -> (res: Result<(), ValidationError>)
        ensures
            res is Ok <==> (L::spec_bound() <= *value as int && *value as int <= H::spec_bound()),
            res is Err ==> res == Err::<(), ValidationError>(
                ValidationError::spec_new("in_range", "value is out of range"),
            ),
    {
        let value = *value as i64 as i128;
        if value >= L::bound() && value <= H::bound() {
            Ok(())
        } else {
            Err(ValidationError::new("in_range", "value is out of range"))
        }
    }
}

impl<L: IntBound, H: IntBound> Validator<i16> for InRange<L, H> {
    type Error = ValidationError;

    open spec fn spec_validate(value: &i16) -> Result<(), ValidationError> {
        if L::spec_bound() <= *value as int <= H::spec_bound() {
            Ok(())
        } else {
            Err(in_range_error())
        }
    }

    fn validate(value: &i16) -> (res: Result<(), ValidationError>)
        ensures
            res is Ok <==> (L::spec_bound() <= *value as int && *value as int <= H::spec_bound()),
            res is Err ==> res == Err::<(), ValidationError>(
                ValidationError::spec_new("in_range", "value is out of range"),
            ),
    {
        let value = *value as i64 as i128;
        if value >= L::bound() && value <= H::bound() {
            Ok(())
        } else {
            Err(ValidationError::new("in_range", "value is out of range"))
        }
    }
}

impl<L: IntBound, H: IntBound> Validator<i32> for InRange<L, H> {
    type Error = ValidationError;

    open spec fn spec_validate(value: &i32) -> Result<(), ValidationError> {
        if L::spec_bound() <= *value as int <= H::spec_bound() {
            Ok(())
        } else {
            Err(in_range_error())
        }
    }

    fn validate(value: &i32) -> (res: Result<(), ValidationError>)
        ensures
            res is Ok <==> (L::spec_bound() <= *value as int && *value as int <= H::spec_bound()),
            res is Err ==> res == Err::<(), ValidationError>(
                ValidationError::spec_new("in_range", "value is out of range"),
            ),
    {
        let value = *value as i64 as i128;
        if value >= L::bound() && value <= H::bound() {
            Ok(())
        } else {
            Err(ValidationError::new("in_range", "value is out of range"))
        }
    }
}

impl<L: IntBound, H: IntBound> Validator<i64> for InRange<L, H> {
    type Error = ValidationError;

    open spec fn spec_validate(value: &i64) -> Result<(), ValidationError> {
        if L::spec_bound() <= *value as int <= H::spec_bound() {
            Ok(())
        } else {
            Err(in_range_error())
        }
    }

    fn validate(value: &i64) -> (res: Result<(), ValidationError>)
        ensures
            res is Ok <==> (L::spec_bound() <= *value as int && *value as int <= H::spec_bound()),
            res is Err ==> res == Err::<(), ValidationError>(
                ValidationError::spec_new("in_range", "value is out of range"),
            ),
    {
        let value = *value as i64 as i128;
        if value >= L::bound() && value <= H::bound() {
            Ok(())
        } else {
            Err(ValidationError::new("in_range", "value is out of range"))
        }
    }
}

impl<L: IntBound, H: IntBound> Validator<u8> for InRange<L, H> {
    type Error = ValidationError;

    open spec fn spec_validate(value: &u8) -> Result<(), ValidationError> {
        if L::spec_bound() <= *value as int <= H::spec_bound() {
            Ok(())
        } else {
            Err(in_range_error())
        }
    }

    fn validate(value: &u8) -> (res: Result<(), ValidationError>)
        ensures
            res is Ok <==> (L::spec_bound() <= *value as int && *value as int <= H::spec_bound()),
            res is Err ==> res == Err::<(), ValidationError>(
                ValidationError::spec_new("in_range", "value is out of range"),
            ),
    {
        let value = *value as i64 as i128;
        if value >= L::bound() && value <= H::bound() {
            Ok(())
        } else {
            Err(ValidationError::new("in_range", "value is out of range"))
        }
    }
}

impl<L: IntBound, H: IntBound> Validator<u16> for InRange<L, H> {
    type Error = ValidationError;

    open spec fn spec_validate(value: &u16) -> Result<(), ValidationError> {
        if L::spec_bound() <= *value as int <= H::spec_bound() {
            Ok(())
        } else {
            Err(in_range_error())
        }
    }

    fn validate(value: &u16) -> (res: Result<(), ValidationError>)
        ensures
            res is Ok <==> (L::spec_bound() <= *value as int && *value as int <= H::spec_bound()),
            res is Err ==> res == Err::<(), ValidationError>(
                ValidationError::spec_new("in_range", "value is out of range"),
            ),
    {
        let value = *value as i64 as i128;
        if value >= L::bound() && value <= H::bound() {
            Ok(())
        } else {
            Err(ValidationError::new("in_range", "value is out of range"))
        }
    }
}

impl<L: IntBound, H: IntBound> Validator<u32> for InRange<L, H> {
    type Error = ValidationError;

    open spec fn spec_validate(value: &u32) -> Result<(), ValidationError> {
        if L::spec_bound() <= *value as int <= H::spec_bound() {
            Ok(())
        } else {
            Err(in_range_error())
        }
    }

    fn validate(value: &u32) -> (res: Result<(), ValidationError>)
        ensures
            res is Ok <==> (L::spec_bound() <= *value as int && *value as int <= H::spec_bound()),
            res is Err ==> res == Err::<(), ValidationError>(
                ValidationError::spec_new("in_range", "value is out of range"),
            ),
    {
        let value = *value as i64 as i128;
        if value >= L::bound() && value <= H::bound() {
            Ok(())
        } else {
            Err(ValidationError::new("in_range", "value is out of range"))
        }
    }
}

/// On `i8`, `NonNegative` accepts exactly what `Negative` rejects, and
/// `NonPositive` exactly what `Positive` rejects.
pub proof fn lemma_sign_rules_complement_i8(value: i8)
    ensures
        (<NonNegative as Validator<i8>>::spec_validate(&value) is Ok) <==> (<Negative as Validator<
            i8,
        >>::spec_validate(&value) is Err),
        (<NonPositive as Validator<i8>>::spec_validate(&value) is Ok) <==> (<Positive as Validator<
            i8,
        >>::spec_validate(&value) is Err),
{
}

/// On `i16`, `NonNegative` accepts exactly what `Negative` rejects, and
/// `NonPositive` exactly what `Positive` rejects.
pub proof fn lemma_sign_rules_complement_i16(value: i16)
    ensures
        (<NonNegative as Validator<i16>>::spec_validate(&value) is Ok) <==> (<Negative as Validator<
            i16,
        >>::spec_validate(&value) is Err),
        (<NonPositive as Validator<i16>>::spec_validate(&value) is Ok) <==> (<Positive as Validator<
            i16,
        >>::spec_validate(&value) is Err),
{
}

/// On `i32`, `NonNegative` accepts exactly what `Negative` rejects, and
/// `NonPositive` exactly what `Positive` rejects.
pub proof fn lemma_sign_rules_complement_i32(value: i32)
    ensures
        (<NonNegative as Validator<i32>>::spec_validate(&value) is Ok) <==> (<Negative as Validator<
            i32,
        >>::spec_validate(&value) is Err),
        (<NonPositive as Validator<i32>>::spec_validate(&value) is Ok) <==> (<Positive as Validator<
            i32,
        >>::spec_validate(&value) is Err),
{
}

/// On `i64`, `NonNegative` accepts exactly what `Negative` rejects, and
/// `NonPositive` exactly what `Positive` rejects.
pub proof fn lemma_sign_rules_complement_i64(value: i64)
    ensures
        (<NonNegative as Validator<i64>>::spec_validate(&value) is Ok) <==> (<Negative as Validator<
            i64,
        >>::spec_validate(&value) is Err),
        (<NonPositive as Validator<i64>>::spec_validate(&value) is Ok) <==> (<Positive as Validator<
            i64,
        >>::spec_validate(&value) is Err),
{
}

/// On `i128`, `NonNegative` accepts exactly what `Negative` rejects, and
/// `NonPositive` exactly what `Positive` rejects.
pub proof fn lemma_sign_rules_complement_i128(value: i128)
    ensures
        (<NonNegative as Validator<i128>>::spec_validate(&value) is Ok) <==> (<Negative as Validator<
            i128,
        >>::spec_validate(&value) is Err),
        (<NonPositive as Validator<i128>>::spec_validate(&value) is Ok) <==> (<Positive as Validator<
            i128,
        >>::spec_validate(&value) is Err),
{
}

/// On `isize`, `NonNegative` accepts exactly what `Negative` rejects, and
/// `NonPositive` exactly what `Positive` rejects.
pub proof fn lemma_sign_rules_complement_isize(value: isize)
    ensures
        (<NonNegative as Validator<isize>>::spec_validate(&value) is Ok) <==> (<Negative as Validator<
            isize,
        >>::spec_validate(&value) is Err),
        (<NonPositive as Validator<isize>>::spec_validate(&value) is Ok) <==> (<Positive as Validator<
            isize,
        >>::spec_validate(&value) is Err),
{
}

/// `Plus<N>` is the bound `N` and `Minus<N>` the bound `-N`.
pub proof fn lemma_bound_values<const N: u64>()
    ensures
        Plus::<N>::spec_bound() == N as int,
        Minus::<N>::spec_bound() == -(N as int),
{
}

/// The sign rules on `i8` decide by the sign of the value alone: `Positive`
/// accepts exactly `v > 0`, `NonNegative` exactly `v >= 0`, `Negative` exactly
/// `v < 0` and `NonPositive` exactly `v <= 0`; a rejection carries the rule's
/// own code and message.
pub proof fn lemma_sign_rules_by_value_i8(v: i8)
    ensures
        (<Positive as Validator<i8>>::spec_validate(&v) is Ok) <==> v > 0,
        !(v > 0) ==> <Positive as Validator<i8>>::spec_validate(&v) == Err::<(), ValidationError>(
            ValidationError::spec_new("positive", "value must be greater than zero"),
        ),
        (<NonNegative as Validator<i8>>::spec_validate(&v) is Ok) <==> v >= 0,
        !(v >= 0) ==> <NonNegative as Validator<i8>>::spec_validate(&v) == Err::<(), ValidationError>(
            ValidationError::spec_new("non_negative", "value must not be negative"),
        ),
        (<Negative as Validator<i8>>::spec_validate(&v) is Ok) <==> v < 0,
        !(v < 0) ==> <Negative as Validator<i8>>::spec_validate(&v) == Err::<(), ValidationError>(
            ValidationError::spec_new("negative", "value must be less than zero"),
        ),
        (<NonPositive as Validator<i8>>::spec_validate(&v) is Ok) <==> v <= 0,
        !(v <= 0) ==> <NonPositive as Validator<i8>>::spec_validate(&v) == Err::<(), ValidationError>(
            ValidationError::spec_new("non_positive", "value must not be positive"),
        ),
{
}

/// The sign rules on `i16` decide by the sign of the value alone: `Positive`
/// accepts exactly `v > 0`, `NonNegative` exactly `v >= 0`, `Negative` exactly
/// `v < 0` and `NonPositive` exactly `v <= 0`; a rejection carries the rule's
/// own code and message.
pub proof fn lemma_sign_rules_by_value_i16(v: i16)
    ensures
        (<Positive as Validator<i16>>::spec_validate(&v) is Ok) <==> v > 0,
        !(v > 0) ==> <Positive as Validator<i16>>::spec_validate(&v) == Err::<(), ValidationError>(
            ValidationError::spec_new("positive", "value must be greater than zero"),
        ),
        (<NonNegative as Validator<i16>>::spec_validate(&v) is Ok) <==> v >= 0,
        !(v >= 0) ==> <NonNegative as Validator<i16>>::spec_validate(&v) == Err::<(), ValidationError>(
            ValidationError::spec_new("non_negative", "value must not be negative"),
        ),
        (<Negative as Validator<i16>>::spec_validate(&v) is Ok) <==> v < 0,
        !(v < 0) ==> <Negative as Validator<i16>>::spec_validate(&v) == Err::<(), ValidationError>(
            ValidationError::spec_new("negative", "value must be less than zero"),
        ),
        (<NonPositive as Validator<i16>>::spec_validate(&v) is Ok) <==> v <= 0,
        !(v <= 0) ==> <NonPositive as Validator<i16>>::spec_validate(&v) == Err::<(), ValidationError>(
            ValidationError::spec_new("non_positive", "value must not be positive"),
        ),
{
}

/// The sign rules on `i32` decide by the sign of the value alone: `Positive`
/// accepts exactly `v > 0`, `NonNegative` exactly `v >= 0`, `Negative` exactly
/// `v < 0` and `NonPositive` exactly `v <= 0`; a rejection carries the rule's
/// own code and message.
pub proof fn lemma_sign_rules_by_value_i32(v: i32)
    ensures
        (<Positive as Validator<i32>>::spec_validate(&v) is Ok) <==> v > 0,
        !(v > 0) ==> <Positive as Validator<i32>>::spec_validate(&v) == Err::<(), ValidationError>(
            ValidationError::spec_new("positive", "value must be greater than zero"),
        ),
        (<NonNegative as Validator<i32>>::spec_validate(&v) is Ok) <==> v >= 0,
        !(v >= 0) ==> <NonNegative as Validator<i32>>::spec_validate(&v) == Err::<(), ValidationError>(
            ValidationError::spec_new("non_negative", "value must not be negative"),
        ),
        (<Negative as Validator<i32>>::spec_validate(&v) is Ok) <==> v < 0,
        !(v < 0) ==> <Negative as Validator<i32>>::spec_validate(&v) == Err::<(), ValidationError>(
            ValidationError::spec_new("negative", "value must be less than zero"),
        ),
        (<NonPositive as Validator<i32>>::spec_validate(&v) is Ok) <==> v <= 0,
        !(v <= 0) ==> <NonPositive as Validator<i32>>::spec_validate(&v) == Err::<(), ValidationError>(
            ValidationError::spec_new("non_positive", "value must not be positive"),
        ),
{
}

/// The sign rules on `i64` decide by the sign of the value alone: `Positive`
/// accepts exactly `v > 0`, `NonNegative` exactly `v >= 0`, `Negative` exactly
/// `v < 0` and `NonPositive` exactly `v <= 0`; a rejection carries the rule's
/// own code and message.
pub proof fn lemma_sign_rules_by_value_i64(v: i64)
    ensures
        (<Positive as Validator<i64>>::spec_validate(&v) is Ok) <==> v > 0,
        !(v > 0) ==> <Positive as Validator<i64>>::spec_validate(&v) == Err::<(), ValidationError>(
            ValidationError::spec_new("positive", "value must be greater than zero"),
        ),
        (<NonNegative as Validator<i64>>::spec_validate(&v) is Ok) <==> v >= 0,
        !(v >= 0) ==> <NonNegative as Validator<i64>>::spec_validate(&v) == Err::<(), ValidationError>(
            ValidationError::spec_new("non_negative", "value must not be negative"),
        ),
        (<Negative as Validator<i64>>::spec_validate(&v) is Ok) <==> v < 0,
        !(v < 0) ==> <Negative as Validator<i64>>::spec_validate(&v) == Err::<(), ValidationError>(
            ValidationError::spec_new("negative", "value must be less than zero"),
        ),
        (<NonPositive as Validator<i64>>::spec_validate(&v) is Ok) <==> v <= 0,
        !(v <= 0) ==> <NonPositive as Validator<i64>>::spec_validate(&v) == Err::<(), ValidationError>(
            ValidationError::spec_new("non_positive", "value must not be positive"),
        ),
{
}

/// The sign rules on `i128` decide by the sign of the value alone: `Positive`
/// accepts exactly `v > 0`, `NonNegative` exactly `v >= 0`, `Negative` exactly
/// `v < 0` and `NonPositive` exactly `v <= 0`; a rejection carries the rule's
/// own code and message.
pub proof fn lemma_sign_rules_by_value_i128(v: i128)
    ensures
        (<Positive as Validator<i128>>::spec_validate(&v) is Ok) <==> v > 0,
        !(v > 0) ==> <Positive as Validator<i128>>::spec_validate(&v) == Err::<(), ValidationError>(
            ValidationError::spec_new("positive", "value must be greater than zero"),
        ),
        (<NonNegative as Validator<i128>>::spec_validate(&v) is Ok) <==> v >= 0,
        !(v >= 0) ==> <NonNegative as Validator<i128>>::spec_validate(&v) == Err::<(), ValidationError>(
            ValidationError::spec_new("non_negative", "value must not be negative"),
        ),
        (<Negative as Validator<i128>>::spec_validate(&v) is Ok) <==> v < 0,
        !(v < 0) ==> <Negative as Validator<i128>>::spec_validate(&v) == Err::<(), ValidationError>(
            ValidationError::spec_new("negative", "value must be less than zero"),
        ),
        (<NonPositive as Validator<i128>>::spec_validate(&v) is Ok) <==> v <= 0,
        !(v <= 0) ==> <NonPositive as Validator<i128>>::spec_validate(&v) == Err::<(), ValidationError>(
            ValidationError::spec_new("non_positive", "value must not be positive"),
        ),
{
}

/// The sign rules on `isize` decide by the sign of the value alone: `Positive`
/// accepts exactly `v > 0`, `NonNegative` exactly `v >= 0`, `Negative` exactly
/// `v < 0` and `NonPositive` exactly `v <= 0`; a rejection carries the rule's
/// own code and message.
pub proof fn lemma_sign_rules_by_value_isize(v: isize)
    ensures
        (<Positive as Validator<isize>>::spec_validate(&v) is Ok) <==> v > 0,
        !(v > 0) ==> <Positive as Validator<isize>>::spec_validate(&v) == Err::<(), ValidationError>(
            ValidationError::spec_new("positive", "value must be greater than zero"),
        ),
        (<NonNegative as Validator<isize>>::spec_validate(&v) is Ok) <==> v >= 0,
        !(v >= 0) ==> <NonNegative as Validator<isize>>::spec_validate(&v) == Err::<(), ValidationError>(
            ValidationError::spec_new("non_negative", "value must not be negative"),
        ),
        (<Negative as Validator<isize>>::spec_validate(&v) is Ok) <==> v < 0,
        !(v < 0) ==> <Negative as Validator<isize>>::spec_validate(&v) == Err::<(), ValidationError>(
            ValidationError::spec_new("negative", "value must be less than zero"),
        ),
        (<NonPositive as Validator<isize>>::spec_validate(&v) is Ok) <==> v <= 0,
        !(v <= 0) ==> <NonPositive as Validator<isize>>::spec_validate(&v) == Err::<(), ValidationError>(
            ValidationError::spec_new("non_positive", "value must not be positive"),
        ),
{
}

/// `InRange<L, H>` on `i8` is the inclusive range: it accepts `v` exactly
/// when `L <= v <= H`, both bounds included, and rejects anything else with
/// the `"in_range"` error.
pub proof fn lemma_in_range_inclusive_i8<L: IntBound, H: IntBound>(v: i8)
    ensures
        (<InRange<L, H> as Validator<i8>>::spec_validate(&v) is Ok) <==> (L::spec_bound()
            <= v as int && v as int <= H::spec_bound()),
        L::spec_bound() <= H::spec_bound() && v as int == H::spec_bound() ==> <InRange<
            L,
            H,
        > as Validator<i8>>::spec_validate(&v) is Ok,
        L::spec_bound() <= H::spec_bound() && v as int == L::spec_bound() ==> <InRange<
            L,
            H,
        > as Validator<i8>>::spec_validate(&v) is Ok,
        !(L::spec_bound() <= v as int && v as int <= H::spec_bound()) ==> <InRange<
            L,
            H,
        > as Validator<i8>>::spec_validate(&v) == Err::<(), ValidationError>(
            ValidationError::spec_new("in_range", "value is out of range"),
        ),
{
}

/// `InRange<L, H>` on `i16` is the inclusive range: it accepts `v` exactly
/// when `L <= v <= H`, both bounds included, and rejects anything else with
/// the `"in_range"` error.
pub proof fn lemma_in_range_inclusive_i16<L: IntBound, H: IntBound>(v: i16)
    ensures
        (<InRange<L, H> as Validator<i16>>::spec_validate(&v) is Ok) <==> (L::spec_bound()
            <= v as int && v as int <= H::spec_bound()),
        L::spec_bound() <= H::spec_bound() && v as int == H::spec_bound() ==> <InRange<
            L,
            H,
        > as Validator<i16>>::spec_validate(&v) is Ok,
        L::spec_bound() <= H::spec_bound() && v as int == L::spec_bound() ==> <InRange<
            L,
            H,
        > as Validator<i16>>::spec_validate(&v) is Ok,
        !(L::spec_bound() <= v as int && v as int <= H::spec_bound()) ==> <InRange<
            L,
            H,
        > as Validator<i16>>::spec_validate(&v) == Err::<(), ValidationError>(
            ValidationError::spec_new("in_range", "value is out of range"),
        ),
{
}

/// `InRange<L, H>` on `i32` is the inclusive range: it accepts `v` exactly
/// when `L <= v <= H`, both bounds included, and rejects anything else with
/// the `"in_range"` error.
pub proof fn lemma_in_range_inclusive_i32<L: IntBound, H: IntBound>(v: i32)
    ensures
        (<InRange<L, H> as Validator<i32>>::spec_validate(&v) is Ok) <==> (L::spec_bound()
            <= v as int && v as int <= H::spec_bound()),
        L::spec_bound() <= H::spec_bound() && v as int == H::spec_bound() ==> <InRange<
            L,
            H,
        > as Validator<i32>>::spec_validate(&v) is Ok,
        L::spec_bound() <= H::spec_bound() && v as int == L::spec_bound() ==> <InRange<
            L,
            H,
        > as Validator<i32>>::spec_validate(&v) is Ok,
        !(L::spec_bound() <= v as int && v as int <= H::spec_bound()) ==> <InRange<
            L,
            H,
        > as Validator<i32>>::spec_validate(&v) == Err::<(), ValidationError>(
            ValidationError::spec_new("in_range", "value is out of range"),
        ),
{
}

/// `InRange<L, H>` on `i64` is the inclusive range: it accepts `v` exactly
/// when `L <= v <= H`, both bounds included, and rejects anything else with
/// the `"in_range"` error.
pub proof fn lemma_in_range_inclusive_i64<L: IntBound, H: IntBound>(v: i64)
    ensures
        (<InRange<L, H> as Validator<i64>>::spec_validate(&v) is Ok) <==> (L::spec_bound()
            <= v as int && v as int <= H::spec_bound()),
        L::spec_bound() <= H::spec_bound() && v as int == H::spec_bound() ==> <InRange<
            L,
            H,
        > as Validator<i64>>::spec_validate(&v) is Ok,
        L::spec_bound() <= H::spec_bound() && v as int == L::spec_bound() ==> <InRange<
            L,
            H,
        > as Validator<i64>>::spec_validate(&v) is Ok,
        !(L::spec_bound() <= v as int && v as int <= H::spec_bound()) ==> <InRange<
            L,
            H,
        > as Validator<i64>>::spec_validate(&v) == Err::<(), ValidationError>(
            ValidationError::spec_new("in_range", "value is out of range"),
        ),
{
}

/// `InRange<L, H>` on `u8` is the inclusive range: it accepts `v` exactly
/// when `L <= v <= H`, both bounds included, and rejects anything else with
/// the `"in_range"` error.
pub proof fn lemma_in_range_inclusive_u8<L: IntBound, H: IntBound>(v: u8)
    ensures
        (<InRange<L, H> as Validator<u8>>::spec_validate(&v) is Ok) <==> (L::spec_bound()
            <= v as int && v as int <= H::spec_bound()),
        L::spec_bound() <= H::spec_bound() && v as int == H::spec_bound() ==> <InRange<
            L,
            H,
        > as Validator<u8>>::spec_validate(&v) is Ok,
        L::spec_bound() <= H::spec_bound() && v as int == L::spec_bound() ==> <InRange<
            L,
            H,
        > as Validator<u8>>::spec_validate(&v) is Ok,
        !(L::spec_bound() <= v as int && v as int <= H::spec_bound()) ==> <InRange<
            L,
            H,
        > as Validator<u8>>::spec_validate(&v) == Err::<(), ValidationError>(
            ValidationError::spec_new("in_range", "value is out of range"),
        ),
{
}

/// `InRange<L, H>` on `u16` is the inclusive range: it accepts `v` exactly
/// when `L <= v <= H`, both bounds included, and rejects anything else with
/// the `"in_range"` error.
pub proof fn lemma_in_range_inclusive_u16<L: IntBound, H: IntBound>(v: u16)
    ensures
        (<InRange<L, H> as Validator<u16>>::spec_validate(&v) is Ok) <==> (L::spec_bound()
            <= v as int && v as int <= H::spec_bound()),
        L::spec_bound() <= H::spec_bound() && v as int == H::spec_bound() ==> <InRange<
            L,
            H,
        > as Validator<u16>>::spec_validate(&v) is Ok,
        L::spec_bound() <= H::spec_bound() && v as int == L::spec_bound() ==> <InRange<
            L,
            H,
        > as Validator<u16>>::spec_validate(&v) is Ok,
        !(L::spec_bound() <= v as int && v as int <= H::spec_bound()) ==> <InRange<
            L,
            H,
        > as Validator<u16>>::spec_validate(&v) == Err::<(), ValidationError>(
            ValidationError::spec_new("in_range", "value is out of range"),
        ),
{
}

/// `InRange<L, H>` on `u32` is the inclusive range: it accepts `v` exactly
/// when `L <= v <= H`, both bounds included, and rejects anything else with
/// the `"in_range"` error.
pub proof fn lemma_in_range_inclusive_u32<L: IntBound, H: IntBound>(v: u32)
    ensures
        (<InRange<L, H> as Validator<u32>>::spec_validate(&v) is Ok) <==> (L::spec_bound()
            <= v as int && v as int <= H::spec_bound()),
        L::spec_bound() <= H::spec_bound() && v as int == H::spec_bound() ==> <InRange<
            L,
            H,
        > as Validator<u32>>::spec_validate(&v) is Ok,
        L::spec_bound() <= H::spec_bound() && v as int == L::spec_bound() ==> <InRange<
            L,
            H,
        > as Validator<u32>>::spec_validate(&v) is Ok,
        !(L::spec_bound() <= v as int && v as int <= H::spec_bound()) ==> <InRange<
            L,
            H,
        > as Validator<u32>>::spec_validate(&v) == Err::<(), ValidationError>(
            ValidationError::spec_new("in_range", "value is out of range"),
        ),
{
}

} // verus!
