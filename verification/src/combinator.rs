//! Combinators for composing validators.
//!
//! [`And`], [`Or`] and [`Not`] build compound rules from simpler ones, at the
//! type level. They are validators themselves, so they nest: `And<A, Or<B, C>>`
//! is a rule. `And` and `Or` need their two sub-rules to share one error type;
//! `Not` works with any sub-rule and reports its own [`ValidationError`].

use core::marker::PhantomData;
use vstd::prelude::*;

use crate::{ValidationError, Validator};

verus! {

/// Passes only when both sub-rules `A` and `B` pass.
///
/// `A` is checked first; if it fails its error is returned and `B` is not run.
#[derive(Debug, PartialEq, Eq, PartialOrd, Ord, Hash)]
pub struct And<A, B>(PhantomData<(A, B)>);

impl<T: ?Sized, A, B, E> Validator<T> for And<A, B> where
    A: Validator<T, Error = E>,
    B: Validator<T, Error = E>,
 {
    type Error = E;

    open spec fn spec_validate(value: &T) -> Result<(), E> {
        match A::spec_validate(value) {
            Ok(()) => B::spec_validate(value),
            Err(e) => Err(e),
        }
    }

    fn validate(value: &T) -> (res: Result<(), E>) {
        A::validate(value)?;
        B::validate(value)
    }
}

/// Passes when either sub-rule `A` or `B` passes.
///
/// `A` is checked first; if it passes, `B` is not run. If `A` fails, the result
/// of `B` is returned, so when both fail the error is `B`'s.
#[derive(Debug, PartialEq, Eq, PartialOrd, Ord, Hash)]
pub struct Or<A, B>(PhantomData<(A, B)>);

impl<T: ?Sized, A, B, E> Validator<T> for Or<A, B> where
    A: Validator<T, Error = E>,
    B: Validator<T, Error = E>,
 {
    type Error = E;

    open spec fn spec_validate(value: &T) -> Result<(), E> {
        match A::spec_validate(value) {
            Ok(()) => Ok(()),
            Err(_) => B::spec_validate(value),
        }
    }

    fn validate(value: &T) -> (res: Result<(), E>) {
        match A::validate(value) {
            Ok(()) => Ok(()),
            Err(_) => B::validate(value),
        }
    }
}

/// Passes exactly when the sub-rule `A` fails.
///
/// Works with any sub-rule, whatever its error type, and reports a
/// [`ValidationError`] with code `"not"` when `A` passes.
#[derive(Debug, PartialEq, Eq, PartialOrd, Ord, Hash)]
pub struct Not<A>(PhantomData<A>);

/// The error [`Not`] reports when its sub-rule passes.
pub open spec fn not_error() -> ValidationError {
    ValidationError::spec_new("not", "value matched a rule it was required to violate")
}

impl<T: ?Sized, A: Validator<T>> Validator<T> for Not<A> {
    type Error = ValidationError;

    open spec fn spec_validate(value: &T) -> Result<(), ValidationError> {
        match A::spec_validate(value) {
            Ok(()) => Err(not_error()),
            Err(_) => Ok(()),
        }
    }

    fn validate(value: &T) -> (res: Result<(), ValidationError>) {
        match A::validate(value) {
            Ok(()) => Err(
                ValidationError::new("not", "value matched a rule it was required to violate"),
            ),
            Err(_) => Ok(()),
        }
    }
}

/// `And<A, B>` accepts a value exactly when both `A` and `B` accept it; when
/// it rejects, the error is `A`'s if `A` rejects, and `B`'s otherwise.
pub proof fn lemma_and_is_conjunction<T: ?Sized, A, B, E>(value: &T) where
    A: Validator<T, Error = E>,
    B: Validator<T, Error = E>,

    ensures
        (And::<A, B>::spec_validate(value) is Ok) <==> ((A::spec_validate(value) is Ok) && (B::spec_validate(value) is Ok)),
        A::spec_validate(value) is Err ==> And::<A, B>::spec_validate(value) == A::spec_validate(value),
        (A::spec_validate(value) is Ok) ==> And::<A, B>::spec_validate(value) == B::spec_validate(value),
{
}

/// `Or<A, B>` accepts a value exactly when `A` or `B` accepts it; when both
/// reject, the error is `B`'s.
pub proof fn lemma_or_is_disjunction<T: ?Sized, A, B, E>(value: &T) where
    A: Validator<T, Error = E>,
    B: Validator<T, Error = E>,

    ensures
        (Or::<A, B>::spec_validate(value) is Ok) <==> ((A::spec_validate(value) is Ok) || (B::spec_validate(value) is Ok)),
        A::spec_validate(value) is Err ==> Or::<A, B>::spec_validate(value) == B::spec_validate(value),
{
}

/// `Not<A>` accepts a value exactly when `A` rejects it, and reports the
/// `"not"` error otherwise.
pub proof fn lemma_not_is_negation<T: ?Sized, A: Validator<T>>(value: &T)
    ensures
        (Not::<A>::spec_validate(value) is Ok) <==> A::spec_validate(value) is Err,
        (A::spec_validate(value) is Ok) ==> Not::<A>::spec_validate(value) == Err::<(), ValidationError>(
            ValidationError::spec_new("not", "value matched a rule it was required to violate"),
        ),
{
}

/// Negating a rule twice accepts the same values as the rule itself.
pub proof fn lemma_double_negation<T: ?Sized, A: Validator<T>>(value: &T)
    ensures
        (Not::<Not<A>>::spec_validate(value) is Ok) <==> (A::spec_validate(value) is Ok),
{
}

/// `And` accepts the same values in either order.
pub proof fn lemma_and_commutes<T: ?Sized, A, B, E>(value: &T) where
    A: Validator<T, Error = E>,
    B: Validator<T, Error = E>,

    ensures
        (And::<A, B>::spec_validate(value) is Ok) <==> (And::<B, A>::spec_validate(value) is Ok),
{
}

/// `Or` accepts the same values in either order.
pub proof fn lemma_or_commutes<T: ?Sized, A, B, E>(value: &T) where
    A: Validator<T, Error = E>,
    B: Validator<T, Error = E>,

    ensures
        (Or::<A, B>::spec_validate(value) is Ok) <==> (Or::<B, A>::spec_validate(value) is Ok),
{
}

/// De Morgan: `Not<And<A, B>>` accepts the same values as
/// `Or<Not<A>, Not<B>>`, and `Not<Or<A, B>>` the same as `And<Not<A>, Not<B>>`.
pub proof fn lemma_de_morgan<T: ?Sized, A, B, E>(value: &T) where
    A: Validator<T, Error = E>,
    B: Validator<T, Error = E>,

    ensures
        (Not::<And<A, B>>::spec_validate(value) is Ok) <==> (Or::<Not<A>, Not<B>>::spec_validate(value) is Ok),
        (Not::<Or<A, B>>::spec_validate(value) is Ok) <==> (And::<Not<A>, Not<B>>::spec_validate(value) is Ok),
{
}

} // verus!
