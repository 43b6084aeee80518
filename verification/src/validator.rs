//! The [`Validator`] trait: reusable, type-level validation rules.

use vstd::prelude::*;

verus! {

/// A reusable validation rule applied to values of type `T`.
///
/// A validator is a type-level predicate: it is implemented on a zero-sized
/// marker type and never instantiated. Its verdict on a value is a pure
/// function of the value, written down by [`Validator::spec_validate`]: the
/// outcome on acceptance is `Ok(())`, and on rejection the error that
/// [`Validator::validate`] returns.
pub trait Validator<T: ?Sized> {
    /// The failure produced when a value violates the rule.
    type Error;

    /// The verdict of the rule on `value`.
    ///
    /// Every rule of this crate defines it. A rule that does not define it
    /// (one written in plain Rust, where specifications are not compiled) is
    /// given a single fixed but unknown verdict for all values; no function or
    /// law of this crate reasons about such a rule.
    open spec fn spec_validate(value: &T) -> Result<(), Self::Error> {
        vstd::pervasive::arbitrary()
    }

    /// Checks `value` against the rule.
    ///
    /// Returns `Ok(())` when the value satisfies the invariant, or the error
    /// describing why it does not. It never mutates or transforms the value.
    fn validate(value: &T) -> (r: Result<(), Self::Error>)
        ensures
            r == Self::spec_validate(value),
    ;
}

} // verus!
