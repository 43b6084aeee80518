//! The [`Refined`] wrapper around a validated value.

use core::cmp::Ordering;
use core::marker::PhantomData;
use vstd::prelude::*;
use vstd::std_specs::cmp::PartialEqSpec;
use vstd::std_specs::cmp::PartialOrdSpec;

use crate::Validator;

verus! {

/// A value of type `T` that is guaranteed to satisfy the validator `V`.
///
/// The value is checked once, by [`Refined::new`], and the type then carries
/// the invariant: every `Refined<T, V>` holds a value that `V` accepts. There
/// is no public field, no unchecked constructor and no `&mut` access, so the
/// value cannot be changed behind the rule's back.
///
/// Equality (`==`) and `partial_cmp` are bounded on `T` alone and compare
/// the inner values. `Clone` and `Copy` are offered when `T` is `Copy`, where
/// the copy provably holds the same, still valid, value. A refined `String`
/// is duplicated by [`Refined::duplicate`]; a refined value of another type
/// by re-wrapping a clone of it with [`Refined::new`]. `Debug`, `Hash` and `Ord` are
/// derived, so they ask the marker `V` to implement them as well (the
/// built-in rules and combinators do). `Hash` and `Ord` go by the inner
/// value alone (the marker field hashes nothing and compares equal); `Debug`
/// prints both fields, `Refined { value: .., _validator: PhantomData<..> }`.
#[derive(Debug, Hash, Ord)]
pub struct Refined<T, V: Validator<T>> {
    value: T,
    _validator: PhantomData<V>,
}

impl<T, V: Validator<T>> View for Refined<T, V> {
    type V = T;

    /// The wrapped value.
    closed spec fn view(&self) -> T {
        self.value
    }
}

impl<T, V: Validator<T>> Refined<T, V> {
    /// Every refined value satisfies its rule.
    #[verifier::type_invariant]
    closed spec fn satisfies_rule(self) -> bool {
        (V::spec_validate(&self.value) is Ok)
    }

    /// Validates `value` and, on success, wraps it.
    ///
    /// Succeeds exactly when `V` accepts `value`; the wrapper then holds
    /// `value` unchanged. Otherwise returns `V`'s error for `value`.
    pub fn new(value: T) -> (res: Result<Self, V::Error>)
        ensures
            res is Ok <==> (V::spec_validate(&value) is Ok),
            res matches Ok(r) ==> r@ == value,
            res matches Err(e) ==> V::spec_validate(&value) == Err::<(), V::Error>(e),
    {
        match V::validate(&value) {
            Ok(()) => Ok(Refined { value, _validator: PhantomData }),
            Err(e) => Err(e),
        }
    }

    /// Borrows the validated inner value.
    pub fn get(&self) -> (value: &T)
        ensures
            *value == self@,
            (V::spec_validate(value) is Ok),
    {
        proof {
            use_type_invariant(self);
        }
        &self.value
    }

    /// Consumes the wrapper and returns the inner value.
    pub fn into_inner(self) -> (value: T)
        ensures
            value == self@,
            (V::spec_validate(&value) is Ok),
    {
        proof {
            use_type_invariant(&self);
        }
        self.value
    }
}

impl<T, V: Validator<T>> core::ops::Deref for Refined<T, V> {
    type Target = T;

    fn deref(&self) -> (value: &T)
        ensures
            *value == self@,
            (V::spec_validate(value) is Ok),
    {
        proof {
            use_type_invariant(self);
        }
        &self.value
    }
}

impl<T, V: Validator<T>> AsRef<T> for Refined<T, V> {
    fn as_ref(&self) -> (value: &T)
        ensures
            *value == self@,
            (V::spec_validate(value) is Ok),
    {
        proof {
            use_type_invariant(self);
        }
        &self.value
    }
}

impl<V: Validator<String>> Refined<String, V> {
    /// Duplicates a refined `String`: the duplicate holds an equal string, so
    /// it satisfies `V` without re-validation.
    pub fn duplicate(&self) -> (res: Self)
        ensures
            res@ == self@,
    {
        proof {
            use_type_invariant(self);
        }
        Refined { value: self.value.clone(), _validator: PhantomData }
    }
}

impl<T: Copy, V: Validator<T>> Clone for Refined<T, V> {
    /// Copies the wrapper; the copy holds the same value, so it satisfies `V`
    /// without re-validation.
    fn clone(&self) -> (res: Self)
        ensures
            res@ == self@,
    {
        proof {
            use_type_invariant(self);
        }
        Refined { value: self.value, _validator: PhantomData }
    }
}

impl<T: Copy, V: Validator<T>> Copy for Refined<T, V> {}

impl<T: PartialEq, V: Validator<T>> PartialEq for Refined<T, V> {
    fn eq(&self, other: &Self) -> (res: bool)
        ensures
            T::obeys_eq_spec() ==> res == self@.eq_spec(&other@),
    {
        self.value == other.value
    }
}

impl<T: PartialEq, V: Validator<T>> vstd::std_specs::cmp::PartialEqSpecImpl for Refined<T, V> {
    open spec fn obeys_eq_spec() -> bool {
        T::obeys_eq_spec()
    }

    open spec fn eq_spec(&self, other: &Self) -> bool {
        self@.eq_spec(&other@)
    }
}

impl<T: Eq, V: Validator<T>> Eq for Refined<T, V> {}

impl<T: PartialOrd, V: Validator<T>> PartialOrd for Refined<T, V> {
    fn partial_cmp(&self, other: &Self) -> (res: Option<Ordering>)
        ensures
            T::obeys_partial_cmp_spec() ==> res == self@.partial_cmp_spec(&other@),
    {
        self.value.partial_cmp(&other.value)
    }
}

impl<T: PartialOrd, V: Validator<T>> vstd::std_specs::cmp::PartialOrdSpecImpl for Refined<T, V> {
    open spec fn obeys_partial_cmp_spec() -> bool {
        T::obeys_partial_cmp_spec()
    }

    open spec fn partial_cmp_spec(&self, other: &Self) -> Option<Ordering> {
        self@.partial_cmp_spec(&other@)
    }
}

/// Refined values compare as their inner values do: `==` is the inner
/// values' `==`, and it follows the inner type's specification exactly when
/// that type does.
pub proof fn lemma_eq_by_inner_value<T: PartialEq, V: Validator<T>>(a: Refined<T, V>, b: Refined<T, V>)
    ensures
        a.eq_spec(&b) == a@.eq_spec(&b@),
        Refined::<T, V>::obeys_eq_spec() == T::obeys_eq_spec(),
{
}

/// Refined values are ordered as their inner values are: `partial_cmp` (and
/// so `<`, `<=`, `>`, `>=`) gives the inner values' result, equal inner values
/// included, and follows the inner type's specification exactly when that
/// type does.
pub proof fn lemma_partial_cmp_by_inner_value<T: PartialOrd, V: Validator<T>>(
    a: Refined<T, V>,
    b: Refined<T, V>,
)
    ensures
        a.partial_cmp_spec(&b) == a@.partial_cmp_spec(&b@),
        Refined::<T, V>::obeys_partial_cmp_spec()
            == T::obeys_partial_cmp_spec(),
{
}

} // verus!
