//! Parse-dont-validate domain types, with the guarantees proved.
//!
//! A [`Validator`] is a type-level rule whose verdict on a value is a pure
//! function of that value ([`Validator::spec_validate`]). A [`Refined`] value
//! can only be built by passing its rule, and every operation on it hands back
//! a value that the rule accepts. The [`rules`] module ships the common rules
//! (length, sign and range, string content), and [`combinator`] composes them
//! with `And`, `Or` and `Not`.

mod error;
mod refined;
mod validator;

pub mod combinator;
pub mod newtype;
pub mod prelude;
pub mod rules;

pub use crate::error::ValidationError;
pub use crate::refined::Refined;
pub use crate::validator::Validator;

use vstd::prelude::*;

verus! {

/// The crate's version string.
pub const VERSION: &'static str = "0.9.0";

} // verus!
