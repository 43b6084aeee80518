//! Common imports: the foundation types and the combinators.

pub use crate::combinator::{And, Not, Or};
pub use crate::error::ValidationError;
pub use crate::refined::Refined;
pub use crate::validator::Validator;
