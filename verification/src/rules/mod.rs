//! Built-in validation rules.
//!
//! - [length] — `NonEmpty`, `MinLen`, `MaxLen`, `LenRange`
//! - [numeric] — `Positive`, `NonNegative`, `Negative`, `NonPositive`, `InRange`
//! - [string] — `Ascii`, `Alphanumeric`, `Trimmed`
//!
//! Every built-in rule reports failures as [`ValidationError`](crate::ValidationError),
//! so they share one error type and compose freely with the
//! [combinators](crate::combinator).

pub mod length;
pub mod numeric;
pub mod string;

pub use length::{HasLength, LenRange, MaxLen, MinLen, NonEmpty};
pub use numeric::{InRange, IntBound, Minus, Negative, NonNegative, NonPositive, Plus, Positive};
pub use string::{Alphanumeric, AsStr, Ascii, Trimmed};
