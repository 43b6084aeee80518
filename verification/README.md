# type-lib

Parse-dont-validate domain types for Rust, with the guarantees checked by
Verus.

A `Validator` is a type-level rule whose verdict on a value is a pure function
of the value. A `Refined<T, V>` can only be built by passing `V`, and every
accessor hands back a value that `V` accepts. Built-in rules cover lengths
(`NonEmpty`, `MinLen`, `MaxLen`, `LenRange`), signs and ranges (`Positive`,
`NonNegative`, `Negative`, `NonPositive`, `InRange`) and string content
(`Ascii`, `Alphanumeric`, `Trimmed`); `And`, `Or` and `Not` compose them.

Layout:

- `src/` — the verified library: `validator.rs`, `refined.rs`, `error.rs`,
  `combinator.rs`, `rules/` (length, numeric, string) and `newtype.rs`, the
  shape checks behind deriving a validated newtype.
- `tests/` — the test suite.
- `app/` — the derive's front end, which reads items with `syn` and writes
  code with `quote`.

```rust
use type_lib::combinator::And;
use type_lib::rules::{LenRange, Trimmed};
use type_lib::Refined;

type Username = Refined<String, And<Trimmed, LenRange<3, 16>>>;

assert!(Username::new("alice".to_owned()).is_ok());
assert!(Username::new("  alice  ".to_owned()).is_err());
```
