//! The crate's ready-made validation error.

use vstd::prelude::*;
use vstd::string::StringExecFns;

verus! {

/// A lightweight validation failure with a machine-readable code and a
/// human-readable message.
///
/// It is `Copy`, holds two `'static` string slices and never allocates. The
/// code is a stable identifier to match on (`"non_empty"`, `"in_range"`); the
/// message is meant for logs and diagnostics.
#[derive(Debug, Clone, Copy, PartialEq, Eq, Hash)]
pub struct ValidationError {
    code: &'static str,
    message: &'static str,
}

impl ValidationError {
    /// The error made of `code` and `message`.
    pub closed spec fn spec_new(code: &'static str, message: &'static str) -> ValidationError {
        ValidationError { code, message }
    }

    /// The error's code.
    pub closed spec fn spec_code(&self) -> &'static str {
        self.code
    }

    /// The error's message.
    pub closed spec fn spec_message(&self) -> &'static str {
        self.message
    }

    /// The text `"<code>: <message>"` that displays the error.
    pub open spec fn spec_display(&self) -> Seq<char> {
        self.spec_code()@ + ": "@ + self.spec_message()@
    }

    /// Creates a validation error from a stable `code` and a human-readable
    /// `message`.
    pub fn new(code: &'static str, message: &'static str) -> (err: Self)
        ensures
            err == Self::spec_new(code, message),
            err.spec_code() == code,
            err.spec_message() == message,
    {
        ValidationError { code, message }
    }

    /// Returns the stable, machine-readable error code.
    pub fn code(&self) -> (code: &'static str)
        ensures
            code == self.spec_code(),
    {
        self.code
    }

    /// Returns the human-readable message.
    pub fn message(&self) -> (message: &'static str)
        ensures
            message == self.spec_message(),
    {
        self.message
    }

    /// Formats the error as `"<code>: <message>"`.
    pub fn to_string(&self) -> (text: String)
        ensures
            text@ == self.spec_display(),
    {
        let mut text = String::from_str(self.code);
        text.append(": ");
        text.append(self.message);
        text
    }

    /// An error keeps the code and the message it was made with.
    pub proof fn lemma_new_parts(code: &'static str, message: &'static str)
        ensures
            Self::spec_new(code, message).spec_code() == code,
            Self::spec_new(code, message).spec_message() == message,
    {
    }

    /// Two errors are equal exactly when their codes and their messages are.
    pub proof fn lemma_equal_iff_parts_equal(a: ValidationError, b: ValidationError)
        ensures
            a == b <==> (a.spec_code() == b.spec_code() && a.spec_message() == b.spec_message()),
    {
    }

    /// Every error is the one made of its own code and message.
    pub proof fn lemma_made_of_parts(e: ValidationError)
        ensures
            e == Self::spec_new(e.spec_code(), e.spec_message()),
    {
    }
}

} // verus!
