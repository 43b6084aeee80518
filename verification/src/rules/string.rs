//! String-content rules.
//!
//! Each rule applies to any value that implements [`AsStr`]: `str`, `String`,
//! `Box`, `Rc` and `Arc` of those, and shared references to them. They check character content only; combine
//! with the [length rules](super::length) through
//! [`And`](crate::combinator::And) for a length bound as well.

use vstd::prelude::*;
use vstd::string::StrSliceExecFns;

use crate::{ValidationError, Validator};

verus! {

/// A value that reads as a string slice.
pub trait AsStr {
    /// The characters of the value.
    spec fn spec_chars(&self) -> Seq<char>;

    /// Borrows the value as a string slice.
    fn as_str_slice(&self) -> (s: &str)
        ensures
            s@ == self.spec_chars(),
    ;
}

impl AsStr for str {
    open spec fn spec_chars(&self) -> Seq<char> {
        self@
    }

    fn as_str_slice(&self) -> (s: &str) {
        self
    }
}

impl AsStr for String {
    open spec fn spec_chars(&self) -> Seq<char> {
        self@
    }

    fn as_str_slice(&self) -> (s: &str) {
        self.as_str()
    }
}

impl<S: AsStr + ?Sized> AsStr for &S {
    open spec fn spec_chars(&self) -> Seq<char> {
        (**self).spec_chars()
    }

    fn as_str_slice(&self) -> (s: &str) {
        S::as_str_slice(*self)
    }
}

impl<S: AsStr + ?Sized> AsStr for Box<S> {
    open spec fn spec_chars(&self) -> Seq<char> {
        (**self).spec_chars()
    }

    fn as_str_slice(&self) -> (s: &str) {
        S::as_str_slice(&**self)
    }
}

impl<S: AsStr + ?Sized> AsStr for std::rc::Rc<S> {
    open spec fn spec_chars(&self) -> Seq<char> {
        (**self).spec_chars()
    }

    fn as_str_slice(&self) -> (s: &str) {
        S::as_str_slice(&**self)
    }
}

impl<S: AsStr + ?Sized> AsStr for std::sync::Arc<S> {
    open spec fn spec_chars(&self) -> Seq<char> {
        (**self).spec_chars()
    }

    fn as_str_slice(&self) -> (s: &str) {
        S::as_str_slice(&**self)
    }
}

/// Whether `c` is alphanumeric in the sense of `char::is_alphanumeric`:
/// Unicode `Alphabetic` or `Numeric`.
pub uninterp spec fn is_alphanumeric_char(c: char) -> bool;

/// Calls `char::is_alphanumeric`, whose result is a function of `c` alone
/// (the Unicode `Alphabetic` and `Numeric` properties); the contract names
/// that result and says nothing more of it.
#[verifier::external_body]
fn char_is_alphanumeric(c: char) -> (b: bool)
    ensures
        b == is_alphanumeric_char(c),
{
    c.is_alphanumeric()
}

/// Whether `c` has the Unicode `White_Space` property (PropList.txt): the
/// code points U+0009..=U+000D, U+0020, U+0085, U+00A0, U+1680,
/// U+2000..=U+200A, U+2028, U+2029, U+202F, U+205F and U+3000.
pub open spec fn is_white_space_char(c: char) -> bool {
    let n = c as u32;
    ||| 0x9 <= n <= 0xd
    ||| n == 0x20
    ||| n == 0x85
    ||| n == 0xa0
    ||| n == 0x1680
    ||| 0x2000 <= n <= 0x200a
    ||| n == 0x2028
    ||| n == 0x2029
    ||| n == 0x202f
    ||| n == 0x205f
    ||| n == 0x3000
}

/// Returns whether `c` has the Unicode `White_Space` property, the property
/// by which `char::is_whitespace` and `str::trim` decide.
pub fn is_white_space(c: char) -> (b: bool)
    ensures
        b == is_white_space_char(c),
{
    let n = c as u32;
    (0x9 <= n && n <= 0xd) || n == 0x20 || n == 0x85 || n == 0xa0 || n == 0x1680 || (0x2000 <= n
        && n <= 0x200a) || n == 0x2028 || n == 0x2029 || n == 0x202f || n == 0x205f || n == 0x3000
}

/// Whether every character of `s` is alphanumeric.
pub open spec fn all_alphanumeric(s: Seq<char>) -> bool {
    forall|i: int| 0 <= i < s.len() ==> #[trigger] is_alphanumeric_char(s[i])
}

/// Whether `s` has no leading and no trailing white space, that is, whether
/// trimming white space from both ends leaves it unchanged.
pub open spec fn is_trimmed(s: Seq<char>) -> bool {
    s.len() == 0 || (!is_white_space_char(s[0]) && !is_white_space_char(s.last()))
}

/// `s` with its leading white space removed, as `str::trim_start` does.
pub open spec fn trim_start_chars(s: Seq<char>) -> Seq<char>
    decreases s.len(),
{
    if s.len() > 0 && is_white_space_char(s[0]) {
        trim_start_chars(s.drop_first())
    } else {
        s
    }
}

/// `s` with its trailing white space removed, as `str::trim_end` does.
pub open spec fn trim_end_chars(s: Seq<char>) -> Seq<char>
    decreases s.len(),
{
    if s.len() > 0 && is_white_space_char(s.last()) {
        trim_end_chars(s.drop_last())
    } else {
        s
    }
}

/// `s` with leading and trailing white space removed, as `str::trim` does.
pub open spec fn trim_chars(s: Seq<char>) -> Seq<char> {
    trim_end_chars(trim_start_chars(s))
}

proof fn lemma_trim_start_shape(s: Seq<char>)
    ensures
        trim_start_chars(s).len() == 0 || !is_white_space_char(trim_start_chars(s)[0]),
        !(s.len() > 0 && is_white_space_char(s[0])) ==> trim_start_chars(s) == s,
    decreases s.len(),
{
    if s.len() > 0 && is_white_space_char(s[0]) {
        lemma_trim_start_shape(s.drop_first());
    }
}

proof fn lemma_trim_end_shape(s: Seq<char>)
    ensures
        trim_end_chars(s).len() <= s.len(),
        trim_end_chars(s) == s.subrange(0, trim_end_chars(s).len() as int),
        trim_end_chars(s).len() == 0 || !is_white_space_char(trim_end_chars(s).last()),
        !(s.len() > 0 && is_white_space_char(s.last())) ==> trim_end_chars(s) == s,
    decreases s.len(),
{
    if s.len() > 0 && is_white_space_char(s.last()) {
        lemma_trim_end_shape(s.drop_last());
        let t = trim_end_chars(s.drop_last());
        assert(s.drop_last().subrange(0, t.len() as int) =~= s.subrange(0, t.len() as int));
    } else {
        assert(s.subrange(0, s.len() as int) =~= s);
    }
}

/// Trimming is what `Trimmed` checks: a string passes exactly when trimming
/// leaves it unchanged, and every trimmed string passes.
pub proof fn lemma_trimmed_iff_trim_is_identity(s: Seq<char>)
    ensures
        is_trimmed(s) <==> trim_chars(s) == s,
        is_trimmed(trim_chars(s)),
{
    let u = trim_start_chars(s);
    lemma_trim_start_shape(s);
    lemma_trim_end_shape(u);
    let v = trim_end_chars(u);
    if v.len() > 0 {
        assert(v[0] == u[0]);
    }
    if is_trimmed(s) && s.len() > 0 {
        assert(u == s);
        lemma_trim_end_shape(s);
    }
    if s.len() == 0 {
        assert(trim_chars(s) == s);
    }
}

/// `Trimmed` accepts a value exactly when trimming leaves its characters
/// unchanged.
pub proof fn lemma_trimmed_iff_unchanged_by_trim<S: AsStr + ?Sized>(value: &S)
    ensures
        (<Trimmed as Validator<S>>::spec_validate(value) is Ok) <==> trim_chars(value.spec_chars())
            == value.spec_chars(),
{
    lemma_trimmed_iff_trim_is_identity(value.spec_chars());
}

/// `Trimmed` accepts every value whose characters are the trim of some
/// string, such as the result of `str::trim`.
pub proof fn lemma_trimmed_accepts_trim<S: AsStr + ?Sized>(value: &S, untrimmed: Seq<char>)
    requires
        value.spec_chars() == trim_chars(untrimmed),
    ensures
        <Trimmed as Validator<S>>::spec_validate(value) is Ok,
{
    lemma_trimmed_iff_trim_is_identity(untrimmed);
}

/// The error of [`Ascii`].
pub open spec fn ascii_error() -> ValidationError {
    ValidationError::spec_new("ascii", "value must contain only ASCII characters")
}

/// The error of [`Alphanumeric`].
pub open spec fn alphanumeric_error() -> ValidationError {
    ValidationError::spec_new("alphanumeric", "value must contain only alphanumeric characters")
}

/// The error of [`Trimmed`].
pub open spec fn trimmed_error() -> ValidationError {
    ValidationError::spec_new("trimmed", "value must not have leading or trailing whitespace")
}

/// Accepts strings whose characters are all ASCII. The empty string passes.
#[derive(Debug, Clone, Copy, PartialEq, Eq, PartialOrd, Ord, Hash, Default)]
pub struct Ascii;

impl<S: AsStr + ?Sized> Validator<S> for Ascii {
    type Error = ValidationError;

    open spec fn spec_validate(value: &S) -> Result<(), ValidationError> {
        if vstd::utf8::is_ascii_chars(value.spec_chars()) {
            Ok(())
        } else {
            Err(ascii_error())
        }
    }

    fn validate(value: &S) -> (res: Result<(), ValidationError>)
        ensures
            res is Ok <==> forall|i: int|
                0 <= i < value.spec_chars().len() ==> '\0' <= #[trigger] value.spec_chars()[i] <= '\u{7f}',
            res is Err ==> res == Err::<(), ValidationError>(
                ValidationError::spec_new("ascii", "value must contain only ASCII characters"),
            ),
    {
        proof {
            lemma_ascii_all_chars(value);
        }
        if value.as_str_slice().is_ascii() {
            Ok(())
        } else {
            Err(ValidationError::new("ascii", "value must contain only ASCII characters"))
        }
    }
}

/// Accepts strings whose characters are all alphanumeric, in the Unicode
/// sense of `char::is_alphanumeric`. The empty string passes.
#[derive(Debug, Clone, Copy, PartialEq, Eq, PartialOrd, Ord, Hash, Default)]
pub struct Alphanumeric;

impl<S: AsStr + ?Sized> Validator<S> for Alphanumeric {
    type Error = ValidationError;

    open spec fn spec_validate(value: &S) -> Result<(), ValidationError> {
        if all_alphanumeric(value.spec_chars()) {
            Ok(())
        } else {
            Err(alphanumeric_error())
        }
    }

    fn validate(value: &S) -> (res: Result<(), ValidationError>)
        ensures
            res is Ok <==> forall|i: int|
                0 <= i < value.spec_chars().len() ==> #[trigger] is_alphanumeric_char(
                    value.spec_chars()[i],
                ),
            res is Err ==> res == Err::<(), ValidationError>(
                ValidationError::spec_new(
                    "alphanumeric",
                    "value must contain only alphanumeric characters",
                ),
            ),
    {
        let s = value.as_str_slice();
        broadcast use vstd::string::group_string_axioms;
        for c in it: s.chars()
            invariant
                s@ == value.spec_chars(),
                it.seq() == s@,
                forall|j: int| 0 <= j < it.index() ==> #[trigger] is_alphanumeric_char(s@[j]),
        {
            if !char_is_alphanumeric(c) {
                return Err(
                    ValidationError::new(
                        "alphanumeric",
                        "value must contain only alphanumeric characters",
                    ),
                );
            }
        }
        Ok(())
    }
}

/// Accepts strings with no leading or trailing white space (as `str::trim`
/// removes it).
#[derive(Debug, Clone, Copy, PartialEq, Eq, PartialOrd, Ord, Hash, Default)]
pub struct Trimmed;

impl<S: AsStr + ?Sized> Validator<S> for Trimmed {
    type Error = ValidationError;

    open spec fn spec_validate(value: &S) -> Result<(), ValidationError> {
        if is_trimmed(value.spec_chars()) {
            Ok(())
        } else {
            Err(trimmed_error())
        }
    }

    fn validate(value: &S) -> (res: Result<(), ValidationError>)
        ensures
            res is Ok <==> trim_chars(value.spec_chars()) == value.spec_chars(),
            res is Err ==> res == Err::<(), ValidationError>(
                ValidationError::spec_new(
                    "trimmed",
                    "value must not have leading or trailing whitespace",
                ),
            ),
    {
        let s = value.as_str_slice();
        let n = s.unicode_len();
        proof {
            lemma_trimmed_iff_trim_is_identity(value.spec_chars());
        }
        if n == 0 || (!is_white_space(s.get_char(0)) && !is_white_space(s.get_char(n - 1))) {
            Ok(())
        } else {
            Err(
                ValidationError::new(
                    "trimmed",
                    "value must not have leading or trailing whitespace",
                ),
            )
        }
    }
}

/// The empty string passes every content rule: it has no character that
/// could break one.
pub proof fn lemma_empty_string_passes<S: AsStr + ?Sized>(value: &S)
    requires
        value.spec_chars().len() == 0,
    ensures
        <Ascii as Validator<S>>::spec_validate(value) is Ok,
        <Alphanumeric as Validator<S>>::spec_validate(value) is Ok,
        <Trimmed as Validator<S>>::spec_validate(value) is Ok,
{
}

/// The content rules give the same verdict on `&x` as on `x`.
pub proof fn lemma_content_rules_see_through_references<S: AsStr + ?Sized>(value: &S)
    ensures
        <Ascii as Validator<&S>>::spec_validate(&value) == <Ascii as Validator<
            S,
        >>::spec_validate(value),
        <Alphanumeric as Validator<&S>>::spec_validate(&value) == <Alphanumeric as Validator<
            S,
        >>::spec_validate(value),
        <Trimmed as Validator<&S>>::spec_validate(&value) == <Trimmed as Validator<
            S,
        >>::spec_validate(value),
{
}

/// `Ascii` accepts a string exactly when every one of its characters, the
/// first and the last included, is ASCII (from `'\0'` to `'\u{7f}'`).
pub proof fn lemma_ascii_all_chars<S: AsStr + ?Sized>(value: &S)
    ensures
        (<Ascii as Validator<S>>::spec_validate(value) is Ok) <==> forall|i: int|
            0 <= i < value.spec_chars().len() ==> '\0' <= #[trigger] value.spec_chars()[i] <= '\u{7f}',
        forall|i: int|
            0 <= i < value.spec_chars().len() && !('\0' <= #[trigger] value.spec_chars()[i] <= '\u{7f}')
                ==> <Ascii as Validator<S>>::spec_validate(value) == Err::<(), ValidationError>(
                ValidationError::spec_new("ascii", "value must contain only ASCII characters"),
            ),
{
}

/// `Alphanumeric` accepts a string exactly when every one of its characters,
/// the first and the last included, is alphanumeric; one character that is
/// not makes it reject with the `"alphanumeric"` error.
pub proof fn lemma_alphanumeric_all_chars<S: AsStr + ?Sized>(value: &S)
    ensures
        (<Alphanumeric as Validator<S>>::spec_validate(value) is Ok) <==> forall|i: int|
            0 <= i < value.spec_chars().len() ==> #[trigger] is_alphanumeric_char(
                value.spec_chars()[i],
            ),
        forall|i: int|
            0 <= i < value.spec_chars().len() && !#[trigger] is_alphanumeric_char(
                value.spec_chars()[i],
            ) ==> <Alphanumeric as Validator<S>>::spec_validate(value) == Err::<(), ValidationError>(
                ValidationError::spec_new(
                    "alphanumeric",
                    "value must contain only alphanumeric characters",
                ),
            ),
{
}

} // verus!
