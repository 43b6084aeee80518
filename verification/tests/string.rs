use type_lib::rules::string::is_white_space;
use type_lib::rules::{Alphanumeric, Ascii, Trimmed};
use type_lib::Validator;

#[test]
fn ascii_rule() {
    assert!(Ascii::validate("abc123!").is_ok());
    assert!(Ascii::validate("").is_ok());
    assert_eq!(Ascii::validate("é").unwrap_err().code(), "ascii");
}

#[test]
fn alphanumeric_rule() {
    assert!(Alphanumeric::validate("Abc123").is_ok());
    assert!(Alphanumeric::validate("").is_ok());
    assert!(Alphanumeric::validate("a-b").is_err());
}

#[test]
fn trimmed_rule() {
    assert!(Trimmed::validate("ok").is_ok());
    assert!(Trimmed::validate(" leading").is_err());
    assert!(Trimmed::validate("trailing ").is_err());
    assert!(Trimmed::validate("inner space ok".trim()).is_ok());
}

#[test]
fn trimmed_matches_std_trim() {
    for s in ["", " ", "a", " a", "a ", "a b", "\u{3000}x", "x\u{85}", "\u{a0}", "\ttab", "é"] {
        assert_eq!(Trimmed::validate(s).is_ok(), s == s.trim(), "{s:?}");
    }
}

#[test]
fn string_rules_on_owned_strings() {
    let owned = String::from("abc123");
    assert!(Ascii::validate(&owned).is_ok());
    assert!(Alphanumeric::validate(&owned).is_ok());
    assert!(Trimmed::validate(&owned).is_ok());
    assert_eq!(
        Alphanumeric::validate(&String::from("user_name")).unwrap_err().code(),
        "alphanumeric"
    );
    assert_eq!(Trimmed::validate(&String::from(" x")).unwrap_err().code(), "trimmed");
}

#[test]
fn unicode_alphanumerics_pass() {
    assert!(Alphanumeric::validate("héllo٣").is_ok());
    assert!(Alphanumeric::validate("abc 123").is_err());
}

#[test]
fn white_space_matches_std_on_every_char() {
    for n in 0u32..=0x10ffff {
        if let Some(c) = char::from_u32(n) {
            assert_eq!(is_white_space(c), c.is_whitespace(), "{n:#x}");
        }
    }
}

#[test]
fn trimmed_accepts_every_trimmed_string() {
    for s in ["", "  ", " a b ", "\u{2003}x\u{3000}", "\n\tz", "é "] {
        assert!(Trimmed::validate(s.trim()).is_ok(), "{s:?}");
    }
}

#[test]
fn string_rules_on_smart_pointers() {
    let boxed: Box<str> = Box::from("abc");
    let shared: std::rc::Rc<str> = std::rc::Rc::from(" x");
    let atomic: std::sync::Arc<str> = std::sync::Arc::from("é");
    assert!(Ascii::validate(&boxed).is_ok());
    assert_eq!(Trimmed::validate(&shared).unwrap_err().code(), "trimmed");
    assert_eq!(Ascii::validate(&atomic).unwrap_err().code(), "ascii");
    assert!(Alphanumeric::validate(&atomic).is_ok());
}
