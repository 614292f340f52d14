//! Source-fragment validation.

use ferrumpy_core::scan::{
    check_raw_str, eat_char, eat_comment_block, eat_comment_line, validate_source_fragment,
    EatCharRes, FragmentValidity, StrKind,
};

#[test]
fn test_balanced_fragment_is_valid() {
    assert_eq!(
        validate_source_fragment("fn main() { let x = 1; }"),
        FragmentValidity::Valid
    );
    assert_eq!(validate_source_fragment(""), FragmentValidity::Valid);
}

#[test]
fn test_open_brace_is_incomplete() {
    assert_eq!(
        validate_source_fragment("fn main() {"),
        FragmentValidity::Incomplete
    );
}

#[test]
fn test_stray_closer_is_invalid() {
    assert_eq!(validate_source_fragment("}"), FragmentValidity::Invalid);
    assert_eq!(validate_source_fragment("(]"), FragmentValidity::Invalid);
}

#[test]
fn test_unterminated_block_comment() {
    assert_eq!(
        validate_source_fragment("let x = 1; /* open"),
        FragmentValidity::Incomplete
    );
    assert_eq!(
        validate_source_fragment("/* nested /* deep */ still */ done"),
        FragmentValidity::Valid
    );
}

#[test]
fn test_line_comment_hides_brackets() {
    assert_eq!(
        validate_source_fragment("let x = 1; // { ( [\nlet y = 2;"),
        FragmentValidity::Valid
    );
}

#[test]
fn test_unterminated_string() {
    assert_eq!(
        validate_source_fragment("let s = \"open"),
        FragmentValidity::Incomplete
    );
    assert_eq!(
        validate_source_fragment("let s = \"closed\";"),
        FragmentValidity::Valid
    );
}

#[test]
fn test_raw_string() {
    assert_eq!(
        validate_source_fragment("let s = r#\"has \" inside\"#;"),
        FragmentValidity::Valid
    );
    assert_eq!(
        validate_source_fragment("let s = r#\"still open\";"),
        FragmentValidity::Incomplete
    );
}

#[test]
fn test_char_and_lifetime() {
    assert_eq!(
        validate_source_fragment("let c = 'a';"),
        FragmentValidity::Valid
    );
    assert_eq!(
        validate_source_fragment("fn f<'a>(x: &'a str) {}"),
        FragmentValidity::Valid
    );
    assert_eq!(
        validate_source_fragment("let c = '\\n';"),
        FragmentValidity::Valid
    );
}

#[test]
fn test_attribute_expects_item() {
    assert_eq!(
        validate_source_fragment("#[derive(Debug)]"),
        FragmentValidity::Incomplete
    );
    assert_eq!(
        validate_source_fragment("#[derive(Debug)] struct S;"),
        FragmentValidity::Valid
    );
}

#[test]
fn test_validity_as_str() {
    assert_eq!(FragmentValidity::Valid.as_str(), "valid");
    assert_eq!(FragmentValidity::Invalid.as_str(), "invalid");
    assert_eq!(FragmentValidity::Incomplete.as_str(), "incomplete");
}

#[test]
fn test_trailing_whitespace_keeps_attr_pending() {
    // whitespace after a closed attribute must not count as its item
    assert_eq!(
        validate_source_fragment("#[derive(Debug)]   "),
        FragmentValidity::Incomplete
    );
}

#[test]
fn test_eat_comment_helpers() {
    let s = "// note\nrest";
    let mut pos = 2;
    eat_comment_line(s, &mut pos);
    assert_eq!(pos, 8);

    let s = "a */ b";
    let mut pos = 0;
    assert!(eat_comment_block(s, &mut pos));
    assert_eq!(pos, 4);

    let s = "never closed";
    let mut pos = 0;
    assert!(!eat_comment_block(s, &mut pos));
}

#[test]
fn test_eat_char_helpers() {
    // after the opening quote of 'x'
    let s = "x' rest";
    let mut pos = 0;
    assert_eq!(eat_char(s, &mut pos), Some(EatCharRes::AteChar));
    assert_eq!(pos, 2);

    // a lifetime leaves the position untouched
    let s = "a>(x)";
    let mut pos = 0;
    assert_eq!(eat_char(s, &mut pos), Some(EatCharRes::SawLifetime));
    assert_eq!(pos, 0);

    // a raw newline inside a char literal is invalid
    let s = "\n'";
    let mut pos = 0;
    assert_eq!(eat_char(s, &mut pos), Some(EatCharRes::SawInvalid));
}

#[test]
fn test_check_raw_str_kinds() {
    let s = "r#\"x\"#";
    assert_eq!(check_raw_str(s, 2), Some(StrKind::RawStr { hashes: 1 }));
    let s = "let a = \"x\"";
    assert_eq!(check_raw_str(s, 8), Some(StrKind::Normal));
    let s = "r\"x\"";
    assert_eq!(check_raw_str(s, 1), Some(StrKind::RawStr { hashes: 0 }));
    // a hash run with no r before it is malformed
    let s = "##\"x\"";
    assert_eq!(check_raw_str(s, 2), None);
}
