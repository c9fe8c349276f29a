use autograder::compare::compare;
use autograder::config::Comparison;

fn s(text: &str) -> String {
    text.to_string()
}

#[test]
fn exact_matches_itself() {
    let r = compare(&s("hello world"), &s("hello world"), Comparison::Exact);
    assert!(matches!(r, Ok(true)));
}

#[test]
fn exact_rejects_one_appended_character() {
    let r = compare(&s("abc"), &s("abcx"), Comparison::Exact);
    assert!(matches!(r, Ok(false)));
}

#[test]
fn exact_is_case_sensitive_and_keeps_whitespace() {
    assert!(matches!(compare(&s("Hello"), &s("hello"), Comparison::Exact), Ok(false)));
    assert!(matches!(compare(&s("hello\n"), &s("hello"), Comparison::Exact), Ok(false)));
    assert!(matches!(compare(&s(""), &s(""), Comparison::Exact), Ok(true)));
}

#[test]
fn included_accepts_empty_expected() {
    assert!(matches!(compare(&s("anything at all"), &s(""), Comparison::Included), Ok(true)));
    assert!(matches!(compare(&s(""), &s(""), Comparison::Included), Ok(true)));
}

#[test]
fn included_rejects_longer_expected() {
    assert!(matches!(compare(&s("abc"), &s("abcd"), Comparison::Included), Ok(false)));
}

#[test]
fn included_finds_inner_substring() {
    assert!(matches!(compare(&s("hello world"), &s("lo wo"), Comparison::Included), Ok(true)));
    assert!(matches!(compare(&s("hello world"), &s("low"), Comparison::Included), Ok(false)));
}

#[test]
fn regex_invalid_pattern_is_a_pattern_error() {
    let r = compare(&s("whatever the output was"), &s("("), Comparison::Regex);
    assert!(r.is_err());
    let message = r.err().unwrap().message;
    assert!(!message.is_empty());
}

#[test]
fn regex_valid_pattern_matches_anywhere() {
    assert!(matches!(compare(&s("hello world"), &s("wo.ld"), Comparison::Regex), Ok(true)));
    assert!(matches!(compare(&s("hello world"), &s("^x+$"), Comparison::Regex), Ok(false)));
}
