use agentic_api::json::JsonValue;
use agentic_api::text::{clean_string, eq_ignore_ascii_case, str_eq, strip_prefix, trim};

#[test]
fn trim_removes_unicode_whitespace() {
    assert_eq!(trim("  a b \t\n"), "a b");
    assert_eq!(trim("\u{3000}x\u{a0}"), "x");
    assert_eq!(trim("   "), "");
    assert_eq!(trim(""), "");
}

#[test]
fn clean_string_drops_blank_values() {
    assert_eq!(clean_string(Some("  repo ")), Some("repo".to_owned()));
    assert_eq!(clean_string(Some(" \t ")), None);
    assert_eq!(clean_string(None), None);
}

#[test]
fn ascii_case_folding() {
    assert!(eq_ignore_ascii_case("LocalHost", "localhost"));
    assert!(!eq_ignore_ascii_case("localhost", "localhos"));
    assert!(!eq_ignore_ascii_case("Ä", "ä"));
    assert!(str_eq("a", "a") && !str_eq("a", "A"));
}

#[test]
fn prefix_stripping() {
    assert_eq!(strip_prefix("fc_12", "fc_").as_deref(), Some("12"));
    assert_eq!(strip_prefix("fc", "fc_"), None);
    assert_eq!(strip_prefix("call_", "call_").as_deref(), Some(""));
}

#[test]
fn json_copy_and_lookup() {
    let v = JsonValue::Object(vec![
        ("a".to_owned(), JsonValue::Array(vec![JsonValue::Number("1".to_owned())])),
        ("a".to_owned(), JsonValue::Null),
    ]);
    let c = v.deep_copy();
    assert!(matches!(c.get("a"), Some(JsonValue::Array(items)) if items.len() == 1));
    assert!(c.get("b").is_none());
    assert!(JsonValue::Null.get("a").is_none());
    assert!(JsonValue::Null.is_null());
}
