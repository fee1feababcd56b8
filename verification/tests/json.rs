use aish::json::JsonValue;

#[test]
fn parse_reads_an_object_with_strings() {
    let value = JsonValue::parse("{\"command\": \"ls -la\", \"n\": 3}").unwrap();
    assert_eq!(value.get_str("command"), Some("ls -la"));
    assert_eq!(value.get_str("n"), None);
    assert_eq!(value.get_str("missing"), None);
    assert!(value.contains_key("n"));
    assert!(!value.contains_key("missing"));
}

#[test]
fn parse_keeps_numbers_as_their_text() {
    let value = JsonValue::parse("{\"code\": 429, \"ratio\": 1.5, \"neg\": -2}").unwrap();
    assert!(matches!(value.get("code"), Some(JsonValue::Number(n)) if n == "429"));
    assert!(matches!(value.get("ratio"), Some(JsonValue::Number(n)) if n == "1.5"));
    assert!(matches!(value.get("neg"), Some(JsonValue::Number(n)) if n == "-2"));
}

#[test]
fn parse_reads_every_kind_of_value() {
    let value = JsonValue::parse("[null, true, false, \"s\", [], {}]").unwrap();
    match value {
        JsonValue::Array(items) => {
            assert_eq!(items.len(), 6);
            assert!(matches!(items[0], JsonValue::Null));
            assert!(matches!(items[1], JsonValue::Bool(true)));
            assert!(matches!(items[2], JsonValue::Bool(false)));
            assert!(matches!(&items[3], JsonValue::String(s) if s == "s"));
            assert!(matches!(&items[4], JsonValue::Array(a) if a.is_empty()));
            assert!(matches!(&items[5], JsonValue::Object(m) if m.is_empty()));
        }
        _ => panic!("expected an array"),
    }
}

#[test]
fn parse_reads_nested_members() {
    let value = JsonValue::parse("{\"error\": {\"message\": \"bad key\", \"code\": 401}}").unwrap();
    let error = value.get("error").unwrap();
    assert_eq!(error.get_str("message"), Some("bad key"));
    assert_eq!(value.get_str("error"), None);
}

#[test]
fn parse_undoes_escapes_in_strings() {
    let value = JsonValue::parse("{\"content\": \"line one\\nline \\\"two\\\"\\u00e9\"}").unwrap();
    assert_eq!(value.get_str("content"), Some("line one\nline \"two\"é"));
}

#[test]
fn parse_rejects_what_is_no_json() {
    assert!(JsonValue::parse("").is_err());
    assert!(JsonValue::parse("{").is_err());
    assert!(JsonValue::parse("{\"a\": }").is_err());
    assert!(JsonValue::parse("{'a': 1}").is_err());
    assert!(JsonValue::parse("{\"a\": 1} trailing").is_err());
    let error = JsonValue::parse("not json").unwrap_err();
    assert!(!error.detail.is_empty());
}

#[test]
fn parse_takes_the_last_of_members_with_one_name() {
    let value = JsonValue::parse("{\"path\": \"first\", \"path\": \"second\"}").unwrap();
    assert_eq!(value.get_str("path"), Some("second"));
}

#[test]
fn get_on_what_is_no_object_finds_nothing() {
    let value = JsonValue::parse("\"just a string\"").unwrap();
    assert!(value.get("anything").is_none());
    assert_eq!(value.as_str(), Some("just a string"));
    let value = JsonValue::parse("[1, 2]").unwrap();
    assert!(value.get("0").is_none());
    assert_eq!(value.as_str(), None);
}

#[test]
fn with_adds_members_that_are_found_again() {
    let value = JsonValue::object()
        .with("type", JsonValue::string("string"))
        .with("description", JsonValue::string("The shell command to execute"));
    assert_eq!(value.get_str("type"), Some("string"));
    assert_eq!(value.get_str("description"), Some("The shell command to execute"));
    assert!(value.get("other").is_none());
}

#[test]
fn with_leaves_an_earlier_member_of_the_same_name_in_place() {
    let value = JsonValue::object()
        .with("k", JsonValue::string("first"))
        .with("k", JsonValue::string("second"));
    assert_eq!(value.get_str("k"), Some("first"));
}
