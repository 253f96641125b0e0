use aigw::json::{JsonNumber, JsonObject, JsonValue};

#[test]
fn read_after_write_and_remove() {
    let mut o = JsonObject::new();
    assert!(o.is_empty());
    o.insert("a".to_owned(), JsonValue::Bool(true));
    o.insert("b".to_owned(), JsonValue::Number(JsonNumber::PosInt(1)));
    o.insert("a".to_owned(), JsonValue::Str("again".to_owned()));
    assert_eq!(o.get("a"), Some(&JsonValue::Str("again".to_owned())));
    assert_eq!(o.get("b").and_then(|v| v.as_u64()), Some(1));
    assert!(o.contains_key("b"));
    assert_eq!(o.remove("a"), Some(JsonValue::Str("again".to_owned())));
    assert_eq!(o.get("a"), None);
    assert_eq!(o.get("b").and_then(|v| v.as_u64()), Some(1));
    assert_eq!(o.remove("missing"), None);
}
