use valorant_menubar::json::{Json, JsonNumber, Member};

fn object(members: Vec<(&str, Json)>) -> Json {
    Json::Object(
        members
            .into_iter()
            .map(|(key, value)| Member { key: key.to_string(), value })
            .collect(),
    )
}

fn text(s: &str) -> Json {
    Json::Text(s.to_string())
}

#[test]
fn get_finds_a_member_by_key() {
    let doc = object(vec![("a", text("x")), ("b", Json::Bool(true))]);
    assert!(matches!(doc.get("a"), Some(Json::Text(s)) if s == "x"));
    assert!(matches!(doc.get("b"), Some(Json::Bool(true))));
}

#[test]
fn get_misses_an_absent_key() {
    let doc = object(vec![("a", text("x"))]);
    assert!(doc.get("A").is_none());
    assert!(doc.get("").is_none());
    assert!(doc.get("ab").is_none());
    assert!(object(vec![]).get("a").is_none());
}

#[test]
fn get_takes_the_first_of_equal_keys() {
    let doc = object(vec![("k", text("first")), ("k", text("second"))]);
    assert_eq!(doc.get_str("k"), Some("first"));
}

#[test]
fn get_on_other_values_is_none() {
    assert!(Json::Null.get("a").is_none());
    assert!(text("a").get("a").is_none());
    assert!(Json::Array(vec![object(vec![("a", Json::Null)])]).get("a").is_none());
    assert!(Json::Number(JsonNumber::Unsigned(1)).get("a").is_none());
}

#[test]
fn as_array_only_for_arrays() {
    let list = Json::Array(vec![Json::Null, Json::Bool(false)]);
    assert_eq!(list.as_array().map(|items| items.len()), Some(2));
    assert!(Json::Null.as_array().is_none());
    assert!(object(vec![]).as_array().is_none());
    assert!(text("[]").as_array().is_none());
}

#[test]
fn as_str_only_for_strings() {
    assert_eq!(text("LIVE").as_str(), Some("LIVE"));
    assert_eq!(text("").as_str(), Some(""));
    assert!(Json::Null.as_str().is_none());
    assert!(Json::Number(JsonNumber::Fraction("0.5".to_string())).as_str().is_none());
    assert!(Json::Bool(true).as_str().is_none());
}

#[test]
fn typed_member_readers_check_the_type() {
    let doc = object(vec![
        ("name", text("n")),
        ("list", Json::Array(vec![])),
        ("none", Json::Null),
    ]);
    assert_eq!(doc.get_str("name"), Some("n"));
    assert!(doc.get_str("list").is_none());
    assert!(doc.get_str("none").is_none());
    assert!(doc.get_str("absent").is_none());
    assert_eq!(doc.get_array("list").map(|items| items.len()), Some(0));
    assert!(doc.get_array("name").is_none());
    assert!(doc.get_array("absent").is_none());
}
