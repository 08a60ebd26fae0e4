use doodleiq::json::{set_field, take_field, Json, JsonNumber};
use serde_json::Value;

fn value(text: &str) -> Value {
    serde_json::from_str(text).unwrap()
}

#[test]
fn documents_survive_the_way_there_and_back() {
    for text in [
        "null",
        "true",
        "[1,2.5,-3,\"x\",[],{}]",
        "{\"a\":{\"b\":[null,false]},\"c\":18446744073709551615}",
        "\"line\\nbreak \\u00e9\"",
    ] {
        let json = Json::parse(text.as_bytes()).unwrap();
        assert_eq!(json.into_value(), value(text));
        let json = Json::from_value(value(text));
        assert_eq!(serde_json::from_slice::<Value>(&json.into_bytes()).unwrap(), value(text));
    }
}

#[test]
fn bytes_that_are_no_document_are_refused() {
    assert!(Json::parse(b"").is_none());
    assert!(Json::parse(b"{").is_none());
    assert!(Json::parse(b"[1] 2").is_none());
    assert!(Json::parse(b"\xff").is_none());
    let deep = "[".repeat(128) + &"]".repeat(128);
    assert!(Json::parse(deep.as_bytes()).is_none());
    let deep = "[".repeat(127) + &"]".repeat(127);
    assert!(Json::parse(deep.as_bytes()).is_some());
}

#[test]
fn values_are_read_by_their_kind() {
    let json = Json::parse(br#"{"b":true,"n":7,"f":7.0,"m":-7,"s":"x","a":[1]}"#).unwrap();
    assert_eq!(json.get("b").unwrap().as_bool(), Some(true));
    assert_eq!(json.get("n").unwrap().as_u64(), Some(7));
    assert_eq!(json.get("f").unwrap().as_u64(), None);
    assert_eq!(json.get("m").unwrap().as_u64(), None);
    assert_eq!(json.get("s").unwrap().as_str(), Some("x"));
    assert_eq!(json.get("a").unwrap().as_array().unwrap().len(), 1);
    assert!(json.get("z").is_none());
    assert!(json.get("n").unwrap().get("x").is_none());
    assert_eq!(json.get("n").unwrap().as_bool(), None);
    assert_eq!(json.get("b").unwrap().as_u64(), None);
    assert_eq!(json.get("b").unwrap().as_str(), None);
    assert!(json.get("b").unwrap().as_array().is_none());
}

#[test]
fn a_carried_number_may_be_an_integer() {
    let json = Json::Number(JsonNumber::Carried(serde_json::Number::from(9u64)));
    assert_eq!(json.as_u64(), Some(9));
}

#[test]
fn the_later_entry_of_a_key_counts() {
    let mut entries = Vec::new();
    set_field(&mut entries, "k", Json::unsigned(1));
    set_field(&mut entries, "k", Json::unsigned(2));
    set_field(&mut entries, "l", Json::text("t"));
    let json = Json::Object(entries);
    assert_eq!(json.get("k").unwrap().as_u64(), Some(2));
    assert_eq!(json.into_value(), value("{\"k\":2,\"l\":\"t\"}"));
}

#[test]
fn a_field_can_be_taken_out() {
    let mut entries = Vec::new();
    set_field(&mut entries, "k", Json::unsigned(1));
    set_field(&mut entries, "l", Json::unsigned_or_null(None));
    assert_eq!(take_field(&mut entries, "k").unwrap().as_u64(), Some(1));
    assert!(take_field(&mut entries, "k").is_none());
    assert_eq!(Json::Object(entries).into_value(), value("{\"l\":null}"));
}
