use esp_scheduler::json::{Json, Member};

fn json_text(s: &str) -> Json {
    Json::Text(s.to_string())
}

fn json_member(key: &str, value: Json) -> Member {
    Member { key: key.to_string(), value }
}

#[test]
fn text_is_read_from_strings_only() {
    assert_eq!(json_text("abc").text().map(|s| s.as_str()), Some("abc"));
    assert_eq!(json_text("").text().map(|s| s.as_str()), Some(""));
    assert!(Json::Null.text().is_none());
    assert!(Json::Bool(true).text().is_none());
    assert!(Json::Number("12".to_string()).text().is_none());
    assert!(Json::Array(vec![json_text("abc")]).text().is_none());
    assert!(Json::Object(vec![json_member("abc", json_text("abc"))]).text().is_none());
}

#[test]
fn elements_are_read_from_arrays_only() {
    let array = Json::Array(vec![Json::Null, json_text("x"), Json::Array(Vec::new())]);
    let items = array.elements().unwrap();
    assert_eq!(items.len(), 3);
    assert!(matches!(items[0], Json::Null));
    assert_eq!(items[1].text().map(|s| s.as_str()), Some("x"));
    assert_eq!(items[2].elements().map(|e| e.len()), Some(0));
    assert!(json_text("[]").elements().is_none());
    assert!(Json::Null.elements().is_none());
    assert!(Json::Object(Vec::new()).elements().is_none());
}

#[test]
fn members_are_looked_up_by_key() {
    let object = Json::Object(vec![
        json_member("b", json_text("second")),
        json_member("a", json_text("first")),
        json_member("", Json::Bool(false)),
        json_member("a", json_text("shadowed")),
    ]);
    let key = |k: &str| k.to_string();
    assert_eq!(object.member(&key("a")).unwrap().text().map(|s| s.as_str()), Some("first"));
    assert_eq!(object.member(&key("b")).unwrap().text().map(|s| s.as_str()), Some("second"));
    assert!(matches!(object.member(&key("")), Some(Json::Bool(false))));
    assert!(object.member(&key("c")).is_none());
    assert!(object.member(&key("A")).is_none());
    assert!(Json::Object(Vec::new()).member(&key("a")).is_none());
    assert!(Json::Array(vec![json_text("a")]).member(&key("a")).is_none());
    assert!(json_text("a").member(&key("a")).is_none());
    assert!(Json::Null.member(&key("a")).is_none());
}
