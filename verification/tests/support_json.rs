use mcproc::mcp::json::Json;

fn member<'a>(j: &'a Json, key: &str) -> Option<&'a Json> {
    match j {
        Json::Object(ms) => ms.iter().find(|(k, _)| k == key).map(|(_, v)| v),
        _ => None,
    }
}

#[test]
fn json_member_lookup_finds_first_key() {
    let j = Json::Object(vec![
        ("a".to_string(), Json::Bool(true)),
        ("b".to_string(), Json::Null),
    ]);
    assert!(matches!(member(&j, "a"), Some(Json::Bool(true))));
    assert!(matches!(j.get("b"), Some(Json::Null)));
    assert!(j.get("c").is_none());
    assert!(Json::Null.get("a").is_none());
}
