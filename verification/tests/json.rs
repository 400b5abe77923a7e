use near_dao_apis::json::{Json, JsonNumber};

fn object(entries: Vec<(&str, Json)>) -> Json {
    Json::Object(entries.into_iter().map(|(k, v)| (k.to_string(), v)).collect())
}

#[test]
fn get_reads_object_members_only() {
    let v = object(vec![("a", Json::Bool(true)), ("b", Json::Null)]);
    assert_eq!(v.get("a"), Some(&Json::Bool(true)));
    assert_eq!(v.get("b"), Some(&Json::Null));
    assert_eq!(v.get("c"), None);
    assert_eq!(Json::Array(vec![Json::Null]).get("0"), None);
    assert_eq!(Json::String("a".to_string()).get("a"), None);
}

#[test]
fn get_takes_the_first_of_repeated_keys() {
    let v = object(vec![("a", Json::Bool(true)), ("a", Json::Bool(false))]);
    assert_eq!(v.get("a"), Some(&Json::Bool(true)));
}

#[test]
fn contains_key_matches_get() {
    let v = object(vec![("kind", Json::Null)]);
    assert!(v.contains_key("kind"));
    assert!(!v.contains_key("kinds"));
    assert!(!Json::Null.contains_key("kind"));
}

#[test]
fn as_str_and_as_i64() {
    assert_eq!(Json::String("x".to_string()).as_str(), Some("x"));
    assert_eq!(Json::Bool(true).as_str(), None);
    assert_eq!(Json::Number(JsonNumber::PosInt(42)).as_i64(), Some(42));
    assert_eq!(Json::Number(JsonNumber::PosInt(i64::MAX as u64)).as_i64(), Some(i64::MAX));
    assert_eq!(Json::Number(JsonNumber::PosInt(i64::MAX as u64 + 1)).as_i64(), None);
    assert_eq!(Json::Number(JsonNumber::NegInt(i64::MIN)).as_i64(), Some(i64::MIN));
    assert_eq!(Json::Number(JsonNumber::Float("1.0".to_string())).as_i64(), None);
    assert_eq!(Json::String("5".to_string()).as_i64(), None);
}

#[test]
fn copy_equals_its_source() {
    let v = object(vec![
        ("list", Json::Array(vec![Json::Bool(false), Json::Number(JsonNumber::PosInt(1))])),
        ("nested", object(vec![("s", Json::String("t".to_string()))])),
    ]);
    assert_eq!(v.copy(), v);
}
