use webnis::cache::WnError;
use webnis::db::{find_record, json_lookup, MapType};

const USERS: &[u8] = br#"[{"uid":1,"name":"a"},{"uid":2,"name":"b"}]"#;

fn record(uid: u64, name: &str) -> serde_json::Value {
    let mut m = serde_json::Map::new();
    m.insert("uid".to_string(), serde_json::Value::from(uid));
    m.insert("name".to_string(), serde_json::Value::from(name));
    serde_json::Value::Object(m)
}

#[test]
fn map_type_names() {
    assert_eq!(MapType::from_str("gdbm"), Ok(MapType::Gdbm));
    assert_eq!(MapType::from_str("json"), Ok(MapType::Json));
    assert_eq!(MapType::from_str("lua"), Ok(MapType::Lua));
    assert_eq!(MapType::from_str("none"), Err(WnError::UnknownMapType));
    assert_eq!(MapType::from_str("GDBM"), Err(WnError::UnknownMapType));
    assert_eq!(MapType::from_str(""), Err(WnError::UnknownMapType));
}

#[test]
fn map_type_default() {
    assert_eq!(MapType::default(), MapType::Unset);
}

#[test]
fn json_lookup_by_number() {
    assert_eq!(json_lookup(USERS, "uid", "2"), Ok(record(2, "b")));
    assert_eq!(json_lookup(USERS, "uid", "1"), Ok(record(1, "a")));
    assert_eq!(json_lookup(USERS, "uid", "+2"), Ok(record(2, "b")));
}

#[test]
fn json_lookup_not_found() {
    assert_eq!(json_lookup(USERS, "uid", "9"), Err(WnError::KeyNotFound));
    assert_eq!(json_lookup(USERS, "gid", "1"), Err(WnError::KeyNotFound));
    assert_eq!(json_lookup(USERS, "uid", "-1"), Err(WnError::KeyNotFound));
    assert_eq!(json_lookup(b"[]", "uid", "1"), Err(WnError::KeyNotFound));
}

#[test]
fn json_lookup_by_string() {
    assert_eq!(json_lookup(USERS, "name", "b"), Ok(record(2, "b")));
    assert_eq!(json_lookup(USERS, "name", "c"), Err(WnError::KeyNotFound));
    assert_eq!(json_lookup(USERS, "uid", "a"), Err(WnError::KeyNotFound));
}

#[test]
fn json_lookup_number_is_not_a_string() {
    let text = br#"[{"uid":"2","name":"s"},{"uid":2,"name":"n"}]"#;
    assert_eq!(json_lookup(text, "uid", "2"), Ok(record(2, "n")));
    assert_eq!(json_lookup(text, "name", "2"), Err(WnError::KeyNotFound));
}

#[test]
fn json_lookup_takes_the_first_match() {
    let text = br#"[{"uid":5,"name":"x"},{"uid":5,"name":"y"}]"#;
    assert_eq!(json_lookup(text, "uid", "5"), Ok(record(5, "x")));
}

#[test]
fn json_lookup_of_a_value_too_large_for_a_number() {
    let text = br#"[{"uid":"99999999999999999999","name":"big"}]"#;
    let mut m = serde_json::Map::new();
    m.insert("uid".to_string(), serde_json::Value::from("99999999999999999999"));
    m.insert("name".to_string(), serde_json::Value::from("big"));
    assert_eq!(
        json_lookup(text, "uid", "99999999999999999999"),
        Ok(serde_json::Value::Object(m))
    );
}

#[test]
fn json_lookup_of_broken_text() {
    assert_eq!(json_lookup(b"[{", "uid", "1"), Err(WnError::DbOther));
    assert_eq!(json_lookup(b"", "uid", "1"), Err(WnError::DbOther));
}

#[test]
fn json_lookup_in_a_document_that_is_no_array() {
    assert_eq!(json_lookup(br#"{"uid":1}"#, "uid", "1"), Err(WnError::KeyNotFound));
}

#[test]
fn find_record_scans_in_order() {
    let doc = serde_json::Value::Array(vec![record(1, "a"), record(2, "b")]);
    assert_eq!(find_record(&doc, "uid", &serde_json::Value::from(2u64)), Ok(record(2, "b")));
    assert_eq!(find_record(&doc, "name", &serde_json::Value::from("a")), Ok(record(1, "a")));
    assert_eq!(
        find_record(&doc, "uid", &serde_json::Value::from("2")),
        Err(WnError::KeyNotFound)
    );
}
