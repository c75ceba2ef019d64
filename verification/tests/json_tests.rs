use soulbook::json::{data_items, data_or_null, JsonValue};

fn s(t: &str) -> JsonValue {
    JsonValue::Str(t.to_string())
}

fn obj(members: Vec<(&str, JsonValue)>) -> JsonValue {
    JsonValue::Object(members.into_iter().map(|(k, v)| (k.to_string(), v)).collect())
}

#[test]
fn data_member_is_copied() {
    let reply = obj(vec![("code", JsonValue::Number("0".into())), ("data", obj(vec![("a", s("x"))]))]);
    assert_eq!(data_or_null(&reply), obj(vec![("a", s("x"))]));
}

#[test]
fn missing_data_is_null() {
    assert_eq!(data_or_null(&obj(vec![("message", s("ok"))])), JsonValue::Null);
    assert_eq!(data_or_null(&JsonValue::Array(vec![])), JsonValue::Null);
    assert_eq!(data_or_null(&s("data")), JsonValue::Null);
}

#[test]
fn items_are_copied_in_order() {
    let items = vec![s("first"), JsonValue::Bool(true), obj(vec![("id", s("k1"))])];
    let reply = obj(vec![("data", obj(vec![("total", JsonValue::Number("3".into())), ("items", JsonValue::Array(items.clone_items()))]))]);
    assert_eq!(data_items(&reply), items.clone_items());
}

#[test]
fn items_default_to_empty() {
    assert!(data_items(&obj(vec![])).is_empty());
    assert!(data_items(&obj(vec![("data", JsonValue::Null)])).is_empty());
    assert!(data_items(&obj(vec![("data", obj(vec![("items", s("no"))]))])).is_empty());
    assert!(data_items(&obj(vec![("data", obj(vec![("rows", JsonValue::Array(vec![s("x")]))]))])).is_empty());
}

#[test]
fn lookup_takes_first_member_of_that_name() {
    let v = obj(vec![("id", s("one")), ("id", s("two"))]);
    assert_eq!(v.get("id"), Some(&s("one")));
    assert_eq!(v.get("missing"), None);
    assert_eq!(s("id").get("id"), None);
}

#[test]
fn duplicate_keeps_content() {
    let v = obj(vec![("a", JsonValue::Array(vec![JsonValue::Null, JsonValue::Number("1.5".into())])), ("b", obj(vec![]))]);
    assert_eq!(v.duplicate(), v);
}

trait CloneItems {
    fn clone_items(&self) -> Vec<JsonValue>;
}

impl CloneItems for Vec<JsonValue> {
    fn clone_items(&self) -> Vec<JsonValue> {
        self.iter().map(|x| x.duplicate()).collect()
    }
}
