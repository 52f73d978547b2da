use isx::json::JsonExtent;
use isx::{IsDefault, IsEmpty};
use serde_json::{Number, Value};

fn object_with_one_entry() -> Value {
    let mut entries = serde_json::Map::new();
    entries.insert("k".to_string(), Value::Null);
    Value::Object(entries)
}

#[test]
fn json_empty() {
    assert!(IsEmpty::is_empty(&Value::Null));
    assert!(IsEmpty::is_empty(&Value::String(String::new())));
    assert!(IsEmpty::is_empty(&Value::Array(vec![])));
    assert!(IsEmpty::is_empty(&Value::Object(serde_json::Map::new())));
    assert!(!IsEmpty::is_empty(&Value::String("hi".to_string())));
    assert!(!IsEmpty::is_empty(&Value::Array(vec![Value::Null])));
    assert!(!IsEmpty::is_empty(&object_with_one_entry()));
    assert!(!IsEmpty::is_empty(&Value::Bool(false)));
    assert!(!IsEmpty::is_empty(&Value::Bool(true)));
    assert!(!IsEmpty::is_empty(&Value::Number(Number::from(0u8))));
}

#[test]
fn json_default() {
    assert!(Value::Null.is_default());
    assert!(Value::default().is_default());
    assert!(!Value::String(String::new()).is_default());
    assert!(!Value::Array(vec![]).is_default());
    assert!(!Value::Object(serde_json::Map::new()).is_default());
    assert!(!Value::Bool(false).is_default());
    assert!(!Value::Number(Number::from(0u8)).is_default());
    assert!(Value::Bool(false).is_not_default());
    assert!(!Value::Null.is_not_default());
}

#[test]
fn json_extents() {
    assert!(JsonExtent::Null.holds_nothing());
    assert!(JsonExtent::Text { length: 0 }.holds_nothing());
    assert!(JsonExtent::Array { length: 0 }.holds_nothing());
    assert!(JsonExtent::Object { length: 0 }.holds_nothing());
    assert!(!JsonExtent::Text { length: 1 }.holds_nothing());
    assert!(!JsonExtent::Array { length: 2 }.holds_nothing());
    assert!(!JsonExtent::Object { length: 3 }.holds_nothing());
    assert!(!JsonExtent::Bool.holds_nothing());
    assert!(!JsonExtent::Number.holds_nothing());
    assert!(JsonExtent::Null.is_null());
    assert!(!JsonExtent::Array { length: 0 }.is_null());
    assert!(!JsonExtent::Bool.is_null());
}
