use camunda_external_task_client_rust::{Json, ValueInfo, Variable, VariableMap};

fn text(value: &str) -> Variable {
    Variable::new("string", Json::String(value.to_string()))
}

#[test]
fn a_new_variable_has_kind_and_value_and_no_info() {
    let variable = Variable::new("json", Json::Array(vec![Json::Unsigned(1)]));
    assert_eq!(variable.kind, "json");
    assert_eq!(variable.value, Json::Array(vec![Json::Unsigned(1)]));
    assert_eq!(variable.value_info, None);
}

#[test]
fn the_kind_is_not_checked_against_the_value() {
    let variable = Variable::new("boolean", Json::String("not a flag".to_string()));
    assert_eq!(variable.kind, "boolean");
    assert_eq!(variable.value, Json::String("not a flag".to_string()));
}

#[test]
fn a_default_variable_is_an_untyped_null() {
    let variable = Variable::default();
    assert_eq!(variable.kind, "");
    assert_eq!(variable.value, Json::Null);
    assert_eq!(variable.value_info, None);
}

#[test]
fn a_variable_prints_kind_and_compact_value() {
    assert_eq!(text("2024-01-01").to_string(), "string: \"2024-01-01\"");
    assert_eq!(Variable::new("integer", Json::Unsigned(42)).to_string(), "integer: 42");
    assert_eq!(Variable::new("null", Json::Null).to_string(), "null: null");
    assert_eq!(Variable::default().to_string(), ": null");
    let nested = Json::Object(vec![(
        "scores".to_string(),
        Json::Array(vec![
            Json::Unsigned(9),
            Json::Number(serde_json::Number::from(-1i64)),
            Json::Number(serde_json::Number::from_f64(0.25).unwrap()),
            Json::Bool(true),
        ]),
    )]);
    assert_eq!(
        Variable::new("json", nested).to_string(),
        "json: {\"scores\":[9,-1,0.25,true]}"
    );
}

#[test]
fn a_new_map_is_empty() {
    let map = VariableMap::new();
    assert!(map.is_empty());
    assert_eq!(map.len(), 0);
    assert_eq!(map.get("a"), None);
    assert!(!map.contains_key("a"));
    assert_eq!(VariableMap::default(), VariableMap::new());
}

#[test]
fn insert_adds_a_new_name_at_the_end() {
    let mut map = VariableMap::new();
    assert_eq!(map.insert("b".to_string(), text("1")), None);
    assert_eq!(map.insert("a".to_string(), text("2")), None);
    assert_eq!(map.len(), 2);
    assert!(!map.is_empty());
    assert_eq!(map.get("a"), Some(&text("2")));
    assert_eq!(map.get("b"), Some(&text("1")));
    assert_eq!(map.get("c"), None);
    assert!(map.contains_key("a"));
    let names: Vec<&str> = map.entries().iter().map(|e| e.0.as_str()).collect();
    assert_eq!(names, vec!["b", "a"]);
}

#[test]
fn insert_replaces_in_place_and_returns_the_old_variable() {
    let mut map = VariableMap::new();
    map.insert("a".to_string(), text("1"));
    map.insert("b".to_string(), text("2"));
    map.insert("c".to_string(), text("3"));
    assert_eq!(map.insert("b".to_string(), text("new")), Some(text("2")));
    assert_eq!(map.len(), 3);
    assert_eq!(map.get("b"), Some(&text("new")));
    let names: Vec<&str> = map.entries().iter().map(|e| e.0.as_str()).collect();
    assert_eq!(names, vec!["a", "b", "c"]);
    assert_eq!(map.get("a"), Some(&text("1")));
    assert_eq!(map.get("c"), Some(&text("3")));
}

#[test]
fn names_are_compared_exactly() {
    let mut map = VariableMap::new();
    map.insert("a".to_string(), text("1"));
    map.insert("A".to_string(), text("2"));
    map.insert("".to_string(), text("3"));
    assert_eq!(map.len(), 3);
    assert_eq!(map.get(""), Some(&text("3")));
    assert_eq!(map.get("a "), None);
}

#[test]
fn a_cloned_map_is_equal_and_apart() {
    let mut map = VariableMap::new();
    let mut with_info = text("1");
    with_info.value_info = Some(ValueInfo {
        object_type_name: Some("java.lang.String".to_string()),
        serialization_data_format: None,
    });
    map.insert("a".to_string(), with_info);
    let mut copy = map.clone();
    assert_eq!(copy, map);
    copy.insert("b".to_string(), text("2"));
    assert_eq!(map.len(), 1);
    assert_eq!(copy.len(), 2);
}
