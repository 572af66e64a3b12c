use indradb_lib::{FiniteFloat, Json, JsonNumber};

fn members(json: &Json) -> &Vec<(String, Json)> {
    match json {
        Json::Object(o) => o.members(),
        _ => panic!("not an object"),
    }
}

fn lookup<'a>(json: &'a Json, key: &str) -> Option<&'a Json> {
    members(json).iter().find(|(k, _)| k == key).map(|(_, v)| v)
}

#[test]
fn object_later_entry_replaces_earlier() {
    let json = Json::object(vec![
        ("a".to_string(), Json::Null),
        ("b".to_string(), Json::Bool(true)),
        ("a".to_string(), Json::Bool(false)),
    ]);
    assert_eq!(members(&json).len(), 2);
    assert_eq!(lookup(&json, "a"), Some(&Json::Bool(false)));
    assert_eq!(lookup(&json, "b"), Some(&Json::Bool(true)));
    assert_eq!(lookup(&json, "c"), None);
}

#[test]
fn object_empty() {
    let json = Json::object(Vec::new());
    assert!(members(&json).is_empty());
    assert_eq!(json, Json::object(Vec::new()));
    assert_ne!(json, Json::object(vec![("a".to_string(), Json::Null)]));
}

#[test]
fn object_distinct_keys_kept() {
    let float = FiniteFloat::from_bits(2.5f64.to_bits()).unwrap();
    let json = Json::object(vec![
        ("n".to_string(), Json::Number(JsonNumber::PosInt(3))),
        ("m".to_string(), Json::Number(JsonNumber::NegInt(-4))),
        ("f".to_string(), Json::Number(JsonNumber::Float(float))),
        ("s".to_string(), Json::String("x".to_string())),
        ("arr".to_string(), Json::Array(vec![Json::Null])),
    ]);
    assert_eq!(members(&json).len(), 5);
    assert_eq!(lookup(&json, "m"), Some(&Json::Number(JsonNumber::NegInt(-4))));
    assert_eq!(lookup(&json, "arr"), Some(&Json::Array(vec![Json::Null])));
}

#[test]
fn object_many_duplicates() {
    let entries: Vec<(String, Json)> =
        (0..20u64).map(|i| ((i % 3).to_string(), Json::Number(JsonNumber::PosInt(i)))).collect();
    let json = Json::object(entries);
    assert_eq!(members(&json).len(), 3);
    assert_eq!(lookup(&json, "0"), Some(&Json::Number(JsonNumber::PosInt(18))));
    assert_eq!(lookup(&json, "1"), Some(&Json::Number(JsonNumber::PosInt(19))));
    assert_eq!(lookup(&json, "2"), Some(&Json::Number(JsonNumber::PosInt(17))));
}

#[test]
fn object_equality_ignores_member_order() {
    let a = Json::object(vec![("x".to_string(), Json::Bool(true)), ("y".to_string(), Json::Null)]);
    let b = Json::object(vec![("y".to_string(), Json::Null), ("x".to_string(), Json::Bool(true))]);
    assert_eq!(a, b);
    let c = Json::object(vec![("y".to_string(), Json::Null), ("x".to_string(), Json::Bool(false))]);
    assert_ne!(a, c);
    let d = Json::object(vec![("x".to_string(), Json::Bool(true))]);
    assert_ne!(a, d);
    assert_ne!(d, a);
}

#[test]
fn nested_object_equality_ignores_member_order() {
    let inner1 = Json::object(vec![("p".to_string(), Json::Null), ("q".to_string(), Json::Bool(true))]);
    let inner2 = Json::object(vec![("q".to_string(), Json::Bool(true)), ("p".to_string(), Json::Null)]);
    let a = Json::Array(vec![Json::object(vec![("o".to_string(), inner1)])]);
    let b = Json::Array(vec![Json::object(vec![("o".to_string(), inner2)])]);
    assert_eq!(a, b);
}

#[test]
fn array_equality_keeps_order() {
    let a = Json::Array(vec![Json::Null, Json::Bool(true)]);
    let b = Json::Array(vec![Json::Bool(true), Json::Null]);
    assert_ne!(a, b);
}

#[test]
fn float_zeros_are_equal() {
    let pos = FiniteFloat::from_bits(0.0f64.to_bits()).unwrap();
    let neg = FiniteFloat::from_bits((-0.0f64).to_bits()).unwrap();
    assert_eq!(pos, neg);
    assert_eq!(Json::Number(JsonNumber::Float(pos)), Json::Number(JsonNumber::Float(neg)));
    let one = FiniteFloat::from_bits(1.0f64.to_bits()).unwrap();
    assert_ne!(pos, one);
    assert_ne!(Json::Number(JsonNumber::PosInt(1)), Json::Number(JsonNumber::NegInt(-1)));
}

#[test]
fn json_clone_is_equal() {
    let json = Json::object(vec![
        ("a".to_string(), Json::Array(vec![Json::String("s".to_string()), Json::Null])),
        ("b".to_string(), Json::object(vec![("c".to_string(), Json::Number(JsonNumber::NegInt(-3)))])),
    ]);
    let copy = json.clone();
    assert_eq!(copy, json);
    assert_eq!(members(&copy).len(), 2);
}
