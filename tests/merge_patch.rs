use serde_json::Value;
use starsign::json::{merge, Json};

fn s(t: &str) -> String {
    t.to_string()
}

fn obj(members: Vec<(&str, Json)>) -> Json {
    Json::Object(members.into_iter().map(|(k, v)| (k.to_string(), v)).collect())
}

fn num(t: &str) -> Json {
    Json::Number(s(t))
}

fn to_value(j: &Json) -> Value {
    match j {
        Json::Null => Value::Null,
        Json::Bool(b) => Value::Bool(*b),
        Json::Number(n) => serde_json::from_str(n).unwrap(),
        Json::Str(t) => Value::String(t.clone()),
        Json::Array(v) => Value::Array(v.iter().map(to_value).collect()),
        Json::Object(m) => Value::Object(m.iter().map(|(k, v)| (k.clone(), to_value(v))).collect()),
    }
}

fn from_value(v: &Value) -> Json {
    match v {
        Value::Null => Json::Null,
        Value::Bool(b) => Json::Bool(*b),
        Value::Number(n) => Json::Number(n.to_string()),
        Value::String(t) => Json::Str(t.clone()),
        Value::Array(a) => Json::Array(a.iter().map(from_value).collect()),
        Value::Object(m) => Json::Object(m.iter().map(|(k, x)| (k.clone(), from_value(x))).collect()),
    }
}

fn merged(doc: &str, patch: &str) -> Value {
    let mut d = from_value(&serde_json::from_str(doc).unwrap());
    let p = from_value(&serde_json::from_str(patch).unwrap());
    merge(&mut d, &p);
    to_value(&d)
}

fn reference(doc: &str, patch: &str) -> Value {
    let mut d: Value = serde_json::from_str(doc).unwrap();
    let p: Value = serde_json::from_str(patch).unwrap();
    json_patch::merge(&mut d, &p);
    d
}

#[test]
fn empty_patch_leaves_configuration_unchanged() {
    let base = obj(vec![
        ("a", num("1")),
        ("b", obj(vec![("c", Json::Str(s("x"))), ("d", Json::Null)])),
        ("e", Json::Array(vec![num("1"), num("2")])),
    ]);
    let before = to_value(&base);
    let mut doc = base;
    merge(&mut doc, &obj(vec![]));
    assert_eq!(to_value(&doc), before);
}

#[test]
fn null_member_removes_key() {
    let mut doc = obj(vec![("keep", num("1")), ("drop", num("2"))]);
    merge(&mut doc, &obj(vec![("drop", Json::Null), ("absent", Json::Null)]));
    let v = to_value(&doc);
    assert_eq!(v, serde_json::from_str::<Value>(r#"{"keep": 1}"#).unwrap());
    assert!(v.get("drop").is_none());
    assert!(v.get("absent").is_none());
}

#[test]
fn nested_objects_merge_and_arrays_replace() {
    let doc = r#"{"app": {"api": {"enable": true, "address": "a"}, "index_events": ["x", "y"]}}"#;
    let patch = r#"{"app": {"api": {"address": "b"}, "index_events": ["z"]}}"#;
    let expected: Value = serde_json::from_str(
        r#"{"app": {"api": {"enable": true, "address": "b"}, "index_events": ["z"]}}"#,
    )
    .unwrap();
    assert_eq!(merged(doc, patch), expected);
}

#[test]
fn scalar_patch_replaces_document() {
    assert_eq!(merged(r#"{"a": 1}"#, "7"), serde_json::from_str::<Value>("7").unwrap());
    assert_eq!(
        merged("[1, 2]", r#"{"a": {"b": null, "c": 3}}"#),
        serde_json::from_str::<Value>(r#"{"a": {"c": 3}}"#).unwrap()
    );
}

#[test]
fn agrees_with_json_patch_crate() {
    let cases = [
        (r#"{"a": "b"}"#, r#"{"a": "c"}"#),
        (r#"{"a": "b"}"#, r#"{"b": "c"}"#),
        (r#"{"a": "b"}"#, r#"{"a": null}"#),
        (r#"{"a": "b", "b": "c"}"#, r#"{"a": null}"#),
        (r#"{"a": ["b"]}"#, r#"{"a": "c"}"#),
        (r#"{"a": "c"}"#, r#"{"a": ["b"]}"#),
        (r#"{"a": {"b": "c"}}"#, r#"{"a": {"b": "d", "c": null}}"#),
        (r#"{"a": [{"b": "c"}]}"#, r#"{"a": [1]}"#),
        (r#"["a", "b"]"#, r#"["c", "d"]"#),
        (r#"{"a": "b"}"#, r#"["c"]"#),
        (r#"{"a": "foo"}"#, "null"),
        (r#"{"a": "foo"}"#, r#""bar""#),
        (r#"{"e": null}"#, r#"{"a": 1}"#),
        (r#"[1, 2]"#, r#"{"a": "b", "c": null}"#),
        ("{}", r#"{"a": {"bb": {"ccc": null}}}"#),
    ];
    for (doc, patch) in cases {
        assert_eq!(merged(doc, patch), reference(doc, patch), "{} + {}", doc, patch);
    }
}

#[test]
fn get_and_single_build_and_read_members() {
    let doc = Json::single(s("app"), num("3"));
    assert_eq!(to_value(&doc), serde_json::from_str::<Value>(r#"{"app": 3}"#).unwrap());
    assert_eq!(doc.get("app").map(|v| to_value(&v)), Some(Value::from(3)));
    assert!(doc.get("other").is_none());
    assert!(num("1").get("app").is_none());
}

#[test]
fn well_formed_rejects_repeated_keys() {
    assert!(obj(vec![("a", num("1")), ("b", obj(vec![("a", num("2"))]))]).well_formed());
    assert!(!obj(vec![("a", num("1")), ("a", num("2"))]).well_formed());
    assert!(!Json::Array(vec![num("1"), obj(vec![("k", Json::Null), ("k", Json::Null)])]).well_formed());
    assert!(Json::Array(vec![]).well_formed());
    assert!(Json::Null.well_formed());
}
