use axum_inertia::json::JsonValue;
use axum_inertia::page::Page;
use axum_inertia::partial::Partial;
use axum_inertia::props::{filter_props, Props};

fn obj(fields: Vec<(&str, JsonValue)>) -> JsonValue {
    JsonValue::Obj(fields.into_iter().map(|(k, v)| (k.to_string(), v)).collect())
}

#[test]
fn scalars_render_compactly() {
    assert_eq!(JsonValue::Null.to_json_string(), "null");
    assert_eq!(JsonValue::Bool(true).to_json_string(), "true");
    assert_eq!(JsonValue::Bool(false).to_json_string(), "false");
    assert_eq!(JsonValue::Int(0).to_json_string(), "0");
    assert_eq!(JsonValue::Int(42).to_json_string(), "42");
    assert_eq!(JsonValue::Int(-7).to_json_string(), "-7");
    assert_eq!(JsonValue::Int(i64::MAX).to_json_string(), "9223372036854775807");
    assert_eq!(JsonValue::Int(i64::MIN).to_json_string(), "-9223372036854775808");
}

#[test]
fn strings_escape_like_json() {
    assert_eq!(JsonValue::Str("plain".to_string()).to_json_string(), r#""plain""#);
    assert_eq!(
        JsonValue::Str("say \"hi\"\\now".to_string()).to_json_string(),
        r#""say \"hi\"\\now""#
    );
    assert_eq!(
        JsonValue::Str("a\tb\nc\rd".to_string()).to_json_string(),
        "\"a\\tb\\nc\\rd\""
    );
    assert_eq!(
        JsonValue::Str("\u{8}\u{c}\u{1}\u{1f}".to_string()).to_json_string(),
        r#""\b\f\u0001\u001f""#
    );
    assert_eq!(JsonValue::Str("héllo".to_string()).to_json_string(), "\"héllo\"");
}

#[test]
fn arrays_and_objects_nest() {
    assert_eq!(JsonValue::Arr(vec![]).to_json_string(), "[]");
    assert_eq!(obj(vec![]).to_json_string(), "{}");
    let v = obj(vec![
        ("a", JsonValue::Arr(vec![JsonValue::Int(1), JsonValue::Null])),
        ("b", obj(vec![("c", JsonValue::Bool(false))])),
    ]);
    assert_eq!(v.to_json_string(), r#"{"a":[1,null],"b":{"c":false}}"#);
}

#[test]
fn object_fields_keep_insertion_order() {
    let v = obj(vec![
        ("z", JsonValue::Int(1)),
        ("a", JsonValue::Int(2)),
        ("z", JsonValue::Int(3)),
    ]);
    assert_eq!(v.to_json_string(), r#"{"z":1,"a":2,"z":3}"#);
}

#[test]
fn page_serializes_with_exactly_four_keys() {
    let page = Page {
        component: "Home".to_string(),
        props: obj(vec![("n", JsonValue::Int(1))]),
        url: "/home".to_string(),
        version: Some("abc".to_string()),
    };
    assert_eq!(
        page.to_json_string(),
        r#"{"component":"Home","props":{"n":1},"url":"/home","version":"abc"}"#
    );

    let page = Page {
        component: "Home".to_string(),
        props: obj(vec![]),
        url: "/home".to_string(),
        version: None,
    };
    assert_eq!(page.to_json_string(), r#"{"component":"Home","props":{},"url":"/home","version":null}"#);
}

#[test]
fn plain_props_ignore_partial_requests() {
    let props = obj(vec![("a", JsonValue::Int(1)), ("b", JsonValue::Int(2))]);
    let partial = Some(Partial {
        props: vec!["a".to_string()],
        component: "X".to_string(),
    });
    let resolved = props.serialize(&partial).unwrap();
    assert_eq!(resolved.to_json_string(), r#"{"a":1,"b":2}"#);
}

#[test]
fn filter_props_keeps_only_requested_keys() {
    let props = obj(vec![
        ("a", JsonValue::Int(1)),
        ("b", JsonValue::Int(2)),
        ("c", JsonValue::Int(3)),
    ]);
    let requested = vec!["c".to_string(), "a".to_string()];
    let filtered = filter_props(props, &requested);
    // Field order of the props value is kept; unrequested keys are gone.
    assert_eq!(filtered.to_json_string(), r#"{"a":1,"c":3}"#);
}

#[test]
fn filter_props_with_unknown_keys_keeps_nothing_extra() {
    let props = obj(vec![("a", JsonValue::Int(1))]);
    let requested = vec!["missing".to_string()];
    let filtered = filter_props(props, &requested);
    assert_eq!(filtered.to_json_string(), "{}");
}

#[test]
fn filter_props_leaves_non_objects_whole() {
    let requested = vec!["a".to_string()];
    let filtered = filter_props(JsonValue::Int(5), &requested);
    assert_eq!(filtered.to_json_string(), "5");
}
