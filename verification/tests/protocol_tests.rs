use axum_inertia::config::{InertiaConfig, Layout};
use axum_inertia::json::JsonValue;
use axum_inertia::page::Page;
use axum_inertia::props::SerializationError;
use axum_inertia::request::Request;
use axum_inertia::response::{BodyKind, Response};
use axum_inertia::Inertia;

fn bytes(s: &str) -> Option<Vec<u8>> {
    Some(s.as_bytes().to_vec())
}

fn layout() -> Layout {
    Layout {
        prelude: r#"<html><head></head><body><div id="app" data-page=""#.to_string(),
        epilogue: r#""></div></body></html>"#.to_string(),
    }
}

fn posts_props() -> JsonValue {
    JsonValue::Obj(vec![(
        "posts".to_string(),
        JsonValue::Arr(vec![
            JsonValue::Str("a".to_string()),
            JsonValue::Str("b".to_string()),
        ]),
    )])
}

fn html_unescape(s: &str) -> String {
    s.replace("&amp;", "&").replace("&lt;", "<").replace("&gt;", ">").replace("&quot;", "\"")
}

#[test]
fn full_load_envelope() {
    let config = InertiaConfig::new(Some("v1".to_string()), layout());
    let request = Request::from_header_bytes("/posts".to_string(), None, None, None, None).unwrap();
    let inertia = Inertia::from_request(true, request, config).unwrap();
    let http = inertia.render("Posts/Index", posts_props()).into_http();

    assert_eq!(http.status, 200);
    assert!(matches!(http.kind, BodyKind::Html));
    // The escaped page JSON is embedded verbatim, exactly once.
    let embedded = r#"{&quot;component&quot;:&quot;Posts/Index&quot;,&quot;props&quot;:{&quot;posts&quot;:[&quot;a&quot;,&quot;b&quot;]},&quot;url&quot;:&quot;/posts&quot;,&quot;version&quot;:&quot;v1&quot;}"#;
    assert_eq!(http.body.matches(embedded).count(), 1);
    // No X-Inertia response header on a full load.
    assert!(http.headers.iter().all(|(k, _)| k != "X-Inertia"));
}

#[test]
fn json_load_envelope() {
    let config = InertiaConfig::new(Some("v1".to_string()), layout());
    let request =
        Request::from_header_bytes("/posts".to_string(), bytes("true"), bytes("v1"), None, None)
            .unwrap();
    let inertia = Inertia::from_request(true, request, config).unwrap();
    let http = inertia.render("Posts/Index", posts_props()).into_http();

    assert_eq!(http.status, 200);
    assert!(matches!(http.kind, BodyKind::Json));
    assert_eq!(
        http.body,
        r#"{"component":"Posts/Index","props":{"posts":["a","b"]},"url":"/posts","version":"v1"}"#
    );
    let x_inertia = http.headers.iter().find(|(k, _)| k == "X-Inertia");
    assert_eq!(x_inertia.map(|(_, v)| v.as_str()), Some("true"));
}

#[test]
fn envelope_symmetry_on_same_page() {
    // The payload of the JSON branch and the payload embedded in the HTML
    // branch are byte-identical once the HTML escape is undone.
    let json_config = InertiaConfig::new(Some("v1".to_string()), layout());
    let html_config = InertiaConfig::new(Some("v1".to_string()), layout());

    let json_request =
        Request::from_header_bytes("/posts".to_string(), bytes("true"), bytes("v1"), None, None)
            .unwrap();
    let html_request =
        Request::from_header_bytes("/posts".to_string(), None, None, None, None).unwrap();

    let json_http = Inertia::from_request(true, json_request, json_config)
        .unwrap()
        .render("Posts/Index", posts_props())
        .into_http();
    let html_http = Inertia::from_request(true, html_request, html_config)
        .unwrap()
        .render("Posts/Index", posts_props())
        .into_http();

    let prelude = layout().prelude;
    let epilogue = layout().epilogue;
    let embedded = html_http
        .body
        .strip_prefix(prelude.as_str())
        .unwrap()
        .strip_suffix(epilogue.as_str())
        .unwrap();
    assert_eq!(html_unescape(embedded), json_http.body);
}

#[test]
fn serialization_failure_surfaces_as_internal_error() {
    let config = InertiaConfig::new(None, layout());
    let request = Request::test_request();
    let response = Response {
        request,
        page: Err::<Page, SerializationError>(SerializationError {
            message: "no json for this value".to_string(),
        }),
        config,
    };
    let http = response.into_http();
    assert_eq!(http.status, 500);
    assert!(matches!(http.kind, BodyKind::Empty));
    assert!(http.headers.is_empty());
}
