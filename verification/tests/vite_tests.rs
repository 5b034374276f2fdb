use axum_inertia::vite::{Development, Production};

#[test]
fn test_development_default() {
    let development = Development::default();

    assert_eq!(development.port, 5173);
    assert_eq!(development.main, "src/main.ts");
    assert_eq!(development.lang, "en");
    assert_eq!(development.title, "Vite");
    assert!(!development.react);
}

#[test]
fn test_development_builder_methods() {
    let development = Development::default()
        .port(8080)
        .main("src/deep/index.ts")
        .lang("id")
        .title("Untitled Axum Inertia App")
        .react();

    assert_eq!(development.port, 8080);
    assert_eq!(development.main, "src/deep/index.ts");
    assert_eq!(development.lang, "id");
    assert_eq!(development.title, "Untitled Axum Inertia App");
    assert!(development.react);
}

#[test]
fn test_development_url() {
    let development = Development::default().base("/app/").https(true);
    assert!(development.https);
    assert_eq!(development.base, "/app/");

    let config = development.into_config();

    let binding = config.layout().render(r#"{"someprops": "somevalues"}"#);
    let rendered_layout = binding.as_str();

    assert!(rendered_layout.contains(r#"https://localhost:5173/app/@vite/client"#));
    assert!(rendered_layout.contains(r#"https://localhost:5173/app/src/main.ts"#));
}

#[test]
fn test_development_into_config() {
    let main_script = "src/index.ts";
    let development = Development::default()
        .port(8080)
        .main(main_script)
        .lang("lang-id")
        .title("app-title-here")
        .react();

    let config = development.into_config();

    assert_eq!(config.version(), None);

    let binding = config.layout().render(r#"{"someprops": "somevalues"}"#);
    let rendered_layout = binding.as_str();

    assert!(rendered_layout.contains(r#"<html lang="lang-id">"#));
    assert!(rendered_layout.contains(r#"<title>app-title-here</title>"#));
    assert!(rendered_layout.contains(r#"{&quot;someprops&quot;: &quot;somevalues&quot;}"#));
    assert!(rendered_layout.contains(r#"http://localhost:8080/@vite/client"#));
    assert!(rendered_layout.contains(r#"window.__vite_plugin_react_preamble_installed__ = true"#));
}

#[test]
fn test_production_new_entry_missing() {
    let manifest_content = r#"{"main.js": {}}"#;
    let result = Production::new_from_string(manifest_content, "nonexistent.js");

    assert!(result.is_err());
}

#[test]
fn test_production_new() {
    let manifest_content = r#"{"main.js": {"file": "main.hash-id-here.js", "css": ["style.css"]}}"#;
    let production_res = Production::new_from_string(manifest_content, "main.js");

    assert!(production_res.is_ok());

    let production = production_res.unwrap();
    let content_hash =
        hex::encode(<sha1::Sha1 as sha1::Digest>::digest(manifest_content.as_bytes()));

    assert_eq!(production.main.css, Some(vec![String::from("style.css")]));
    assert_eq!(production.title, "Vite");
    assert_eq!(production.main.file, "main.hash-id-here.js");
    assert_eq!(production.main.integrity, None);
    assert_eq!(production.lang, "en");
    assert_eq!(production.version, content_hash);
}

#[test]
fn test_production_builder_methods() {
    let manifest_content = r#"{"main.js": {"file": "main.hash-id-here.js", "css": ["style.css"]}}"#;
    let production = Production::new_from_string(manifest_content, "main.js")
        .unwrap()
        .lang("fr")
        .title("Untitled Axum Inertia App");

    assert_eq!(production.lang, "fr");
    assert_eq!(production.title, "Untitled Axum Inertia App");
}

#[test]
fn test_production_into_config() {
    let manifest_content = r#"{"main.js": {"file": "main.hash-id-here.js", "css": ["style.css"]}}"#;
    let production = Production::new_from_string(manifest_content, "main.js")
        .unwrap()
        .lang("jv")
        .title("Untitled Axum Inertia App");

    let config = production.into_config();
    let binding = config.layout().render(r#"{"someprops": "somevalues"}"#);
    let rendered_layout = binding.as_str();

    assert!(
        rendered_layout.contains(r#"<script type="module" src="/main.hash-id-here.js"></script>"#)
    );
    assert!(rendered_layout.contains(r#"<link rel="stylesheet" href="/style.css"/>"#));
    assert!(rendered_layout.contains(r#"<html lang="jv">"#));
    assert!(rendered_layout.contains(r#"<title>Untitled Axum Inertia App</title>"#));
    assert!(rendered_layout.contains(r#"{&quot;someprops&quot;: &quot;somevalues&quot;}"#));
}

#[test]
fn test_production_into_config_with_integrity() {
    let manifest_content = r#"{"main.js": {"file": "main.hash-id-here.js", "integrity": "sha000-shaHashHere1234", "css": ["style.css"]}}"#;
    let production = Production::new_from_string(manifest_content, "main.js")
        .unwrap()
        .lang("jv")
        .title("Untitled Axum Inertia App");

    let config = production.into_config();
    let binding = config.layout().render(r#"{"someprops": "somevalues"}"#);
    let rendered_layout = binding.as_str();

    assert!(rendered_layout.contains(
        r#"<script type="module" src="/main.hash-id-here.js" integrity="sha000-shaHashHere1234"></script>"#
    ));
    assert!(rendered_layout.contains(r#"<link rel="stylesheet" href="/style.css"/>"#));
    assert!(rendered_layout.contains(r#"<html lang="jv">"#));
    assert!(rendered_layout.contains(r#"<title>Untitled Axum Inertia App</title>"#));
    assert!(rendered_layout.contains(r#"{&quot;someprops&quot;: &quot;somevalues&quot;}"#));
}

#[test]
fn test_production_invalid_manifest() {
    let result = Production::new_from_string("not json at all", "main.js");
    assert!(result.is_err());
    match result {
        Err(e) => assert_eq!(e.message(), "manifest is not a JSON object of entries"),
        Ok(_) => panic!("expected an error"),
    }
}

#[test]
fn test_entry_missing_message() {
    let manifest_content = r#"{"main.js": {"file": "a.js"}}"#;
    let result = Production::new_from_string(manifest_content, "other.js");
    match result {
        Err(e) => assert_eq!(e.message(), "manifest missing entry for other.js"),
        Ok(_) => panic!("expected an error"),
    }
}
