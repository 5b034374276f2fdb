use axum_inertia::request::Request;

fn bytes(s: &str) -> Option<Vec<u8>> {
    Some(s.as_bytes().to_vec())
}

#[test]
fn it_extracts_inertia_xhr() {
    let req =
        Request::from_header_bytes("/test".to_string(), bytes("true"), None, None, None).unwrap();
    assert!(req.is_xhr);
    assert_eq!(req.url, "/test");
}

#[test]
fn it_extracts_a_false_value_for_x_inertia() {
    let req =
        Request::from_header_bytes("/test".to_string(), bytes("false"), None, None, None).unwrap();
    assert!(!req.is_xhr);
}

#[test]
fn it_extracts_a_version_string() {
    let req =
        Request::from_header_bytes("/test".to_string(), None, bytes("version"), None, None)
            .unwrap();
    assert_eq!(req.version, Some("version".to_string()));
}

#[test]
fn it_works_with_no_version() {
    let req = Request::from_header_bytes("/test".to_string(), None, None, None, None).unwrap();
    assert_eq!(req.version, None);
}

#[test]
fn it_extracts_partial_data() {
    let req = Request::from_header_bytes(
        "/test".to_string(),
        bytes("true"),
        None,
        bytes("one,two"),
        bytes("PartialComponent"),
    )
    .unwrap();
    assert!(req.partial.is_some());
    let partial = req.partial.unwrap();
    assert_eq!(partial.props, vec!["one".to_string(), "two".to_string()]);
    assert_eq!(partial.component, "PartialComponent");
}

#[test]
fn it_does_not_extract_partial_data_when_missing_headers() {
    let req = Request::from_header_bytes(
        "/test".to_string(),
        bytes("true"),
        None,
        bytes("one,two"),
        None,
    )
    .unwrap();
    assert!(req.partial.is_none());

    let req = Request::from_header_bytes(
        "/test".to_string(),
        bytes("true"),
        None,
        None,
        bytes("PartialComponent"),
    )
    .unwrap();
    assert!(req.partial.is_none());
}

#[test]
fn partial_data_preserves_order_and_duplicates() {
    let req = Request::from_header_bytes(
        "/test".to_string(),
        bytes("true"),
        None,
        bytes("one,one"),
        bytes("X"),
    )
    .unwrap();
    let partial = req.partial.unwrap();
    assert_eq!(partial.props, vec!["one".to_string(), "one".to_string()]);
    assert_eq!(partial.component, "X");
}

#[test]
fn partial_data_keeps_empty_pieces_untrimmed() {
    let req = Request::from_header_bytes(
        "/test".to_string(),
        None,
        None,
        bytes("a, b,,c"),
        bytes("X"),
    )
    .unwrap();
    let partial = req.partial.unwrap();
    assert_eq!(
        partial.props,
        vec!["a".to_string(), " b".to_string(), "".to_string(), "c".to_string()]
    );
}

#[test]
fn empty_partial_data_is_one_empty_name() {
    let req =
        Request::from_header_bytes("/test".to_string(), None, None, bytes(""), bytes("X")).unwrap();
    let partial = req.partial.unwrap();
    assert_eq!(partial.props, vec!["".to_string()]);
}

#[test]
fn header_bytes_outside_visible_ascii_are_malformed() {
    let req = Request::from_header_bytes(
        "/test".to_string(),
        Some(vec![0x80, b't']),
        None,
        None,
        None,
    );
    assert!(req.is_err());

    let req = Request::from_header_bytes(
        "/test".to_string(),
        None,
        Some(vec![b'v', 0x1f]),
        None,
        None,
    );
    assert!(req.is_err());
}

#[test]
fn header_tab_byte_is_accepted() {
    let req = Request::from_header_bytes(
        "/test".to_string(),
        None,
        Some(vec![b'a', b'\t', b'b']),
        None,
        None,
    )
    .unwrap();
    assert_eq!(req.version, Some("a\tb".to_string()));
}

#[test]
fn marker_must_equal_true_exactly() {
    let req =
        Request::from_header_bytes("/test".to_string(), bytes("True"), None, None, None).unwrap();
    assert!(!req.is_xhr);
    let req =
        Request::from_header_bytes("/test".to_string(), bytes("true "), None, None, None).unwrap();
    assert!(!req.is_xhr);
}
