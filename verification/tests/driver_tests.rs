use flows_host::driver::{build_context, export_name, fold_headers, load_env, select_export};

#[test]
fn export_selection_prefers_method_export() {
    // The method-specific export wins when it exists.
    assert_eq!(select_export("echo", "GET", true, true), Some("echo_GET".to_string()));
    assert_eq!(select_export("echo", "GET", true, false), Some("echo_GET".to_string()));
    // Otherwise the bare handler export.
    assert_eq!(select_export("echo", "GET", false, true), Some("echo".to_string()));
    // Otherwise nothing: the request is answered with method-not-allowed.
    assert_eq!(select_export("nope", "GET", false, false), None);
    assert_eq!(export_name("hdr", "POST"), "hdr_POST".to_string());
}

#[test]
fn headers_fold_in_order_skipping_binary_values() {
    let raw = vec![
        ("host".to_string(), Some("example.com".to_string())),
        ("x-bin".to_string(), None),
        ("accept".to_string(), Some("*/*".to_string())),
    ];
    let folded = fold_headers(&raw);
    assert_eq!(
        folded,
        vec![
            ("host".to_string(), "example.com".to_string()),
            ("accept".to_string(), "*/*".to_string()),
        ]
    );
}

#[test]
fn env_file_parsing() {
    assert_eq!(load_env(None), None);
    assert_eq!(
        load_env(Some(br#"["A=1","B=2"]"#.to_vec())),
        Some(vec!["A=1".to_string(), "B=2".to_string()])
    );
    // An invalid file yields no environment.
    assert_eq!(load_env(Some(b"{broken".to_vec())), None);
    assert_eq!(load_env(Some(br#"{"A":"1"}"#.to_vec())), None);
}

#[test]
fn context_fields() {
    let d = build_context(
        "u".to_string(),
        "f".to_string(),
        "POST".to_string(),
        vec![
            ("x-in".to_string(), "v".to_string()),
            ("q".to_string(), "r\"s".to_string()),
        ],
        "{\"k\":1}".to_string(),
        "/".to_string(),
        vec![1, 2, 3],
        "hdr_POST".to_string(),
        Some(vec!["A=1".to_string()]),
        "/srv/work".to_string(),
    );
    assert_eq!(d.flows_user, "u");
    assert_eq!(d.flow_id, "f");
    assert_eq!(d.event_method, "POST");
    // Header encoding escapes as JSON does.
    assert_eq!(d.event_headers, r#"[["x-in","v"],["q","r\"s"]]"#);
    assert_eq!(d.event_query, "{\"k\":1}");
    assert_eq!(d.event_subpath, "/");
    assert_eq!(d.event_body, vec![1, 2, 3]);
    assert_eq!(d.wasm_func, "hdr_POST");
    assert_eq!(d.wasm_env, Some(vec!["A=1".to_string()]));
    assert_eq!(
        d.preopen,
        Some(vec![("/".to_string(), "/srv/work".to_string())])
    );
    assert_eq!(d.response_status, 0);
    assert_eq!(d.error_code, 0);
    assert_eq!(d.flows, None);
    assert_eq!(d.error_log, None);
    assert!(d.output.is_empty());
    assert_eq!(d.response, None);
    assert_eq!(d.response_headers, None);
    assert_eq!(d.listening, 0);
}

#[test]
fn empty_header_list_encodes_as_empty_array() {
    let d = build_context(
        "u".to_string(),
        "f".to_string(),
        "GET".to_string(),
        vec![],
        "{}".to_string(),
        "/".to_string(),
        vec![],
        "h".to_string(),
        None,
        "/w".to_string(),
    );
    assert_eq!(d.event_headers, "[]");
}
