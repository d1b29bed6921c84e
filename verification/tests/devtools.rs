use plumbrowser::devtools::{
    after_targets, fetch_targets, first_target_request, frontend_url, inspector_url_for_page,
    normalize_url, parse_targets, pick_target, target_matches_page, urls_match, Target,
    TargetFetch,
};

fn page(url: Option<&str>) -> Target {
    Target {
        kind: Some("page".to_string()),
        url: url.map(str::to_string),
        devtools_frontend_url: None,
        web_socket_debugger_url: None,
    }
}

fn socket(kind: &str, url: &str, ws: &str) -> Target {
    Target {
        kind: Some(kind.to_string()),
        url: Some(url.to_string()),
        devtools_frontend_url: None,
        web_socket_debugger_url: Some(ws.to_string()),
    }
}

#[test]
fn inspector_for_missing_targets() {
    assert_eq!(inspector_url_for_page(None, "http://a.b"), None);
    assert_eq!(inspector_url_for_page(Some(&Vec::new()), "http://a.b"), None);
}

#[test]
fn targets_are_read_from_json() {
    let body = br#"[{"type":"page","url":"http://a.b/","webSocketDebuggerUrl":"ws://127.0.0.1:9222/x"}]"#;
    let ts = parse_targets(body).unwrap();
    assert_eq!(
        inspector_url_for_page(Some(&ts), "http://a.b"),
        Some("http://127.0.0.1:9222/devtools/inspector.html?ws=127.0.0.1:9222/x".to_string())
    );
}

#[test]
fn members_that_are_no_text_are_left_out() {
    let body = r#"[{"type":1,"url":null,"devtoolsFrontendUrl":"/d ж"}, 7, {}]"#;
    let ts = parse_targets(body.as_bytes()).unwrap();
    assert_eq!(ts.len(), 3);
    assert_eq!(ts[0].kind, None);
    assert_eq!(ts[0].url, None);
    assert_eq!(ts[0].devtools_frontend_url, Some("/d ж".to_string()));
    assert_eq!(ts[1].kind, None);
    assert_eq!(ts[2].web_socket_debugger_url, None);
}

#[test]
fn replies_that_are_no_array_hold_no_targets() {
    for body in ["", "{}", "[", "[1,]", "[] x", "null", "\"[]\""] {
        assert!(parse_targets(body.as_bytes()).is_none());
    }
    assert!(parse_targets(b"[\"\xff\"]").is_none());
    assert_eq!(parse_targets(b" [ ] ").unwrap().len(), 0);
}

#[test]
fn targets_are_asked_for_at_two_addresses() {
    assert_eq!(first_target_request(), "http://127.0.0.1:9222/json/list");
    assert!(matches!(fetch_targets(1, None), TargetFetch::Ask(u) if u == "http://127.0.0.1:9222/json"));
    assert!(matches!(fetch_targets(1, Some(b"[]")), TargetFetch::Ask(u) if u == "http://127.0.0.1:9222/json"));
    assert!(matches!(fetch_targets(1, Some(b"no")), TargetFetch::Ask(_)));
    assert!(matches!(fetch_targets(2, Some(b"[]")), TargetFetch::Failed));
    assert!(matches!(fetch_targets(2, None), TargetFetch::Failed));
    assert!(matches!(fetch_targets(1, Some(b"[{}]")), TargetFetch::Found(v) if v.len() == 1));
    assert!(matches!(fetch_targets(2, Some(b"[{},{}]")), TargetFetch::Found(v) if v.len() == 2));
    assert!(matches!(after_targets(2, Some(vec![page(None)])), TargetFetch::Found(_)));
    assert!(matches!(after_targets(1, Some(vec![])), TargetFetch::Ask(_)));
}

#[test]
fn addresses_agree_but_for_slashes_at_the_end() {
    assert_eq!(normalize_url("http://a//"), "http://a");
    assert!(urls_match("http://a/", "http://a"));
    assert!(!urls_match("http://a/b", "http://a"));
    assert!(target_matches_page("http://a", "http://a//"));
    assert!(!target_matches_page("data:text/html,x", "http://a"));
}

#[test]
fn the_new_tab_page_has_several_addresses() {
    for target in ["data:text/html,x", "http://plum.newtab/", "x newtab y", "plum://newtab/"] {
        assert!(target_matches_page(target, "plum://newtab"));
        assert!(target_matches_page(target, "plum://newtab/"));
    }
    assert!(!target_matches_page("http://a", "plum://newtab"));
}

#[test]
fn the_page_itself_is_picked_first() {
    let ts = vec![
        socket("iframe", "http://a", "ws://1"),
        socket("page", "http://b", "ws://2"),
        socket("page", "http://a/", "ws://3"),
        socket("page", "http://a", "ws://4"),
    ];
    let url = |n: &str| Some(format!("http://127.0.0.1:9222/devtools/inspector.html?ws={n}"));
    assert_eq!(inspector_url_for_page(Some(&ts), "http://a"), url("3"));
    assert_eq!(inspector_url_for_page(Some(&ts), "http://c"), url("2"));
}

#[test]
fn a_page_with_an_address_is_picked_next() {
    let ts = vec![page(None), page(Some("")), page(Some("http://x")), page(Some("http://y"))];
    assert_eq!(pick_target(&ts, "http://z").unwrap().url, Some("http://x".to_string()));
}

#[test]
fn the_last_page_is_picked_otherwise() {
    let mut ts = vec![page(None), page(Some("")), socket("other", "http://a", "w")];
    assert_eq!(pick_target(&ts, "http://z").unwrap().url, Some(String::new()));
    ts.remove(1);
    assert_eq!(pick_target(&ts, "http://z").unwrap().url, None);
    ts.remove(0);
    assert!(pick_target(&ts, "http://z").is_none());
}

#[test]
fn the_frontend_is_preferred_to_the_socket() {
    let mut t = socket("page", "http://a", "ws://1");
    t.devtools_frontend_url = Some("/devtools/x".to_string());
    assert_eq!(
        inspector_url_for_page(Some(&vec![t]), "http://a"),
        Some("http://127.0.0.1:9222/devtools/x".to_string())
    );
    assert_eq!(frontend_url("https://x/y"), "https://x/y");
    assert_eq!(frontend_url("http://x"), "http://x");
    assert_eq!(frontend_url("ftp"), "http://127.0.0.1:9222ftp");
    assert_eq!(inspector_url_for_page(Some(&vec![page(Some("http://a"))]), "http://a"), None);
}
