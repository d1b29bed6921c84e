use plumbrowser::address::{
    browser_icon_data_url, content_load_url, document_url, ipc_nav_url, is_blocked_plum_http_url,
    is_internal_newtab_url, is_plum_newtab_http_url, logical_tab_url, newtab_data_url,
    omnibox_display_url, resolve_omnibox_input, resolve_text, tab_favicon_url,
    toolbar_ipc_from_url, toolbar_navigation_allowed, NEWTAB_URL,
};

fn resolved(input: &str) -> String {
    resolve_omnibox_input(input).unwrap()
}

#[test]
fn blank_input_asks_for_nothing() {
    assert_eq!(resolve_omnibox_input(""), None);
    assert_eq!(resolve_omnibox_input(" \t\u{3000}"), None);
}

#[test]
fn names_of_the_new_tab_page_are_resolved() {
    for input in [
        "plum.newtab",
        " PLUM.NewTab ",
        "plum://newtab",
        "Plum://NEWTAB",
        "http://plum.newtab",
        "https://plum.newtab/x",
        "HTTPS://PLUM.NEWTAB.example",
    ] {
        assert_eq!(resolved(input), "plum://newtab");
    }
}

#[test]
fn addresses_with_a_scheme_are_kept() {
    for input in ["http://a", "https://a b", "file:///x", "plum://other", "plum://newtab/"] {
        assert_eq!(resolved(input), input);
    }
    assert_eq!(resolved("  http://a  "), "http://a");
}

#[test]
fn hosts_get_a_scheme() {
    assert_eq!(resolved("example.com"), "http://example.com");
    assert_eq!(resolved("example.com/a?b"), "http://example.com/a?b");
    assert_eq!(resolved("HTTP://a.b"), "http://HTTP://a.b");
    assert_eq!(resolved("1.5"), "http://1.5");
}

#[test]
fn everything_else_is_a_search() {
    assert_eq!(resolved("plum"), "https://www.google.com/search?q=plum");
    assert_eq!(resolved("a.b c"), "https://www.google.com/search?q=a.b+c");
    assert_eq!(resolved(".net"), "https://www.google.com/search?q=.net");
    assert_eq!(resolved("end."), "https://www.google.com/search?q=end.");
    assert_eq!(resolved("слива"), "https://www.google.com/search?q=%D1%81%D0%BB%D0%B8%D0%B2%D0%B0");
    assert_eq!(resolved("."), "https://www.google.com/search?q=.");
}

#[test]
fn what_was_resolved_is_resolved_to_itself() {
    for input in ["example.com", "a b", "plum.newtab", "https://x/", "слива", "file:///a b"] {
        let once = resolved(input);
        assert_eq!(resolved(&once), once);
    }
}

#[test]
fn a_host_below_the_new_tab_page_needs_two_steps() {
    assert_eq!(resolved("plum.newtab.example"), "http://plum.newtab.example");
    assert_eq!(resolved("http://plum.newtab.example"), "plum://newtab");
}

#[test]
fn text_is_resolved_by_its_lower_case() {
    assert_eq!(resolve_text("X", "plum.newtab"), "plum://newtab");
    assert_eq!(resolve_text("PLUM.NEWTAB", "other"), "http://PLUM.NEWTAB");
}

#[test]
fn lower_case_beyond_ascii_is_taken() {
    assert!(!is_plum_newtab_http_url("http://plum.newtaб"));
    assert!(is_plum_newtab_http_url("HTTP://PLUM.NEWTABЖ"));
    assert!(is_blocked_plum_http_url("http://PLUM.Ж"));
    assert!(!is_blocked_plum_http_url("http://plum.Ж/PLUM.IPC"));
}

#[test]
fn forms_of_the_new_tab_page_are_recognized() {
    for url in [
        "",
        "  ",
        "about:blank",
        "data:text/html,x",
        "plum://newtab",
        "plum://newtabs",
        "Plum.NewTab",
        "http://plum.newtab/",
        " https://PLUM.newtab ",
    ] {
        assert!(is_internal_newtab_url(url));
        assert_eq!(logical_tab_url(url), "plum://newtab");
        assert_eq!(omnibox_display_url(url), "");
    }
    for url in ["about:blanks", "DATA:text/html", "Plum://newtab", "http://a/plum.newtab", "x"] {
        assert!(!is_internal_newtab_url(url));
        assert_eq!(logical_tab_url(url), url);
        assert_eq!(omnibox_display_url(url), url);
    }
}

#[test]
fn kept_addresses_stay_as_they_are() {
    for url in ["", "about:blank", " x ", "http://a", "data:text/html,", "plum://newtab"] {
        let kept = logical_tab_url(url);
        assert_eq!(logical_tab_url(&kept), kept);
        assert_eq!(omnibox_display_url(&kept), omnibox_display_url(url));
        assert!(!omnibox_display_url(url).starts_with("data:text/html"));
        assert_eq!(kept == NEWTAB_URL, is_internal_newtab_url(url));
    }
}

#[test]
fn reserved_addresses_are_blocked() {
    assert!(is_blocked_plum_http_url("http://plum.x"));
    assert!(is_blocked_plum_http_url("HTTPS://PLUM.newtab"));
    assert!(!is_blocked_plum_http_url("http://plum.toolbar/"));
    assert!(!is_blocked_plum_http_url("https://plum.ipc/x"));
    assert!(!is_blocked_plum_http_url("http://plum.newtab/plum.ipc"));
    assert!(!is_blocked_plum_http_url("http://plums/"));
    assert!(!is_blocked_plum_http_url("plum://x"));
}

#[test]
fn addresses_carry_messages() {
    assert_eq!(ipc_nav_url("load:a b"), "plum://ipc/load%3Aa%20b");
    for msg in ["", "win_close", "load:https://x/?q=1%", "Привет", "%+5"] {
        assert_eq!(toolbar_ipc_from_url(&ipc_nav_url(msg)), Some(msg.to_string()));
        assert!(toolbar_navigation_allowed(&ipc_nav_url(msg)));
    }
    assert_eq!(toolbar_ipc_from_url("http://plum.ipc/a%20b"), Some("a b".to_string()));
    assert_eq!(toolbar_ipc_from_url("https://plum.ipc/x"), Some("x".to_string()));
    assert_eq!(toolbar_ipc_from_url("plum://ipc"), None);
    assert_eq!(toolbar_ipc_from_url("PLUM://ipc/x"), None);
    assert_eq!(toolbar_ipc_from_url("http://a/plum://ipc/x"), None);
}

#[test]
fn the_toolbar_opens_pages_of_the_shell_only() {
    for url in ["http://plum.x", "https://plum.x", "plum://x", "data:text/html,x", "about:blank", ""] {
        assert!(toolbar_navigation_allowed(url));
    }
    for url in ["http://a", "https://a", "file:///a", "http://plum"] {
        assert!(!toolbar_navigation_allowed(url));
    }
}

#[test]
fn documents_are_written_out_in_addresses() {
    let url = document_url("<p>ж</p>");
    assert_eq!(url, "data:text/html;charset=utf-8,%3Cp%3E%D0%B6%3C%2Fp%3E");
    assert!(is_internal_newtab_url(&url));
    assert!(toolbar_navigation_allowed(&url));
}

#[test]
fn a_tab_loads_the_document_of_the_new_tab_page() {
    assert_eq!(content_load_url("plum://newtab"), newtab_data_url());
    assert_eq!(content_load_url("about:blank"), newtab_data_url());
    assert_eq!(content_load_url("http://a"), "http://a");
    assert!(newtab_data_url().starts_with("data:text/html;charset=utf-8,%3C%21doctype%20html%3E"));
}

#[test]
fn icons_have_addresses() {
    assert_eq!(browser_icon_data_url(Some(b"foob")), "data:image/png;base64,Zm9vYg==");
    assert_eq!(browser_icon_data_url(Some(b"")), "data:image/png;base64,");
    assert_eq!(browser_icon_data_url(None), "");
    assert_eq!(tab_favicon_url("https://a.b/c/d", "I"), "http://a.b/favicon.ico");
    assert_eq!(tab_favicon_url("http://a.b", "I"), "http://a.b/favicon.ico");
    assert_eq!(tab_favicon_url("https://", "I"), "I");
    assert_eq!(tab_favicon_url("http:///x", "I"), "I");
    assert_eq!(tab_favicon_url("file:///x", "I"), "I");
    assert_eq!(tab_favicon_url("plum://newtab", "I"), "I");
    assert_eq!(tab_favicon_url("", "I"), "I");
}

#[test]
fn resolved_text_beyond_ascii_is_resolved_to_itself() {
    for input in ["слива.рф", "ΑΣ.example/ΑΣ", "plum.newtaб.x", "K\u{212A}.b", "plum.newtab ж", "PLUM.ж"] {
        let once = resolved(input);
        assert_eq!(resolved(&once), once);
    }
    assert_eq!(resolved("PLUM.newtab.рф"), "http://PLUM.newtab.рф");
    assert_eq!(resolved("http://PLUM.newtab.рф"), "plum://newtab");
}

#[test]
fn addresses_with_messages_are_never_blocked() {
    for url in ["plum://ipc/ж", "http://plum.ipc/Σ", "https://plum.ipc/x", "http://plum.ipc/"] {
        assert!(toolbar_ipc_from_url(url).is_some());
        assert!(!is_blocked_plum_http_url(url));
    }
}

#[test]
fn the_case_of_ascii_letters_is_of_no_account_to_blocking() {
    for url in [
        "http://plum.ж", "http://plum.x/Σplum.ipc", "https://plum.aΣ", "http://plum.toolbar/Ж",
        "http://plum.newtab/İ", "http://a/ΑΣ", "http://plum.\u{212A}plum.toolbar",
    ] {
        let upper = url.to_ascii_uppercase();
        assert_eq!(is_blocked_plum_http_url(url), is_blocked_plum_http_url(&upper));
        assert_eq!(is_plum_newtab_http_url(url), is_plum_newtab_http_url(&upper));
    }
    assert!(is_blocked_plum_http_url("HTTPS://PLUM.AΣ"));
}
