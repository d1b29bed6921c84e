use plumbrowser::address::ipc_nav_url;
use plumbrowser::message::{
    content_ipc_event, content_navigation, dispatch_win_ipc, page_load_events, parse_command,
    plum_body, plum_mime, plum_protocol, plum_respond, plum_status, toolbar_load_event,
    toolbar_message_event, toolbar_navigation, Command, PlumRoute, UserEvent,
};
use plumbrowser::pages::{IPC_ACK_HTML, NEWTAB_HTML};
use plumbrowser::platform::Platform;
use plumbrowser::toolbar::{served_toolbar_html, ToolbarSnapshot};

#[test]
fn plain_messages_are_read() {
    assert!(matches!(parse_command("win_drag"), Command::DragWindow));
    assert!(matches!(parse_command("win_min"), Command::MinimizeWindow));
    assert!(matches!(parse_command("win_max_toggle"), Command::ToggleMaximized));
    assert!(matches!(parse_command("win_close"), Command::CloseWindow));
    assert!(matches!(parse_command("ready"), Command::Ready));
    assert!(matches!(parse_command("focus_content"), Command::FocusContent));
    assert!(matches!(parse_command("nav_back"), Command::GoBack));
    assert!(matches!(parse_command("nav_forward"), Command::GoForward));
    assert!(matches!(parse_command("nav_reload"), Command::Reload));
    assert!(matches!(parse_command("nav_stop"), Command::Stop));
    assert!(matches!(parse_command("nav_devtools"), Command::ToggleDevtools));
    for msg in ["", "win_closed", " ready", "READY", "load", "switch_tab", "toggle_devtools"] {
        assert!(matches!(parse_command(msg), Command::Nothing));
    }
}

#[test]
fn messages_with_a_value_are_read() {
    assert!(matches!(parse_command("load: a.b "), Command::Load(u) if u == "http://a.b"));
    assert!(matches!(parse_command("load:PLUM.newtab"), Command::Load(u) if u == "plum://newtab"));
    assert!(matches!(parse_command("load:plum://newtabs"), Command::Load(u) if u == "plum://newtab"));
    assert!(matches!(parse_command("load:  "), Command::Nothing));
    assert!(matches!(parse_command("new_tab:"), Command::NewTab));
    assert!(matches!(parse_command("new_tab:anything"), Command::NewTab));
    assert!(matches!(parse_command("switch_tab: 12\n"), Command::SwitchTab(12)));
    assert!(matches!(parse_command("switch_tab:+3"), Command::SwitchTab(3)));
    assert!(matches!(parse_command("switch_tab:-1"), Command::Nothing));
    assert!(matches!(parse_command("switch_tab:"), Command::Nothing));
    assert!(matches!(parse_command("close_tab:0"), Command::CloseTab(0)));
    assert!(matches!(parse_command("close_tab:x"), Command::Nothing));
    assert!(matches!(parse_command("close_tab:99999999999999999999"), Command::Nothing));
}

#[test]
fn links_of_tabs_name_their_tab() {
    for i in [0usize, 9, 10, 123] {
        let (open, msg) = toolbar_navigation(&ipc_nav_url(&format!("switch_tab:{i}")));
        assert!(!open);
        assert!(matches!(parse_command(&msg.unwrap()), Command::SwitchTab(k) if k == i));
        let (_, msg) = toolbar_navigation(&ipc_nav_url(&format!("close_tab:{i}")));
        assert!(matches!(parse_command(&msg.unwrap()), Command::CloseTab(k) if k == i));
    }
}

#[test]
fn the_toolbar_goes_nowhere_for_a_message() {
    assert_eq!(toolbar_navigation("plum://ipc/nav_back"), (false, Some("nav_back".to_string())));
    assert_eq!(toolbar_navigation("http://plum.ipc/x%20y"), (false, Some("x y".to_string())));
    assert_eq!(toolbar_navigation("plum://toolbar"), (true, None));
    assert_eq!(toolbar_navigation("https://a"), (false, None));
}

#[test]
fn messages_are_queued_in_order() {
    let mut queue = vec!["a".to_string()];
    assert!(dispatch_win_ipc(&mut queue, "b"));
    assert!(!dispatch_win_ipc(&mut queue, "ready"));
    assert_eq!(queue, vec!["a".to_string(), "b".to_string()]);
}

#[test]
fn pages_send_few_messages() {
    assert!(matches!(content_ipc_event("toggle_devtools"), Some(UserEvent::ToggleDevtools)));
    assert!(matches!(content_ipc_event("load:x y"), Some(UserEvent::Ipc(m)) if m == "load:x y"));
    for body in ["", "win_close", "close_tab:0", " load:x", "new_tab:", "nav_devtools"] {
        assert!(content_ipc_event(body).is_none());
    }
    for body in ["load:", "load:a.b", "load:win_close"] {
        assert!(matches!(parse_command(body), Command::Load(_) | Command::Nothing));
    }
}

#[test]
fn pages_tell_of_their_progress() {
    let started = page_load_events(7, false);
    assert_eq!(started.len(), 1);
    assert!(matches!(started[0], UserEvent::LoadStarted { tab_id: 7 }));
    let finished = page_load_events(7, true);
    assert_eq!(finished.len(), 2);
    assert!(matches!(finished[0], UserEvent::LoadFinished { tab_id: 7 }));
    assert!(matches!(finished[1], UserEvent::FocusTab { tab_id: 7 }));
}

#[test]
fn navigation_of_a_tab_is_decided() {
    assert!(matches!(content_navigation(1, "about:blank"), (true, None)));
    assert!(matches!(content_navigation(1, "http://plum.x/"), (false, None)));
    assert!(matches!(content_navigation(1, "HTTPS://plum.NEWTAB"), (false, None)));
    assert!(matches!(
        content_navigation(4, "http://plum.newtab/plum.ipc"),
        (false, Some(UserEvent::ForceLoad { tab_id: 4, url })) if url == "plum://newtab"
    ));
    assert!(matches!(
        content_navigation(5, "https://a/?B"),
        (true, Some(UserEvent::Navigated { tab_id: 5, url })) if url == "https://a/?B"
    ));
}

#[test]
fn addresses_of_the_shell_are_served() {
    let message = plum_protocol("ipc", "/x%20y", "plum://ipc/x%20y");
    assert!(matches!(&message, PlumRoute::Message(m) if m == "x y"));
    assert_eq!(plum_body(&message), Some(IPC_ACK_HTML));
    assert_eq!(plum_mime(&message), "text/html; charset=utf-8");
    for (host, path, full) in [
        ("toolbar", "/", "plum://toolbar/"),
        ("", "/toolbar", "x"),
        ("h", "/toolbar/a", "x"),
        ("", "/a/toolbars", "x"),
        ("h", "/", "plum://toolbarx"),
        ("h", "/", "http://plum.toolbar"),
        ("h", "/", "https://plum.toolbar/x"),
    ] {
        let route = plum_protocol(host, path, full);
        assert!(matches!(route, PlumRoute::Toolbar));
        assert_eq!(plum_body(&route), None);
        assert_eq!(plum_mime(&route), "text/html; charset=utf-8");
    }
    for host in ["", "newtab", "plum.newtab"] {
        for path in ["/newtab", "/newtab/", "/"] {
            let route = plum_protocol(host, path, "x");
            assert!(matches!(route, PlumRoute::NewTab));
            assert_eq!(plum_body(&route), Some(NEWTAB_HTML));
            assert_eq!(plum_mime(&route), "text/html; charset=utf-8");
        }
    }
    for (host, path) in [("h", "/"), ("newtab", "/x"), ("h", "/toolbars"), ("", "")] {
        let route = plum_protocol(host, path, "x");
        assert!(matches!(route, PlumRoute::NotFound));
        assert_eq!(plum_body(&route), Some("Not found"));
        assert_eq!(plum_mime(&route), "text/plain; charset=utf-8");
    }
}

#[test]
fn requests_are_answered() {
    let s = ToolbarSnapshot::new_default();
    for p in [Platform::MacOs, Platform::Windows, Platform::Other] {
        let ask = |host: &str, path: &str, full: &str| {
            let r = plum_respond(p, host, path, full, &s, "0.1.0", "I");
            assert_eq!(r.status, 200);
            r
        };
        let r = ask("ipc", "/nav_back", "plum://ipc/nav_back");
        assert_eq!((r.mime, r.body.as_str()), ("text/html; charset=utf-8", IPC_ACK_HTML));
        assert_eq!(r.queued.is_some(), p == Platform::Windows);
        assert!(r.queued.map_or(true, |m| m == "nav_back"));
        let r = ask("toolbar", "/", "plum://toolbar/");
        assert_eq!(r.body, served_toolbar_html(p, &s, "0.1.0", "I"));
        assert_eq!((r.mime, r.queued), ("text/html; charset=utf-8", None));
        let r = ask("newtab", "/", "plum://newtab/");
        assert_eq!((r.mime, r.body.as_str(), r.queued), ("text/html; charset=utf-8", NEWTAB_HTML, None));
        let r = ask("x", "/", "plum://x/");
        assert_eq!((r.mime, r.body.as_str(), r.queued), ("text/plain; charset=utf-8", "Not found", None));
    }
    assert_eq!(plum_status(), 200);
}

#[test]
fn messages_of_the_toolbar_are_sent_or_queued() {
    for p in [Platform::MacOs, Platform::Other] {
        assert!(matches!(toolbar_message_event(p, "x"), Some(UserEvent::Ipc(m)) if m == "x"));
        assert!(matches!(toolbar_load_event(p, true), Some(UserEvent::Ipc(m)) if m == "ready"));
        assert!(toolbar_load_event(p, false).is_none());
    }
    assert!(toolbar_message_event(Platform::Windows, "x").is_none());
    assert!(toolbar_load_event(Platform::Windows, true).is_none());
}
