use plumbrowser::platform::{
    content_init_script, content_user_agent, devtools_shortcut, ensure_webview2_debug_port,
    panel_navigation_allowed, stack_end, sync_windows_z_order, toolbar_height, version_label, Key,
    Layer, Modifiers, Platform, StackEnd,
};
use plumbrowser::pages::{CONTENT_SHORTCUT_SCRIPT, WIN_CONTENT_CONTEXT_SCRIPT};

fn held(control: bool, shift: bool, alt: bool, logo: bool) -> Modifiers {
    Modifiers { control, shift, alt, logo }
}

#[test]
fn keys_that_open_the_developer_tools() {
    let none = held(false, false, false, false);
    for p in [Platform::MacOs, Platform::Windows, Platform::Other] {
        assert!(devtools_shortcut(p, Key::F12, none));
        assert!(!devtools_shortcut(p, Key::KeyI, none));
        assert!(devtools_shortcut(p, Key::KeyI, held(true, true, false, false)));
        assert!(!devtools_shortcut(p, Key::KeyI, held(true, false, true, false)));
        assert!(!devtools_shortcut(p, Key::Other, held(true, true, true, true)));
        assert_eq!(
            devtools_shortcut(p, Key::KeyI, held(false, false, true, true)),
            p == Platform::MacOs
        );
    }
}

#[test]
fn the_debugging_port_is_asked_for_once() {
    let flag = "--remote-debugging-port=9222";
    assert_eq!(ensure_webview2_debug_port(None), Some(flag.to_string()));
    assert_eq!(ensure_webview2_debug_port(Some("--x")), Some(format!("--x {flag}")));
    assert_eq!(ensure_webview2_debug_port(Some("")), Some(format!(" {flag}")));
    assert_eq!(ensure_webview2_debug_port(Some("--remote-debugging-port=1")), None);
}

#[test]
fn the_docked_developer_tools_stay_at_their_server() {
    assert!(panel_navigation_allowed("http://127.0.0.1:9222/devtools"));
    assert!(panel_navigation_allowed("about:blank"));
    assert!(!panel_navigation_allowed("http://127.0.0.1/"));
    assert!(!panel_navigation_allowed("https://a"));
}

#[test]
fn views_are_put_in_place_from_the_bottom_up() {
    assert_eq!(
        sync_windows_z_order(2, true),
        vec![Layer::Tab(0), Layer::Tab(1), Layer::Panel, Layer::Toolbar]
    );
    assert_eq!(sync_windows_z_order(0, false), vec![Layer::Toolbar]);
}

#[test]
fn values_that_differ_by_platform() {
    assert_eq!(toolbar_height(Platform::MacOs), 118);
    assert_eq!(toolbar_height(Platform::Windows), 152);
    assert_eq!(toolbar_height(Platform::Other), 152);
    assert!(content_user_agent(Platform::MacOs).contains("Mac OS X 10_15_7"));
    assert!(content_user_agent(Platform::Windows).contains("Windows NT 10.0"));
    assert!(content_user_agent(Platform::Other).contains("X11; Linux x86_64"));
    assert_eq!(content_init_script(Platform::Other), CONTENT_SHORTCUT_SCRIPT);
    assert_eq!(
        content_init_script(Platform::Windows),
        format!("{CONTENT_SHORTCUT_SCRIPT}\n{WIN_CONTENT_CONTEXT_SCRIPT}")
    );
    assert_eq!(version_label("1.2"), "PlumBrowser v1.2");
}

#[test]
fn the_toolbar_ends_above_the_other_views() {
    for panel in [false, true] {
        let mut stack = vec![Layer::Toolbar, Layer::Tab(1), Layer::Tab(0)];
        if panel {
            stack.insert(0, Layer::Panel);
        }
        for layer in sync_windows_z_order(2, panel) {
            stack.retain(|l| *l != layer);
            match stack_end(layer) {
                StackEnd::Bottom => stack.insert(0, layer),
                StackEnd::Top => stack.push(layer),
            }
        }
        let mut expected = vec![Layer::Tab(1), Layer::Tab(0)];
        if panel {
            expected.push(Layer::Panel);
        }
        expected.push(Layer::Toolbar);
        assert_eq!(stack, expected);
    }
}
