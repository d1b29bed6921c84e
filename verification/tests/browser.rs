use plumbrowser::address::newtab_data_url;
use plumbrowser::browser::{Browser, ShellEvent, DEVTOOLS_CONNECT_MAX};
use plumbrowser::effect::Effect;
use plumbrowser::message::UserEvent;
use plumbrowser::platform::{Key, Modifiers, Platform};
use plumbrowser::toolbar::{set_state_script, sync_toolbar, windows_toolbar_data_url};

const NEWTAB: &str = "plum://newtab";

fn started(platform: Platform) -> Browser {
    let mut b = Browser::new(platform, "0.1.0", "ICON");
    if platform == Platform::Windows {
        b.bootstrap_win_app();
        b.bootstrap_win_app();
    } else {
        b.start();
    }
    b.take_effects();
    b
}

fn names(effects: &Vec<Effect<String>>) -> Vec<String> {
    effects
        .iter()
        .map(|e| match e {
            Effect::RunToolbarScript(s) if s.starts_with("(function()") => "Sync".to_string(),
            Effect::LoadToolbar(_) => "LoadToolbar".to_string(),
            e => format!("{e:?}"),
        })
        .collect()
}

fn told(b: &mut Browser, msg: &str) -> Vec<String> {
    b.process_ipc(msg);
    names(&b.take_effects())
}

fn heard(b: &mut Browser, e: UserEvent<String>) -> Vec<String> {
    b.dispatch_app_event(ShellEvent::User(e));
    names(&b.take_effects())
}

fn handled(b: &mut Browser, e: ShellEvent<String>) -> Vec<String> {
    b.dispatch_app_event(e);
    names(&b.take_effects())
}

fn urls(b: &Browser) -> Vec<&str> {
    b.tabs.iter().map(|t| t.url.as_str()).collect()
}

fn ids(b: &Browser) -> Vec<u32> {
    b.tabs.iter().map(|t| t.id).collect()
}

fn with_tabs(platform: Platform, n: usize) -> Browser {
    let mut b = started(platform);
    for _ in 1..n {
        b.process_ipc("new_tab:");
    }
    b.take_effects();
    b
}

#[test]
fn the_start_brings_one_tab() {
    let mut b = Browser::new(Platform::Other, "0.1.0", "ICON");
    assert!(b.tabs.is_empty());
    b.start();
    assert_eq!((urls(&b), ids(&b), b.current, b.next_id), (vec![NEWTAB], vec![1], 0, 2));
    assert_eq!(b.tabs[0].title, "Новая вкладка");
    assert_eq!(
        names(&b.take_effects()),
        [
            "BuildTab { id: 1, url: \"plum://newtab\", newtab: true, devtools_open: false }",
            "RaiseToolbar",
            "Resize(false)",
            "Sync",
        ]
    );
    assert!(b.take_effects().is_empty());
}

#[test]
fn the_start_on_windows_has_two_phases() {
    let mut b = Browser::new(Platform::Windows, "0.1.0", "ICON");
    b.bootstrap_win_app();
    assert_eq!(names(&b.take_effects()), ["ShowWindow", "FocusWindow"]);
    assert_eq!((b.bootstrap_phase, b.startup_focus_frames, b.ipc_ready), (1, 120, false));
    b.bootstrap_win_app();
    assert_eq!(
        names(&b.take_effects()),
        [
            "BuildTab { id: 1, url: \"plum://newtab\", newtab: true, devtools_open: false }",
            "FocusWindow",
            "RaiseToolbar",
            "Resize(false)",
            "LoadToolbar",
        ]
    );
    assert_eq!((b.bootstrap_phase, b.ipc_ready, b.toolbar_dirty), (2, true, false));
    b.bootstrap_win_app();
    assert!(b.take_effects().is_empty());
    assert_eq!((urls(&b), ids(&b), b.next_id), (vec![NEWTAB], vec![1], 2));
}

#[test]
fn the_window_asks_for_the_focus_after_the_start() {
    let mut b = started(Platform::Windows);
    let mut asked = 0;
    for _ in 0..200 {
        b.tick_startup_focus();
        asked += b.take_effects().len();
    }
    assert_eq!(asked, 8);
    assert_eq!(b.startup_focus_frames, 0);
}

#[test]
fn messages_move_and_close_the_window() {
    let mut b = started(Platform::Other);
    assert_eq!(told(&mut b, "win_drag"), ["DragWindow"]);
    assert_eq!(told(&mut b, "win_min"), ["MinimizeWindow"]);
    assert_eq!(told(&mut b, "win_close"), ["Exit"]);
    assert_eq!(
        told(&mut b, "win_max_toggle"),
        ["ToggleMaximized", "Resize(false)", "RaiseToolbar", "Sync"]
    );
    assert_eq!(told(&mut b, "nothing"), Vec::<String>::new());
}

#[test]
fn the_toolbar_is_told_when_it_is_ready() {
    let mut b = started(Platform::MacOs);
    assert_eq!(told(&mut b, "ready"), ["Sync", "RaiseToolbar"]);
    let mut w = started(Platform::Windows);
    assert_eq!(told(&mut w, "ready"), ["RaiseToolbar"]);
    assert!(!w.toolbar_dirty);
}

#[test]
fn messages_navigate_the_current_tab() {
    let mut b = with_tabs(Platform::Other, 2);
    assert_eq!(told(&mut b, "nav_back"), ["GoBack(1)", "FocusTab(1)"]);
    assert_eq!(told(&mut b, "nav_forward"), ["GoForward(1)", "FocusTab(1)"]);
    assert_eq!(told(&mut b, "focus_content"), ["FocusTab(1)"]);
    assert_eq!(told(&mut b, "nav_reload"), ["Reload(1)", "Sync", "FocusTab(1)"]);
    assert!(b.tabs[1].loading && !b.tabs[0].loading);
    assert_eq!(told(&mut b, "nav_stop"), ["StopLoading(1)", "Sync", "FocusTab(1)"]);
    assert!(!b.tabs[1].loading);
    let mut w = with_tabs(Platform::Windows, 2);
    assert_eq!(told(&mut w, "nav_back"), ["GoBack(1)"]);
    assert_eq!(told(&mut w, "nav_reload"), ["Reload(1)"]);
    assert!(w.toolbar_dirty && w.snapshot.loading);
}

#[test]
fn an_address_is_loaded() {
    let mut b = started(Platform::Other);
    assert_eq!(
        told(&mut b, "load:a.b"),
        ["LoadUrl(0, \"http://a.b\")", "FocusTab(0)", "Sync", "RaiseToolbar"]
    );
    assert_eq!(urls(&b), ["http://a.b"]);
    assert_eq!((b.tabs[0].title.as_str(), b.tabs[0].loading), ("", true));
    let e = told(&mut b, "load:plum.newtab");
    assert_eq!(e[0], format!("LoadUrl(0, {:?})", newtab_data_url()));
    assert_eq!(urls(&b), [NEWTAB]);
    assert!(told(&mut b, "load: ").is_empty());
    let mut w = started(Platform::Windows);
    assert_eq!(told(&mut w, "load:a.b"), ["LoadUrl(0, \"http://a.b\")", "RaiseToolbar"]);
}

#[test]
fn a_new_tab_is_opened_after_the_others() {
    let mut b = with_tabs(Platform::Other, 2);
    b.process_ipc("switch_tab:0");
    b.take_effects();
    assert_eq!(
        told(&mut b, "new_tab:"),
        [
            "SetTabVisible(0, false)",
            "SetTabVisible(1, false)",
            "BuildTab { id: 3, url: \"plum://newtab\", newtab: true, devtools_open: false }",
            "Sync",
            "Resize(false)",
            "FocusTab(2)",
            "RaiseToolbar",
        ]
    );
    assert_eq!((ids(&b), b.current, b.next_id), (vec![1, 2, 3], 2, 4));
    let mut b = started(Platform::Other);
    b.open_new_tab("https://x/");
    assert_eq!(urls(&b), [NEWTAB, "https://x/"]);
    assert_eq!(b.tabs[1].title, "");
}

#[test]
fn a_tab_is_switched_to() {
    let mut b = with_tabs(Platform::Other, 3);
    assert_eq!(
        told(&mut b, "switch_tab:1"),
        [
            "SetTabVisible(0, false)",
            "CloseDevtools(0)",
            "SetTabVisible(1, true)",
            "SetTabVisible(2, false)",
            "CloseDevtools(2)",
            "FocusTab(1)",
            "RaiseToolbar",
            "Sync",
        ]
    );
    assert_eq!(b.current, 1);
    assert!(told(&mut b, "switch_tab:3").is_empty());
    assert!(told(&mut b, "switch_tab:x").is_empty());
    assert_eq!(b.current, 1);
    let mut w = with_tabs(Platform::Windows, 2);
    assert_eq!(
        told(&mut w, "switch_tab:0"),
        ["SetTabVisible(0, true)", "SetTabVisible(1, false)", "RaiseToolbar"]
    );
}

#[test]
fn the_current_tab_stays_when_another_is_closed() {
    let mut b = with_tabs(Platform::Other, 4);
    b.process_ipc("switch_tab:2");
    b.take_effects();
    let e = told(&mut b, "close_tab:0");
    assert_eq!(e[0], "RemoveTab(0)");
    assert_eq!(e.last().unwrap(), "Sync");
    assert_eq!((ids(&b), b.current), (vec![2, 3, 4], 1));
    told(&mut b, "close_tab:2");
    assert_eq!((ids(&b), b.current), (vec![2, 3], 1));
    assert!(told(&mut b, "close_tab:2").is_empty());
}

#[test]
fn the_next_tab_or_the_last_follows_a_closed_one() {
    let mut b = with_tabs(Platform::Other, 3);
    b.process_ipc("switch_tab:1");
    told(&mut b, "close_tab:1");
    assert_eq!((ids(&b), b.current), (vec![1, 3], 1));
    told(&mut b, "close_tab:1");
    assert_eq!((ids(&b), b.current), (vec![1], 0));
}

#[test]
fn the_only_tab_is_replaced() {
    let mut b = started(Platform::Other);
    told(&mut b, "load:a.b");
    let e = told(&mut b, "close_tab:0");
    assert_eq!(e[0], "RemoveTab(0)");
    assert_eq!(e[1], "BuildTab { id: 2, url: \"plum://newtab\", newtab: true, devtools_open: false }");
    assert_eq!((ids(&b), urls(&b), b.current), (vec![2], vec![NEWTAB], 0));
}

#[test]
fn developer_tools_are_toggled() {
    let mut b = started(Platform::Other);
    assert_eq!(
        told(&mut b, "nav_devtools"),
        ["OpenDevtools(0)", "Resize(true)", "RaiseToolbar", "FocusTab(0)"]
    );
    assert!(b.devtools_open);
    let e = told(&mut b, "new_tab:");
    assert!(e.contains(&"OpenDevtools(1)".to_string()));
    assert!(told(&mut b, "switch_tab:0").contains(&"OpenDevtools(0)".to_string()));
    assert_eq!(
        heard(&mut b, UserEvent::ToggleDevtools),
        ["CloseDevtools(0)", "Resize(false)", "RaiseToolbar", "FocusTab(0)"]
    );
    assert!(!b.devtools_open);
    let mut empty = Browser::new(Platform::Other, "", "");
    empty.toggle_devtools();
    assert!(!empty.devtools_open && empty.take_effects().is_empty());
}

#[test]
fn docked_developer_tools_are_built_one_event_later() {
    let mut b = started(Platform::Windows);
    assert_eq!(told(&mut b, "nav_devtools"), ["Resize(true)", "RaiseToolbar"]);
    assert!(b.panel_pending && !b.panel);
    b.tick_devtools_panel_build();
    assert!(b.take_effects().is_empty() && b.panel_build_next && !b.panel_pending);
    b.tick_devtools_panel_build();
    assert_eq!(
        names(&b.take_effects()),
        ["BuildPanel", "Resize(true)", "RaiseToolbar", "ShowPanel"]
    );
    assert!(b.panel && !b.panel_build_next);
    assert_eq!(b.connect.as_ref().unwrap().page_url, NEWTAB);
    b.tick_devtools_panel_build();
    assert!(b.take_effects().is_empty());
    assert_eq!(told(&mut b, "nav_devtools"), ["ClosePanel", "Resize(false)", "RaiseToolbar"]);
    assert!(b.connect.is_none() && b.panel);
    assert_eq!(told(&mut b, "nav_devtools"), ["ShowPanel", "Resize(true)", "RaiseToolbar"]);
}

#[test]
fn docked_developer_tools_can_be_called_off() {
    let mut b = started(Platform::Windows);
    told(&mut b, "nav_devtools");
    told(&mut b, "nav_devtools");
    assert!(!b.panel_pending && !b.panel_build_next);
    b.panel_build_next = true;
    b.tick_devtools_panel_build();
    assert!(!b.panel && !b.panel_build_next && b.take_effects().is_empty());
}

fn docked() -> Browser {
    let mut b = started(Platform::Windows);
    told(&mut b, "nav_devtools");
    b.tick_devtools_panel_build();
    b.tick_devtools_panel_build();
    b.take_effects();
    b
}

#[test]
fn the_inspector_is_loaded_when_it_is_found() {
    let mut b = docked();
    assert_eq!(b.tick_devtools_connect(), Some(NEWTAB.to_string()));
    b.devtools_searched(None);
    assert_eq!(b.connect.as_ref().unwrap().attempts, 1);
    b.devtools_searched(Some("http://i".to_string()));
    assert_eq!(
        names(&b.take_effects()),
        ["LoadPanel(\"http://i\")", "ShowPanel", "RaiseToolbar"]
    );
    assert_eq!(b.tick_devtools_connect(), None);
    b.devtools_searched(Some("http://i".to_string()));
    assert!(b.take_effects().is_empty());
}

#[test]
fn the_search_for_the_inspector_ends() {
    let mut b = docked();
    for i in 1..DEVTOOLS_CONNECT_MAX {
        b.devtools_searched(None);
        assert_eq!(b.connect.as_ref().unwrap().attempts, i);
    }
    assert!(b.take_effects().is_empty());
    b.devtools_searched(None);
    assert_eq!(names(&b.take_effects()), ["OpenDevtools(0)", "ClosePanel", "Resize(false)"]);
    assert!(b.connect.is_none() && !b.devtools_open);
}

#[test]
fn a_search_without_purpose_is_given_up() {
    let mut b = docked();
    b.devtools_open = false;
    assert_eq!(b.tick_devtools_connect(), None);
    assert!(b.connect.is_none());
}

#[test]
fn a_new_tab_is_searched_for_in_the_docked_developer_tools() {
    let mut b = docked();
    heard(&mut b, UserEvent::NewWindow { url: "https://x".to_string() });
    assert_eq!(b.tick_devtools_connect(), Some("https://x".to_string()));
}

#[test]
fn navigation_changes_the_address_of_a_tab() {
    let mut b = with_tabs(Platform::Other, 2);
    let go = |id, url: &str| UserEvent::Navigated { tab_id: id, url: url.to_string() };
    assert_eq!(heard(&mut b, go(2, "https://a")), ["Sync", "FocusTab(1)"]);
    assert_eq!(heard(&mut b, go(1, "https://b")), ["Sync"]);
    assert_eq!(urls(&b), ["https://b", "https://a"]);
    assert!(heard(&mut b, go(1, "https://b")).is_empty());
    assert!(heard(&mut b, go(1, "about:blank")).is_empty());
    assert!(heard(&mut b, go(9, "https://c")).is_empty());
    b.tabs[0].loading = true;
    assert!(heard(&mut b, go(1, "data:text/html,x")).is_empty());
    assert_eq!(urls(&b), ["https://b", "https://a"]);
    b.tabs[0].loading = false;
    assert_eq!(heard(&mut b, go(1, "data:text/html,x")), ["Sync"]);
    assert_eq!(urls(&b), [NEWTAB, "https://a"]);
}

#[test]
fn titles_change() {
    let mut b = with_tabs(Platform::Other, 2);
    let title = |id, t: &str| UserEvent::TitleChanged { tab_id: id, title: t.to_string() };
    b.dispatch_app_event(ShellEvent::User(title(1, "T\"")));
    let e = b.take_effects();
    assert!(matches!(&e[..], [Effect::RunToolbarScript(s)] if s == "window.__setTabTitle(0, \"T\\\"\");"));
    assert!(heard(&mut b, title(7, "x")).is_empty());
    let mut w = started(Platform::Windows);
    assert!(heard(&mut w, title(1, "T")).is_empty());
    assert_eq!(w.snapshot.titles, vec!["T".to_string()]);
    assert!(w.toolbar_dirty);
}

#[test]
fn progress_of_the_current_tab_is_shown() {
    let mut b = with_tabs(Platform::Other, 2);
    assert_eq!(heard(&mut b, UserEvent::LoadStarted { tab_id: 2 }), ["Sync"]);
    assert!(heard(&mut b, UserEvent::LoadStarted { tab_id: 1 }).is_empty());
    assert!(b.tabs[0].loading && b.tabs[1].loading);
    assert_eq!(heard(&mut b, UserEvent::LoadFinished { tab_id: 2 }), ["Sync"]);
    assert!(heard(&mut b, UserEvent::LoadFinished { tab_id: 1 }).is_empty());
    assert!(!b.tabs[0].loading && !b.tabs[1].loading);
    assert!(heard(&mut b, UserEvent::LoadStarted { tab_id: 3 }).is_empty());
}

#[test]
fn a_page_is_forced_on_a_tab() {
    let mut b = with_tabs(Platform::Other, 2);
    let force = |id, url: &str| UserEvent::ForceLoad { tab_id: id, url: url.to_string() };
    assert_eq!(heard(&mut b, force(2, "https://a")), ["LoadUrl(1, \"https://a\")", "Sync"]);
    assert_eq!(heard(&mut b, force(1, "https://b")), ["LoadUrl(0, \"https://b\")"]);
    assert!(b.tabs[0].loading && b.tabs[0].title.is_empty());
    let e = heard(&mut b, force(1, "about:blank"));
    assert_eq!(e, [format!("LoadUrl(0, {:?})", newtab_data_url())]);
    assert!(heard(&mut b, force(5, "x")).is_empty());
}

#[test]
fn a_window_of_a_page_becomes_a_tab() {
    let mut b = started(Platform::Other);
    heard(&mut b, UserEvent::NewWindow { url: "a.b".to_string() });
    assert_eq!((urls(&b), b.current), (vec![NEWTAB, "http://a.b"], 1));
    assert!(heard(&mut b, UserEvent::NewWindow { url: " ".to_string() }).is_empty());
    assert_eq!(b.tabs.len(), 2);
}

#[test]
fn the_focus_goes_to_the_current_tab() {
    let mut b = with_tabs(Platform::Other, 2);
    assert_eq!(heard(&mut b, UserEvent::FocusTab { tab_id: 2 }), ["FocusTab(1)"]);
    assert!(heard(&mut b, UserEvent::FocusTab { tab_id: 1 }).is_empty());
    assert_eq!(handled(&mut b, ShellEvent::Focused(true)), ["FocusTab(1)"]);
    assert!(handled(&mut b, ShellEvent::Focused(false)).is_empty());
    assert!(heard(&mut b, UserEvent::WakeIpc).is_empty());
    let mut w = started(Platform::Windows);
    assert!(handled(&mut w, ShellEvent::Focused(true)).is_empty());
}

#[test]
fn the_window_changes_its_size() {
    let mut b = started(Platform::Other);
    assert_eq!(handled(&mut b, ShellEvent::Resized), ["Resize(false)", "RaiseToolbar", "Sync"]);
    assert_eq!(handled(&mut b, ShellEvent::ScaleFactorChanged), ["Resize(false)", "RaiseToolbar"]);
    assert_eq!(handled(&mut b, ShellEvent::CloseRequested), ["Exit"]);
}

#[test]
fn keys_open_the_developer_tools() {
    let mut b = started(Platform::Other);
    let key = |key, pressed, repeat| ShellEvent::KeyboardInput { key, pressed, repeat };
    assert!(handled(&mut b, key(Key::KeyI, true, false)).is_empty());
    let m = Modifiers { control: true, shift: true, alt: false, logo: false };
    assert!(handled(&mut b, ShellEvent::ModifiersChanged(m)).is_empty());
    assert!(handled(&mut b, key(Key::KeyI, true, true)).is_empty());
    assert!(handled(&mut b, key(Key::KeyI, false, false)).is_empty());
    handled(&mut b, key(Key::KeyI, true, false));
    assert!(b.devtools_open);
    handled(&mut b, key(Key::F12, true, false));
    assert!(!b.devtools_open);
}

#[test]
fn the_toolbar_is_raised_above_the_docked_developer_tools() {
    let over = || ShellEvent::CursorMoved { over_toolbar: true };
    let mut b = started(Platform::Windows);
    assert!(handled(&mut b, over()).is_empty());
    assert!(handled(&mut b, ShellEvent::MainEventsCleared).is_empty());
    let mut b = docked();
    assert_eq!(handled(&mut b, over()), ["RaiseToolbar", "FocusToolbar"]);
    assert!(handled(&mut b, ShellEvent::CursorMoved { over_toolbar: false }).is_empty());
    let mut raised = 0;
    for _ in 0..100 {
        raised += handled(&mut b, ShellEvent::MainEventsCleared).len();
    }
    assert_eq!((raised, b.z_order_nudges), (60, 60));
}

#[test]
fn queued_messages_wait_for_the_start() {
    let mut b = Browser::new(Platform::Windows, "0.1.0", "ICON");
    let mut queue = vec!["ready".to_string(), "new_tab:".to_string(), "switch_tab:0".to_string()];
    assert!(!b.drain_pending_ipc(&mut queue));
    assert_eq!(queue.len(), 3);
    b.bootstrap_win_app();
    b.bootstrap_win_app();
    b.take_effects();
    assert!(b.drain_pending_ipc(&mut queue));
    assert!(queue.is_empty());
    assert_eq!((b.tabs.len(), b.current), (2, 0));
    assert!(!names(&b.take_effects()).contains(&"LoadToolbar".to_string()));
    assert!(!b.drain_pending_ipc(&mut queue));
    assert_eq!(names(&b.take_effects()), ["LoadToolbar"]);
    assert!(!b.drain_pending_ipc(&mut queue));
    assert!(b.take_effects().is_empty());
}

#[test]
fn a_drain_ends_with_a_loaded_toolbar() {
    let mut b = started(Platform::Windows);
    let mut queue = vec!["load:a.b".to_string(), "nav_reload".to_string()];
    while b.drain_pending_ipc(&mut queue) {}
    let e = b.take_effects();
    let url = windows_toolbar_data_url(&sync_toolbar(&b.tabs, b.current), "0.1.0", "ICON");
    assert!(matches!(e.last(), Some(Effect::LoadToolbar(u)) if *u == url));
    assert!(!b.toolbar_dirty);
    let mut unready = Browser::new(Platform::Windows, "0.1.0", "ICON");
    unready.toolbar_dirty = true;
    assert!(!unready.drain_pending_ipc(&mut queue));
    assert!(unready.toolbar_dirty && unready.take_effects().is_empty());
}

#[test]
fn the_rendered_toolbar_is_loaded_when_it_has_changed() {
    let mut b = started(Platform::Windows);
    b.flush_toolbar();
    assert!(b.take_effects().is_empty());
    told(&mut b, "load:a.b");
    b.flush_toolbar();
    let e = b.take_effects();
    let url = windows_toolbar_data_url(&sync_toolbar(&b.tabs, b.current), "0.1.0", "ICON");
    assert!(matches!(&e[..], [Effect::LoadToolbar(u)] if *u == url));
    b.flush_toolbar();
    assert!(b.take_effects().is_empty());
}

#[test]
fn the_toolbar_gets_its_state_by_a_script() {
    let mut b = with_tabs(Platform::Other, 2);
    b.process_ipc("ready");
    let e = b.take_effects();
    let script = set_state_script(&sync_toolbar(&b.tabs, b.current));
    assert!(matches!(&e[0], Effect::RunToolbarScript(s) if *s == script));
}

#[test]
fn the_web_views_follow_the_tabs() {
    for platform in [Platform::MacOs, Platform::Windows, Platform::Other] {
        let mut b = Browser::new(platform, "0.1.0", "ICON");
        let mut views: Vec<(u32, bool)> = Vec::new();
        let mut panel = false;
        if platform == Platform::Windows {
            b.bootstrap_win_app();
            b.bootstrap_win_app();
        } else {
            b.start();
        }
        let messages = [
            "new_tab:", "load:a.b", "switch_tab:0", "new_tab:", "nav_devtools", "close_tab:1",
            "switch_tab:1", "close_tab:0", "nav_reload", "close_tab:0", "close_tab:0", "new_tab:",
            "nav_devtools", "nav_stop", "close_tab:0", "nav_back",
        ];
        for msg in messages {
            b.process_ipc(msg);
            b.tick_devtools_panel_build();
            b.devtools_searched(None);
            b.flush_toolbar();
            for e in b.take_effects() {
                match e {
                    Effect::BuildTab { id, .. } => views.push((id, true)),
                    Effect::RemoveTab(i) => {
                        views.remove(i);
                    }
                    Effect::SetTabVisible(i, visible) => views[i].1 = visible,
                    Effect::FocusTab(i) | Effect::LoadUrl(i, _) | Effect::Reload(i) => {
                        assert!(i < views.len());
                    }
                    Effect::BuildPanel => {
                        assert!(!panel);
                        panel = true;
                    }
                    Effect::ShowPanel | Effect::ClosePanel => assert!(panel),
                    _ => {}
                }
            }
            let expected: Vec<(u32, bool)> =
                b.tabs.iter().enumerate().map(|(i, t)| (t.id, i == b.current)).collect();
            assert_eq!(views, expected);
            assert_eq!(panel, b.panel);
            assert!(b.current < b.tabs.len());
        }
    }
}

#[test]
fn the_rendered_toolbar_is_up_to_date() {
    let mut b = started(Platform::Windows);
    let mut check = |b: &mut Browser, msg: &str| {
        b.process_ipc(msg);
        let s = sync_toolbar(&b.tabs, b.current);
        assert_eq!(
            (&b.snapshot.titles, &b.snapshot.urls, b.snapshot.current, &b.snapshot.cur_url),
            (&s.titles, &s.urls, s.current, &s.cur_url)
        );
        assert_eq!(b.snapshot.loading, s.loading);
    };
    for msg in ["new_tab:", "load:a.b", "switch_tab:0", "nav_reload", "close_tab:0", "nav_stop"] {
        check(&mut b, msg);
    }
}

#[test]
fn a_page_forced_on_a_background_tab_is_shown_later() {
    let mut b = with_tabs(Platform::Windows, 2);
    heard(&mut b, UserEvent::ForceLoad { tab_id: 1, url: "https://a".to_string() });
    assert_eq!(b.snapshot.urls[0], "");
    told(&mut b, "nav_reload");
    assert_eq!(b.snapshot.urls[0], "https://a");
}
