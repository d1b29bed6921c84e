use plumbrowser::pages::{
    OMNIBOX_PLACEHOLDER, TAB_BAR_CSS, TOOLBAR_SCRIPT, WINDOWS_TAB_BAR_CSS,
    WINDOWS_TAB_LAYOUT_SCRIPT,
};
use plumbrowser::address::document_url;
use plumbrowser::platform::Platform;
use plumbrowser::tab::{find_tab_idx, tab_label, Tab};
use plumbrowser::toolbar::{
    served_toolbar_html, set_state_script, set_tab_title_script, sync_toolbar, toolbar_html,
    windows_toolbar_data_url, windows_toolbar_html, ToolbarSnapshot,
};

const ICON: &str = "data:image/png;base64,AAAA";

fn tab(id: u32, url: &str, title: &str, loading: bool) -> Tab {
    Tab { id, url: url.to_string(), title: title.to_string(), loading }
}

fn snapshot(loading: bool) -> ToolbarSnapshot {
    ToolbarSnapshot {
        titles: vec!["A & <b>".to_string(), "Новая".to_string(), "x".to_string()],
        urls: vec!["https://a.b/c?d=\"".to_string(), String::new()],
        current: 1,
        cur_url: "http://q/\"<>&".to_string(),
        loading,
    }
}

#[test]
fn labels_of_tabs() {
    assert_eq!(tab_label(&tab(1, "http://a", "T", false)), "T");
    assert_eq!(tab_label(&tab(1, "plum://newtab", "", false)), "Новая вкладка");
    assert_eq!(tab_label(&tab(1, "data:text/html,x", "", false)), "Новая вкладка");
    assert_eq!(tab_label(&tab(1, "https://a/http://b", "", false)), "a/b");
    assert_eq!(tab_label(&tab(1, "", "", false)), "");
}

#[test]
fn tabs_are_found_by_number() {
    let tabs = vec![tab(3, "a", "", false), tab(5, "b", "", false), tab(3, "c", "", false)];
    assert_eq!(find_tab_idx(&tabs, 3), Some(0));
    assert_eq!(find_tab_idx(&tabs, 5), Some(1));
    assert_eq!(find_tab_idx(&tabs, 4), None);
}

#[test]
fn the_first_state_of_the_toolbar() {
    let s = ToolbarSnapshot::new_default();
    assert_eq!(s.titles, vec!["Новая вкладка".to_string()]);
    assert_eq!(s.urls, vec!["plum://newtab".to_string()]);
    assert_eq!((s.current, s.cur_url.as_str(), s.loading), (0, "", false));
}

#[test]
fn the_state_of_the_toolbar_is_that_of_the_tabs() {
    let tabs = vec![
        tab(1, "plum://newtab", "", false),
        tab(2, "https://a/", "A", true),
        tab(3, "data:text/html,x", "D", false),
    ];
    let s = sync_toolbar(&tabs, 1);
    assert_eq!(s.titles, vec!["Новая вкладка".to_string(), "A".to_string(), "D".to_string()]);
    assert_eq!(s.urls, vec![String::new(), "https://a/".to_string(), String::new()]);
    assert_eq!((s.current, s.cur_url.as_str(), s.loading), (1, "https://a/", true));
    let s = sync_toolbar(&tabs, 2);
    assert_eq!((s.current, s.cur_url.as_str(), s.loading), (2, "", false));
    let s = sync_toolbar(&tabs, 9);
    assert_eq!((s.current, s.cur_url.as_str(), s.loading), (9, "", false));
}

#[test]
fn the_script_that_gives_a_label() {
    assert_eq!(
        set_tab_title_script(12, "a\"\\\n\u{1}\u{7f}ж/\u{2028}"),
        "window.__setTabTitle(12, \"a\\\"\\\\\\n\\u0001\u{7f}ж/\u{2028}\");"
    );
    assert_eq!(
        set_tab_title_script(0, "\u{8}\t\u{c}\r\u{1f}'"),
        "window.__setTabTitle(0, \"\\b\\t\\f\\r\\u001f'\");"
    );
}

#[test]
fn text_in_scripts_is_written_as_json() {
    for c in 0u32..0x3000 {
        if let Some(c) = char::from_u32(c) {
            let text = format!("a{c}b");
            let json = serde_json::Value::from(text.as_str()).to_string();
            assert_eq!(
                set_tab_title_script(1, &text),
                format!("window.__setTabTitle(1, {json});")
            );
        }
    }
}

#[test]
fn the_script_that_gives_the_state() {
    let titles = r#"["A & <b>","Новая","x"]"#;
    let urls = r#"["https://a.b/c?d=\"",""]"#;
    let current = 1;
    let cur_url = r#""http://q/\"<>&""#;
    for loading in [false, true] {
        let expected = format!(
            r#"(function(){{
  var titles = {titles};
  var urls = {urls};
  var cur = {current};
  var url = {cur_url};
  var loading = {loading};
  function apply() {{
    if (typeof window.__setState === 'function') {{
      window.__setState(titles, urls, cur, url, loading);
      return true;
    }}
    return false;
  }}
  if (!apply()) {{
    window.__pendingState = [titles, urls, cur, url, loading];
    var tries = 0;
    (function retry() {{
      if (apply() || ++tries > 120) return;
      requestAnimationFrame(retry);
    }})();
  }}
}})();"#
        );
        assert_eq!(set_state_script(&snapshot(loading)), expected);
    }
}

#[test]
fn a_state_without_tabs_is_written_out() {
    let s = ToolbarSnapshot {
        titles: Vec::new(),
        urls: Vec::new(),
        current: 0,
        cur_url: String::new(),
        loading: false,
    };
    let script = set_state_script(&s);
    assert!(script.contains("var titles = [];"));
    assert!(script.contains("var urls = [];"));
    assert!(script.contains("var url = \"\";"));
}

#[test]
fn the_page_of_the_toolbar_on_macos() {
    let toolbar_h = 118;
    let expected = format!(
        r#"<!doctype html>
<html lang="ru">
<head>
  <meta charset="utf-8" />
  <meta name="viewport" content="width=device-width,initial-scale=1" />
  <style>
    :root {{
      --bg:#202124; --fg:#e8eaed; --mut:#9aa0a6; --b:#303134; --b2:#3c4043;
      --toolbarH:{toolbar_h}px;
    }}
    * {{ box-sizing:border-box; }}
    html, body {{ margin:0; padding:0; width:100%; height:100%; overflow:hidden; background:#202124; }}
    body {{ background:var(--bg); color:var(--fg); font:14px/1.2 system-ui,"Segoe UI",Arial; }}
    .chrome {{ height:var(--toolbarH); display:flex; flex-direction:column; }}
    .tabs-wrap {{ padding:28px 12px 0; -webkit-app-region:drag; }}
    {tab_bar_css}
    .tabs-bar {{ -webkit-app-region:no-drag; }}
    .addtab, .tab, .navbtn, input, .go {{ -webkit-app-region:no-drag; }}
    .nav-row {{ display:flex; gap:8px; align-items:center; padding:8px 12px 10px; }}
    .navbtn {{
      width:36px; height:36px; border-radius:12px; background:var(--b);
      display:grid; place-items:center; cursor:pointer; user-select:none;
      font-size:16px; flex:0 0 auto;
    }}
    .navbtn:hover {{ background:var(--b2); }}
    input {{
      flex:1; min-width:200px; padding:10px 14px; border-radius:16px;
      border:1px solid #3c4043; outline:none; background:#111; color:var(--fg);
    }}
    .go {{
      padding:10px 14px; border-radius:16px; background:var(--b);
      cursor:pointer; user-select:none; flex:0 0 auto;
    }}
    .go:hover {{ background:var(--b2); }}
  </style>
</head>
<body>
  <div class="chrome">
    <div class="tabs-wrap">
      <div class="tabs-bar">
        <div class="tab-strip" id="tab-strip"></div>
        <div class="addtab" id="addtab-inline" title="Новая вкладка">+</div>
        <div class="addtab" id="addtab-fixed" title="Новая вкладка" style="display:none">+</div>
      </div>
    </div>
    <div class="nav-row">
      <div class="navbtn" id="back" title="Назад">←</div>
      <div class="navbtn" id="forward" title="Вперёд">→</div>
      <div class="navbtn" id="reload" title="Обновить">↻</div>
      <div class="navbtn" id="devtools" title="Инструменты разработчика (F12)">&#123; &#125;</div>
      <input id="url" placeholder="{omnibox_placeholder}" autocomplete="off" spellcheck="false" />
      <div class="go" id="go">Перейти</div>
    </div>
  </div>
  <script>window.__plumBrowserIcon={browser_icon};</script>
  <script>{script}</script>
</body>
</html>"#,
        script = TOOLBAR_SCRIPT,
        tab_bar_css = TAB_BAR_CSS,
        omnibox_placeholder = OMNIBOX_PLACEHOLDER,
        browser_icon = "\"data:image/png;base64,AAAA\"",
    );
    assert_eq!(toolbar_html(Platform::MacOs, "0.1.0", ICON), expected);
}

#[test]
fn the_page_of_the_toolbar_elsewhere() {
    let toolbar_h = 152;
    let expected = format!(
        r#"<!doctype html>
<html lang="ru">
<head>
  <meta charset="utf-8" />
  <meta name="viewport" content="width=device-width,initial-scale=1" />
  <style>
    :root {{
      --bg:#202124; --fg:#e8eaed; --mut:#9aa0a6; --b:#303134; --b2:#3c4043; --danger:#5b2b2b;
      --toolbarH:{toolbar_h}px; --titlebarH:44px;
    }}
    * {{ box-sizing:border-box; }}
    html, body {{ margin:0; padding:0; width:100%; height:100%; overflow:hidden; background:#202124; }}
    body {{ background:var(--bg); color:var(--fg); font:14px/1.2 system-ui,"Segoe UI",Arial; }}
    .chrome {{ height:var(--toolbarH); display:flex; flex-direction:column; }}
    .titlebar {{
      height:var(--titlebarH); display:flex; align-items:center; gap:10px;
      padding:0 12px; border-bottom:1px solid #2b2c2f;
      user-select:none; -webkit-user-select:none;
    }}
    .drag {{ flex:1; height:100%; display:flex; align-items:center; color:var(--mut); font-weight:700; cursor:default; }}
    .winbtns {{ display:flex; gap:8px; }}
    .wbtn {{
      width:40px; height:26px; border-radius:10px; background:var(--b);
      display:grid; place-items:center; cursor:pointer; user-select:none;
    }}
    .wbtn:hover {{ background:var(--b2); }}
    .wbtn.close {{ background:var(--danger); }}
    .toolbar {{ flex:1; display:flex; flex-direction:column; gap:8px; padding:8px 12px 10px; min-height:0; overflow:visible; }}
    .tabs-bar {{ flex-shrink:0; }}
    {tab_bar_css}
    .row {{ display:flex; gap:8px; align-items:center; }}
    .navbtn {{
      width:36px; height:36px; border-radius:12px; background:var(--b);
      display:grid; place-items:center; cursor:pointer; user-select:none;
      font-size:16px; flex:0 0 auto;
    }}
    .navbtn:hover {{ background:var(--b2); }}
    input {{
      flex:1; min-width:200px; padding:10px 14px; border-radius:16px;
      border:1px solid #3c4043; outline:none; background:#111; color:var(--fg);
    }}
    .go {{ padding:10px 14px; border-radius:16px; background:var(--b); cursor:pointer; user-select:none; flex:0 0 auto; }}
    .go:hover {{ background:var(--b2); }}
  </style>
</head>
<body>
  <div class="chrome">
    <div class="titlebar">
      <div class="drag" id="drag">{version}</div>
      <div class="winbtns">
        <div class="wbtn" id="min" title="Свернуть">—</div>
        <div class="wbtn" id="max" title="Развернуть">□</div>
        <div class="wbtn close" id="close" title="Закрыть">×</div>
      </div>
    </div>
    <div class="toolbar">
      <div class="tabs-bar">
        <div class="tab-strip" id="tab-strip"></div>
        <div class="addtab" id="addtab-inline" title="Новая вкладка">+</div>
        <div class="addtab" id="addtab-fixed" title="Новая вкладка" style="display:none">+</div>
      </div>
      <div class="row">
        <div class="navbtn" id="back" title="Назад">←</div>
        <div class="navbtn" id="forward" title="Вперёд">→</div>
        <div class="navbtn" id="reload" title="Обновить">↻</div>
        <div class="navbtn" id="devtools" title="Инструменты разработчика (F12)">&#123; &#125;</div>
        <input id="url" placeholder="{omnibox_placeholder}" autocomplete="off" spellcheck="false" />
        <div class="go" id="go">Перейти</div>
      </div>
    </div>
  </div>
  <script>window.__plumBrowserIcon={browser_icon};</script>
  <script>{script}</script>
</body>
</html>"#,
        script = TOOLBAR_SCRIPT,
        tab_bar_css = format!("{TAB_BAR_CSS}\n{WINDOWS_TAB_BAR_CSS}"),
        version = "PlumBrowser v0.1.0",
        omnibox_placeholder = OMNIBOX_PLACEHOLDER,
        browser_icon = "\"data:image/png;base64,AAAA\"",
    );
    assert_eq!(toolbar_html(Platform::Other, "0.1.0", ICON), expected);
    assert_eq!(toolbar_html(Platform::Windows, "0.1.0", ICON), expected);
}

#[test]
fn the_rendered_page_of_the_toolbar() {
    let toolbar_h = 152;
    let version = "PlumBrowser v0.1.0";
    let cur_url_attr = "http://q/&quot;&lt;&gt;&amp;";
    let tabs_html = [
        r#"<div class="tab" onclick="window.location.replace('plum://ipc/switch_tab%3A0')">"#,
        r#"<img class="tab-icon" src="http://a.b/favicon.ico" alt="" referrerpolicy="no-referrer" />"#,
        r#"<div class="tab-title">A &amp; &lt;b&gt;</div>"#,
        r#"<div class="tab-close" onclick="event.stopPropagation();window.location.replace('plum://ipc/close_tab%3A0')">×</div></div>"#,
        r#"<div class="tab active" onclick="window.location.replace('plum://ipc/switch_tab%3A1')">"#,
        r#"<img class="tab-icon" src="data:image/png;base64,AAAA" alt="" referrerpolicy="no-referrer" />"#,
        r#"<div class="tab-title">Новая</div>"#,
        r#"<div class="tab-close" onclick="event.stopPropagation();window.location.replace('plum://ipc/close_tab%3A1')">×</div></div>"#,
        r#"<div class="tab" onclick="window.location.replace('plum://ipc/switch_tab%3A2')">"#,
        r#"<img class="tab-icon" src="data:image/png;base64,AAAA" alt="" referrerpolicy="no-referrer" />"#,
        r#"<div class="tab-title">x</div>"#,
        r#"<div class="tab-close" onclick="event.stopPropagation();window.location.replace('plum://ipc/close_tab%3A2')">×</div></div>"#,
    ]
    .concat();
    let new_tab = "plum://ipc/new_tab%3A";
    let win_drag = "plum://ipc/win_drag";
    let win_min = "plum://ipc/win_min";
    let win_max = "plum://ipc/win_max_toggle";
    let win_close = "plum://ipc/win_close";
    let nav_back = "plum://ipc/nav_back";
    let nav_forward = "plum://ipc/nav_forward";
    let nav_devtools = "plum://ipc/nav_devtools";
    for loading in [false, true] {
        let (nav_reload_label, nav_reload_title, nav_reload_action) = if loading {
            ("✕", "Остановить загрузку", "plum://ipc/nav_stop")
        } else {
            ("↻", "Обновить", "plum://ipc/nav_reload")
        };
        let expected = format!(
            r#"<!doctype html>
<html lang="ru">
<head>
  <meta charset="utf-8" />
  <meta name="viewport" content="width=device-width,initial-scale=1" />
  <style>
    :root {{
      --bg:#202124; --fg:#e8eaed; --mut:#9aa0a6; --b:#303134; --b2:#3c4043; --danger:#5b2b2b;
      --toolbarH:{toolbar_h}px; --titlebarH:44px;
    }}
    * {{ box-sizing:border-box; }}
    html, body {{ margin:0; padding:0; width:100%; height:100%; overflow:hidden; background:#202124; }}
    body {{ background:var(--bg); color:var(--fg); font:14px/1.2 system-ui,"Segoe UI",Arial; }}
    .chrome {{ height:var(--toolbarH); display:flex; flex-direction:column; }}
    .titlebar {{
      height:var(--titlebarH); display:flex; align-items:center; gap:10px;
      padding:0 12px; border-bottom:1px solid #2b2c2f;
      user-select:none; -webkit-user-select:none;
    }}
    .drag {{ flex:1; height:100%; display:flex; align-items:center; color:var(--mut); font-weight:700; cursor:default; }}
    .winbtns {{ display:flex; gap:8px; }}
    .wbtn {{
      width:40px; height:26px; border-radius:10px; background:var(--b);
      display:grid; place-items:center; cursor:pointer; user-select:none;
    }}
    .wbtn:hover {{ background:var(--b2); }}
    .wbtn.close {{ background:var(--danger); }}
    .toolbar {{ flex:1; display:flex; flex-direction:column; gap:8px; padding:8px 12px 10px; min-height:0; overflow:visible; }}
    .tabs-bar {{ flex-shrink:0; }}
    {tab_bar_css}
    .row {{ display:flex; gap:8px; align-items:center; }}
    .navbtn {{
      width:36px; height:36px; border-radius:12px; background:var(--b);
      display:grid; place-items:center; cursor:pointer; user-select:none;
      font-size:16px; flex:0 0 auto;
    }}
    .navbtn:hover {{ background:var(--b2); }}
    input {{
      flex:1; min-width:200px; padding:10px 14px; border-radius:16px;
      border:1px solid #3c4043; outline:none; background:#111; color:var(--fg);
    }}
    .go {{ padding:10px 14px; border-radius:16px; background:var(--b); cursor:pointer; user-select:none; flex:0 0 auto; }}
    .go:hover {{ background:var(--b2); }}
  </style>
</head>
<body>
  <div class="chrome">
    <div class="titlebar">
      <div class="drag" onpointerdown="window.location.replace('{win_drag}')">{version}</div>
      <div class="winbtns">
        <div class="wbtn" title="Свернуть" onclick="window.location.replace('{win_min}')">—</div>
        <div class="wbtn" title="Развернуть" onclick="window.location.replace('{win_max}')">□</div>
        <div class="wbtn close" title="Закрыть" onclick="window.location.replace('{win_close}')">×</div>
      </div>
    </div>
    <div class="toolbar">
      <div class="tabs-bar">
        <div class="tab-strip" id="tab-strip">{tabs_html}</div>
        <div class="addtab" title="Новая вкладка" onclick="window.location.replace('{new_tab}')">+</div>
      </div>
      <div class="row">
        <div class="navbtn" title="Назад" onclick="window.location.replace('{nav_back}')">←</div>
        <div class="navbtn" title="Вперёд" onclick="window.location.replace('{nav_forward}')">→</div>
        <div class="navbtn" title="{nav_reload_title}" onclick="window.location.replace('{nav_reload_action}')">{nav_reload_label}</div>
        <div class="navbtn" title="Инструменты разработчика (F12)" onclick="window.location.replace('{nav_devtools}')">&#123; &#125;</div>
        <input id="url" value="{cur_url_attr}" placeholder="{omnibox_placeholder}" autocomplete="off" spellcheck="false"
          onkeydown="if(event.key==='Enter')window.location.replace('plum://ipc/load:'+encodeURIComponent(this.value))" />
        <div class="go" onclick="window.location.replace('plum://ipc/load:'+encodeURIComponent(document.getElementById('url').value))">Перейти</div>
      </div>
    </div>
  </div>
  <script>{tab_layout_script}</script>
</body>
</html>"#,
            tab_bar_css = format!("{TAB_BAR_CSS}\n{WINDOWS_TAB_BAR_CSS}"),
            omnibox_placeholder = OMNIBOX_PLACEHOLDER,
            tab_layout_script = WINDOWS_TAB_LAYOUT_SCRIPT,
        );
        let s = snapshot(loading);
        assert_eq!(windows_toolbar_html(&s, "0.1.0", ICON), expected);
        assert_eq!(windows_toolbar_data_url(&s, "0.1.0", ICON), document_url(&expected));
    }
}

#[test]
fn the_toolbar_page_is_chosen_by_platform() {
    let s = snapshot(true);
    assert_eq!(
        served_toolbar_html(Platform::Windows, &s, "0.1.0", ICON),
        windows_toolbar_html(&s, "0.1.0", ICON)
    );
    for p in [Platform::MacOs, Platform::Other] {
        assert_eq!(served_toolbar_html(p, &s, "0.1.0", ICON), toolbar_html(p, "0.1.0", ICON));
    }
}
