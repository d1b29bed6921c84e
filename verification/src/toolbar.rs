//! The toolbar: the state that it shows, and its pages and scripts.

use crate::address::{
    displayed_address, document_address, document_url, favicon_address, ipc_nav_url,
    logical_address, logical_tab_url, message_address, omnibox_display_url, tab_favicon_url,
    NEWTAB_URL,
};
use crate::encoding::{html_escape, html_escaped};
use crate::json::{json_bool, json_list, json_quoted, json_string, json_string_list};
use crate::pages;
use crate::platform::{toolbar_height, toolbar_pixels, version_label, Platform};
use crate::tab::{label_text, tab_label, tab_models, Tab, TabModel};
use crate::text::{copy_of, decimal, decimal_text, texts};
use vstd::prelude::*;

verus! {

/// The state that the toolbar shows.
#[derive(Clone, Debug)]
pub struct ToolbarSnapshot {
    pub titles: Vec<String>,
    pub urls: Vec<String>,
    pub current: usize,
    pub cur_url: String,
    pub loading: bool,
}

/// The state that the toolbar shows, with its text.
#[verifier::ext_equal]
pub ghost struct SnapshotModel {
    pub titles: Seq<Seq<char>>,
    pub urls: Seq<Seq<char>>,
    pub current: int,
    pub cur_url: Seq<char>,
    pub loading: bool,
}

impl View for ToolbarSnapshot {
    type V = SnapshotModel;

    open spec fn view(&self) -> SnapshotModel {
        SnapshotModel {
            titles: texts(self.titles@),
            urls: texts(self.urls@),
            current: self.current as int,
            cur_url: self.cur_url@,
            loading: self.loading,
        }
    }
}

/// The state of the toolbar before the first tab is there.
pub open spec fn default_snapshot() -> SnapshotModel {
    SnapshotModel {
        titles: seq![pages::NEWTAB_TITLE@],
        urls: seq![NEWTAB_URL@],
        current: 0,
        cur_url: Seq::empty(),
        loading: false,
    }
}

/// The address that the toolbar gets for a tab.
pub open spec fn shown_address(t: TabModel) -> Seq<char> {
    displayed_address(logical_address(t.url))
}

/// The state of the toolbar for these tabs: a label and an address for each, the address
/// and the progress of the current one.
#[verifier::opaque]
pub open spec fn snapshot_of(tabs: Seq<TabModel>, current: int) -> SnapshotModel {
    SnapshotModel {
        titles: tabs.map_values(|t: TabModel| label_text(t)),
        urls: tabs.map_values(|t: TabModel| shown_address(t)),
        current,
        cur_url: if 0 <= current < tabs.len() {
            displayed_address(tabs[current].url)
        } else {
            Seq::empty()
        },
        loading: 0 <= current < tabs.len() && tabs[current].loading,
    }
}

impl ToolbarSnapshot {
    /// The state of the toolbar before the first tab is there.
    pub fn new_default() -> (r: ToolbarSnapshot)
        ensures
            r@ == default_snapshot(),
    {
        let mut titles: Vec<String> = Vec::new();
        titles.push(copy_of(pages::NEWTAB_TITLE));
        let mut urls: Vec<String> = Vec::new();
        urls.push(copy_of(NEWTAB_URL));
        let r: ToolbarSnapshot = ToolbarSnapshot {
            titles,
            urls,
            current: 0,
            cur_url: String::new(),
            loading: false,
        };
        assert(r@ =~~= default_snapshot());
        r
    }
}

/// The state of the toolbar for these tabs.
pub fn sync_toolbar(tabs: &Vec<Tab>, current: usize) -> (r: ToolbarSnapshot)
    ensures
        r@ == snapshot_of(tab_models(tabs@), current as int),
{
    proof {
        reveal(snapshot_of);
    }
    let mut titles: Vec<String> = Vec::new();
    let mut urls: Vec<String> = Vec::new();
    let mut i: usize = 0;
    while i < tabs.len()
        invariant
            i <= tabs@.len(),
            titles@.len() == i,
            urls@.len() == i,
            forall|j: int| 0 <= j < i ==> (#[trigger] titles@[j])@ == label_text(tabs@[j]@),
            forall|j: int| 0 <= j < i ==> (#[trigger] urls@[j])@ == shown_address(tabs@[j]@),
        decreases tabs.len() - i,
    {
        let kept: String = logical_tab_url(tabs[i].url.as_str());
        titles.push(tab_label(&tabs[i]));
        urls.push(omnibox_display_url(kept.as_str()));
        i += 1;
    }
    let (cur_url, loading): (String, bool) = if current < tabs.len() {
        (omnibox_display_url(tabs[current].url.as_str()), tabs[current].loading)
    } else {
        (String::new(), false)
    };
    let r: ToolbarSnapshot = ToolbarSnapshot { titles, urls, current, cur_url, loading };
    assert(r@ =~~= snapshot_of(tab_models(tabs@), current as int));
    r
}

// ---- scripts ----

/// The script that hands the toolbar its state.
#[verifier::opaque]
pub open spec fn state_script(s: SnapshotModel) -> Seq<char> {
    pages::SYNC_TO_TITLES@ + json_list(s.titles) + pages::SYNC_TO_URLS@ + json_list(s.urls)
        + pages::SYNC_TO_CURRENT@ + decimal_text(s.current) + pages::SYNC_TO_CUR_URL@ + json_quoted(
        s.cur_url,
    ) + pages::SYNC_TO_LOADING@ + json_bool(s.loading) + pages::SYNC_END@
}

/// The script that gives a tab of the toolbar its label.
#[verifier::opaque]
pub open spec fn title_script(index: int, label: Seq<char>) -> Seq<char> {
    "window.__setTabTitle("@ + decimal_text(index) + ", "@ + json_quoted(label) + ");"@
}

/// The script that hands the toolbar its state.
pub fn set_state_script(s: &ToolbarSnapshot) -> (r: String)
    ensures
        r@ == state_script(s@),
{
    proof {
        reveal(state_script);
    }
    let titles: String = json_string_list(&s.titles);
    let urls: String = json_string_list(&s.urls);
    let current: String = decimal(s.current);
    let cur_url: String = json_string(s.cur_url.as_str());
    let mut out: String = copy_of(pages::SYNC_TO_TITLES);
    out.append(titles.as_str());
    out.append(pages::SYNC_TO_URLS);
    out.append(urls.as_str());
    out.append(pages::SYNC_TO_CURRENT);
    out.append(current.as_str());
    out.append(pages::SYNC_TO_CUR_URL);
    out.append(cur_url.as_str());
    out.append(pages::SYNC_TO_LOADING);
    out.append(if s.loading { "true" } else { "false" });
    out.append(pages::SYNC_END);
    out
}

/// The script that gives a tab of the toolbar its label.
pub fn set_tab_title_script(index: usize, label: &str) -> (r: String)
    ensures
        r@ == title_script(index as int, label@),
{
    proof {
        reveal(title_script);
    }
    let number: String = decimal(index);
    let text: String = json_string(label);
    copy_of("window.__setTabTitle(").concat(number.as_str()).concat(", ").concat(
        text.as_str(),
    ).concat(");")
}

// ---- the page with scripts ----

/// The style of the row of tabs in a window without a frame.
pub open spec fn frameless_tab_css() -> Seq<char> {
    pages::TAB_BAR_CSS@ + "\n"@ + pages::WINDOWS_TAB_BAR_CSS@
}

/// The toolbar page that gets its state by scripts.
#[verifier::opaque]
pub open spec fn toolbar_page(platform: Platform, version: Seq<char>, icon: Seq<char>) -> Seq<char> {
    if platform == Platform::MacOs {
        pages::MAC_PAGE_TO_TOOLBAR_H@ + decimal_text(toolbar_pixels(platform))
            + pages::MAC_PAGE_TO_TAB_BAR_CSS@ + pages::TAB_BAR_CSS@
            + pages::MAC_PAGE_TO_OMNIBOX_PLACEHOLDER@ + pages::OMNIBOX_PLACEHOLDER@
            + pages::MAC_PAGE_TO_BROWSER_ICON@ + json_quoted(icon) + pages::MAC_PAGE_TO_SCRIPT@
            + pages::TOOLBAR_SCRIPT@ + pages::MAC_PAGE_END@
    } else {
        pages::BAR_PAGE_TO_TOOLBAR_H@ + decimal_text(toolbar_pixels(platform))
            + pages::BAR_PAGE_TO_TAB_BAR_CSS@ + frameless_tab_css() + pages::BAR_PAGE_TO_VERSION@ + (
        "PlumBrowser v"@ + version) + pages::BAR_PAGE_TO_OMNIBOX_PLACEHOLDER@
            + pages::OMNIBOX_PLACEHOLDER@ + pages::BAR_PAGE_TO_BROWSER_ICON@ + json_quoted(icon)
            + pages::BAR_PAGE_TO_SCRIPT@ + pages::TOOLBAR_SCRIPT@ + pages::BAR_PAGE_END@
    }
}

/// The style of the row of tabs in a window without a frame.
fn frameless_css() -> (r: String)
    ensures
        r@ == frameless_tab_css(),
{
    copy_of(pages::TAB_BAR_CSS).concat("\n").concat(pages::WINDOWS_TAB_BAR_CSS)
}

/// The toolbar page that gets its state by scripts, with the browser's icon in it.
pub fn toolbar_html(platform: Platform, version: &str, icon: &str) -> (r: String)
    ensures
        r@ == toolbar_page(platform, version@, icon@),
{
    proof {
        reveal(toolbar_page);
    }
    let height: String = decimal(toolbar_height(platform));
    let icon_text: String = json_string(icon);
    if platform == Platform::MacOs {
        let mut out: String = copy_of(pages::MAC_PAGE_TO_TOOLBAR_H);
        out.append(height.as_str());
        out.append(pages::MAC_PAGE_TO_TAB_BAR_CSS);
        out.append(pages::TAB_BAR_CSS);
        out.append(pages::MAC_PAGE_TO_OMNIBOX_PLACEHOLDER);
        out.append(pages::OMNIBOX_PLACEHOLDER);
        out.append(pages::MAC_PAGE_TO_BROWSER_ICON);
        out.append(icon_text.as_str());
        out.append(pages::MAC_PAGE_TO_SCRIPT);
        out.append(pages::TOOLBAR_SCRIPT);
        out.append(pages::MAC_PAGE_END);
        return out;
    }
    let css: String = frameless_css();
    let label: String = version_label(version);
    let mut out: String = copy_of(pages::BAR_PAGE_TO_TOOLBAR_H);
    out.append(height.as_str());
    out.append(pages::BAR_PAGE_TO_TAB_BAR_CSS);
    out.append(css.as_str());
    out.append(pages::BAR_PAGE_TO_VERSION);
    out.append(label.as_str());
    out.append(pages::BAR_PAGE_TO_OMNIBOX_PLACEHOLDER);
    out.append(pages::OMNIBOX_PLACEHOLDER);
    out.append(pages::BAR_PAGE_TO_BROWSER_ICON);
    out.append(icon_text.as_str());
    out.append(pages::BAR_PAGE_TO_SCRIPT);
    out.append(pages::TOOLBAR_SCRIPT);
    out.append(pages::BAR_PAGE_END);
    out
}

// ---- the rendered page ----

/// The link that makes a tab the current one.
pub open spec fn switch_link(i: int) -> Seq<char> {
    message_address("switch_tab:"@ + decimal_text(i))
}

/// The link that closes a tab.
pub open spec fn close_link(i: int) -> Seq<char> {
    message_address("close_tab:"@ + decimal_text(i))
}

/// The address of a tab in the state of the toolbar; nothing where it has none.
pub open spec fn snapshot_address(s: SnapshotModel, i: int) -> Seq<char> {
    if 0 <= i < s.urls.len() {
        s.urls[i]
    } else {
        Seq::empty()
    }
}

/// One tab of the rendered toolbar.
pub open spec fn tab_markup(s: SnapshotModel, icon: Seq<char>, i: int) -> Seq<char> {
    r#"<div class="tab"#@ + (if i == s.current { " active"@ } else { ""@ })
        + r#"" onclick="window.location.replace('"#@ + switch_link(i) + r#"')">"#@
        + r#"<img class="tab-icon" src=""#@ + html_escaped(
        favicon_address(snapshot_address(s, i), icon),
    ) + r#"" alt="" referrerpolicy="no-referrer" />"#@ + r#"<div class="tab-title">"#@
        + html_escaped(s.titles[i]) + "</div>"@
        + r#"<div class="tab-close" onclick="event.stopPropagation();window.location.replace('"#@
        + close_link(i) + r#"')">×</div></div>"#@
}

/// The first `n` tabs of the rendered toolbar.
pub open spec fn tabs_markup(s: SnapshotModel, icon: Seq<char>, n: int) -> Seq<char>
    decreases n,
{
    if n <= 0 {
        Seq::empty()
    } else {
        tabs_markup(s, icon, n - 1) + tab_markup(s, icon, n - 1)
    }
}

/// The sign of the button that reloads, or stops, the page.
pub open spec fn reload_sign(loading: bool) -> Seq<char> {
    if loading { "✕"@ } else { "↻"@ }
}

/// The title of the button that reloads, or stops, the page.
pub open spec fn reload_title(loading: bool) -> Seq<char> {
    if loading { "Остановить загрузку"@ } else { "Обновить"@ }
}

/// The message of the button that reloads, or stops, the page.
pub open spec fn reload_message(loading: bool) -> Seq<char> {
    if loading { "nav_stop"@ } else { "nav_reload"@ }
}

/// The toolbar page with its state rendered into it, for web views that run no scripts in
/// the toolbar.
#[verifier::opaque]
pub open spec fn rendered_page(s: SnapshotModel, version: Seq<char>, icon: Seq<char>) -> Seq<char> {
    pages::WIN_PAGE_TO_TOOLBAR_H@ + decimal_text(toolbar_pixels(Platform::Windows))
        + pages::WIN_PAGE_TO_TAB_BAR_CSS@ + frameless_tab_css() + pages::WIN_PAGE_TO_WIN_DRAG@
        + message_address("win_drag"@) + pages::WIN_PAGE_TO_VERSION@ + ("PlumBrowser v"@ + version)
        + pages::WIN_PAGE_TO_WIN_MIN@ + message_address("win_min"@) + pages::WIN_PAGE_TO_WIN_MAX@
        + message_address("win_max_toggle"@) + pages::WIN_PAGE_TO_WIN_CLOSE@ + message_address(
        "win_close"@,
    ) + pages::WIN_PAGE_TO_TABS_HTML@ + tabs_markup(s, icon, s.titles.len() as int)
        + pages::WIN_PAGE_TO_NEW_TAB@ + message_address("new_tab:"@) + pages::WIN_PAGE_TO_NAV_BACK@
        + message_address("nav_back"@) + pages::WIN_PAGE_TO_NAV_FORWARD@ + message_address(
        "nav_forward"@,
    ) + pages::WIN_PAGE_TO_NAV_RELOAD_TITLE@ + reload_title(s.loading)
        + pages::WIN_PAGE_TO_NAV_RELOAD_ACTION@ + message_address(reload_message(s.loading))
        + pages::WIN_PAGE_TO_NAV_RELOAD_LABEL@ + reload_sign(s.loading)
        + pages::WIN_PAGE_TO_NAV_DEVTOOLS@ + message_address("nav_devtools"@)
        + pages::WIN_PAGE_TO_CUR_URL_ATTR@ + html_escaped(s.cur_url)
        + pages::WIN_PAGE_TO_OMNIBOX_PLACEHOLDER@ + pages::OMNIBOX_PLACEHOLDER@
        + pages::WIN_PAGE_TO_TAB_LAYOUT_SCRIPT@ + pages::WINDOWS_TAB_LAYOUT_SCRIPT@
        + pages::WIN_PAGE_END@
}

/// One tab of the rendered toolbar.
fn render_tab(s: &ToolbarSnapshot, icon: &str, i: usize) -> (r: String)
    requires
        i < s.titles@.len(),
    ensures
        r@ == tab_markup(s@, icon@, i as int),
{
    let number: String = decimal(i);
    let switch_msg: String = copy_of("switch_tab:").concat(number.as_str());
    let close_msg: String = copy_of("close_tab:").concat(number.as_str());
    let switch_to: String = ipc_nav_url(switch_msg.as_str());
    let close: String = ipc_nav_url(close_msg.as_str());
    let title: String = html_escape(s.titles[i].as_str());
    let page_url: &str = if i < s.urls.len() {
        s.urls[i].as_str()
    } else {
        ""
    };
    proof {
        reveal_strlit("");
        assert(""@ =~= Seq::<char>::empty());
        assert(page_url@ == snapshot_address(s@, i as int));
    }
    let favicon: String = tab_favicon_url(page_url, icon);
    let icon_url: String = html_escape(favicon.as_str());
    let mut out: String = copy_of(r#"<div class="tab"#);
    out.append(if i == s.current { " active" } else { "" });
    out.append(r#"" onclick="window.location.replace('"#);
    out.append(switch_to.as_str());
    out.append(r#"')">"#);
    out.append(r#"<img class="tab-icon" src=""#);
    out.append(icon_url.as_str());
    out.append(r#"" alt="" referrerpolicy="no-referrer" />"#);
    out.append(r#"<div class="tab-title">"#);
    out.append(title.as_str());
    out.append("</div>");
    out.append(r#"<div class="tab-close" onclick="event.stopPropagation();window.location.replace('"#);
    out.append(close.as_str());
    out.append(r#"')">×</div></div>"#);
    out
}

/// The tabs of the rendered toolbar.
fn render_tabs(s: &ToolbarSnapshot, icon: &str) -> (r: String)
    ensures
        r@ == tabs_markup(s@, icon@, s.titles@.len() as int),
{
    let mut out: String = String::new();
    let mut i: usize = 0;
    while i < s.titles.len()
        invariant
            i <= s.titles@.len(),
            out@ == tabs_markup(s@, icon@, i as int),
        decreases s.titles.len() - i,
    {
        let tab: String = render_tab(s, icon, i);
        out.append(tab.as_str());
        i += 1;
    }
    out
}

/// Appends the link that carries a message.
fn append_link(out: &mut String, msg: &str)
    ensures
        final(out)@ == old(out)@ + message_address(msg@),
{
    let link: String = ipc_nav_url(msg);
    out.append(link.as_str());
}

/// The toolbar page with its state rendered into it. Its tabs and buttons are links that
/// carry messages.
pub fn windows_toolbar_html(s: &ToolbarSnapshot, version: &str, icon: &str) -> (r: String)
    ensures
        r@ == rendered_page(s@, version@, icon@),
{
    proof {
        reveal(rendered_page);
    }
    let height: String = decimal(toolbar_height(Platform::Windows));
    let css: String = frameless_css();
    let label: String = version_label(version);
    let tabs: String = render_tabs(s, icon);
    let cur_url: String = html_escape(s.cur_url.as_str());
    let mut out: String = copy_of(pages::WIN_PAGE_TO_TOOLBAR_H);
    out.append(height.as_str());
    out.append(pages::WIN_PAGE_TO_TAB_BAR_CSS);
    out.append(css.as_str());
    out.append(pages::WIN_PAGE_TO_WIN_DRAG);
    append_link(&mut out, "win_drag");
    out.append(pages::WIN_PAGE_TO_VERSION);
    out.append(label.as_str());
    out.append(pages::WIN_PAGE_TO_WIN_MIN);
    append_link(&mut out, "win_min");
    out.append(pages::WIN_PAGE_TO_WIN_MAX);
    append_link(&mut out, "win_max_toggle");
    out.append(pages::WIN_PAGE_TO_WIN_CLOSE);
    append_link(&mut out, "win_close");
    out.append(pages::WIN_PAGE_TO_TABS_HTML);
    out.append(tabs.as_str());
    out.append(pages::WIN_PAGE_TO_NEW_TAB);
    append_link(&mut out, "new_tab:");
    out.append(pages::WIN_PAGE_TO_NAV_BACK);
    append_link(&mut out, "nav_back");
    out.append(pages::WIN_PAGE_TO_NAV_FORWARD);
    append_link(&mut out, "nav_forward");
    out.append(pages::WIN_PAGE_TO_NAV_RELOAD_TITLE);
    out.append(if s.loading { "Остановить загрузку" } else { "Обновить" });
    out.append(pages::WIN_PAGE_TO_NAV_RELOAD_ACTION);
    append_link(&mut out, if s.loading { "nav_stop" } else { "nav_reload" });
    out.append(pages::WIN_PAGE_TO_NAV_RELOAD_LABEL);
    out.append(if s.loading { "✕" } else { "↻" });
    out.append(pages::WIN_PAGE_TO_NAV_DEVTOOLS);
    append_link(&mut out, "nav_devtools");
    out.append(pages::WIN_PAGE_TO_CUR_URL_ATTR);
    out.append(cur_url.as_str());
    out.append(pages::WIN_PAGE_TO_OMNIBOX_PLACEHOLDER);
    out.append(pages::OMNIBOX_PLACEHOLDER);
    out.append(pages::WIN_PAGE_TO_TAB_LAYOUT_SCRIPT);
    out.append(pages::WINDOWS_TAB_LAYOUT_SCRIPT);
    out.append(pages::WIN_PAGE_END);
    out
}

/// The toolbar page that is served: on Windows the one with its state rendered into it,
/// elsewhere the one that gets its state by scripts.
pub open spec fn served_toolbar(
    platform: Platform,
    s: SnapshotModel,
    version: Seq<char>,
    icon: Seq<char>,
) -> Seq<char> {
    if platform == Platform::Windows {
        rendered_page(s, version, icon)
    } else {
        toolbar_page(platform, version, icon)
    }
}

/// The toolbar page that is served.
pub fn served_toolbar_html(
    platform: Platform,
    s: &ToolbarSnapshot,
    version: &str,
    icon: &str,
) -> (r: String)
    ensures
        r@ == served_toolbar(platform, s@, version@, icon@),
{
    if platform == Platform::Windows {
        windows_toolbar_html(s, version, icon)
    } else {
        toolbar_html(platform, version, icon)
    }
}

/// The rendered toolbar page as an address.
pub fn windows_toolbar_data_url(s: &ToolbarSnapshot, version: &str, icon: &str) -> (r: String)
    ensures
        r@ == document_address(rendered_page(s@, version@, icon@)),
{
    let html: String = windows_toolbar_html(s, version, icon);
    document_url(html.as_str())
}

} // verus!
