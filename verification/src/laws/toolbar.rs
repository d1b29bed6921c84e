//! What the toolbar shows.

use crate::address::{favicon_address, internal_newtab, law_newtab_is_internal, message_address};
use crate::encoding::html_escaped;
use crate::json::{json_list, json_quoted};
use crate::laws::address::lemma_at;
use crate::laws::text::{law_remove_absent, law_remove_first};
use crate::pages;
use crate::platform::Platform;
use crate::tab::{label_text, TabModel};
use crate::text::{decimal_text, occurs, occurs_at, without};
use crate::toolbar::{
    close_link, default_snapshot, rendered_page, snapshot_of, state_script, switch_link,
    tabs_markup, title_script, toolbar_page, SnapshotModel,
};
use vstd::prelude::*;

verus! {

// ---- labels and state ----

/// The label of a tab is its title where it has one; else that of a new tab for a page of
/// the shell and for a document written out in its address; else its address without the
/// schemes of the web in it.
pub proof fn law_label(t: TabModel)
    ensures
        t.title.len() > 0 ==> label_text(t) == t.title,
        t.title.len() == 0 && ("plum://"@.is_prefix_of(t.url) || "data:text/html"@.is_prefix_of(
            t.url,
        )) ==> label_text(t) == "Новая вкладка"@,
        t.title.len() == 0 && !"plum://"@.is_prefix_of(t.url) && !"data:text/html"@.is_prefix_of(
            t.url,
        ) ==> label_text(t) == without(without(t.url, "https://"@), "http://"@),
{
}

/// A tab without a title at an address of the web is labelled with what follows the scheme.
pub proof fn law_label_of_web_page(t: TabModel, rest: Seq<char>)
    requires
        t.title.len() == 0,
        t.url == "https://"@ + rest || t.url == "http://"@ + rest,
        !occurs(rest, "https://"@),
        !occurs(rest, "http://"@),
    ensures
        label_text(t) == rest,
{
    reveal_strlit("https://");
    reveal_strlit("http://");
    reveal_strlit("plum://");
    reveal_strlit("data:text/html");
    let e = Seq::<char>::empty();
    assert(e + "https://"@ + rest =~= "https://"@ + rest);
    assert(e + "http://"@ + rest =~= "http://"@ + rest);
    law_remove_first(e, "https://"@, rest);
    law_remove_first(e, "http://"@, rest);
    law_remove_absent(rest, "https://"@);
    law_remove_absent(rest, "http://"@);
    let plain = "http://"@ + rest;
    if occurs(plain, "https://"@) {
        let i = choose|i: int| occurs_at(plain, "https://"@, i);
        let found = plain.subrange(i, i + 8);
        assert(found[0] == plain[i] && found[4] == plain[i + 4]);
        if i >= 7 {
            assert(rest.subrange(i - 7, i + 1) =~= found);
            assert(occurs_at(rest, "https://"@, i - 7));
        }
    }
    law_remove_absent(plain, "https://"@);
    assert(e + rest =~= rest);
    assert(t.url[0] == 'h');
    lemma_at(t.url, "plum://"@, 0);
    lemma_at(t.url, "data:text/html"@, 0);
}

/// The toolbar shows a label and an address for every tab, in their order: the address of
/// the tab, or nothing for the new-tab page. It shows the address and the progress of the
/// current tab.
pub proof fn law_snapshot(tabs: Seq<TabModel>, current: int, i: int)
    ensures
        ({
            let s = snapshot_of(tabs, current);
            &&& s.titles.len() == tabs.len()
            &&& s.urls.len() == tabs.len()
            &&& s.current == current
            &&& 0 <= i < tabs.len() ==> s.titles[i] == label_text(tabs[i])
            &&& 0 <= i < tabs.len() && internal_newtab(tabs[i].url) ==> s.urls[i].len() == 0
            &&& 0 <= i < tabs.len() && !internal_newtab(tabs[i].url) ==> s.urls[i] == tabs[i].url
            &&& 0 <= current < tabs.len() ==> s.loading == tabs[current].loading && s.cur_url
                == s.urls[current]
            &&& !(0 <= current < tabs.len()) ==> !s.loading && s.cur_url.len() == 0
        }),
        default_snapshot().titles == seq!["Новая вкладка"@],
        default_snapshot().urls == seq!["plum://newtab"@],
        default_snapshot().current == 0 && default_snapshot().cur_url.len() == 0
            && !default_snapshot().loading,
{
    reveal(snapshot_of);
    law_newtab_is_internal();
}

// ---- scripts ----

/// The script for the state hands over the labels, the addresses, the number of the current
/// tab, its address and its progress, each in full.
pub proof fn law_state_script(s: SnapshotModel)
    ensures
        state_script(s) == "(function(){\n  var titles = "@ + json_list(s.titles)
            + ";\n  var urls = "@ + json_list(s.urls) + ";\n  var cur = "@ + decimal_text(s.current)
            + ";\n  var url = "@ + json_quoted(s.cur_url) + ";\n  var loading = "@ + (if s.loading {
            "true"@
        } else {
            "false"@
        }) + pages::SYNC_END@,
{
    reveal(state_script);
    lemma_state_texts();
}

/// The texts between the values of the script.
proof fn lemma_state_texts()
    ensures
        pages::SYNC_TO_TITLES@ == "(function(){\n  var titles = "@,
        pages::SYNC_TO_URLS@ == ";\n  var urls = "@,
        pages::SYNC_TO_CURRENT@ == ";\n  var cur = "@,
        pages::SYNC_TO_CUR_URL@ == ";\n  var url = "@,
        pages::SYNC_TO_LOADING@ == ";\n  var loading = "@,
{
}

/// The script for a label names the tab by its place and hands over the label in full.
pub proof fn law_title_script(i: int, label: Seq<char>)
    ensures
        title_script(i, label) == "window.__setTabTitle("@ + decimal_text(i) + ", "@ + json_quoted(
            label,
        ) + ");"@,
{
    reveal(title_script);
}

// ---- pages ----

/// The page with scripts is the fixed text of its platform with its height, its style, the
/// version, the text of the empty address bar, the icon and the script put in, whatever the
/// version and the icon are. On macOS the version is left to the frame of the window.
pub proof fn law_toolbar_page(platform: Platform, version: Seq<char>, icon: Seq<char>)
    ensures
        platform == Platform::MacOs ==> toolbar_page(platform, version, icon)
            == pages::MAC_PAGE_TO_TOOLBAR_H@ + decimal_text(118) + pages::MAC_PAGE_TO_TAB_BAR_CSS@
            + pages::TAB_BAR_CSS@ + pages::MAC_PAGE_TO_OMNIBOX_PLACEHOLDER@
            + pages::OMNIBOX_PLACEHOLDER@ + pages::MAC_PAGE_TO_BROWSER_ICON@ + json_quoted(icon)
            + pages::MAC_PAGE_TO_SCRIPT@ + pages::TOOLBAR_SCRIPT@ + pages::MAC_PAGE_END@,
        platform != Platform::MacOs ==> toolbar_page(platform, version, icon)
            == pages::BAR_PAGE_TO_TOOLBAR_H@ + decimal_text(152) + pages::BAR_PAGE_TO_TAB_BAR_CSS@
            + (pages::TAB_BAR_CSS@ + "\n"@ + pages::WINDOWS_TAB_BAR_CSS@)
            + pages::BAR_PAGE_TO_VERSION@ + ("PlumBrowser v"@ + version)
            + pages::BAR_PAGE_TO_OMNIBOX_PLACEHOLDER@ + pages::OMNIBOX_PLACEHOLDER@
            + pages::BAR_PAGE_TO_BROWSER_ICON@ + json_quoted(icon) + pages::BAR_PAGE_TO_SCRIPT@
            + pages::TOOLBAR_SCRIPT@ + pages::BAR_PAGE_END@,
{
    reveal(toolbar_page);
}

/// What the links of a rendered tab carry.
pub proof fn law_tab_links(i: int)
    ensures
        switch_link(i) == message_address("switch_tab:"@ + decimal_text(i)),
        close_link(i) == message_address("close_tab:"@ + decimal_text(i)),
{
}

/// Each further tab of the rendered page has its icon, its label, a link that switches to it
/// and one that closes it, with nothing of them that HTML would take for markup; the current
/// one, and no other, is marked.
pub proof fn law_rendered_tab(s: SnapshotModel, icon: Seq<char>, i: int)
    requires
        0 <= i,
    ensures
        tabs_markup(s, icon, 0).len() == 0,
        tabs_markup(s, icon, i + 1) == tabs_markup(s, icon, i) + (
        r#"<div class="tab"#@ + (if i == s.current {
            " active"@
        } else {
            ""@
        }) + r#"" onclick="window.location.replace('"#@ + switch_link(i) + r#"')">"#@
            + r#"<img class="tab-icon" src=""#@ + html_escaped(
            favicon_address(
                if i < s.urls.len() {
                    s.urls[i]
                } else {
                    Seq::empty()
                },
                icon,
            ),
        ) + r#"" alt="" referrerpolicy="no-referrer" />"#@ + r#"<div class="tab-title">"#@
            + html_escaped(s.titles[i]) + "</div>"@
            + r#"<div class="tab-close" onclick="event.stopPropagation();window.location.replace('"#@
            + close_link(i) + r#"')">×</div></div>"#@),
{
}

/// The rendered page holds all its tabs, the address of the current page, and a link for
/// each button; the button of the progress stops a page that loads and reloads any other.
pub proof fn law_rendered_page(s: SnapshotModel, version: Seq<char>, icon: Seq<char>)
    ensures
        rendered_page(s, version, icon) == pages::WIN_PAGE_TO_TOOLBAR_H@ + decimal_text(152)
            + pages::WIN_PAGE_TO_TAB_BAR_CSS@ + (pages::TAB_BAR_CSS@ + "\n"@
            + pages::WINDOWS_TAB_BAR_CSS@) + pages::WIN_PAGE_TO_WIN_DRAG@ + message_address(
            "win_drag"@,
        ) + pages::WIN_PAGE_TO_VERSION@ + ("PlumBrowser v"@ + version)
            + pages::WIN_PAGE_TO_WIN_MIN@ + message_address("win_min"@)
            + pages::WIN_PAGE_TO_WIN_MAX@ + message_address("win_max_toggle"@)
            + pages::WIN_PAGE_TO_WIN_CLOSE@ + message_address("win_close"@)
            + pages::WIN_PAGE_TO_TABS_HTML@ + tabs_markup(s, icon, s.titles.len() as int)
            + pages::WIN_PAGE_TO_NEW_TAB@ + message_address("new_tab:"@)
            + pages::WIN_PAGE_TO_NAV_BACK@ + message_address("nav_back"@)
            + pages::WIN_PAGE_TO_NAV_FORWARD@ + message_address("nav_forward"@)
            + pages::WIN_PAGE_TO_NAV_RELOAD_TITLE@ + (if s.loading {
            "Остановить загрузку"@
        } else {
            "Обновить"@
        }) + pages::WIN_PAGE_TO_NAV_RELOAD_ACTION@ + message_address(
            if s.loading {
                "nav_stop"@
            } else {
                "nav_reload"@
            },
        ) + pages::WIN_PAGE_TO_NAV_RELOAD_LABEL@ + (if s.loading {
            "✕"@
        } else {
            "↻"@
        }) + pages::WIN_PAGE_TO_NAV_DEVTOOLS@ + message_address("nav_devtools"@)
            + pages::WIN_PAGE_TO_CUR_URL_ATTR@ + html_escaped(s.cur_url)
            + pages::WIN_PAGE_TO_OMNIBOX_PLACEHOLDER@ + pages::OMNIBOX_PLACEHOLDER@
            + pages::WIN_PAGE_TO_TAB_LAYOUT_SCRIPT@ + pages::WINDOWS_TAB_LAYOUT_SCRIPT@
            + pages::WIN_PAGE_END@,
{
    reveal(rendered_page);
}

} // verus!
