//! What holds of the browser in every state, and of its web views after every step.

pub mod address;
pub mod browser;
pub mod devtools;
pub mod encoding;
pub mod message;
pub mod platform;
pub mod text;
pub mod toolbar;

use crate::address::{
    document_address, internal_newtab, law_display_hides_documents, law_logical_is_canonical,
    law_newtab_is_internal, loaded_address, logical_address, resolved_input, NEWTAB_URL,
};
use crate::browser::{
    current_after_close, initial_model, new_tab, BrowserModel, ShellEvent, DEVTOOLS_CONNECT_MAX,
};
use crate::effect::{
    can_perform, lemma_screen_after_push, needed_view, performed, screen_after, Effect, Screen,
    TabView,
};
use crate::message::{command_of, Command, UserEvent};
use crate::platform::Platform;
use crate::tab::{label_text, lemma_tab_place, tab_place, TabModel};
use crate::toolbar::{rendered_page, snapshot_of, state_script, title_script};
use vstd::prelude::*;

verus! {

// ---- the invariant ----

/// No two tabs have the same number, and all numbers are below the next one.
pub open spec fn numbered(tabs: Seq<TabModel>, next_id: u32) -> bool {
    &&& forall|i: int, j: int|
        0 <= i < j < tabs.len() ==> (#[trigger] tabs[i]).id != (#[trigger] tabs[j]).id
    &&& forall|i: int| 0 <= i < tabs.len() ==> (#[trigger] tabs[i]).id < next_id
}

/// Every tab keeps its address in the one form for it.
pub open spec fn kept_addresses(tabs: Seq<TabModel>) -> bool {
    forall|i: int|
        0 <= i < tabs.len() ==> logical_address((#[trigger] tabs[i]).url) == tabs[i].url
}

impl BrowserModel {
    /// The docked developer tools exist on Windows only. They are looked for only while they
    /// are open and built, and are to be built only while they are open and not built.
    pub open spec fn devtools_consistent(self) -> bool {
        &&& self.connect matches Some(c) ==> self.devtools_open && self.panel && c.attempts
            < DEVTOOLS_CONNECT_MAX
        &&& self.panel_pending || self.panel_build_next ==> self.devtools_open && !self.panel
        &&& !self.on_windows() ==> !self.panel && !self.panel_pending && !self.panel_build_next
            && self.connect is None && !self.toolbar_dirty
    }

    /// What holds in every state.
    pub open spec fn well_formed(self) -> bool {
        &&& self.tabs.len() > 0 ==> self.has_current()
        &&& numbered(self.tabs, self.next_id)
        &&& kept_addresses(self.tabs)
        &&& self.devtools_consistent()
    }

    /// What holds in every state once the first tab is there: there always is a tab.
    pub open spec fn running(self) -> bool {
        self.well_formed() && self.tabs.len() > 0
    }
}

// ---- frames ----

/// To hide tabs changes nothing but the effects.
proof fn lemma_hidden_frame(m: BrowserModel, n: int)
    ensures
        m.hidden(n) == (BrowserModel { effects: m.hidden(n).effects, ..m }),
    decreases n,
{
    if n > 0 {
        lemma_hidden_frame(m, n - 1);
    }
}

/// To show and hide tabs changes nothing but the effects.
proof fn lemma_visibility_frame(m: BrowserModel, n: int)
    ensures
        m.with_visibility(n) == (BrowserModel { effects: m.with_visibility(n).effects, ..m }),
    decreases n,
{
    if n > 0 {
        lemma_visibility_frame(m, n - 1);
    }
}

/// To show the current tab keeps the tabs, and all that holds of the developer tools.
proof fn lemma_shown_frame(m: BrowserModel)
    requires
        m.devtools_consistent(),
    ensures
        m.shown().tabs == m.tabs,
        m.shown().current == m.current,
        m.shown().next_id == m.next_id,
        m.shown().platform == m.platform,
        m.shown().ipc_ready == m.ipc_ready,
        m.shown().devtools_consistent(),
{
    reveal(BrowserModel::shown);
    lemma_visibility_frame(m, m.tabs.len() as int);
}

/// To open a tab adds it after the others.
proof fn lemma_opened_frame(m: BrowserModel, url: Seq<char>)
    requires
        m.devtools_consistent(),
    ensures
        m.opened(url).tabs == m.tabs.push(new_tab(m.next_id, url)),
        m.opened(url).current == m.tabs.len() as usize,
        m.opened(url).next_id == (m.next_id + 1) as u32,
        m.opened(url).platform == m.platform,
        m.opened(url).ipc_ready == m.ipc_ready,
        m.opened(url).devtools_consistent(),
{
    reveal(BrowserModel::opened);
    lemma_hidden_frame(m, m.tabs.len() as int);
}

/// To open or close the developer tools keeps the tabs, and all that holds of the
/// developer tools.
proof fn lemma_toggled_frame(m: BrowserModel)
    requires
        m.devtools_consistent(),
    ensures
        m.toggled().tabs == m.tabs,
        m.toggled().current == m.current,
        m.toggled().next_id == m.next_id,
        m.toggled().platform == m.platform,
        m.toggled().ipc_ready == m.ipc_ready,
        m.toggled().devtools_consistent(),
{
    reveal(BrowserModel::toggled);
}

// ---- every step keeps the invariant ----

/// A new tab takes the next number.
proof fn lemma_opened(m: BrowserModel, url: Seq<char>)
    requires
        m.well_formed(),
        m.next_id < u32::MAX,
        m.tabs.len() < usize::MAX,
    ensures
        m.opened(url).running(),
        m.opened(url).next_id == m.next_id + 1,
        m.opened(url).tabs.len() == m.tabs.len() + 1,
        m.opened(url).platform == m.platform,
        m.opened(url).ipc_ready == m.ipc_ready,
{
    lemma_opened_frame(m, url);
    law_logical_is_canonical(url);
}

/// A tab that stays in its place keeps its number.
proof fn lemma_with_tab(m: BrowserModel, i: int, t: TabModel)
    requires
        m.running(),
        0 <= i < m.tabs.len(),
        t.id == m.tabs[i].id,
        logical_address(t.url) == t.url,
    ensures
        m.with_tab(i, t).running(),
        m.with_tab(i, t).tabs.len() == m.tabs.len(),
{
    let tabs = m.with_tab(i, t).tabs;
    assert forall|j: int, k: int| 0 <= j < k < tabs.len() implies (#[trigger] tabs[j]).id != (
    #[trigger] tabs[k]).id by {
        assert(m.tabs[j].id != m.tabs[k].id);
    }
    assert forall|j: int| 0 <= j < tabs.len() implies (#[trigger] tabs[j]).id < m.next_id by {
        assert(m.tabs[j].id < m.next_id);
    }
}

/// The tabs that are left keep their numbers.
proof fn lemma_removed(tabs: Seq<TabModel>, next_id: u32, i: int)
    requires
        numbered(tabs, next_id),
        kept_addresses(tabs),
        0 <= i < tabs.len(),
    ensures
        numbered(tabs.remove(i), next_id),
        kept_addresses(tabs.remove(i)),
{
    let rest = tabs.remove(i);
    let before = |j: int| if j < i { j } else { j + 1 };
    assert forall|j: int| 0 <= j < rest.len() implies #[trigger] rest[j] == tabs[before(j)] by {}
    assert forall|j: int, k: int| 0 <= j < k < rest.len() implies (#[trigger] rest[j]).id != (
    #[trigger] rest[k]).id by {
        assert(tabs[before(j)].id != tabs[before(k)].id);
    }
    assert forall|j: int| 0 <= j < rest.len() implies (#[trigger] rest[j]).id < next_id by {
        assert(tabs[before(j)].id < next_id);
    }
    assert forall|j: int| 0 <= j < rest.len() implies logical_address((#[trigger] rest[j]).url)
        == rest[j].url by {
        assert(logical_address(tabs[before(j)].url) == tabs[before(j)].url);
    }
}

/// A tab can be closed, and then there still is one.
proof fn lemma_closed(m: BrowserModel, i: usize)
    requires
        m.running(),
        m.can_obey(Command::CloseTab(i)),
    ensures
        m.closed(i).running(),
        m.next_id <= m.closed(i).next_id <= m.next_id + 1,
        m.closed(i).tabs.len() <= m.tabs.len(),
        m.closed(i).platform == m.platform,
        m.closed(i).ipc_ready == m.ipc_ready,
{
    reveal(BrowserModel::closed);
    if i < m.tabs.len() {
        lemma_removed(m.tabs, m.next_id, i as int);
        let r = BrowserModel {
            tabs: m.tabs.remove(i as int),
            ..m.asked(Effect::RemoveTab(i))
        };
        if r.tabs.len() == 0 {
            lemma_opened(r, NEWTAB_URL@);
            lemma_opened_frame(r, NEWTAB_URL@);
        } else {
            let current = current_after_close(m.current, i, r.tabs.len());
            lemma_shown_frame(BrowserModel { current, ..r });
        }
    }
}

/// A command leaves a browser with tabs, and uses one new number at most.
proof fn lemma_obeyed(m: BrowserModel, c: Command<Seq<char>>)
    requires
        m.running(),
        m.can_obey(c),
        m.tabs.len() < usize::MAX,
        c matches Command::Load(url) ==> logical_address(url) == url,
    ensures
        m.obeyed(c).running(),
        m.next_id <= m.obeyed(c).next_id <= m.next_id + 1,
        m.obeyed(c).tabs.len() <= m.tabs.len() + 1,
        m.obeyed(c).platform == m.platform,
        m.obeyed(c).ipc_ready == m.ipc_ready,
{
    let i = m.current as int;
    match c {
        Command::Reload => {
            lemma_with_tab(m, i, TabModel { loading: true, ..m.tabs[i] });
        },
        Command::Stop => {
            lemma_with_tab(m, i, TabModel { loading: false, ..m.tabs[i] });
        },
        Command::Load(url) => {
            lemma_with_tab(
                m,
                i,
                TabModel { id: m.tabs[i].id, url, title: Seq::empty(), loading: true },
            );
        },
        Command::NewTab => {
            lemma_opened(m, NEWTAB_URL@);
        },
        Command::SwitchTab(k) => {
            if k < m.tabs.len() {
                lemma_shown_frame(BrowserModel { current: k, ..m });
            }
        },
        Command::CloseTab(k) => {
            lemma_closed(m, k);
        },
        Command::ToggleDevtools => {
            lemma_toggled_frame(m);
        },
        _ => {},
    }
}

/// A message loads addresses only in the one form that a tab keeps.
proof fn lemma_loads_kept(msg: Seq<char>)
    ensures
        command_of(msg) matches Command::Load(url) ==> logical_address(url) == url,
{
    reveal(command_of);
    match resolved_input(msg.skip("load:"@.len() as int)) {
        Some(url) => {
            law_logical_is_canonical(url);
        },
        None => {},
    }
}

/// Whatever message comes, a browser with tabs goes on being one: its current tab is there,
/// its tabs have numbers of their own and addresses in the one form for them, and its
/// developer tools are in a consistent state.
pub proof fn law_message_keeps_running(m: BrowserModel, msg: Seq<char>)
    requires
        m.running(),
        m.can_obey(command_of(msg)),
        m.tabs.len() < usize::MAX,
    ensures
        m.obeyed(command_of(msg)).running(),
        m.next_id <= m.obeyed(command_of(msg)).next_id <= m.next_id + 1,
        m.obeyed(command_of(msg)).tabs.len() <= m.tabs.len() + 1,
        m.obeyed(command_of(msg)).platform == m.platform,
        m.obeyed(command_of(msg)).ipc_ready == m.ipc_ready,
{
    lemma_loads_kept(msg);
    lemma_obeyed(m, command_of(msg));
}

/// Whatever event of the web views comes, a browser with tabs goes on being one. The next
/// number never decreases, and grows by one at most.
pub proof fn law_user_event_keeps_running(m: BrowserModel, e: UserEvent<Seq<char>>)
    requires
        m.running(),
        m.can_hear(e),
        m.tabs.len() < usize::MAX,
    ensures
        m.heard(e).running(),
        m.next_id <= m.heard(e).next_id <= m.next_id + 1,
        m.heard(e).tabs.len() <= m.tabs.len() + 1,
{
    match e {
        UserEvent::Ipc(msg) => {
            law_message_keeps_running(m, msg);
        },
        UserEvent::ToggleDevtools => {
            lemma_toggled_frame(m);
        },
        UserEvent::Navigated { tab_id, url } => {
            lemma_tab_place(m.tabs, tab_id);
            law_logical_is_canonical(url);
            if let Some(i) = tab_place(m.tabs, tab_id) {
                lemma_with_tab(m, i, TabModel { url: logical_address(url), ..m.tabs[i] });
            }
        },
        UserEvent::TitleChanged { tab_id, title } => {
            lemma_tab_place(m.tabs, tab_id);
            if let Some(i) = tab_place(m.tabs, tab_id) {
                lemma_with_tab(m, i, TabModel { title, ..m.tabs[i] });
            }
        },
        UserEvent::NewWindow { url } => {
            if let Some(address) = resolved_input(url) {
                lemma_opened(m, address);
            }
        },
        UserEvent::LoadStarted { tab_id } => {
            lemma_tab_place(m.tabs, tab_id);
            if let Some(i) = tab_place(m.tabs, tab_id) {
                lemma_with_tab(m, i, TabModel { loading: true, ..m.tabs[i] });
            }
        },
        UserEvent::LoadFinished { tab_id } => {
            lemma_tab_place(m.tabs, tab_id);
            if let Some(i) = tab_place(m.tabs, tab_id) {
                lemma_with_tab(m, i, TabModel { loading: false, ..m.tabs[i] });
            }
        },
        UserEvent::ForceLoad { tab_id, url } => {
            lemma_tab_place(m.tabs, tab_id);
            law_logical_is_canonical(url);
            if let Some(i) = tab_place(m.tabs, tab_id) {
                lemma_with_tab(
                    m,
                    i,
                    TabModel {
                        id: m.tabs[i].id,
                        url: logical_address(url),
                        title: Seq::empty(),
                        loading: true,
                    },
                );
            }
        },
        _ => {},
    }
}

/// Whatever event comes, a browser with tabs goes on being one. The next number never
/// decreases, and grows by one at most.
pub proof fn law_event_keeps_running(m: BrowserModel, e: ShellEvent<Seq<char>>)
    requires
        m.running(),
        m.can_handle(e),
        m.tabs.len() < usize::MAX,
    ensures
        m.handled(e).running(),
        m.next_id <= m.handled(e).next_id <= m.next_id + 1,
        m.handled(e).tabs.len() <= m.tabs.len() + 1,
{
    match e {
        ShellEvent::User(u) => {
            law_user_event_keeps_running(m, u);
        },
        _ => {
            lemma_toggled_frame(m);
        },
    }
}

/// A browser with tabs can handle every event, as long as there are numbers for new tabs.
pub proof fn law_running_handles_every_event(m: BrowserModel, e: ShellEvent<Seq<char>>)
    requires
        m.running(),
        m.next_id < u32::MAX,
    ensures
        m.can_handle(e),
{
}

/// A browser with tabs can handle every queue of messages for which there are enough
/// numbers, and goes on being one.
pub proof fn law_queue_keeps_running(m: BrowserModel, queue: Seq<Seq<char>>)
    requires
        m.running(),
        m.next_id + queue.len() <= u32::MAX,
        m.tabs.len() + queue.len() <= usize::MAX,
    ensures
        m.can_drain(queue),
        m.drained(queue).running(),
        m.next_id <= m.drained(queue).next_id <= m.next_id + queue.len(),
        m.drained(queue).platform == m.platform,
        m.drained(queue).ipc_ready == m.ipc_ready,
    decreases queue.len(),
{
    if queue.len() > 0 {
        if queue[0] == "ready"@ {
            law_queue_keeps_running(m, queue.drop_first());
        } else {
            law_message_keeps_running(m, queue[0]);
            law_queue_keeps_running(m.obeyed(command_of(queue[0])), queue.drop_first());
        }
    }
}

/// The regular steps between the events keep the invariant.
pub proof fn law_ticks_keep_well_formed(m: BrowserModel, found: Option<Seq<char>>)
    requires
        m.well_formed(),
    ensures
        m.search_checked().well_formed(),
        m.searched(found).well_formed(),
        m.flushed().well_formed(),
        m.startup_focused().well_formed(),
        m.panel_built().well_formed(),
{
}

/// The browser starts with one tab, the new-tab page.
pub proof fn law_start(platform: Platform, version: Seq<char>, icon: Seq<char>)
    ensures
        initial_model(platform, version, icon).well_formed(),
        initial_model(platform, version, icon).started().running(),
        initial_model(platform, version, icon).started().tabs == seq![new_tab(1, NEWTAB_URL@)],
        initial_model(platform, version, icon).bootstrapped().bootstrapped().running(),
{
    law_newtab_is_internal();
    let m = initial_model(platform, version, icon);
    assert(m.started().tabs =~= seq![new_tab(1, NEWTAB_URL@)]);
    law_bootstrap_keeps_well_formed(m);
    law_bootstrap_keeps_well_formed(m.bootstrapped());
}

/// The start on Windows keeps the invariant, and its second phase brings the first tab.
pub proof fn law_bootstrap_keeps_well_formed(m: BrowserModel)
    requires
        m.well_formed(),
        m.bootstrap_phase == 1 ==> m.tabs.len() == 0,
    ensures
        m.bootstrapped().well_formed(),
        m.bootstrap_phase == 0 ==> m.bootstrapped().tabs == m.tabs && m.bootstrapped().bootstrap_phase
            == 1,
        m.bootstrap_phase == 1 ==> m.bootstrapped().running() && m.bootstrapped().ipc_ready,
        m.bootstrap_phase > 1 ==> m.bootstrapped() == m,
{
    law_newtab_is_internal();
}

// ---- the web views follow the tabs ----

/// There is a web view for each tab and for no other, and docked developer tools exactly
/// where the browser counts on them.
pub open spec fn matches_tabs(t: Screen, m: BrowserModel) -> bool {
    &&& t.panel == m.panel
    &&& t.views.len() == m.tabs.len()
    &&& forall|i: int| 0 <= i < m.tabs.len() ==> (#[trigger] t.views[i]).id == m.tabs[i].id
}

/// The web view of the current tab is visible, and no other.
pub open spec fn shows_current(t: Screen, m: BrowserModel) -> bool {
    forall|i: int|
        0 <= i < t.views.len() ==> (#[trigger] t.views[i]).visible == (i == m.current)
}

/// The web views, as the effects leave them, are those of the tabs, and the current one is
/// visible.
pub open spec fn in_step(s: Screen, m: BrowserModel) -> bool {
    match screen_after(s, m.effects) {
        Some(t) => matches_tabs(t, m) && shows_current(t, m),
        None => false,
    }
}

/// Effects other than to build, remove, show or hide a web view keep the screen.
proof fn lemma_quiet(s: Screen, m: BrowserModel, t: Screen, e: Effect<Seq<char>>)
    requires
        screen_after(s, m.effects) == Some(t),
        can_perform(t, e),
        performed(t, e) == t,
    ensures
        screen_after(s, m.asked(e).effects) == Some(t),
{
    lemma_screen_after_push(s, m.effects, e);
}

/// To focus, to tell the toolbar, to raise it and to fit the web views in keeps the screen.
proof fn lemma_quiet_parts(s: Screen, m: BrowserModel, t: Screen)
    requires
        screen_after(s, m.effects) == Some(t),
        matches_tabs(t, m),
    ensures
        screen_after(s, m.focused().effects) == Some(t),
        screen_after(s, m.synced().effects) == Some(t),
        screen_after(s, m.raised().effects) == Some(t),
        screen_after(s, m.resized().effects) == Some(t),
{
    if m.has_current() {
        lemma_quiet(s, m, t, Effect::FocusTab(m.current));
    }
    lemma_quiet(
        s,
        m,
        t,
        Effect::RunToolbarScript(state_script(snapshot_of(m.tabs, m.current as int))),
    );
    lemma_quiet(s, m, t, Effect::RaiseToolbar);
    lemma_quiet(s, m, t, Effect::Resize(m.devtools_open));
}

/// To open the developer tools of the current tab keeps the screen.
proof fn lemma_quiet_devtools(s: Screen, m: BrowserModel, t: Screen)
    requires
        screen_after(s, m.effects) == Some(t),
        matches_tabs(t, m),
        m.has_current(),
    ensures
        screen_after(s, m.devtools_shown().effects) == Some(t),
        m.panel ==> screen_after(s, m.connecting().effects) == Some(t),
{
    lemma_quiet(s, m, t, Effect::OpenDevtools(m.current));
    if m.panel {
        lemma_quiet(s, m, t, Effect::ShowPanel);
    }
}

/// The first `n` web views get the visibility that is given for them.
pub open spec fn marked(t: Screen, n: int, visible: spec_fn(int) -> bool) -> Screen {
    Screen {
        views: Seq::new(
            t.views.len(),
            |i: int|
                if i < n {
                    TabView { visible: visible(i), ..t.views[i] }
                } else {
                    t.views[i]
                },
        ),
        ..t
    }
}

/// One more web view gets its visibility.
proof fn lemma_marked(t: Screen, n: int, visible: spec_fn(int) -> bool)
    requires
        0 < n <= t.views.len() <= usize::MAX,
    ensures
        performed(
            marked(t, n - 1, visible),
            Effect::SetTabVisible((n - 1) as usize, visible(n - 1)),
        ) == marked(t, n, visible),
{
    assert(performed(
        marked(t, n - 1, visible),
        Effect::SetTabVisible((n - 1) as usize, visible(n - 1)),
    ).views =~= marked(t, n, visible).views);
}

/// What the tabs are shown and hidden for.
proof fn lemma_visibility(s: Screen, m: BrowserModel, t: Screen, n: int)
    requires
        screen_after(s, m.effects) == Some(t),
        matches_tabs(t, m),
        0 <= n <= m.tabs.len() <= usize::MAX,
    ensures
        screen_after(s, m.with_visibility(n).effects) == Some(
            marked(t, n, |i: int| i == m.current),
        ),
    decreases n,
{
    let visible = |i: int| i == m.current;
    if n > 0 {
        lemma_visibility(s, m, t, n - 1);
        lemma_marked(t, n, visible);
        let i = (n - 1) as usize;
        let before = m.with_visibility(n - 1);
        let after = before.asked(Effect::SetTabVisible(i, i == m.current));
        lemma_screen_after_push(s, before.effects, Effect::SetTabVisible(i, visible(n - 1)));
        assert(screen_after(s, after.effects) == Some(marked(t, n, visible)));
        lemma_quiet(s, after, marked(t, n, visible), Effect::CloseDevtools(i));
    } else {
        assert(marked(t, 0, visible).views =~= t.views);
    }
}

/// What the tabs are hidden for.
proof fn lemma_hidden(s: Screen, m: BrowserModel, t: Screen, n: int)
    requires
        screen_after(s, m.effects) == Some(t),
        matches_tabs(t, m),
        0 <= n <= m.tabs.len() <= usize::MAX,
    ensures
        screen_after(s, m.hidden(n).effects) == Some(marked(t, n, |i: int| false)),
    decreases n,
{
    let visible = |i: int| false;
    if n > 0 {
        lemma_hidden(s, m, t, n - 1);
        lemma_marked(t, n, visible);
        let i = (n - 1) as usize;
        lemma_screen_after_push(
            s,
            m.hidden(n - 1).effects,
            Effect::SetTabVisible(i, visible(n - 1)),
        );
    } else {
        assert(marked(t, 0, visible).views =~= t.views);
    }
}

/// Whatever was visible before, to show the current tab makes it the only visible one.
proof fn lemma_shown_in_step(s: Screen, m: BrowserModel, t: Screen)
    requires
        screen_after(s, m.effects) == Some(t),
        matches_tabs(t, m),
        m.tabs.len() <= usize::MAX,
        m.devtools_consistent(),
    ensures
        in_step(s, m.shown()),
{
    reveal(BrowserModel::shown);
    let n = m.tabs.len() as int;
    lemma_visibility(s, m, t, n);
    lemma_visibility_frame(m, n);
    let u = marked(t, n, |i: int| i == m.current);
    let a = m.with_visibility(n);
    let b = if a.devtools_open && a.has_current() {
        lemma_quiet_devtools(s, a, u);
        a.devtools_shown()
    } else {
        a
    };
    lemma_quiet_parts(s, b, u);
    lemma_quiet_parts(s, b.focused(), u);
}

/// Whatever was visible before, to open a tab makes it the only visible one.
proof fn lemma_opened_in_step(s: Screen, m: BrowserModel, t: Screen, url: Seq<char>)
    requires
        screen_after(s, m.effects) == Some(t),
        matches_tabs(t, m),
        m.tabs.len() < usize::MAX,
        m.devtools_consistent(),
    ensures
        in_step(s, m.opened(url)),
{
    reveal(BrowserModel::opened);
    let n = m.tabs.len() as int;
    lemma_hidden(s, m, t, n);
    lemma_hidden_frame(m, n);
    let h = m.hidden(n);
    let u = marked(t, n, |i: int| false);
    let build = Effect::BuildTab {
        id: m.next_id,
        url,
        newtab: internal_newtab(url),
        devtools_open: m.devtools_open,
    };
    lemma_screen_after_push(s, h.effects, build);
    let v = performed(u, build);
    let b = BrowserModel {
        tabs: m.tabs.push(new_tab(m.next_id, url)),
        current: m.tabs.len() as usize,
        next_id: (m.next_id + 1) as u32,
        ..h.asked(build)
    };
    assert(screen_after(s, b.effects) == Some(v));
    let c = if b.devtools_open {
        lemma_quiet_devtools(s, b, v);
        b.devtools_shown()
    } else {
        b
    };
    lemma_quiet_parts(s, c, v);
    lemma_quiet_parts(s, c.synced(), v);
    lemma_quiet_parts(s, c.synced().resized(), v);
    lemma_quiet_parts(s, c.synced().resized().focused(), v);
}

/// To open or close the developer tools keeps the screen.
proof fn lemma_toggled_in_step(s: Screen, m: BrowserModel)
    requires
        in_step(s, m),
        m.devtools_consistent(),
    ensures
        in_step(s, m.toggled()),
{
    reveal(BrowserModel::toggled);
    let t = screen_after(s, m.effects).unwrap();
    if m.has_current() {
        let a = if m.devtools_open {
            lemma_quiet(s, m, t, Effect::CloseDevtools(m.current));
            if m.panel {
                lemma_quiet(s, m, t, Effect::ClosePanel);
            }
            m.devtools_closed()
        } else {
            let b = BrowserModel { devtools_open: true, ..m };
            lemma_quiet_devtools(s, b, t);
            b.devtools_shown()
        };
        lemma_quiet_parts(s, a, t);
        lemma_quiet_parts(s, a.resized(), t);
        lemma_quiet_parts(s, a.resized().raised(), t);
    }
}

/// To close a tab removes its web view, and shows the tab that is the current one then.
proof fn lemma_closed_in_step(s: Screen, m: BrowserModel, i: usize)
    requires
        in_step(s, m),
        m.running(),
        m.tabs.len() <= usize::MAX,
    ensures
        in_step(s, m.closed(i)),
{
    reveal(BrowserModel::closed);
    let t = screen_after(s, m.effects).unwrap();
    if i < m.tabs.len() {
        let remove = Effect::<Seq<char>>::RemoveTab(i);
        lemma_screen_after_push(s, m.effects, remove);
        let u = performed(t, remove);
        let r = BrowserModel { tabs: m.tabs.remove(i as int), ..m.asked(remove) };
        assert(matches_tabs(u, r));
        if r.tabs.len() == 0 {
            lemma_opened_in_step(s, r, u, NEWTAB_URL@);
        } else {
            let current = current_after_close(m.current, i, r.tabs.len());
            let c = BrowserModel { current, ..r };
            lemma_shown_in_step(s, c, u);
            lemma_shown_frame(c);
            lemma_quiet_parts(s, c.shown(), screen_after(s, c.shown().effects).unwrap());
        }
    }
}

/// A change of what is known of a tab keeps the screen.
proof fn lemma_with_tab_in_step(s: Screen, m: BrowserModel, i: int, t: TabModel)
    requires
        in_step(s, m),
        0 <= i < m.tabs.len(),
        t.id == m.tabs[i].id,
    ensures
        in_step(s, m.with_tab(i, t)),
{
}

/// A state on the same screen, after quiet parts of a step.
proof fn lemma_quiet_in_step(s: Screen, m: BrowserModel)
    requires
        in_step(s, m),
    ensures
        in_step(s, m.focused()),
        in_step(s, m.synced()),
        in_step(s, m.raised()),
        in_step(s, m.resized()),
        in_step(s, m.asked(Effect::Exit)),
        in_step(s, m.asked(Effect::DragWindow)),
        in_step(s, m.asked(Effect::MinimizeWindow)),
        in_step(s, m.asked(Effect::ToggleMaximized)),
        in_step(s, m.asked(Effect::ShowWindow)),
        in_step(s, m.asked(Effect::FocusWindow)),
        in_step(s, m.asked(Effect::FocusToolbar)),
{
    let t = screen_after(s, m.effects).unwrap();
    lemma_quiet_parts(s, m, t);
    lemma_quiet(s, m, t, Effect::Exit);
    lemma_quiet(s, m, t, Effect::DragWindow);
    lemma_quiet(s, m, t, Effect::MinimizeWindow);
    lemma_quiet(s, m, t, Effect::ToggleMaximized);
    lemma_quiet(s, m, t, Effect::ShowWindow);
    lemma_quiet(s, m, t, Effect::FocusWindow);
    lemma_quiet(s, m, t, Effect::FocusToolbar);
}

/// A state on the same screen, after an effect on the web view of a tab.
proof fn lemma_tab_effect_in_step(s: Screen, m: BrowserModel, e: Effect<Seq<char>>)
    requires
        in_step(s, m),
        e is GoBack || e is GoForward || e is Reload || e is StopLoading || e is LoadUrl,
        needed_view(e) matches Some(i) && i < m.tabs.len(),
    ensures
        in_step(s, m.asked(e)),
{
    lemma_quiet(s, m, screen_after(s, m.effects).unwrap(), e);
}

/// A tab starts to load: the steps that follow keep the screen.
proof fn lemma_loaded_in_step(s: Screen, m: BrowserModel, i: int, url: Seq<char>)
    requires
        in_step(s, m),
        0 <= i < m.tabs.len() <= usize::MAX,
    ensures
        in_step(s, m.with_page(i, url).asked(Effect::LoadUrl(i as usize, loaded_address(url)))),
{
    lemma_with_tab_in_step(
        s,
        m,
        i,
        TabModel { id: m.tabs[i].id, url, title: Seq::empty(), loading: true },
    );
    lemma_tab_effect_in_step(
        s,
        m.with_page(i, url),
        Effect::LoadUrl(i as usize, loaded_address(url)),
    );
}

/// After every command there is a web view for each tab and for no other, and that of the
/// current tab is the only visible one; no effect needs a web view that is not there.
pub proof fn law_command_keeps_in_step(s: Screen, m: BrowserModel, c: Command<Seq<char>>)
    requires
        in_step(s, m),
        m.running(),
        m.can_obey(c),
        m.tabs.len() < usize::MAX,
    ensures
        in_step(s, m.obeyed(c)),
{
    let i = m.current as int;
    let t = screen_after(s, m.effects).unwrap();
    lemma_quiet_in_step(s, m);
    match c {
        Command::ToggleMaximized => {
            let a = m.asked(Effect::ToggleMaximized);
            lemma_quiet_in_step(s, a);
            lemma_quiet_in_step(s, a.resized());
            lemma_quiet_in_step(s, a.resized().raised());
        },
        Command::Ready => {
            lemma_quiet_in_step(s, m.synced());
        },
        Command::GoBack => {
            lemma_tab_effect_in_step(s, m, Effect::GoBack(m.current));
            lemma_quiet_in_step(s, m.asked(Effect::GoBack(m.current)));
        },
        Command::GoForward => {
            lemma_tab_effect_in_step(s, m, Effect::GoForward(m.current));
            lemma_quiet_in_step(s, m.asked(Effect::GoForward(m.current)));
        },
        Command::Reload => {
            let a = m.asked(Effect::Reload(m.current));
            lemma_tab_effect_in_step(s, m, Effect::Reload(m.current));
            lemma_with_tab_in_step(s, a, i, TabModel { loading: true, ..m.tabs[i] });
            lemma_quiet_in_step(s, a.with_loading(i, true));
            lemma_quiet_in_step(s, a.with_loading(i, true).synced());
        },
        Command::Stop => {
            let a = m.asked(Effect::StopLoading(m.current));
            lemma_tab_effect_in_step(s, m, Effect::StopLoading(m.current));
            lemma_with_tab_in_step(s, a, i, TabModel { loading: false, ..m.tabs[i] });
            lemma_quiet_in_step(s, a.with_loading(i, false));
            lemma_quiet_in_step(s, a.with_loading(i, false).synced());
        },
        Command::ToggleDevtools => {
            lemma_toggled_in_step(s, m);
        },
        Command::Load(url) => {
            lemma_loaded_in_step(s, m, i, url);
            let a = m.with_page(i, url).asked(Effect::LoadUrl(m.current, loaded_address(url)));
            lemma_quiet_in_step(s, a);
            lemma_quiet_in_step(s, a.focused());
            lemma_quiet_in_step(s, a.focused().synced());
        },
        Command::NewTab => {
            lemma_opened_in_step(s, m, t, NEWTAB_URL@);
        },
        Command::SwitchTab(k) => {
            if k < m.tabs.len() {
                let a = BrowserModel { current: k, ..m };
                lemma_shown_in_step(s, a, t);
                lemma_quiet_in_step(s, a.shown());
            }
        },
        Command::CloseTab(k) => {
            lemma_closed_in_step(s, m, k);
        },
        _ => {},
    }
}

/// After every event of the web views, too, these follow the tabs.
pub proof fn law_user_event_keeps_in_step(s: Screen, m: BrowserModel, e: UserEvent<Seq<char>>)
    requires
        in_step(s, m),
        m.running(),
        m.can_hear(e),
        m.tabs.len() < usize::MAX,
    ensures
        in_step(s, m.heard(e)),
{
    let t = screen_after(s, m.effects).unwrap();
    lemma_quiet_in_step(s, m);
    match e {
        UserEvent::Ipc(msg) => {
            law_command_keeps_in_step(s, m, command_of(msg));
        },
        UserEvent::ToggleDevtools => {
            lemma_toggled_in_step(s, m);
        },
        UserEvent::Navigated { tab_id, url } => {
            lemma_tab_place(m.tabs, tab_id);
            if let Some(i) = tab_place(m.tabs, tab_id) {
                let n = TabModel { url: logical_address(url), ..m.tabs[i] };
                lemma_with_tab_in_step(s, m, i, n);
                lemma_quiet_in_step(s, m.with_tab(i, n));
                lemma_quiet_in_step(s, m.with_tab(i, n).synced());
            }
        },
        UserEvent::TitleChanged { tab_id, title } => {
            lemma_tab_place(m.tabs, tab_id);
            if let Some(i) = tab_place(m.tabs, tab_id) {
                let n = TabModel { title, ..m.tabs[i] };
                let a = m.with_tab(i, n);
                lemma_with_tab_in_step(s, m, i, n);
                lemma_quiet_in_step(s, a);
                lemma_quiet(
                    s,
                    a,
                    t,
                    Effect::RunToolbarScript(title_script(i, label_text(a.tabs[i]))),
                );
            }
        },
        UserEvent::NewWindow { url } => {
            if let Some(address) = resolved_input(url) {
                lemma_opened_in_step(s, m, t, address);
            }
        },
        UserEvent::LoadStarted { tab_id } => {
            lemma_tab_place(m.tabs, tab_id);
            if let Some(i) = tab_place(m.tabs, tab_id) {
                lemma_with_tab_in_step(s, m, i, TabModel { loading: true, ..m.tabs[i] });
                lemma_quiet_in_step(s, m.with_loading(i, true));
            }
        },
        UserEvent::LoadFinished { tab_id } => {
            lemma_tab_place(m.tabs, tab_id);
            if let Some(i) = tab_place(m.tabs, tab_id) {
                lemma_with_tab_in_step(s, m, i, TabModel { loading: false, ..m.tabs[i] });
                lemma_quiet_in_step(s, m.with_loading(i, false));
            }
        },
        UserEvent::ForceLoad { tab_id, url } => {
            lemma_tab_place(m.tabs, tab_id);
            let kept = logical_address(url);
            if let Some(i) = tab_place(m.tabs, tab_id) {
                lemma_loaded_in_step(s, m, i, kept);
                lemma_quiet_in_step(
                    s,
                    m.with_page(i, kept).asked(Effect::LoadUrl(i as usize, loaded_address(kept))),
                );
            }
        },
        _ => {},
    }
}

/// After every event the web views follow the tabs: there is one for each tab and for no
/// other, and that of the current tab is the only visible one.
pub proof fn law_event_keeps_in_step(s: Screen, m: BrowserModel, e: ShellEvent<Seq<char>>)
    requires
        in_step(s, m),
        m.running(),
        m.can_handle(e),
        m.tabs.len() < usize::MAX,
    ensures
        in_step(s, m.handled(e)),
{
    lemma_quiet_in_step(s, m);
    lemma_quiet_in_step(s, m.resized());
    lemma_quiet_in_step(s, m.raised());
    lemma_quiet_in_step(s, m.resized().raised());
    match e {
        ShellEvent::User(u) => {
            law_user_event_keeps_in_step(s, m, u);
        },
        _ => {
            lemma_toggled_in_step(s, m);
        },
    }
}

/// After the messages of a queue the web views follow the tabs.
pub proof fn law_queue_keeps_in_step(s: Screen, m: BrowserModel, queue: Seq<Seq<char>>)
    requires
        in_step(s, m),
        m.running(),
        m.next_id + queue.len() <= u32::MAX,
        m.tabs.len() + queue.len() <= usize::MAX,
    ensures
        in_step(s, m.drained(queue)),
    decreases queue.len(),
{
    if queue.len() > 0 {
        let rest = queue.drop_first();
        if queue[0] == "ready"@ {
            law_queue_keeps_in_step(s, m, rest);
        } else {
            law_message_keeps_running(m, queue[0]);
            law_command_keeps_in_step(s, m, command_of(queue[0]));
            law_queue_keeps_in_step(s, m.obeyed(command_of(queue[0])), rest);
        }
    }
}

/// After the regular steps between the events the web views follow the tabs, and docked
/// developer tools are there exactly when the browser counts on them.
pub proof fn law_ticks_keep_in_step(s: Screen, m: BrowserModel, found: Option<Seq<char>>)
    requires
        in_step(s, m),
        m.well_formed(),
    ensures
        in_step(s, m.search_checked()),
        in_step(s, m.searched(found)),
        in_step(s, m.flushed()),
        in_step(s, m.startup_focused()),
        in_step(s, m.panel_built()),
{
    let t = screen_after(s, m.effects).unwrap();
    lemma_quiet_in_step(s, m);
    lemma_searched_in_step(s, m, found);
    lemma_quiet(
        s,
        m,
        t,
        Effect::LoadToolbar(document_address(rendered_page(m.snapshot, m.version, m.icon))),
    );
    if !m.panel {
        let b = BrowserModel { panel_build_next: false, panel: true, ..m };
        lemma_screen_after_push(s, b.effects, Effect::BuildPanel);
        let c = b.asked(Effect::BuildPanel);
        let u = Screen { panel: true, ..t };
        assert(screen_after(s, c.effects) == Some(u));
        lemma_quiet_in_step(s, c);
        lemma_quiet_in_step(s, c.resized());
        let d = c.resized().raised();
        if d.has_current() {
            lemma_quiet_devtools(s, d, screen_after(s, d.effects).unwrap());
        }
    }
}

/// Once the effects are handed out and performed, the web views are those of the tabs, and
/// the next step starts from them.
pub proof fn law_performed_effects_stay_in_step(s: Screen, m: BrowserModel)
    requires
        in_step(s, m),
    ensures
        in_step(
            screen_after(s, m.effects).unwrap(),
            (BrowserModel { effects: Seq::empty(), ..m }),
        ),
{
}

/// The end of a search keeps the screen.
proof fn lemma_searched_in_step(s: Screen, m: BrowserModel, found: Option<Seq<char>>)
    requires
        in_step(s, m),
        m.well_formed(),
    ensures
        in_step(s, m.searched(found)),
{
    let t = screen_after(s, m.effects).unwrap();
    match (m.connect, found) {
        (Some(_), Some(url)) => {
            let a = BrowserModel { connect: None, ..m };
            lemma_quiet(s, a, t, Effect::LoadPanel(url));
            let b = a.asked(Effect::LoadPanel(url));
            lemma_quiet(s, b, t, Effect::ShowPanel);
            lemma_quiet_in_step(s, b.asked(Effect::ShowPanel));
        },
        (Some(_), None) => {
            let a = if m.has_current() {
                lemma_quiet(s, m, t, Effect::OpenDevtools(m.current));
                m.asked(Effect::OpenDevtools(m.current))
            } else {
                m
            };
            lemma_quiet(s, a, t, Effect::ClosePanel);
            let b = BrowserModel {
                devtools_open: false,
                connect: None,
                ..a.asked(Effect::ClosePanel)
            };
            lemma_quiet_in_step(s, b);
        },
        _ => {},
    }
}

/// The start brings the first tab and its web view.
pub proof fn law_start_in_step(platform: Platform, version: Seq<char>, icon: Seq<char>)
    ensures
        in_step(blank_screen(), initial_model(platform, version, icon)),
        in_step(blank_screen(), initial_model(platform, version, icon).started()),
        in_step(blank_screen(), initial_model(platform, version, icon).bootstrapped()),
        in_step(
            blank_screen(),
            initial_model(platform, version, icon).bootstrapped().bootstrapped(),
        ),
{
    let s = blank_screen();
    let m = initial_model(platform, version, icon);
    lemma_first_in_step(s, m);
    lemma_quiet_in_step(s, m.first_built());
    lemma_quiet_in_step(s, m.first_built().raised());
    lemma_quiet_in_step(s, m.first_built().raised().resized());
    lemma_quiet_in_step(s, m);
    lemma_quiet_in_step(s, m.asked(Effect::ShowWindow));
    let b = m.bootstrapped();
    lemma_first_in_step(s, b);
    let c = b.first_built();
    lemma_quiet_in_step(s, c);
    let d = c.asked(Effect::FocusWindow);
    lemma_quiet_in_step(s, d);
    lemma_quiet_in_step(s, d.raised());
    lemma_quiet_in_step(s, d.raised().resized());
    let e = d.raised().resized().synced();
    lemma_quiet(
        s,
        e,
        screen_after(s, e.effects).unwrap(),
        Effect::LoadToolbar(document_address(rendered_page(e.snapshot, e.version, e.icon))),
    );
}

/// The screen before anything is built.
pub open spec fn blank_screen() -> Screen {
    Screen { views: Seq::empty(), panel: false }
}

/// The first tab is built on a screen without web views.
proof fn lemma_first_in_step(s: Screen, m: BrowserModel)
    requires
        in_step(s, m),
        m.tabs.len() == 0,
    ensures
        in_step(s, m.first_built()),
{
    lemma_screen_after_push(
        s,
        m.effects,
        Effect::BuildTab {
            id: 1,
            url: NEWTAB_URL@,
            newtab: true,
            devtools_open: m.devtools_open,
        },
    );
}

// ---- the toolbar ----

/// What a toolbar without scripts shows is the state of the tabs.
pub open spec fn toolbar_current(m: BrowserModel) -> bool {
    m.on_windows() ==> m.snapshot == snapshot_of(m.tabs, m.current as int)
}

/// Whether a page is forced on a tab other than the current one. The toolbar is not told
/// of it before the next change.
pub open spec fn forces_background(m: BrowserModel, e: UserEvent<Seq<char>>) -> bool {
    e matches UserEvent::ForceLoad { tab_id, .. } && tab_place(m.tabs, tab_id) is Some && tab_place(
        m.tabs,
        tab_id,
    ) != Some(m.current as int)
}

/// A change of the progress of a tab in the background is nothing that the toolbar shows.
proof fn lemma_background_progress(tabs: Seq<TabModel>, current: int, i: int, loading: bool)
    requires
        0 <= i < tabs.len(),
        i != current,
    ensures
        snapshot_of(tabs.update(i, TabModel { loading, ..tabs[i] }), current) == snapshot_of(
            tabs,
            current,
        ),
{
    reveal(snapshot_of);
    let changed = tabs.update(i, TabModel { loading, ..tabs[i] });
    assert(snapshot_of(changed, current).titles =~= snapshot_of(tabs, current).titles);
    assert(snapshot_of(changed, current).urls =~= snapshot_of(tabs, current).urls);
}

/// A command keeps the toolbar up to date.
pub proof fn law_command_keeps_toolbar_current(m: BrowserModel, c: Command<Seq<char>>)
    requires
        toolbar_current(m),
        m.running(),
        m.can_obey(c),
    ensures
        toolbar_current(m.obeyed(c)),
{
    match c {
        Command::SwitchTab(k) => {
            lemma_shown_frame(BrowserModel { current: k, ..m });
        },
        Command::ToggleDevtools => {
            lemma_toggled_snapshot(m);
        },
        Command::NewTab => {
            lemma_opened_snapshot(m, NEWTAB_URL@);
        },
        Command::CloseTab(k) => {
            lemma_closed_snapshot(m, k);
        },
        _ => {},
    }
}

/// The messages of a queue keep the toolbar up to date.
pub proof fn law_queue_keeps_toolbar_current(m: BrowserModel, queue: Seq<Seq<char>>)
    requires
        toolbar_current(m),
        m.running(),
        m.next_id + queue.len() <= u32::MAX,
        m.tabs.len() + queue.len() <= usize::MAX,
    ensures
        toolbar_current(m.drained(queue)),
    decreases queue.len(),
{
    if queue.len() > 0 {
        let rest = queue.drop_first();
        if queue[0] == "ready"@ {
            law_queue_keeps_toolbar_current(m, rest);
        } else {
            law_message_keeps_running(m, queue[0]);
            law_command_keeps_toolbar_current(m, command_of(queue[0]));
            law_queue_keeps_toolbar_current(m.obeyed(command_of(queue[0])), rest);
        }
    }
}

/// A drain of a queue ends with a loaded toolbar: the call that handles the messages, then
/// the one that finds the queue empty, leave no change of the toolbar unloaded, and what
/// was loaded shows the state of the tabs.
pub proof fn law_drain_ends_with_loaded_toolbar(m: BrowserModel, queue: Seq<Seq<char>>)
    requires
        toolbar_current(m),
        m.running(),
        m.on_windows(),
        m.ipc_ready,
        queue.len() > 0,
        m.next_id + queue.len() <= u32::MAX,
        m.tabs.len() + queue.len() <= usize::MAX,
    ensures
        m.queue_handled(queue).ipc_ready,
        ({
            let handled = m.queue_handled(queue);
            let end = handled.queue_handled(Seq::empty());
            let shown = snapshot_of(end.tabs, end.current as int);
            &&& !end.toolbar_dirty
            &&& end.running()
            &&& handled.toolbar_dirty ==> end.effects == handled.effects.push(
                Effect::LoadToolbar(document_address(rendered_page(shown, end.version, end.icon))),
            )
            &&& !handled.toolbar_dirty ==> end == handled
        }),
{
    law_queue_keeps_running(m, queue);
    law_queue_keeps_toolbar_current(m, queue);
}

/// To open or close the developer tools is nothing that the toolbar shows.
proof fn lemma_toggled_snapshot(m: BrowserModel)
    ensures
        m.toggled().snapshot == m.snapshot,
        m.toggled().tabs == m.tabs,
        m.toggled().current == m.current,
        m.toggled().platform == m.platform,
{
    reveal(BrowserModel::toggled);
}

/// The toolbar is told of a new tab.
proof fn lemma_opened_snapshot(m: BrowserModel, url: Seq<char>)
    ensures
        toolbar_current(m.opened(url)),
{
    reveal(BrowserModel::opened);
    lemma_hidden_frame(m, m.tabs.len() as int);
}

/// The toolbar is told of a tab that was closed.
proof fn lemma_closed_snapshot(m: BrowserModel, i: usize)
    requires
        toolbar_current(m),
    ensures
        toolbar_current(m.closed(i)),
{
    reveal(BrowserModel::closed);
    if i < m.tabs.len() {
        let r = BrowserModel {
            tabs: m.tabs.remove(i as int),
            ..m.asked(Effect::RemoveTab(i))
        };
        lemma_opened_snapshot(r, NEWTAB_URL@);
    }
}

/// Whatever event comes, the toolbar is up to date if it was, unless a page is forced on a
/// tab in the background.
pub proof fn law_event_keeps_toolbar_current(m: BrowserModel, e: ShellEvent<Seq<char>>)
    requires
        toolbar_current(m),
        m.running(),
        m.can_handle(e),
        e matches ShellEvent::User(u) ==> !forces_background(m, u),
    ensures
        toolbar_current(m.handled(e)),
{
    lemma_toggled_snapshot(m);
    match e {
        ShellEvent::User(UserEvent::Ipc(msg)) => {
            law_command_keeps_toolbar_current(m, command_of(msg));
        },
        ShellEvent::User(UserEvent::NewWindow { url }) => {
            if let Some(address) = resolved_input(url) {
                lemma_opened_snapshot(m, address);
            }
        },
        ShellEvent::User(UserEvent::LoadStarted { tab_id }) => {
            lemma_tab_place(m.tabs, tab_id);
            if let Some(i) = tab_place(m.tabs, tab_id) {
                if i != m.current {
                    lemma_background_progress(m.tabs, m.current as int, i, true);
                }
            }
        },
        ShellEvent::User(UserEvent::LoadFinished { tab_id }) => {
            lemma_tab_place(m.tabs, tab_id);
            if let Some(i) = tab_place(m.tabs, tab_id) {
                if i != m.current {
                    lemma_background_progress(m.tabs, m.current as int, i, false);
                }
            }
        },
        _ => {},
    }
}

/// The toolbar never shows the address of a document that is written out in its address.
pub proof fn law_toolbar_hides_documents(tabs: Seq<TabModel>, current: int, i: int)
    requires
        0 <= i < tabs.len(),
    ensures
        !"data:text/html"@.is_prefix_of(snapshot_of(tabs, current).urls[i]),
        !"data:text/html"@.is_prefix_of(snapshot_of(tabs, current).cur_url),
{
    reveal(snapshot_of);
    reveal_strlit("data:text/html");
    law_display_hides_documents(logical_address(tabs[i].url));
    if 0 <= current < tabs.len() {
        law_display_hides_documents(tabs[current].url);
    }
}

// ---- single steps ----

/// To open or close the developer tools twice leaves them as they were. Where they are not
/// docked, nothing else is left changed.
pub proof fn law_toggle_twice(m: BrowserModel)
    requires
        m.has_current(),
    ensures
        m.toggled().devtools_open == !m.devtools_open,
        m.toggled().toggled().devtools_open == m.devtools_open,
        !m.on_windows() ==> m.toggled().toggled() == (BrowserModel {
            effects: m.toggled().toggled().effects,
            ..m
        }),
{
    reveal(BrowserModel::toggled);
}

/// A new tab stands after all the others, is the current one, and keeps the address that it
/// was opened for.
pub proof fn law_open_appends(m: BrowserModel, url: Seq<char>)
    requires
        m.running(),
        m.next_id < u32::MAX,
        m.tabs.len() < usize::MAX,
    ensures
        m.opened(url).tabs.drop_last() == m.tabs,
        m.opened(url).tabs.last().url == logical_address(url),
        m.opened(url).current == m.tabs.len(),
        forall|i: int| 0 <= i < m.tabs.len() ==> m.tabs[i].id != m.opened(url).tabs.last().id,
{
    lemma_opened_frame(m, url);
    assert(m.opened(url).tabs.drop_last() =~= m.tabs);
}

/// To close a tab other than the current one keeps the current one; to close the current
/// one makes the next one current, or the last one where there is no next.
pub proof fn law_close_keeps_current(m: BrowserModel, i: usize)
    requires
        m.running(),
        i < m.tabs.len(),
        m.tabs.len() > 1,
        m.tabs.len() <= usize::MAX,
    ensures
        m.closed(i).tabs == m.tabs.remove(i as int),
        i != m.current ==> m.closed(i).tabs[m.closed(i).current as int] == m.tabs[m.current as int],
        i == m.current && i + 1 < m.tabs.len() ==> m.closed(i).tabs[m.closed(i).current as int]
            == m.tabs[i + 1],
        i == m.current && i + 1 == m.tabs.len() ==> m.closed(i).tabs[m.closed(i).current as int]
            == m.tabs[i - 1],
{
    reveal(BrowserModel::closed);
    let r = BrowserModel { tabs: m.tabs.remove(i as int), ..m.asked(Effect::RemoveTab(i)) };
    let current = current_after_close(m.current, i, r.tabs.len());
    lemma_shown_frame(BrowserModel { current, ..r });
}

/// To close the only tab leaves one tab, the new-tab page, with a number of its own.
pub proof fn law_close_only_tab(m: BrowserModel)
    requires
        m.running(),
        m.tabs.len() == 1,
        m.next_id < u32::MAX,
    ensures
        m.closed(0).tabs == seq![new_tab(m.next_id, NEWTAB_URL@)],
        m.closed(0).tabs[0].url == NEWTAB_URL@,
        m.closed(0).tabs[0].id != m.tabs[0].id,
        m.closed(0).current == 0,
{
    reveal(BrowserModel::closed);
    law_newtab_is_internal();
    let r = BrowserModel { tabs: m.tabs.remove(0), ..m.asked(Effect::RemoveTab(0)) };
    lemma_opened_frame(r, NEWTAB_URL@);
    assert(m.closed(0).tabs =~= seq![new_tab(m.next_id, NEWTAB_URL@)]);
}

} // verus!
