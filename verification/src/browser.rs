//! The browser: its tabs, its developer tools, and what it does on an event.

use crate::address::{
    content_load_url, internal_newtab, is_internal_newtab_url, loaded_address, logical_address,
    logical_tab_url, resolve_omnibox_input, resolved_input, NEWTAB_URL,
};
use crate::effect::{effect_models, Effect};
use crate::message::{command_of, parse_command, Command, UserEvent};
use crate::pages::NEWTAB_TITLE;
use crate::platform::{asks_for_devtools, devtools_shortcut, Key, Modifiers, Platform};
use crate::tab::{find_tab_idx, label_text, tab_label, tab_models, tab_place, Tab, TabModel};
use crate::text::{copy_of, same, starts_with, texts};
use crate::toolbar::{
    default_snapshot, rendered_page, set_state_script, set_tab_title_script, snapshot_of,
    state_script, sync_toolbar, title_script, windows_toolbar_data_url, SnapshotModel,
    ToolbarSnapshot,
};
use vstd::prelude::*;

verus! {

/// How often the docked developer tools are looked for before they are given up.
pub const DEVTOOLS_CONNECT_MAX: u32 = 150;

/// How often the toolbar is raised again above the docked developer tools.
pub const Z_ORDER_NUDGES_MAX: u32 = 60;

/// For how many events the window asks for the focus after the start.
pub const STARTUP_FOCUS_FRAMES: u32 = 120;

/// The search for the developer tools of a page.
#[derive(Clone, Debug)]
pub struct DevtoolsConnectState {
    pub page_url: String,
    pub attempts: u32,
}

/// The search for the developer tools of a page, with its text.
pub ghost struct ConnectModel {
    pub page_url: Seq<char>,
    pub attempts: u32,
}

/// The search, if there is one, with its text.
pub open spec fn connect_model(c: Option<DevtoolsConnectState>) -> Option<ConnectModel> {
    match c {
        Some(s) => Some(ConnectModel { page_url: s.page_url@, attempts: s.attempts }),
        None => None,
    }
}

/// The state of the browser.
#[derive(Clone, Debug)]
pub struct Browser {
    pub platform: Platform,
    pub version: String,
    /// The icon of the browser as an address.
    pub icon: String,
    pub tabs: Vec<Tab>,
    pub current: usize,
    pub next_id: u32,
    pub modifiers: Modifiers,
    pub devtools_open: bool,
    /// Whether the docked developer tools have been built.
    pub panel: bool,
    /// Whether they are to be built after the next event, or after this one.
    pub panel_pending: bool,
    pub panel_build_next: bool,
    pub connect: Option<DevtoolsConnectState>,
    pub z_order_nudges: u32,
    /// What a toolbar without scripts shows, and whether it is still to be loaded.
    pub snapshot: ToolbarSnapshot,
    pub toolbar_dirty: bool,
    /// How far the start has come: 0 before the window is shown, 1 after that, 2 when the
    /// first tab is there.
    pub bootstrap_phase: u8,
    pub startup_focus_frames: u32,
    /// Whether messages from the queue are handled.
    pub ipc_ready: bool,
    /// What is to be done with the window and the web views, in this order.
    pub effects: Vec<Effect<String>>,
}

/// The state of the browser, with its text.
#[verifier::ext_equal]
pub ghost struct BrowserModel {
    pub platform: Platform,
    pub version: Seq<char>,
    pub icon: Seq<char>,
    pub tabs: Seq<TabModel>,
    pub current: usize,
    pub next_id: u32,
    pub modifiers: Modifiers,
    pub devtools_open: bool,
    pub panel: bool,
    pub panel_pending: bool,
    pub panel_build_next: bool,
    pub connect: Option<ConnectModel>,
    pub z_order_nudges: u32,
    pub snapshot: SnapshotModel,
    pub toolbar_dirty: bool,
    pub bootstrap_phase: u8,
    pub startup_focus_frames: u32,
    pub ipc_ready: bool,
    pub effects: Seq<Effect<Seq<char>>>,
}

impl View for Browser {
    type V = BrowserModel;

    open spec fn view(&self) -> BrowserModel {
        BrowserModel {
            platform: self.platform,
            version: self.version@,
            icon: self.icon@,
            tabs: tab_models(self.tabs@),
            current: self.current,
            next_id: self.next_id,
            modifiers: self.modifiers,
            devtools_open: self.devtools_open,
            panel: self.panel,
            panel_pending: self.panel_pending,
            panel_build_next: self.panel_build_next,
            connect: connect_model(self.connect),
            z_order_nudges: self.z_order_nudges,
            snapshot: self.snapshot@,
            toolbar_dirty: self.toolbar_dirty,
            bootstrap_phase: self.bootstrap_phase,
            startup_focus_frames: self.startup_focus_frames,
            ipc_ready: self.ipc_ready,
            effects: effect_models(self.effects@),
        }
    }
}

// ---- the parts of a step ----

/// The tab that is opened for an address.
pub open spec fn new_tab(id: u32, url: Seq<char>) -> TabModel {
    TabModel {
        id,
        url: logical_address(url),
        title: if "plum://"@.is_prefix_of(url) {
            NEWTAB_TITLE@
        } else {
            Seq::empty()
        },
        loading: false,
    }
}

/// The place of the current tab after the tab at a place is closed and `left` are left, one
/// at least.
pub open spec fn current_after_close(current: usize, closed: usize, left: nat) -> usize {
    if closed < current {
        (current - 1) as usize
    } else if current < left {
        current
    } else {
        (left - 1) as usize
    }
}

impl BrowserModel {
    pub open spec fn on_windows(self) -> bool {
        self.platform == Platform::Windows
    }

    pub open spec fn has_current(self) -> bool {
        self.current < self.tabs.len()
    }

    /// One more effect.
    pub open spec fn asked(self, e: Effect<Seq<char>>) -> BrowserModel {
        BrowserModel { effects: self.effects.push(e), ..self }
    }

    pub open spec fn with_tab(self, i: int, t: TabModel) -> BrowserModel {
        BrowserModel { tabs: self.tabs.update(i, t), ..self }
    }

    pub open spec fn with_loading(self, i: int, loading: bool) -> BrowserModel {
        self.with_tab(i, TabModel { loading, ..self.tabs[i] })
    }

    /// A tab starts to load an address.
    pub open spec fn with_page(self, i: int, url: Seq<char>) -> BrowserModel {
        self.with_tab(
            i,
            TabModel { id: self.tabs[i].id, url, title: Seq::empty(), loading: true },
        )
    }

    /// The current tab gets the focus. On Windows the toolbar keeps it.
    pub open spec fn focused(self) -> BrowserModel {
        if !self.on_windows() && self.has_current() {
            self.asked(Effect::FocusTab(self.current))
        } else {
            self
        }
    }

    /// The toolbar is given its state: by a script, or on Windows by what is rendered for it
    /// later.
    pub open spec fn synced(self) -> BrowserModel {
        let snapshot = snapshot_of(self.tabs, self.current as int);
        if self.on_windows() {
            BrowserModel { snapshot, toolbar_dirty: true, ..self }
        } else {
            self.asked(Effect::RunToolbarScript(state_script(snapshot)))
        }
    }

    pub open spec fn raised(self) -> BrowserModel {
        self.asked(Effect::RaiseToolbar)
    }

    pub open spec fn resized(self) -> BrowserModel {
        self.asked(Effect::Resize(self.devtools_open))
    }

    /// The docked developer tools are shown, and those of the current page are looked for.
    pub open spec fn connecting(self) -> BrowserModel {
        BrowserModel {
            connect: Some(
                ConnectModel {
                    page_url: logical_address(self.tabs[self.current as int].url),
                    attempts: 0,
                },
            ),
            ..self
        }.asked(Effect::ShowPanel)
    }

    /// The developer tools of the current tab are opened. On Windows they are docked, and
    /// built first where they are not there.
    pub open spec fn devtools_shown(self) -> BrowserModel {
        if !self.on_windows() {
            self.asked(Effect::OpenDevtools(self.current))
        } else if self.panel {
            self.connecting()
        } else {
            BrowserModel { panel_pending: true, ..self }
        }
    }

    /// Of the first `n` tabs, the current one is shown; the others are hidden, and their
    /// developer tools are closed.
    pub open spec fn with_visibility(self, n: int) -> BrowserModel
        decreases n,
    {
        if n <= 0 {
            self
        } else {
            let i = (n - 1) as usize;
            let m = self.with_visibility(n - 1).asked(Effect::SetTabVisible(i, i == self.current));
            if i != self.current && !self.on_windows() {
                m.asked(Effect::CloseDevtools(i))
            } else {
                m
            }
        }
    }

    /// The first `n` tabs are hidden.
    pub open spec fn hidden(self, n: int) -> BrowserModel
        decreases n,
    {
        if n <= 0 {
            self
        } else {
            self.hidden(n - 1).asked(Effect::SetTabVisible((n - 1) as usize, false))
        }
    }

    /// The current tab, and no other, is shown.
    #[verifier::opaque]
    pub open spec fn shown(self) -> BrowserModel {
        let m = self.with_visibility(self.tabs.len() as int);
        let m = if m.devtools_open && m.has_current() {
            m.devtools_shown()
        } else {
            m
        };
        m.focused().raised()
    }

    /// A new tab is opened for an address, after all the others, and becomes the current one.
    #[verifier::opaque]
    pub open spec fn opened(self, url: Seq<char>) -> BrowserModel {
        let m = self.hidden(self.tabs.len() as int).asked(
            Effect::BuildTab {
                id: self.next_id,
                url,
                newtab: internal_newtab(url),
                devtools_open: self.devtools_open,
            },
        );
        let m = BrowserModel {
            tabs: self.tabs.push(new_tab(self.next_id, url)),
            current: self.tabs.len() as usize,
            next_id: (self.next_id + 1) as u32,
            ..m
        };
        let m = if m.devtools_open {
            m.devtools_shown()
        } else {
            m
        };
        m.synced().resized().focused().raised()
    }

    /// The developer tools are no longer open.
    pub open spec fn devtools_closed(self) -> BrowserModel {
        if !self.on_windows() {
            BrowserModel { devtools_open: false, ..self.asked(Effect::CloseDevtools(self.current)) }
        } else if self.panel {
            BrowserModel {
                devtools_open: false,
                panel_pending: false,
                panel_build_next: false,
                connect: None,
                ..self.asked(Effect::ClosePanel)
            }
        } else {
            BrowserModel {
                devtools_open: false,
                panel_pending: false,
                panel_build_next: false,
                ..self
            }
        }
    }

    /// The developer tools are opened, or closed where they are open. Without a current tab
    /// nothing happens.
    #[verifier::opaque]
    pub open spec fn toggled(self) -> BrowserModel {
        if !self.has_current() {
            self
        } else {
            let m = if self.devtools_open {
                self.devtools_closed()
            } else {
                BrowserModel { devtools_open: true, ..self }.devtools_shown()
            };
            m.resized().raised().focused()
        }
    }

    /// A tab is closed. The current tab stays the current one; where it is the one that is
    /// closed, the next one takes its place, or the last one. A new tab is opened in place
    /// of the only one.
    #[verifier::opaque]
    pub open spec fn closed(self, i: usize) -> BrowserModel {
        if i >= self.tabs.len() {
            self
        } else {
            let m = BrowserModel {
                tabs: self.tabs.remove(i as int),
                ..self.asked(Effect::RemoveTab(i))
            };
            if m.tabs.len() == 0 {
                m.opened(NEWTAB_URL@)
            } else {
                let current = current_after_close(self.current, i, m.tabs.len());
                BrowserModel { current, ..m }.shown().synced()
            }
        }
    }
}

// ---- messages ----

impl BrowserModel {
    /// Whether a command can be carried out: it may need a current tab, or a number for a
    /// new one.
    pub open spec fn can_obey(self, c: Command<Seq<char>>) -> bool {
        match c {
            Command::GoBack
            | Command::GoForward
            | Command::Reload
            | Command::Stop
            | Command::Load(_) => self.has_current(),
            Command::NewTab => self.next_id < u32::MAX,
            Command::CloseTab(i) => self.tabs.len() == 1 && i == 0 ==> self.next_id < u32::MAX,
            _ => true,
        }
    }

    /// The state after a command.
    pub open spec fn obeyed(self, c: Command<Seq<char>>) -> BrowserModel {
        let i = self.current as int;
        match c {
            Command::DragWindow => self.asked(Effect::DragWindow),
            Command::MinimizeWindow => self.asked(Effect::MinimizeWindow),
            Command::ToggleMaximized => self.asked(
                Effect::ToggleMaximized,
            ).resized().raised().synced(),
            Command::CloseWindow => self.asked(Effect::Exit),
            Command::Ready => if self.on_windows() {
                self.raised()
            } else {
                self.synced().raised()
            },
            Command::FocusContent => self.focused(),
            Command::GoBack => self.asked(Effect::GoBack(self.current)).focused(),
            Command::GoForward => self.asked(Effect::GoForward(self.current)).focused(),
            Command::Reload => self.asked(Effect::Reload(self.current)).with_loading(
                i,
                true,
            ).synced().focused(),
            Command::Stop => self.asked(Effect::StopLoading(self.current)).with_loading(
                i,
                false,
            ).synced().focused(),
            Command::ToggleDevtools => self.toggled(),
            Command::Load(url) => self.with_page(i, url).asked(
                Effect::LoadUrl(self.current, loaded_address(url)),
            ).focused().synced().raised(),
            Command::NewTab => self.opened(NEWTAB_URL@),
            Command::SwitchTab(k) => if k < self.tabs.len() {
                BrowserModel { current: k, ..self }.shown().synced()
            } else {
                self
            },
            Command::CloseTab(k) => self.closed(k),
            Command::Nothing => self,
        }
    }

    /// Whether the messages of the queue can be handled, one after the other. The one that
    /// only says that the toolbar is there is left out.
    pub open spec fn can_drain(self, queue: Seq<Seq<char>>) -> bool
        decreases queue.len(),
    {
        queue.len() > 0 ==> {
            let rest = queue.drop_first();
            if queue[0] == "ready"@ {
                self.can_drain(rest)
            } else {
                self.can_obey(command_of(queue[0])) && self.obeyed(command_of(queue[0])).can_drain(
                    rest,
                )
            }
        }
    }

    /// The state after the messages of the queue.
    pub open spec fn drained(self, queue: Seq<Seq<char>>) -> BrowserModel
        decreases queue.len(),
    {
        if queue.len() == 0 {
            self
        } else if queue[0] == "ready"@ {
            self.drained(queue.drop_first())
        } else {
            self.obeyed(command_of(queue[0])).drained(queue.drop_first())
        }
    }
}

// ---- events ----

/// An event of the window, or one of the web views. `S` is the type of text.
#[derive(Clone, Debug)]
pub enum ShellEvent<S> {
    CloseRequested,
    Resized,
    ScaleFactorChanged,
    CursorMoved { over_toolbar: bool },
    ModifiersChanged(Modifiers),
    KeyboardInput { key: Key, pressed: bool, repeat: bool },
    Focused(bool),
    MainEventsCleared,
    User(UserEvent<S>),
}

impl View for ShellEvent<String> {
    type V = ShellEvent<Seq<char>>;

    open spec fn view(&self) -> ShellEvent<Seq<char>> {
        match *self {
            ShellEvent::CloseRequested => ShellEvent::CloseRequested,
            ShellEvent::Resized => ShellEvent::Resized,
            ShellEvent::ScaleFactorChanged => ShellEvent::ScaleFactorChanged,
            ShellEvent::CursorMoved { over_toolbar } => ShellEvent::CursorMoved { over_toolbar },
            ShellEvent::ModifiersChanged(m) => ShellEvent::ModifiersChanged(m),
            ShellEvent::KeyboardInput { key, pressed, repeat } => ShellEvent::KeyboardInput {
                key,
                pressed,
                repeat,
            },
            ShellEvent::Focused(focused) => ShellEvent::Focused(focused),
            ShellEvent::MainEventsCleared => ShellEvent::MainEventsCleared,
            ShellEvent::User(e) => ShellEvent::User(e@),
        }
    }
}

impl BrowserModel {
    /// The toolbar is given its state again where a tab is the current one.
    pub open spec fn synced_if_current(self, i: int) -> BrowserModel {
        if i == self.current {
            self.synced()
        } else {
            self
        }
    }

    /// A tab is at another address. While it loads a page of the web, an address of the
    /// new-tab page is not taken over.
    pub open spec fn navigated(self, i: int, url: Seq<char>) -> BrowserModel {
        let t = self.tabs[i];
        let kept = logical_address(url);
        if t.loading && !internal_newtab(t.url) && internal_newtab(kept) || t.url == kept {
            self
        } else {
            let m = self.with_tab(i, TabModel { url: kept, ..t }).synced();
            if i == self.current {
                m.focused()
            } else {
                m
            }
        }
    }

    /// A tab has another title, which the toolbar is told.
    pub open spec fn titled(self, i: int, title: Seq<char>) -> BrowserModel {
        let m = self.with_tab(i, TabModel { title, ..self.tabs[i] });
        if self.on_windows() {
            m.synced()
        } else {
            m.asked(Effect::RunToolbarScript(title_script(i, label_text(m.tabs[i]))))
        }
    }

    /// Whether an event of the web views can be handled.
    pub open spec fn can_hear(self, e: UserEvent<Seq<char>>) -> bool {
        match e {
            UserEvent::Ipc(msg) => self.can_obey(command_of(msg)),
            UserEvent::NewWindow { url } => resolved_input(url) is Some ==> self.next_id
                < u32::MAX,
            _ => true,
        }
    }

    /// The state after an event of the web views. One that names a tab that is not there
    /// changes nothing.
    pub open spec fn heard(self, e: UserEvent<Seq<char>>) -> BrowserModel {
        match e {
            UserEvent::Ipc(msg) => self.obeyed(command_of(msg)),
            UserEvent::WakeIpc => self,
            UserEvent::ToggleDevtools => self.toggled(),
            UserEvent::Navigated { tab_id, url } => match tab_place(self.tabs, tab_id) {
                Some(i) => if url == "about:blank"@ {
                    self
                } else {
                    self.navigated(i, url)
                },
                None => self,
            },
            UserEvent::TitleChanged { tab_id, title } => match tab_place(self.tabs, tab_id) {
                Some(i) => self.titled(i, title),
                None => self,
            },
            UserEvent::NewWindow { url } => match resolved_input(url) {
                Some(address) => self.opened(address),
                None => self,
            },
            UserEvent::FocusTab { tab_id } => match tab_place(self.tabs, tab_id) {
                Some(i) => if i == self.current {
                    self.focused()
                } else {
                    self
                },
                None => self,
            },
            UserEvent::LoadStarted { tab_id } => match tab_place(self.tabs, tab_id) {
                Some(i) => self.with_loading(i, true).synced_if_current(i),
                None => self,
            },
            UserEvent::LoadFinished { tab_id } => match tab_place(self.tabs, tab_id) {
                Some(i) => self.with_loading(i, false).synced_if_current(i),
                None => self,
            },
            UserEvent::ForceLoad { tab_id, url } => match tab_place(self.tabs, tab_id) {
                Some(i) => self.with_page(i, logical_address(url)).asked(
                    Effect::LoadUrl(i as usize, loaded_address(logical_address(url))),
                ).synced_if_current(i),
                None => self,
            },
        }
    }

    /// Whether an event can be handled.
    pub open spec fn can_handle(self, e: ShellEvent<Seq<char>>) -> bool {
        e matches ShellEvent::User(u) ==> self.can_hear(u)
    }

    /// The state after an event.
    pub open spec fn handled(self, e: ShellEvent<Seq<char>>) -> BrowserModel {
        match e {
            ShellEvent::CloseRequested => self.asked(Effect::Exit),
            ShellEvent::Resized => self.resized().raised().synced(),
            ShellEvent::ScaleFactorChanged => self.resized().raised(),
            ShellEvent::CursorMoved { over_toolbar } => if self.on_windows() && self.panel
                && over_toolbar {
                self.raised().asked(Effect::FocusToolbar)
            } else {
                self
            },
            ShellEvent::ModifiersChanged(modifiers) => BrowserModel { modifiers, ..self },
            ShellEvent::KeyboardInput { key, pressed, repeat } => if pressed && !repeat
                && asks_for_devtools(self.platform, key, self.modifiers) {
                self.toggled()
            } else {
                self
            },
            ShellEvent::Focused(focused) => if focused {
                self.focused()
            } else {
                self
            },
            ShellEvent::MainEventsCleared => if self.on_windows() && self.panel
                && self.z_order_nudges < Z_ORDER_NUDGES_MAX {
                BrowserModel {
                    z_order_nudges: (self.z_order_nudges + 1) as u32,
                    ..self.raised()
                }
            } else {
                self
            },
            ShellEvent::User(u) => self.heard(u),
        }
    }
}

// ---- the docked developer tools ----

impl BrowserModel {
    /// The page whose developer tools are looked for now.
    pub open spec fn searched_page(self) -> Option<Seq<char>> {
        match self.connect {
            Some(c) => if self.devtools_open && self.panel {
                Some(c.page_url)
            } else {
                None
            },
            None => None,
        }
    }

    /// A search that has lost its purpose is given up.
    pub open spec fn search_checked(self) -> BrowserModel {
        if self.devtools_open && self.panel {
            self
        } else {
            BrowserModel { connect: None, ..self }
        }
    }

    /// The search for the docked developer tools is given up, and a window of their own is
    /// opened for them.
    pub open spec fn search_failed(self) -> BrowserModel {
        let m = if self.has_current() {
            self.asked(Effect::OpenDevtools(self.current))
        } else {
            self
        };
        let m = if self.panel {
            m.asked(Effect::ClosePanel)
        } else {
            m
        };
        BrowserModel { devtools_open: false, connect: None, ..m }.resized()
    }

    /// The developer tools of the page were found at an address, or not found. After many
    /// attempts a window of their own is opened for them instead.
    pub open spec fn searched(self, found: Option<Seq<char>>) -> BrowserModel {
        match (self.connect, found) {
            (None, _) => self,
            (Some(_), Some(url)) => BrowserModel { connect: None, ..self }.asked(
                Effect::LoadPanel(url),
            ).asked(Effect::ShowPanel).raised(),
            (Some(c), None) => if c.attempts + 1 < DEVTOOLS_CONNECT_MAX {
                BrowserModel {
                    connect: Some(ConnectModel { attempts: (c.attempts + 1) as u32, ..c }),
                    ..self
                }
            } else {
                self.search_failed()
            },
        }
    }

    /// The docked developer tools that were asked for are built, one event later than asked.
    pub open spec fn panel_built(self) -> BrowserModel {
        if self.panel_pending {
            BrowserModel { panel_pending: false, panel_build_next: true, ..self }
        } else if !self.panel_build_next {
            self
        } else if self.panel || !self.devtools_open {
            BrowserModel { panel_build_next: false, ..self }
        } else {
            let m = BrowserModel { panel_build_next: false, panel: true, ..self }.asked(
                Effect::BuildPanel,
            ).resized().raised();
            if m.has_current() {
                m.connecting()
            } else {
                m
            }
        }
    }
}

// ---- the start ----

impl BrowserModel {
    /// A toolbar without scripts is loaded again where its state has changed.
    pub open spec fn flushed(self) -> BrowserModel {
        if self.toolbar_dirty {
            BrowserModel { toolbar_dirty: false, ..self }.asked(
                Effect::LoadToolbar(
                    crate::address::document_address(
                        rendered_page(self.snapshot, self.version, self.icon),
                    ),
                ),
            )
        } else {
            self
        }
    }

    /// The messages of the queue are handled; where there are none, a toolbar without scripts
    /// is loaded again if its state has changed.
    pub open spec fn queue_handled(self, queue: Seq<Seq<char>>) -> BrowserModel {
        if queue.len() == 0 {
            self.flushed()
        } else {
            self.drained(queue)
        }
    }

    /// The web view of the first tab is built.
    pub open spec fn first_built(self) -> BrowserModel {
        BrowserModel {
            tabs: self.tabs.push(new_tab(1, NEWTAB_URL@)),
            current: 0,
            next_id: 2,
            ..self.asked(
                Effect::BuildTab {
                    id: 1,
                    url: NEWTAB_URL@,
                    newtab: true,
                    devtools_open: self.devtools_open,
                },
            )
        }
    }

    /// The browser is started with its first tab.
    pub open spec fn started(self) -> BrowserModel {
        self.first_built().raised().resized().synced()
    }

    /// The start on Windows goes one phase on.
    pub open spec fn bootstrapped(self) -> BrowserModel {
        if self.bootstrap_phase == 0 {
            BrowserModel {
                startup_focus_frames: STARTUP_FOCUS_FRAMES,
                bootstrap_phase: 1,
                ..self.asked(Effect::ShowWindow).asked(Effect::FocusWindow)
            }
        } else if self.bootstrap_phase == 1 {
            let m = self.first_built().asked(Effect::FocusWindow).raised().resized().synced();
            BrowserModel { ipc_ready: true, bootstrap_phase: 2, ..m.flushed() }
        } else {
            self
        }
    }

    /// The window asks for the focus now and then after the start.
    pub open spec fn startup_focused(self) -> BrowserModel {
        if self.startup_focus_frames == 0 {
            self
        } else {
            let m = BrowserModel {
                startup_focus_frames: (self.startup_focus_frames - 1) as u32,
                ..self
            };
            if m.startup_focus_frames % 15 == 0 {
                m.asked(Effect::FocusWindow)
            } else {
                m
            }
        }
    }
}

// ---- the browser ----

/// The state before anything has happened.
pub open spec fn initial_model(
    platform: Platform,
    version: Seq<char>,
    icon: Seq<char>,
) -> BrowserModel {
    BrowserModel {
        platform,
        version,
        icon,
        tabs: Seq::empty(),
        current: 0,
        next_id: 1,
        modifiers: Modifiers { control: false, shift: false, alt: false, logo: false },
        devtools_open: false,
        panel: false,
        panel_pending: false,
        panel_build_next: false,
        connect: None,
        z_order_nudges: 0,
        snapshot: default_snapshot(),
        toolbar_dirty: false,
        bootstrap_phase: 0,
        startup_focus_frames: 0,
        ipc_ready: false,
        effects: Seq::empty(),
    }
}

impl Browser {
    /// A browser without a tab.
    pub fn new(platform: Platform, version: &str, icon: &str) -> (r: Browser)
        ensures
            r@ == initial_model(platform, version@, icon@),
    {
        let r: Browser = Browser {
            platform,
            version: copy_of(version),
            icon: copy_of(icon),
            tabs: Vec::new(),
            current: 0,
            next_id: 1,
            modifiers: Modifiers { control: false, shift: false, alt: false, logo: false },
            devtools_open: false,
            panel: false,
            panel_pending: false,
            panel_build_next: false,
            connect: None,
            z_order_nudges: 0,
            snapshot: ToolbarSnapshot::new_default(),
            toolbar_dirty: false,
            bootstrap_phase: 0,
            startup_focus_frames: 0,
            ipc_ready: false,
            effects: Vec::new(),
        };
        assert(r@ =~= initial_model(platform, version@, icon@));
        r
    }

    /// Hands out what is to be done with the window and the web views.
    pub fn take_effects(&mut self) -> (r: Vec<Effect<String>>)
        ensures
            effect_models(r@) == old(self)@.effects,
            final(self)@ == (BrowserModel { effects: Seq::empty(), ..old(self)@ }),
    {
        let mut taken: Vec<Effect<String>> = Vec::new();
        std::mem::swap(&mut taken, &mut self.effects);
        assert(self@.effects =~= Seq::empty());
        taken
    }

    /// One more effect.
    fn ask(&mut self, e: Effect<String>)
        ensures
            final(self)@ == old(self)@.asked(e@),
    {
        self.effects.push(e);
        assert(self@.effects =~= old(self)@.effects.push(e@));
    }

    /// Puts a tab in the place of another.
    fn set_tab(&mut self, i: usize, t: Tab)
        requires
            i < old(self)@.tabs.len(),
        ensures
            final(self)@ == old(self)@.with_tab(i as int, t@),
    {
        self.tabs.set(i, t);
        assert(self@.tabs =~= old(self)@.tabs.update(i as int, t@));
    }

    fn set_loading(&mut self, i: usize, loading: bool)
        requires
            i < old(self)@.tabs.len(),
        ensures
            final(self)@ == old(self)@.with_loading(i as int, loading),
    {
        let t: Tab = Tab {
            id: self.tabs[i].id,
            url: self.tabs[i].url.clone(),
            title: self.tabs[i].title.clone(),
            loading,
        };
        self.set_tab(i, t);
    }

    fn set_page(&mut self, i: usize, url: &str)
        requires
            i < old(self)@.tabs.len(),
        ensures
            final(self)@ == old(self)@.with_page(i as int, url@),
    {
        let t: Tab = Tab {
            id: self.tabs[i].id,
            url: copy_of(url),
            title: String::new(),
            loading: true,
        };
        assert(t@.title =~= Seq::<char>::empty());
        self.set_tab(i, t);
    }

    fn focus_active_tab(&mut self)
        ensures
            final(self)@ == old(self)@.focused(),
    {
        if self.platform != Platform::Windows && self.current < self.tabs.len() {
            let i: usize = self.current;
            self.ask(Effect::FocusTab(i));
        }
    }

    fn sync_toolbar(&mut self)
        ensures
            final(self)@ == old(self)@.synced(),
    {
        let snapshot: ToolbarSnapshot = sync_toolbar(&self.tabs, self.current);
        if self.platform == Platform::Windows {
            self.snapshot = snapshot;
            self.toolbar_dirty = true;
        } else {
            let script: String = set_state_script(&snapshot);
            self.ask(Effect::RunToolbarScript(script));
        }
    }

    fn raise_toolbar(&mut self)
        ensures
            final(self)@ == old(self)@.raised(),
    {
        self.ask(Effect::RaiseToolbar);
    }

    fn resize_all(&mut self)
        ensures
            final(self)@ == old(self)@.resized(),
    {
        let devtools_open: bool = self.devtools_open;
        self.ask(Effect::Resize(devtools_open));
    }

    /// Shows the docked developer tools and looks for those of the current page.
    fn sync_windows_devtools(&mut self)
        requires
            old(self)@.has_current(),
        ensures
            final(self)@ == old(self)@.connecting(),
    {
        let page_url: String = logical_tab_url(self.tabs[self.current].url.as_str());
        self.connect = Some(DevtoolsConnectState { page_url, attempts: 0 });
        self.ask(Effect::ShowPanel);
    }

    /// Opens the developer tools of the current tab.
    fn show_devtools(&mut self)
        requires
            old(self)@.has_current(),
        ensures
            final(self)@ == old(self)@.devtools_shown(),
    {
        if self.platform != Platform::Windows {
            let i: usize = self.current;
            self.ask(Effect::OpenDevtools(i));
        } else if self.panel {
            self.sync_windows_devtools();
        } else {
            self.request_devtools_panel();
        }
    }

    /// Asks for the docked developer tools to be built.
    fn request_devtools_panel(&mut self)
        ensures
            final(self)@ == (BrowserModel { panel_pending: true, ..old(self)@ }),
    {
        self.panel_pending = true;
    }

    /// Takes back that the docked developer tools are to be built.
    fn cancel_devtools_panel_request(&mut self)
        ensures
            final(self)@ == (BrowserModel {
                panel_pending: false,
                panel_build_next: false,
                ..old(self)@
            }),
    {
        self.panel_pending = false;
        self.panel_build_next = false;
    }

    /// Shows the current tab and hides the others.
    fn show_tab(&mut self)
        ensures
            final(self)@ == old(self)@.shown(),
    {
        proof {
            reveal(BrowserModel::shown);
        }
        let ghost start = self@;
        let n: usize = self.tabs.len();
        let mut i: usize = 0;
        while i < n
            invariant
                i <= n,
                n == start.tabs.len(),
                self@ == start.with_visibility(i as int),
                self@.platform == start.platform,
                self@.current == start.current,
                self@.tabs == start.tabs,
            decreases n - i,
        {
            let visible: bool = i == self.current;
            self.ask(Effect::SetTabVisible(i, visible));
            if !visible && self.platform != Platform::Windows {
                self.ask(Effect::CloseDevtools(i));
            }
            i += 1;
        }
        if self.devtools_open && self.current < self.tabs.len() {
            self.show_devtools();
        }
        self.focus_active_tab();
        self.raise_toolbar();
    }

    /// Hides all tabs.
    fn hide_tabs(&mut self)
        ensures
            final(self)@ == old(self)@.hidden(old(self)@.tabs.len() as int),
            final(self)@ == (BrowserModel { effects: final(self)@.effects, ..old(self)@ }),
    {
        let ghost start = self@;
        let n: usize = self.tabs.len();
        let mut i: usize = 0;
        while i < n
            invariant
                i <= n,
                n == start.tabs.len(),
                self@ == start.hidden(i as int),
                self@ == (BrowserModel { effects: self@.effects, ..start }),
            decreases n - i,
        {
            self.ask(Effect::SetTabVisible(i, false));
            i += 1;
        }
    }

    /// Adds a tab after all the others.
    fn push_tab(&mut self, id: u32, url: &str)
        ensures
            final(self)@ == (BrowserModel {
                tabs: old(self)@.tabs.push(new_tab(id, url@)),
                ..old(self)@
            }),
    {
        let title: String = if starts_with(url, "plum://") {
            copy_of(NEWTAB_TITLE)
        } else {
            String::new()
        };
        assert(title@ =~= new_tab(id, url@).title);
        let t: Tab = Tab { id, url: logical_tab_url(url), title, loading: false };
        self.tabs.push(t);
        assert(self@.tabs =~= old(self)@.tabs.push(new_tab(id, url@)));
    }

    /// Opens a new tab for an address, after all the others, and makes it the current one.
    pub fn open_new_tab(&mut self, url: &str)
        requires
            old(self)@.next_id < u32::MAX,
        ensures
            final(self)@ == old(self)@.opened(url@),
    {
        proof {
            reveal(BrowserModel::opened);
        }
        self.hide_tabs();
        let id: u32 = self.next_id;
        let newtab: bool = is_internal_newtab_url(url);
        let devtools_open: bool = self.devtools_open;
        self.ask(Effect::BuildTab { id, url: copy_of(url), newtab, devtools_open });
        self.current = self.tabs.len();
        self.next_id = id + 1;
        self.push_tab(id, url);
        if self.devtools_open {
            self.show_devtools();
        }
        self.sync_toolbar();
        self.resize_all();
        self.focus_active_tab();
        self.raise_toolbar();
    }

    /// Opens the developer tools, or closes them where they are open.
    pub fn toggle_devtools(&mut self)
        ensures
            final(self)@ == old(self)@.toggled(),
    {
        proof {
            reveal(BrowserModel::toggled);
        }
        if self.current >= self.tabs.len() {
            return;
        }
        if self.devtools_open {
            if self.platform != Platform::Windows {
                let i: usize = self.current;
                self.ask(Effect::CloseDevtools(i));
            } else {
                self.cancel_devtools_panel_request();
                if self.panel {
                    self.connect = None;
                    self.ask(Effect::ClosePanel);
                }
            }
            self.devtools_open = false;
        } else {
            self.devtools_open = true;
            self.show_devtools();
        }
        self.resize_all();
        self.raise_toolbar();
        self.focus_active_tab();
    }

    /// Makes a tab the current one. A number without a tab changes nothing.
    pub fn switch_tab(&mut self, i: usize)
        ensures
            final(self)@ == old(self)@.obeyed(Command::SwitchTab(i)),
    {
        if i < self.tabs.len() {
            self.current = i;
            self.show_tab();
            self.sync_toolbar();
        }
    }

    /// Closes a tab. A number without a tab changes nothing.
    pub fn close_tab(&mut self, i: usize)
        requires
            old(self)@.can_obey(Command::CloseTab(i)),
        ensures
            final(self)@ == old(self)@.closed(i),
    {
        proof {
            reveal(BrowserModel::closed);
        }
        if i >= self.tabs.len() {
            return;
        }
        self.ask(Effect::RemoveTab(i));
        let _closed: Tab = self.tabs.remove(i);
        assert(self@.tabs =~= old(self)@.tabs.remove(i as int));
        if self.tabs.len() == 0 {
            self.open_new_tab(NEWTAB_URL);
            return;
        }
        if i < self.current {
            self.current = self.current - 1;
        } else if self.current >= self.tabs.len() {
            self.current = self.tabs.len() - 1;
        }
        self.show_tab();
        self.sync_toolbar();
    }

    /// Loads an address, in the form in which a tab keeps it, into the current tab.
    fn load(&mut self, url: &str)
        requires
            old(self)@.has_current(),
        ensures
            final(self)@ == old(self)@.obeyed(Command::Load(url@)),
    {
        let i: usize = self.current;
        self.set_page(i, url);
        let address: String = content_load_url(url);
        self.ask(Effect::LoadUrl(i, address));
        self.focus_active_tab();
        self.sync_toolbar();
        self.raise_toolbar();
    }

    /// Maximizes the window, or restores it.
    fn toggle_maximized(&mut self)
        ensures
            final(self)@ == old(self)@.obeyed(Command::ToggleMaximized),
    {
        self.ask(Effect::ToggleMaximized);
        self.resize_all();
        self.raise_toolbar();
        self.sync_toolbar();
    }

    /// Gives the toolbar, which is there now, its state.
    fn toolbar_ready(&mut self)
        ensures
            final(self)@ == old(self)@.obeyed(Command::Ready),
    {
        if self.platform != Platform::Windows {
            self.sync_toolbar();
        }
        self.raise_toolbar();
    }

    /// Goes back in the current tab.
    fn go_back(&mut self)
        requires
            old(self)@.has_current(),
        ensures
            final(self)@ == old(self)@.obeyed(Command::GoBack),
    {
        let i: usize = self.current;
        self.ask(Effect::GoBack(i));
        self.focus_active_tab();
    }

    /// Goes forward in the current tab.
    fn go_forward(&mut self)
        requires
            old(self)@.has_current(),
        ensures
            final(self)@ == old(self)@.obeyed(Command::GoForward),
    {
        let i: usize = self.current;
        self.ask(Effect::GoForward(i));
        self.focus_active_tab();
    }

    /// Loads the current tab again.
    fn reload(&mut self)
        requires
            old(self)@.has_current(),
        ensures
            final(self)@ == old(self)@.obeyed(Command::Reload),
    {
        let i: usize = self.current;
        self.ask(Effect::Reload(i));
        self.set_loading(i, true);
        self.sync_toolbar();
        self.focus_active_tab();
    }

    /// Stops loading the current tab.
    fn stop(&mut self)
        requires
            old(self)@.has_current(),
        ensures
            final(self)@ == old(self)@.obeyed(Command::Stop),
    {
        let i: usize = self.current;
        self.ask(Effect::StopLoading(i));
        self.set_loading(i, false);
        self.sync_toolbar();
        self.focus_active_tab();
    }

    /// Carries out a command.
    pub fn obey(&mut self, command: Command<String>)
        requires
            old(self)@.can_obey(command@),
        ensures
            final(self)@ == old(self)@.obeyed(command@),
    {
        match command {
            Command::DragWindow => self.ask(Effect::DragWindow),
            Command::MinimizeWindow => self.ask(Effect::MinimizeWindow),
            Command::ToggleMaximized => self.toggle_maximized(),
            Command::CloseWindow => self.ask(Effect::Exit),
            Command::Ready => self.toolbar_ready(),
            Command::FocusContent => self.focus_active_tab(),
            Command::GoBack => self.go_back(),
            Command::GoForward => self.go_forward(),
            Command::Reload => self.reload(),
            Command::Stop => self.stop(),
            Command::ToggleDevtools => self.toggle_devtools(),
            Command::Load(url) => self.load(url.as_str()),
            Command::NewTab => self.open_new_tab(NEWTAB_URL),
            Command::SwitchTab(k) => self.switch_tab(k),
            Command::CloseTab(k) => self.close_tab(k),
            Command::Nothing => {},
        }
    }

    /// Handles a message.
    pub fn process_ipc(&mut self, msg: &str)
        requires
            old(self)@.can_obey(command_of(msg@)),
        ensures
            final(self)@ == old(self)@.obeyed(command_of(msg@)),
    {
        let command: Command<String> = parse_command(msg);
        self.obey(command);
    }

    /// Handles the messages of the queue, once the browser is ready for them, and empties
    /// it. Tells whether there were any: the effects may bring more. Where there were none,
    /// a toolbar without scripts is loaded again if its state has changed.
    pub fn drain_pending_ipc(&mut self, queue: &mut Vec<String>) -> (r: bool)
        requires
            old(self)@.ipc_ready ==> old(self)@.can_drain(texts(old(queue)@)),
        ensures
            r == (old(self)@.ipc_ready && old(queue)@.len() > 0),
            old(self)@.ipc_ready ==> final(self)@ == old(self)@.queue_handled(texts(old(queue)@))
                && final(queue)@.len() == 0,
            !old(self)@.ipc_ready ==> *final(self) == *old(self) && *final(queue) == *old(queue),
    {
        if !self.ipc_ready {
            return false;
        }
        if queue.len() == 0 {
            self.flush_toolbar();
            return false;
        }
        let mut batch: Vec<String> = Vec::new();
        std::mem::swap(&mut batch, queue);
        let ghost start = self@;
        let ghost all = texts(batch@);
        assert(all.skip(0) =~= all);
        let mut i: usize = 0;
        while i < batch.len()
            invariant
                i <= batch@.len(),
                all == texts(batch@),
                self@.can_drain(all.skip(i as int)),
                self@.drained(all.skip(i as int)) == start.drained(all),
            decreases batch.len() - i,
        {
            assert(all.skip(i as int).drop_first() =~= all.skip(i + 1));
            assert(all.skip(i as int)[0] == batch@[i as int]@);
            if !same(batch[i].as_str(), "ready") {
                self.process_ipc(batch[i].as_str());
            }
            i += 1;
        }
        true
    }

    /// A tab is at another address.
    fn navigated(&mut self, i: usize, url: &str)
        requires
            i < old(self)@.tabs.len(),
        ensures
            final(self)@ == old(self)@.navigated(i as int, url@),
    {
        let kept: String = logical_tab_url(url);
        let was_external: bool = !is_internal_newtab_url(self.tabs[i].url.as_str());
        if self.tabs[i].loading && was_external && is_internal_newtab_url(kept.as_str()) {
            return;
        }
        if same(self.tabs[i].url.as_str(), kept.as_str()) {
            return;
        }
        let t: Tab = Tab {
            id: self.tabs[i].id,
            url: kept,
            title: self.tabs[i].title.clone(),
            loading: self.tabs[i].loading,
        };
        self.set_tab(i, t);
        self.sync_toolbar();
        if i == self.current {
            self.focus_active_tab();
        }
    }

    /// A tab has another title.
    fn title_changed(&mut self, i: usize, title: String)
        requires
            i < old(self)@.tabs.len(),
        ensures
            final(self)@ == old(self)@.titled(i as int, title@),
    {
        let t: Tab = Tab {
            id: self.tabs[i].id,
            url: self.tabs[i].url.clone(),
            title,
            loading: self.tabs[i].loading,
        };
        self.set_tab(i, t);
        if self.platform == Platform::Windows {
            self.sync_toolbar();
        } else {
            assert(self.tabs@.len() == self@.tabs.len());
            assert(self@.tabs[i as int] == self.tabs@[i as int]@);
            let label: String = tab_label(&self.tabs[i]);
            let script: String = set_tab_title_script(i, label.as_str());
            self.ask(Effect::RunToolbarScript(script));
        }
    }

    /// A tab has started or finished loading.
    fn load_changed(&mut self, i: usize, loading: bool)
        requires
            i < old(self)@.tabs.len(),
        ensures
            final(self)@ == old(self)@.with_loading(i as int, loading).synced_if_current(i as int),
    {
        self.set_loading(i, loading);
        if i == self.current {
            self.sync_toolbar();
        }
    }

    /// A tab loads an address.
    fn force_load(&mut self, i: usize, url: &str)
        requires
            i < old(self)@.tabs.len(),
        ensures
            final(self)@ == old(self)@.with_page(i as int, logical_address(url@)).asked(
                Effect::LoadUrl(i, loaded_address(logical_address(url@))),
            ).synced_if_current(i as int),
    {
        let kept: String = logical_tab_url(url);
        self.set_page(i, kept.as_str());
        let address: String = content_load_url(kept.as_str());
        self.ask(Effect::LoadUrl(i, address));
        if i == self.current {
            self.sync_toolbar();
        }
    }

    /// Handles an event of the web views.
    pub fn hear(&mut self, event: UserEvent<String>)
        requires
            old(self)@.can_hear(event@),
        ensures
            final(self)@ == old(self)@.heard(event@),
    {
        match event {
            UserEvent::Ipc(msg) => self.process_ipc(msg.as_str()),
            UserEvent::WakeIpc => {},
            UserEvent::ToggleDevtools => self.toggle_devtools(),
            UserEvent::Navigated { tab_id, url } => {
                if !same(url.as_str(), "about:blank") {
                    if let Some(i) = find_tab_idx(&self.tabs, tab_id) {
                        self.navigated(i, url.as_str());
                    }
                }
            },
            UserEvent::TitleChanged { tab_id, title } => {
                if let Some(i) = find_tab_idx(&self.tabs, tab_id) {
                    self.title_changed(i, title);
                }
            },
            UserEvent::NewWindow { url } => {
                if let Some(address) = resolve_omnibox_input(url.as_str()) {
                    self.open_new_tab(address.as_str());
                }
            },
            UserEvent::FocusTab { tab_id } => {
                if let Some(i) = find_tab_idx(&self.tabs, tab_id) {
                    if i == self.current {
                        self.focus_active_tab();
                    }
                }
            },
            UserEvent::LoadStarted { tab_id } => {
                if let Some(i) = find_tab_idx(&self.tabs, tab_id) {
                    self.load_changed(i, true);
                }
            },
            UserEvent::LoadFinished { tab_id } => {
                if let Some(i) = find_tab_idx(&self.tabs, tab_id) {
                    self.load_changed(i, false);
                }
            },
            UserEvent::ForceLoad { tab_id, url } => {
                if let Some(i) = find_tab_idx(&self.tabs, tab_id) {
                    self.force_load(i, url.as_str());
                }
            },
        }
    }

    /// Handles an event. For a new size the window has been measured before.
    pub fn dispatch_app_event(&mut self, event: ShellEvent<String>)
        requires
            old(self)@.can_handle(event@),
        ensures
            final(self)@ == old(self)@.handled(event@),
    {
        match event {
            ShellEvent::CloseRequested => self.ask(Effect::Exit),
            ShellEvent::Resized => {
                self.resize_all();
                self.raise_toolbar();
                self.sync_toolbar();
            },
            ShellEvent::ScaleFactorChanged => {
                self.resize_all();
                self.raise_toolbar();
            },
            ShellEvent::CursorMoved { over_toolbar } => {
                if self.platform == Platform::Windows && self.panel && over_toolbar {
                    self.raise_toolbar();
                    self.ask(Effect::FocusToolbar);
                }
            },
            ShellEvent::ModifiersChanged(m) => {
                self.modifiers = m;
            },
            ShellEvent::KeyboardInput { key, pressed, repeat } => {
                if pressed && !repeat && devtools_shortcut(self.platform, key, self.modifiers) {
                    self.toggle_devtools();
                }
            },
            ShellEvent::Focused(focused) => {
                if focused {
                    self.focus_active_tab();
                }
            },
            ShellEvent::MainEventsCleared => {
                if self.platform == Platform::Windows && self.panel && self.z_order_nudges
                    < Z_ORDER_NUDGES_MAX {
                    self.raise_toolbar();
                    self.z_order_nudges = self.z_order_nudges + 1;
                }
            },
            ShellEvent::User(e) => self.hear(e),
        }
    }

    /// The page whose developer tools are to be looked for now. A search that has lost its
    /// purpose is given up.
    pub fn tick_devtools_connect(&mut self) -> (r: Option<String>)
        ensures
            match r {
                Some(page_url) => old(self)@.searched_page() == Some(page_url@),
                None => old(self)@.searched_page() is None,
            },
            final(self)@ == old(self)@.search_checked(),
    {
        if !self.devtools_open || !self.panel {
            self.connect = None;
            return None;
        }
        match &self.connect {
            Some(c) => Some(copy_of(c.page_url.as_str())),
            None => None,
        }
    }

    /// Gives the search for the docked developer tools up and opens a window for them.
    fn open_devtools_window(&mut self)
        ensures
            final(self)@ == old(self)@.search_failed(),
    {
        if self.current < self.tabs.len() {
            let i: usize = self.current;
            self.ask(Effect::OpenDevtools(i));
        }
        if self.panel {
            self.ask(Effect::ClosePanel);
        }
        self.devtools_open = false;
        self.connect = None;
        self.resize_all();
    }

    /// The developer tools of the page were found at an address, or not found.
    pub fn devtools_searched(&mut self, found: Option<String>)
        requires
            old(self)@.connect matches Some(c) ==> c.attempts < u32::MAX,
        ensures
            final(self)@ == old(self)@.searched(crate::devtools::optional_text(found)),
    {
        let (page_url, made): (String, u32) = match &self.connect {
            Some(c) => (copy_of(c.page_url.as_str()), c.attempts),
            None => {
                return;
            },
        };
        if let Some(url) = found {
            self.connect = None;
            self.ask(Effect::LoadPanel(url));
            self.ask(Effect::ShowPanel);
            self.raise_toolbar();
        } else if made + 1 < DEVTOOLS_CONNECT_MAX {
            self.connect = Some(DevtoolsConnectState { page_url, attempts: made + 1 });
        } else {
            self.open_devtools_window();
        }
    }

    /// Builds the docked developer tools that were asked for, one event later than asked.
    pub fn tick_devtools_panel_build(&mut self)
        ensures
            final(self)@ == old(self)@.panel_built(),
    {
        if self.panel_pending {
            self.panel_pending = false;
            self.panel_build_next = true;
            return;
        }
        if !self.panel_build_next {
            return;
        }
        self.panel_build_next = false;
        if self.panel || !self.devtools_open {
            return;
        }
        self.panel = true;
        self.ask(Effect::BuildPanel);
        self.resize_all();
        self.raise_toolbar();
        if self.current < self.tabs.len() {
            self.sync_windows_devtools();
        }
    }

    /// Loads a toolbar without scripts again where its state has changed.
    pub fn flush_toolbar(&mut self)
        ensures
            final(self)@ == old(self)@.flushed(),
    {
        if self.toolbar_dirty {
            self.toolbar_dirty = false;
            let url: String = windows_toolbar_data_url(
                &self.snapshot,
                self.version.as_str(),
                self.icon.as_str(),
            );
            self.ask(Effect::LoadToolbar(url));
        }
    }

    /// Builds the web view of the first tab.
    fn build_first(&mut self)
        ensures
            final(self)@ == old(self)@.first_built(),
    {
        let devtools_open: bool = self.devtools_open;
        self.ask(
            Effect::BuildTab { id: 1, url: copy_of(NEWTAB_URL), newtab: true, devtools_open },
        );
        self.push_tab(1, NEWTAB_URL);
        self.current = 0;
        self.next_id = 2;
    }

    /// Starts the browser with its first tab.
    pub fn start(&mut self)
        ensures
            final(self)@ == old(self)@.started(),
    {
        self.build_first();
        self.raise_toolbar();
        self.resize_all();
        self.sync_toolbar();
    }

    /// Goes one phase on with the start on Windows.
    pub fn bootstrap_win_app(&mut self)
        ensures
            final(self)@ == old(self)@.bootstrapped(),
    {
        if self.bootstrap_phase == 0 {
            self.ask(Effect::ShowWindow);
            self.ask(Effect::FocusWindow);
            self.startup_focus_frames = STARTUP_FOCUS_FRAMES;
            self.bootstrap_phase = 1;
        } else if self.bootstrap_phase == 1 {
            self.build_first();
            self.ask(Effect::FocusWindow);
            self.raise_toolbar();
            self.resize_all();
            self.sync_toolbar();
            self.ipc_ready = true;
            self.flush_toolbar();
            self.bootstrap_phase = 2;
        }
    }

    /// Asks for the focus of the window now and then after the start.
    pub fn tick_startup_focus(&mut self)
        ensures
            final(self)@ == old(self)@.startup_focused(),
    {
        if self.startup_focus_frames == 0 {
            return;
        }
        self.startup_focus_frames = self.startup_focus_frames - 1;
        if self.startup_focus_frames % 15 == 0 {
            self.ask(Effect::FocusWindow);
        }
    }
}

} // verus!
