//! Messages to the shell, and the events and decisions of its web views.

use crate::address::{
    carried_message, is_blocked_plum_http_url, is_plum_newtab_http_url, logical_address,
    logical_tab_url, newtab_web_address, reserved_web_address, resolve_omnibox_input,
    resolved_input, toolbar_ipc_from_url, toolbar_may_open, toolbar_navigation_allowed, NEWTAB_URL,
};
use crate::devtools::optional_text;
use crate::pages;
use crate::platform::Platform;
use crate::text::{
    contains, copy_of, lowercased, occurs, parse_usize, parsed_usize, same, starts_with,
    strip_prefix, texts, trim, trimmed,
};
use crate::toolbar::{served_toolbar, served_toolbar_html, SnapshotModel, ToolbarSnapshot};
use vstd::prelude::*;

verus! {

// ---- messages ----

/// What a message asks of the shell. `S` is the type of text.
#[derive(Clone, Debug)]
pub enum Command<S> {
    DragWindow,
    MinimizeWindow,
    ToggleMaximized,
    CloseWindow,
    Ready,
    FocusContent,
    GoBack,
    GoForward,
    Reload,
    Stop,
    ToggleDevtools,
    /// Load an address, in the form in which a tab keeps it.
    Load(S),
    NewTab,
    SwitchTab(usize),
    CloseTab(usize),
    /// A message without a meaning.
    Nothing,
}

impl View for Command<String> {
    type V = Command<Seq<char>>;

    open spec fn view(&self) -> Command<Seq<char>> {
        match *self {
            Command::DragWindow => Command::DragWindow,
            Command::MinimizeWindow => Command::MinimizeWindow,
            Command::ToggleMaximized => Command::ToggleMaximized,
            Command::CloseWindow => Command::CloseWindow,
            Command::Ready => Command::Ready,
            Command::FocusContent => Command::FocusContent,
            Command::GoBack => Command::GoBack,
            Command::GoForward => Command::GoForward,
            Command::Reload => Command::Reload,
            Command::Stop => Command::Stop,
            Command::ToggleDevtools => Command::ToggleDevtools,
            Command::Load(url) => Command::Load(url@),
            Command::NewTab => Command::NewTab,
            Command::SwitchTab(i) => Command::SwitchTab(i),
            Command::CloseTab(i) => Command::CloseTab(i),
            Command::Nothing => Command::Nothing,
        }
    }
}

/// What a message asks of the shell.
#[verifier::opaque]
pub open spec fn command_of(msg: Seq<char>) -> Command<Seq<char>> {
    if msg == "win_drag"@ {
        Command::DragWindow
    } else if msg == "win_min"@ {
        Command::MinimizeWindow
    } else if msg == "win_max_toggle"@ {
        Command::ToggleMaximized
    } else if msg == "win_close"@ {
        Command::CloseWindow
    } else if msg == "ready"@ {
        Command::Ready
    } else if msg == "focus_content"@ {
        Command::FocusContent
    } else if msg == "nav_back"@ {
        Command::GoBack
    } else if msg == "nav_forward"@ {
        Command::GoForward
    } else if msg == "nav_reload"@ {
        Command::Reload
    } else if msg == "nav_stop"@ {
        Command::Stop
    } else if msg == "nav_devtools"@ {
        Command::ToggleDevtools
    } else if "load:"@.is_prefix_of(msg) {
        match resolved_input(msg.skip("load:"@.len() as int)) {
            Some(url) => Command::Load(logical_address(url)),
            None => Command::Nothing,
        }
    } else if "new_tab:"@.is_prefix_of(msg) {
        Command::NewTab
    } else if "switch_tab:"@.is_prefix_of(msg) {
        match parsed_usize(trimmed(msg.skip("switch_tab:"@.len() as int))) {
            Some(i) => Command::SwitchTab(i),
            None => Command::Nothing,
        }
    } else if "close_tab:"@.is_prefix_of(msg) {
        match parsed_usize(trimmed(msg.skip("close_tab:"@.len() as int))) {
            Some(i) => Command::CloseTab(i),
            None => Command::Nothing,
        }
    } else {
        Command::Nothing
    }
}

/// Reads a message.
pub fn parse_command(msg: &str) -> (r: Command<String>)
    ensures
        r@ == command_of(msg@),
{
    proof {
        reveal(command_of);
    }
    if same(msg, "win_drag") {
        Command::DragWindow
    } else if same(msg, "win_min") {
        Command::MinimizeWindow
    } else if same(msg, "win_max_toggle") {
        Command::ToggleMaximized
    } else if same(msg, "win_close") {
        Command::CloseWindow
    } else if same(msg, "ready") {
        Command::Ready
    } else if same(msg, "focus_content") {
        Command::FocusContent
    } else if same(msg, "nav_back") {
        Command::GoBack
    } else if same(msg, "nav_forward") {
        Command::GoForward
    } else if same(msg, "nav_reload") {
        Command::Reload
    } else if same(msg, "nav_stop") {
        Command::Stop
    } else if same(msg, "nav_devtools") {
        Command::ToggleDevtools
    } else if let Some(rest) = strip_prefix(msg, "load:") {
        match resolve_omnibox_input(rest.as_str()) {
            Some(url) => Command::Load(logical_tab_url(url.as_str())),
            None => Command::Nothing,
        }
    } else if starts_with(msg, "new_tab:") {
        Command::NewTab
    } else if let Some(rest) = strip_prefix(msg, "switch_tab:") {
        let number: String = trim(rest.as_str());
        match parse_usize(number.as_str()) {
            Some(i) => Command::SwitchTab(i),
            None => Command::Nothing,
        }
    } else if let Some(rest) = strip_prefix(msg, "close_tab:") {
        let number: String = trim(rest.as_str());
        match parse_usize(number.as_str()) {
            Some(i) => Command::CloseTab(i),
            None => Command::Nothing,
        }
    } else {
        Command::Nothing
    }
}

/// The messages of the queue after one more has come. The one that only says that the
/// toolbar is there is left out.
pub open spec fn queued_messages(queue: Seq<Seq<char>>, msg: Seq<char>) -> Seq<Seq<char>> {
    if msg == "ready"@ {
        queue
    } else {
        queue.push(msg)
    }
}

/// Puts a message into the queue of the shell, unless it only says that the toolbar is
/// there. Tells whether the shell has to wake up for it.
pub fn dispatch_win_ipc(queue: &mut Vec<String>, msg: &str) -> (wake: bool)
    ensures
        wake == (msg@ != "ready"@),
        wake ==> final(queue)@.len() == old(queue)@.len() + 1 && final(queue)@.drop_last() == old(
            queue,
        )@ && final(queue)@.last()@ == msg@,
        !wake ==> final(queue)@ == old(queue)@,
        texts(final(queue)@) == queued_messages(texts(old(queue)@), msg@),
{
    if same(msg, "ready") {
        return false;
    }
    queue.push(copy_of(msg));
    assert(queue@.drop_last() =~= old(queue)@);
    assert(texts(queue@) =~= texts(old(queue)@).push(msg@));
    true
}

// ---- events of the web views ----

/// What the web views and the shell tell the event loop. `S` is the type of text.
#[derive(Clone, Debug)]
pub enum UserEvent<S> {
    Ipc(S),
    /// Only wakes the event loop, for a message in the queue.
    WakeIpc,
    ToggleDevtools,
    Navigated { tab_id: u32, url: S },
    TitleChanged { tab_id: u32, title: S },
    NewWindow { url: S },
    FocusTab { tab_id: u32 },
    LoadStarted { tab_id: u32 },
    LoadFinished { tab_id: u32 },
    ForceLoad { tab_id: u32, url: S },
}

impl View for UserEvent<String> {
    type V = UserEvent<Seq<char>>;

    open spec fn view(&self) -> UserEvent<Seq<char>> {
        match *self {
            UserEvent::Ipc(msg) => UserEvent::Ipc(msg@),
            UserEvent::WakeIpc => UserEvent::WakeIpc,
            UserEvent::ToggleDevtools => UserEvent::ToggleDevtools,
            UserEvent::Navigated { tab_id, url } => UserEvent::Navigated { tab_id, url: url@ },
            UserEvent::TitleChanged { tab_id, title } => UserEvent::TitleChanged {
                tab_id,
                title: title@,
            },
            UserEvent::NewWindow { url } => UserEvent::NewWindow { url: url@ },
            UserEvent::FocusTab { tab_id } => UserEvent::FocusTab { tab_id },
            UserEvent::LoadStarted { tab_id } => UserEvent::LoadStarted { tab_id },
            UserEvent::LoadFinished { tab_id } => UserEvent::LoadFinished { tab_id },
            UserEvent::ForceLoad { tab_id, url } => UserEvent::ForceLoad { tab_id, url: url@ },
        }
    }
}

/// An event, or none, with its text.
pub open spec fn optional_event(e: Option<UserEvent<String>>) -> Option<UserEvent<Seq<char>>> {
    match e {
        Some(event) => Some(event@),
        None => None,
    }
}

/// What a message from a page of a tab tells the event loop. A page may open the developer
/// tools and load an address, nothing else.
pub open spec fn page_message_event(body: Seq<char>) -> Option<UserEvent<Seq<char>>> {
    if body == "toggle_devtools"@ {
        Some(UserEvent::ToggleDevtools)
    } else if "load:"@.is_prefix_of(body) {
        Some(UserEvent::Ipc(body))
    } else {
        None
    }
}

/// What a message from a page of a tab tells the event loop.
pub fn content_ipc_event(body: &str) -> (r: Option<UserEvent<String>>)
    ensures
        optional_event(r) == page_message_event(body@),
{
    if same(body, "toggle_devtools") {
        Some(UserEvent::ToggleDevtools)
    } else if starts_with(body, "load:") {
        Some(UserEvent::Ipc(copy_of(body)))
    } else {
        None
    }
}

/// What a tab tells the event loop when a page starts or has finished loading.
pub open spec fn loading_events(tab_id: u32, finished: bool) -> Seq<UserEvent<Seq<char>>> {
    if finished {
        seq![UserEvent::LoadFinished { tab_id }, UserEvent::FocusTab { tab_id }]
    } else {
        seq![UserEvent::LoadStarted { tab_id }]
    }
}

/// What a tab tells the event loop when a page starts or has finished loading.
pub fn page_load_events(tab_id: u32, finished: bool) -> (r: Vec<UserEvent<String>>)
    ensures
        r@.map_values(|e: UserEvent<String>| e@) == loading_events(tab_id, finished),
{
    let mut out: Vec<UserEvent<String>> = Vec::new();
    if finished {
        out.push(UserEvent::LoadFinished { tab_id });
        out.push(UserEvent::FocusTab { tab_id });
    } else {
        out.push(UserEvent::LoadStarted { tab_id });
    }
    out
}

/// Whether a tab may go to an address.
pub open spec fn tab_may_open(url: Seq<char>) -> bool {
    url == "about:blank"@ || !reserved_web_address(lowercased(url)) && !newtab_web_address(
        lowercased(url),
    )
}

/// What a tab that is about to go to an address tells the event loop.
pub open spec fn navigation_event(tab_id: u32, url: Seq<char>) -> Option<UserEvent<Seq<char>>> {
    if url == "about:blank"@ || reserved_web_address(lowercased(url)) {
        None
    } else if newtab_web_address(lowercased(url)) {
        Some(UserEvent::ForceLoad { tab_id, url: NEWTAB_URL@ })
    } else {
        Some(UserEvent::Navigated { tab_id, url })
    }
}

/// Whether a tab may go to the address, and what it tells the event loop about it.
pub fn content_navigation(tab_id: u32, url: &str) -> (r: (bool, Option<UserEvent<String>>))
    ensures
        r.0 == tab_may_open(url@),
        optional_event(r.1) == navigation_event(tab_id, url@),
{
    if same(url, "about:blank") {
        return (true, None);
    }
    if is_blocked_plum_http_url(url) {
        return (false, None);
    }
    if is_plum_newtab_http_url(url) {
        return (false, Some(UserEvent::ForceLoad { tab_id, url: copy_of(NEWTAB_URL) }));
    }
    (true, Some(UserEvent::Navigated { tab_id, url: copy_of(url) }))
}

/// Whether the toolbar goes to an address: one that it may open and that carries no message.
pub open spec fn toolbar_goes_to(url: Seq<char>) -> bool {
    carried_message(url) is None && toolbar_may_open(url)
}

/// Whether the toolbar may go to the address, and the message that the address carries. An
/// address with a message is never opened.
pub fn toolbar_navigation(url: &str) -> (r: (bool, Option<String>))
    ensures
        match r.1 {
            Some(msg) => carried_message(url@) == Some(msg@) && !r.0,
            None => carried_message(url@) is None && r.0 == toolbar_may_open(url@),
        },
        r.0 == toolbar_goes_to(url@),
{
    match toolbar_ipc_from_url(url) {
        Some(msg) => (false, Some(msg)),
        None => (toolbar_navigation_allowed(url), None),
    }
}

/// What a message of the toolbar tells the event loop, or `None` on Windows, where it goes
/// to the queue.
pub open spec fn sent_message(platform: Platform, msg: Seq<char>) -> Option<UserEvent<Seq<char>>> {
    if platform == Platform::Windows {
        None
    } else {
        Some(UserEvent::Ipc(msg))
    }
}

/// What a message of the toolbar tells the event loop, or `None` on Windows, where it goes
/// to the queue.
pub fn toolbar_message_event(platform: Platform, msg: &str) -> (r: Option<UserEvent<String>>)
    ensures
        optional_event(r) == sent_message(platform, msg@),
{
    if platform == Platform::Windows {
        None
    } else {
        Some(UserEvent::Ipc(copy_of(msg)))
    }
}

/// What the toolbar tells the event loop when its page starts or has finished loading.
pub open spec fn ready_event(platform: Platform, finished: bool) -> Option<UserEvent<Seq<char>>> {
    if finished && platform != Platform::Windows {
        Some(UserEvent::Ipc("ready"@))
    } else {
        None
    }
}

/// What the toolbar tells the event loop when its page starts or has finished loading: that
/// it is ready for its state, where it gets that by scripts.
pub fn toolbar_load_event(platform: Platform, finished: bool) -> (r: Option<UserEvent<String>>)
    ensures
        optional_event(r) == ready_event(platform, finished),
{
    if finished {
        toolbar_message_event(platform, "ready")
    } else {
        None
    }
}

// ---- the addresses of the shell ----

/// What is served at an address of the shell. `S` is the type of text.
#[derive(Clone, Debug)]
pub enum PlumRoute<S> {
    /// The address carries a message; an empty page answers it.
    Message(S),
    Toolbar,
    NewTab,
    NotFound,
}

impl View for PlumRoute<String> {
    type V = PlumRoute<Seq<char>>;

    open spec fn view(&self) -> PlumRoute<Seq<char>> {
        match *self {
            PlumRoute::Message(msg) => PlumRoute::Message(msg@),
            PlumRoute::Toolbar => PlumRoute::Toolbar,
            PlumRoute::NewTab => PlumRoute::NewTab,
            PlumRoute::NotFound => PlumRoute::NotFound,
        }
    }
}

/// Whether an address is that of the toolbar. Some web views pass the host on as part of
/// the path.
pub open spec fn is_toolbar_address(host: Seq<char>, path: Seq<char>, full: Seq<char>) -> bool {
    ||| host == "toolbar"@
    ||| "plum://toolbar"@.is_prefix_of(full)
    ||| "http://plum.toolbar"@.is_prefix_of(full)
    ||| "https://plum.toolbar"@.is_prefix_of(full)
    ||| path == "/toolbar"@
    ||| "/toolbar/"@.is_prefix_of(path)
    ||| host.len() == 0 && occurs(path, "toolbar"@)
}

/// Whether an address is that of the new-tab page.
pub open spec fn is_newtab_route(host: Seq<char>, path: Seq<char>) -> bool {
    &&& path == "/newtab"@ || path == "/newtab/"@ || path == "/"@
    &&& host.len() == 0 || host == "newtab"@ || host == "plum.newtab"@
}

/// What is served at an address of the shell.
pub open spec fn served(host: Seq<char>, path: Seq<char>, full: Seq<char>) -> PlumRoute<Seq<char>> {
    match carried_message(full) {
        Some(msg) => PlumRoute::Message(msg),
        None => if is_toolbar_address(host, path, full) {
            PlumRoute::Toolbar
        } else if is_newtab_route(host, path) {
            PlumRoute::NewTab
        } else {
            PlumRoute::NotFound
        },
    }
}

/// What is served at an address of the shell, given its host, its path and the whole of it.
pub fn plum_protocol(host: &str, path: &str, full: &str) -> (r: PlumRoute<String>)
    ensures
        r@ == served(host@, path@, full@),
{
    if let Some(msg) = toolbar_ipc_from_url(full) {
        return PlumRoute::Message(msg);
    }
    let is_toolbar: bool = same(host, "toolbar") || starts_with(full, "plum://toolbar")
        || starts_with(full, "http://plum.toolbar") || starts_with(full, "https://plum.toolbar")
        || same(path, "/toolbar") || starts_with(path, "/toolbar/") || (host.is_empty()
        && contains(path, "toolbar"));
    if is_toolbar {
        return PlumRoute::Toolbar;
    }
    if (same(path, "/newtab") || same(path, "/newtab/") || same(path, "/")) && (host.is_empty()
        || same(host, "newtab") || same(host, "plum.newtab")) {
        return PlumRoute::NewTab;
    }
    PlumRoute::NotFound
}

/// The media type of what is served.
pub fn plum_mime<S>(route: &PlumRoute<S>) -> (r: &'static str)
    ensures
        r@ == if route is NotFound {
            "text/plain; charset=utf-8"@
        } else {
            "text/html; charset=utf-8"@
        },
{
    match route {
        PlumRoute::NotFound => "text/plain; charset=utf-8",
        _ => "text/html; charset=utf-8",
    }
}

/// The body of what is served, or `None` for the toolbar, whose page depends on its state.
pub fn plum_body<S>(route: &PlumRoute<S>) -> (r: Option<&'static str>)
    ensures
        match *route {
            PlumRoute::Message(_) => r matches Some(body) && body@ == pages::IPC_ACK_HTML@,
            PlumRoute::Toolbar => r is None,
            PlumRoute::NewTab => r matches Some(body) && body@ == pages::NEWTAB_HTML@,
            PlumRoute::NotFound => r matches Some(body) && body@ == "Not found"@,
        },
{
    match route {
        PlumRoute::Message(_) => Some(pages::IPC_ACK_HTML),
        PlumRoute::Toolbar => None,
        PlumRoute::NewTab => Some(pages::NEWTAB_HTML),
        PlumRoute::NotFound => Some("Not found"),
    }
}

/// The status of every answer: that of success, also where nothing was found.
pub fn plum_status() -> (r: u16)
    ensures
        r == 200,
{
    200
}

/// An answer to a request at an address of the shell.
#[derive(Clone, Debug)]
pub struct PlumResponse {
    pub status: u16,
    pub mime: &'static str,
    pub body: String,
    /// A message for the queue.
    pub queued: Option<String>,
}

/// An answer, with its text.
#[verifier::ext_equal]
pub ghost struct ResponseModel {
    pub status: u16,
    pub mime: Seq<char>,
    pub body: Seq<char>,
    pub queued: Option<Seq<char>>,
}

impl View for PlumResponse {
    type V = ResponseModel;

    open spec fn view(&self) -> ResponseModel {
        ResponseModel {
            status: self.status,
            mime: self.mime@,
            body: self.body@,
            queued: optional_text(self.queued),
        }
    }
}

/// The answer at what is served. A message goes to the queue on Windows; elsewhere the
/// toolbar sends its messages by other ways.
pub open spec fn answer(
    platform: Platform,
    route: PlumRoute<Seq<char>>,
    snapshot: SnapshotModel,
    version: Seq<char>,
    icon: Seq<char>,
) -> ResponseModel {
    ResponseModel {
        status: 200,
        mime: if route is NotFound {
            "text/plain; charset=utf-8"@
        } else {
            "text/html; charset=utf-8"@
        },
        body: match route {
            PlumRoute::Message(_) => pages::IPC_ACK_HTML@,
            PlumRoute::Toolbar => served_toolbar(platform, snapshot, version, icon),
            PlumRoute::NewTab => pages::NEWTAB_HTML@,
            PlumRoute::NotFound => "Not found"@,
        },
        queued: match route {
            PlumRoute::Message(msg) => if platform == Platform::Windows {
                Some(msg)
            } else {
                None
            },
            _ => None,
        },
    }
}

/// The answer to a request at an address of the shell, given its host, its path and the
/// whole of it, and what the toolbar shows.
pub fn plum_respond(
    platform: Platform,
    host: &str,
    path: &str,
    full: &str,
    snapshot: &ToolbarSnapshot,
    version: &str,
    icon: &str,
) -> (r: PlumResponse)
    ensures
        r@ == answer(platform, served(host@, path@, full@), snapshot@, version@, icon@),
{
    let route: PlumRoute<String> = plum_protocol(host, path, full);
    let status: u16 = plum_status();
    let mime: &'static str = plum_mime(&route);
    let body: String = match plum_body(&route) {
        Some(text) => copy_of(text),
        None => served_toolbar_html(platform, snapshot, version, icon),
    };
    let queued: Option<String> = match route {
        PlumRoute::Message(msg) => if platform == Platform::Windows {
            Some(msg)
        } else {
            None
        },
        _ => None,
    };
    PlumResponse { status, mime, body, queued }
}

// ---- laws ----

/// How the messages without a value begin, how those with one begin, and what sets the
/// messages that navigate apart.
pub proof fn lemma_message_names()
    ensures
        "win_drag"@.len() == 8 && "win_drag"@[0] == 'w',
        "win_min"@.len() == 7 && "win_min"@[0] == 'w',
        "win_max_toggle"@.len() == 14 && "win_max_toggle"@[0] == 'w',
        "win_close"@.len() == 9 && "win_close"@[0] == 'w',
        "ready"@.len() == 5 && "ready"@[0] == 'r',
        "focus_content"@.len() == 13 && "focus_content"@[0] == 'f',
        "nav_back"@.len() == 8 && "nav_back"@[0] == 'n' && "nav_back"@[4] == 'b',
        "nav_forward"@.len() == 11 && "nav_forward"@[0] == 'n' && "nav_forward"@[4] == 'f',
        "nav_reload"@.len() == 10 && "nav_reload"@[0] == 'n' && "nav_reload"@[4] == 'r',
        "nav_stop"@.len() == 8 && "nav_stop"@[0] == 'n' && "nav_stop"@[4] == 's',
        "nav_devtools"@.len() == 12 && "nav_devtools"@[0] == 'n' && "nav_devtools"@[4] == 'd',
        "nav_back"@[1] == 'a' && "nav_forward"@[1] == 'a' && "nav_reload"@[1] == 'a',
        "nav_stop"@[1] == 'a' && "nav_devtools"@[1] == 'a',
        "load:"@.len() == 5 && "load:"@[0] == 'l',
        "new_tab:"@.len() == 8 && "new_tab:"@[0] == 'n' && "new_tab:"@[1] == 'e',
        "switch_tab:"@.len() == 11 && "switch_tab:"@[0] == 's',
        "close_tab:"@.len() == 10 && "close_tab:"@[0] == 'c',
{
    reveal_strlit("win_drag");
    reveal_strlit("win_min");
    reveal_strlit("win_max_toggle");
    reveal_strlit("win_close");
    reveal_strlit("ready");
    reveal_strlit("focus_content");
    reveal_strlit("nav_back");
    reveal_strlit("nav_forward");
    reveal_strlit("nav_reload");
    reveal_strlit("nav_stop");
    reveal_strlit("nav_devtools");
    reveal_strlit("load:");
    reveal_strlit("new_tab:");
    reveal_strlit("switch_tab:");
    reveal_strlit("close_tab:");
}

/// The links of the rendered toolbar carry messages that name the tab that they stand in.
pub proof fn law_tab_links_name_their_tab(i: usize)
    ensures
        carried_message(crate::toolbar::switch_link(i as int)) matches Some(msg) && command_of(msg)
            == Command::<Seq<char>>::SwitchTab(i),
        carried_message(crate::toolbar::close_link(i as int)) matches Some(msg) && command_of(msg)
            == Command::<Seq<char>>::CloseTab(i),
{
    reveal(command_of);
    let number = crate::text::decimal_text(i as int);
    crate::text::law_decimal_round_trip(i);
    lemma_decimal_is_trimmed(i as int);
    let switch_msg = "switch_tab:"@ + number;
    let close_msg = "close_tab:"@ + number;
    crate::address::law_message_round_trip(switch_msg);
    crate::address::law_message_round_trip(close_msg);
    assert(switch_msg.skip("switch_tab:"@.len() as int) =~= number);
    assert(close_msg.skip("close_tab:"@.len() as int) =~= number);
    assert("switch_tab:"@.is_prefix_of(switch_msg));
    assert("close_tab:"@.is_prefix_of(close_msg));
    lemma_message_names();
    assert(switch_msg[0] == 's' && close_msg[0] == 'c');
    lemma_other_prefix(switch_msg, "load:"@);
    lemma_other_prefix(switch_msg, "new_tab:"@);
    lemma_other_prefix(close_msg, "load:"@);
    lemma_other_prefix(close_msg, "new_tab:"@);
    lemma_other_prefix(close_msg, "switch_tab:"@);
}

/// A text does not begin with one whose first character differs from its own.
proof fn lemma_other_prefix(s: Seq<char>, p: Seq<char>)
    requires
        s.len() > 0,
        p.len() > 0,
        s[0] != p[0],
    ensures
        !p.is_prefix_of(s),
{
    if p.is_prefix_of(s) {
        assert(s.subrange(0, p.len() as int)[0] == p[0]);
    }
}

/// A number in decimal has no white space at its ends.
proof fn lemma_decimal_is_trimmed(n: int)
    requires
        n >= 0,
    ensures
        trimmed(crate::text::decimal_text(n)) == crate::text::decimal_text(n),
{
    crate::text::lemma_decimal_digits(n);
    crate::address::lemma_trimmed_same(crate::text::decimal_text(n));
}

/// The button of the rendered toolbar asks to stop a page that is loading and to reload
/// any other.
pub proof fn law_reload_button(loading: bool)
    ensures
        command_of(crate::toolbar::reload_message(loading)) == if loading {
            Command::<Seq<char>>::Stop
        } else {
            Command::<Seq<char>>::Reload
        },
{
    reveal(command_of);
    lemma_message_names();
}

/// A message from a page of a tab loads an address at most: it neither moves nor closes the
/// window, nor opens, switches or closes a tab.
pub proof fn law_page_message_only_loads(body: Seq<char>)
    ensures
        page_message_event(body) matches Some(e) ==> e is ToggleDevtools || (e matches
            UserEvent::Ipc(msg) && (command_of(msg) is Load || command_of(msg) is Nothing)),
{
    reveal(command_of);
    lemma_message_names();
    if "load:"@.is_prefix_of(body) {
        assert(body[0] == 'l') by {
            assert(body.subrange(0, 5)[0] == "load:"@[0]);
        }
    }
}

/// The address made for a message serves this message.
pub proof fn law_message_address_is_served(host: Seq<char>, path: Seq<char>, msg: Seq<char>)
    ensures
        served(host, path, crate::address::message_address(msg)) == PlumRoute::<
            Seq<char>,
        >::Message(msg),
{
    crate::address::law_message_round_trip(msg);
}

} // verus!
