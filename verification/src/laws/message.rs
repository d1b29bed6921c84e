//! What messages, events and the shell's own addresses are for.

use crate::address::{carried_message, logical_address, resolved_input, toolbar_may_open};
use crate::browser::BrowserModel;
use crate::laws::address::lemma_at;
use crate::laws::text::{blank, law_trim, law_trim_blank, tight};
use crate::message::{
    answer, command_of, lemma_message_names, loading_events, navigation_event, page_message_event,
    queued_messages, ready_event, sent_message, served, tab_may_open, toolbar_goes_to, Command,
    PlumRoute, UserEvent,
};
use crate::pages;
use crate::platform::Platform;
use crate::text::{lowercased, occurs, parsed_usize};
use crate::toolbar::{rendered_page, toolbar_page, SnapshotModel};
use vstd::prelude::*;

verus! {

// ---- messages ----

/// Each command without a value is asked for by one message, and by no other.
pub proof fn law_plain_messages(msg: Seq<char>)
    ensures
        command_of(msg) is DragWindow <==> msg == "win_drag"@,
        command_of(msg) is MinimizeWindow <==> msg == "win_min"@,
        command_of(msg) is ToggleMaximized <==> msg == "win_max_toggle"@,
        command_of(msg) is CloseWindow <==> msg == "win_close"@,
        command_of(msg) is Ready <==> msg == "ready"@,
        command_of(msg) is FocusContent <==> msg == "focus_content"@,
        command_of(msg) is GoBack <==> msg == "nav_back"@,
        command_of(msg) is GoForward <==> msg == "nav_forward"@,
        command_of(msg) is Reload <==> msg == "nav_reload"@,
        command_of(msg) is Stop <==> msg == "nav_stop"@,
        command_of(msg) is ToggleDevtools <==> msg == "nav_devtools"@,
{
    reveal(command_of);
    lemma_message_names();
}

/// A message to load asks for the address that its text is resolved to, in the form that a
/// tab keeps; blank text asks for nothing.
pub proof fn law_load_message(x: Seq<char>)
    ensures
        resolved_input(x) matches Some(url) ==> command_of("load:"@ + x) == Command::<
            Seq<char>,
        >::Load(logical_address(url)),
        resolved_input(x) is None ==> command_of("load:"@ + x) is Nothing,
{
    reveal(command_of);
    lemma_message_names();
    let msg = "load:"@ + x;
    assert("load:"@.is_prefix_of(msg));
    assert(msg.skip("load:"@.len() as int) =~= x);
    assert(msg[0] == 'l');
}

/// A message for a new tab asks for one, whatever follows.
pub proof fn law_new_tab_message(x: Seq<char>)
    ensures
        command_of("new_tab:"@ + x) is NewTab,
{
    reveal(command_of);
    lemma_message_names();
    let msg = "new_tab:"@ + x;
    assert("new_tab:"@.is_prefix_of(msg));
    assert(msg[0] == 'n' && msg[1] == 'e');
    lemma_at(msg, "load:"@, 0);
}

/// A message to switch to a tab or to close one names the number that it writes, with white
/// space around it or not. What is no number names none.
pub proof fn law_tab_messages(a: Seq<char>, u: Seq<char>, b: Seq<char>)
    requires
        blank(a),
        tight(u),
        blank(b),
    ensures
        parsed_usize(u) matches Some(i) ==> command_of("switch_tab:"@ + (a + u + b)) == Command::<
            Seq<char>,
        >::SwitchTab(i) && command_of("close_tab:"@ + (a + u + b)) == Command::<
            Seq<char>,
        >::CloseTab(i),
        parsed_usize(u) is None ==> command_of("switch_tab:"@ + (a + u + b)) is Nothing
            && command_of("close_tab:"@ + (a + u + b)) is Nothing,
        command_of("switch_tab:"@ + a) is Nothing,
        command_of("close_tab:"@ + a) is Nothing,
{
    law_trim(a, u, b);
    law_trim_blank(a);
    lemma_tab_message(a + u + b);
    lemma_tab_message(a);
}

/// What follows the beginning of a message that names a tab.
proof fn lemma_tab_message(t: Seq<char>)
    ensures
        command_of("switch_tab:"@ + t) == (match parsed_usize(crate::text::trimmed(t)) {
            Some(i) => Command::<Seq<char>>::SwitchTab(i),
            None => Command::Nothing,
        }),
        command_of("close_tab:"@ + t) == (match parsed_usize(crate::text::trimmed(t)) {
            Some(i) => Command::<Seq<char>>::CloseTab(i),
            None => Command::Nothing,
        }),
{
    reveal(command_of);
    lemma_message_names();
    let s = "switch_tab:"@ + t;
    let c = "close_tab:"@ + t;
    assert("switch_tab:"@.is_prefix_of(s));
    assert("close_tab:"@.is_prefix_of(c));
    assert(s.skip("switch_tab:"@.len() as int) =~= t);
    assert(c.skip("close_tab:"@.len() as int) =~= t);
    assert(s[0] == 's' && c[0] == 'c');
    lemma_at(s, "load:"@, 0);
    lemma_at(s, "new_tab:"@, 0);
    lemma_at(c, "load:"@, 0);
    lemma_at(c, "new_tab:"@, 0);
    lemma_at(c, "switch_tab:"@, 0);
}

/// Commands with a value are asked for only by messages with their beginnings.
pub proof fn law_valued_messages(msg: Seq<char>)
    ensures
        command_of(msg) is Load ==> "load:"@.is_prefix_of(msg),
        command_of(msg) is NewTab ==> "new_tab:"@.is_prefix_of(msg),
        command_of(msg) is SwitchTab ==> "switch_tab:"@.is_prefix_of(msg),
        command_of(msg) is CloseTab ==> "close_tab:"@.is_prefix_of(msg),
{
    reveal(command_of);
}

/// Messages are handled in the order in which they came, each as if it came alone. The one
/// that only says that the toolbar is there is passed over.
pub proof fn law_queue_order(m: BrowserModel, queue: Seq<Seq<char>>, msg: Seq<char>)
    ensures
        msg != "ready"@ ==> queued_messages(queue, msg) == queue.push(msg) && m.drained(
            queued_messages(queue, msg),
        ) == m.drained(queue).obeyed(command_of(msg)),
        msg == "ready"@ ==> queued_messages(queue, msg) == queue && m.drained(queue.push(msg))
            == m.drained(queue),
{
    lemma_drained_push(m, queue, msg);
}

/// One more message at the end of the queue.
proof fn lemma_drained_push(m: BrowserModel, queue: Seq<Seq<char>>, msg: Seq<char>)
    ensures
        m.drained(queue.push(msg)) == if msg == "ready"@ {
            m.drained(queue)
        } else {
            m.drained(queue).obeyed(command_of(msg))
        },
    decreases queue.len(),
{
    let all = queue.push(msg);
    reveal_with_fuel(BrowserModel::drained, 2);
    if queue.len() == 0 {
        assert(all.drop_first() =~= Seq::<Seq<char>>::empty());
        assert(all[0] == msg);
    } else {
        assert(all.drop_first() =~= queue.drop_first().push(msg));
        assert(all[0] == queue[0]);
        if queue[0] == "ready"@ {
            lemma_drained_push(m, queue.drop_first(), msg);
        } else {
            lemma_drained_push(m.obeyed(command_of(queue[0])), queue.drop_first(), msg);
        }
    }
}

// ---- the web views ----

/// A page of a tab toggles the developer tools and loads addresses by its messages. Every
/// other message of it is dropped.
pub proof fn law_page_messages(body: Seq<char>, x: Seq<char>)
    ensures
        page_message_event("toggle_devtools"@) == Some(UserEvent::<Seq<char>>::ToggleDevtools),
        page_message_event("load:"@ + x) == Some(UserEvent::Ipc("load:"@ + x)),
        body != "toggle_devtools"@ && !"load:"@.is_prefix_of(body) ==> page_message_event(body)
            is None,
{
    reveal_strlit("toggle_devtools");
    lemma_message_names();
    assert("load:"@.is_prefix_of("load:"@ + x));
    assert(("load:"@ + x)[0] == 'l' && "toggle_devtools"@[0] == 't');
}

/// A tab may go to every address whose lower case does not begin with a web address of the
/// shell, and says so, but for the blank page.
pub proof fn law_tab_goes_to_the_web(tab_id: u32, url: Seq<char>)
    requires
        !"http://plum."@.is_prefix_of(lowercased(url)),
        !"https://plum."@.is_prefix_of(lowercased(url)),
    ensures
        tab_may_open(url),
        url != "about:blank"@ ==> navigation_event(tab_id, url) == Some(
            (UserEvent::Navigated { tab_id, url }),
        ),
{
    lemma_newtab_is_of_the_shell(lowercased(url));
}

/// A web address of the new-tab page is a web address of the shell.
proof fn lemma_newtab_is_of_the_shell(lower: Seq<char>)
    ensures
        "http://plum.newtab"@.is_prefix_of(lower) ==> "http://plum."@.is_prefix_of(lower),
        "https://plum.newtab"@.is_prefix_of(lower) ==> "https://plum."@.is_prefix_of(lower),
{
    reveal_strlit("http://plum.newtab");
    reveal_strlit("https://plum.newtab");
    reveal_strlit("http://plum.");
    reveal_strlit("https://plum.");
    if "http://plum.newtab"@.is_prefix_of(lower) {
        crate::address::lemma_prefix_of_prefix("http://plum."@, "http://plum.newtab"@, lower);
    }
    if "https://plum.newtab"@.is_prefix_of(lower) {
        crate::address::lemma_prefix_of_prefix("https://plum."@, "https://plum.newtab"@, lower);
    }
}

/// Of the web addresses of the shell, a tab may go only to those that name the toolbar or
/// the host of the messages and are not of the new-tab page. For one of the new-tab page
/// that names them, it loads this page instead.
pub proof fn law_tab_and_the_shell(tab_id: u32, url: Seq<char>)
    requires
        "http://plum."@.is_prefix_of(lowercased(url)) || "https://plum."@.is_prefix_of(
            lowercased(url),
        ),
    ensures
        ({
            let lower = lowercased(url);
            let named = occurs(lower, "plum.toolbar"@) || occurs(lower, "plum.ipc"@);
            let newtab = "http://plum.newtab"@.is_prefix_of(lower)
                || "https://plum.newtab"@.is_prefix_of(lower);
            &&& tab_may_open(url) <==> named && !newtab
            &&& named && !newtab ==> navigation_event(tab_id, url) == Some(
                (UserEvent::Navigated { tab_id, url }),
            )
            &&& named && newtab ==> navigation_event(tab_id, url) == Some(
                (UserEvent::ForceLoad { tab_id, url: "plum://newtab"@ }),
            )
            &&& !named ==> navigation_event(tab_id, url) is None
        }),
{
    reveal_strlit("about:blank");
    reveal_strlit("http://plum.");
    reveal_strlit("https://plum.");
    if url == "about:blank"@ {
        assert(vstd::utf8::is_ascii_chars(url));
        assert(lowercased(url)[0] == 'a');
        lemma_at(lowercased(url), "http://plum."@, 0);
        lemma_at(lowercased(url), "https://plum."@, 0);
    }
}

/// A tab tells of a navigation only where it goes there, and tells its own number and the
/// address. Of one to the blank page it tells nothing.
pub proof fn law_navigation_is_told_truly(tab_id: u32, url: Seq<char>)
    ensures
        navigation_event(tab_id, url) matches Some(e) ==> match e {
            UserEvent::Navigated { tab_id: id, url: told } => id == tab_id && told == url
                && tab_may_open(url),
            UserEvent::ForceLoad { tab_id: id, url: told } => id == tab_id && told
                == "plum://newtab"@ && !tab_may_open(url),
            _ => false,
        },
        tab_may_open("about:blank"@),
        navigation_event(tab_id, "about:blank"@) is None,
{
    reveal_strlit("about:blank");
}

/// A tab tells that it starts to load, and that it has loaded and wants the focus, under its
/// own number.
pub proof fn law_progress_is_told(tab_id: u32)
    ensures
        loading_events(tab_id, false) == seq![(UserEvent::<Seq<char>>::LoadStarted { tab_id })],
        loading_events(tab_id, true) == seq![
            (UserEvent::<Seq<char>>::LoadFinished { tab_id }),
            (UserEvent::<Seq<char>>::FocusTab { tab_id }),
        ],
{
}

/// The toolbar goes to no address that carries a message, and otherwise exactly where it may.
/// Its messages are sent at once, but for Windows.
pub proof fn law_toolbar_messages(platform: Platform, url: Seq<char>, msg: Seq<char>)
    ensures
        carried_message(url) is Some ==> !toolbar_goes_to(url),
        carried_message(url) is None ==> toolbar_goes_to(url) == toolbar_may_open(url),
        platform != Platform::Windows ==> sent_message(platform, msg) == Some(UserEvent::Ipc(msg))
            && ready_event(platform, true) == Some(UserEvent::Ipc("ready"@)),
        platform == Platform::Windows ==> sent_message(platform, msg) is None && ready_event(
            platform,
            true,
        ) is None,
        ready_event(platform, false) is None,
{
}

// ---- the addresses of the shell ----

/// Where an address carries a message, this is what is served. Otherwise the toolbar is
/// served at its host, at its path, at each of its addresses, and where an address without a
/// host has its name in the path; elsewhere it is not.
pub proof fn law_toolbar_is_served(host: Seq<char>, path: Seq<char>, full: Seq<char>)
    ensures
        carried_message(full) matches Some(msg) ==> served(host, path, full) == PlumRoute::<
            Seq<char>,
        >::Message(msg),
        carried_message(full) is None ==> {
            &&& host == "toolbar"@ ==> served(host, path, full) is Toolbar
            &&& path == "/toolbar"@ ==> served(host, path, full) is Toolbar
            &&& "/toolbar/"@.is_prefix_of(path) ==> served(host, path, full) is Toolbar
            &&& "plum://toolbar"@.is_prefix_of(full) ==> served(host, path, full) is Toolbar
            &&& "http://plum.toolbar"@.is_prefix_of(full) ==> served(host, path, full) is Toolbar
            &&& "https://plum.toolbar"@.is_prefix_of(full) ==> served(host, path, full) is Toolbar
            &&& host.len() == 0 && occurs(path, "toolbar"@) ==> served(host, path, full) is Toolbar
        },
        served(host, path, full) is Toolbar ==> {
            ||| host == "toolbar"@
            ||| path == "/toolbar"@
            ||| "/toolbar/"@.is_prefix_of(path)
            ||| "plum://toolbar"@.is_prefix_of(full)
            ||| "http://plum.toolbar"@.is_prefix_of(full)
            ||| "https://plum.toolbar"@.is_prefix_of(full)
            ||| host.len() == 0 && occurs(path, "toolbar"@)
        },
{
}

/// Where neither a message nor the toolbar is served, the new-tab page is served at its three
/// paths without a host or at its hosts, and nothing elsewhere.
pub proof fn law_newtab_is_served(host: Seq<char>, path: Seq<char>, full: Seq<char>)
    requires
        !(served(host, path, full) is Message),
        !(served(host, path, full) is Toolbar),
    ensures
        (path == "/"@ || path == "/newtab"@ || path == "/newtab/"@) && (host.len() == 0 || host
            == "newtab"@ || host == "plum.newtab"@) ==> served(host, path, full) is NewTab,
        path != "/"@ && path != "/newtab"@ && path != "/newtab/"@ ==> served(host, path, full)
            is NotFound,
        host.len() > 0 && host != "newtab"@ && host != "plum.newtab"@ ==> served(host, path, full)
            is NotFound,
{
}

/// Every request is answered with success: the toolbar with the page for the platform and
/// its state, the new-tab page with its document, a message with an empty page, anything
/// else with a plain text. A message goes to the queue on Windows, nothing else does.
pub proof fn law_answers(
    platform: Platform,
    msg: Seq<char>,
    s: SnapshotModel,
    version: Seq<char>,
    icon: Seq<char>,
    route: PlumRoute<Seq<char>>,
)
    ensures
        answer(platform, route, s, version, icon).status == 200,
        answer(platform, PlumRoute::Message(msg), s, version, icon).body == pages::IPC_ACK_HTML@,
        answer(platform, PlumRoute::Message(msg), s, version, icon).queued == (if platform
            == Platform::Windows {
            Some(msg)
        } else {
            None
        }),
        platform == Platform::Windows ==> answer(
            platform,
            PlumRoute::Toolbar,
            s,
            version,
            icon,
        ).body == rendered_page(s, version, icon),
        platform != Platform::Windows ==> answer(
            platform,
            PlumRoute::Toolbar,
            s,
            version,
            icon,
        ).body == toolbar_page(platform, version, icon),
        answer(platform, PlumRoute::NewTab, s, version, icon).body == pages::NEWTAB_HTML@,
        answer(platform, PlumRoute::NotFound, s, version, icon).body == "Not found"@,
        !(route is Message) ==> answer(platform, route, s, version, icon).queued is None,
        !(route is NotFound) ==> answer(platform, route, s, version, icon).mime
            == "text/html; charset=utf-8"@,
        answer(platform, PlumRoute::NotFound, s, version, icon).mime
            == "text/plain; charset=utf-8"@,
{
}

} // verus!
