//! What the browser does on each message, each event and each regular step.

use crate::address::{
    document_address, internal_newtab, law_newtab_is_internal, loaded_address, logical_address,
    resolved_input,
};
use crate::browser::{initial_model, BrowserModel, ConnectModel, ShellEvent};
use crate::effect::Effect;
use crate::message::{command_of, Command, UserEvent};
use crate::platform::{Key, Modifiers, Platform};
use crate::tab::{is_tab_place, label_text, lemma_tab_place, tab_place, TabModel};
use crate::toolbar::{rendered_page, snapshot_of, state_script, title_script};
use vstd::prelude::*;

verus! {

/// The state of the toolbar that belongs to a state of the browser.
pub open spec fn toolbar_state(m: BrowserModel) -> crate::toolbar::SnapshotModel {
    snapshot_of(m.tabs, m.current as int)
}

/// The script that gives the toolbar the state that belongs to a state of the browser.
pub open spec fn toolbar_script(m: BrowserModel) -> Effect<Seq<char>> {
    Effect::RunToolbarScript(state_script(toolbar_state(m)))
}

// ---- commands on the window ----

/// The commands on the window ask for the one thing that they name, and change nothing else.
pub proof fn law_window_commands(m: BrowserModel)
    ensures
        m.obeyed(Command::DragWindow) == (BrowserModel {
            effects: m.effects + seq![Effect::DragWindow],
            ..m
        }),
        m.obeyed(Command::MinimizeWindow) == (BrowserModel {
            effects: m.effects + seq![Effect::MinimizeWindow],
            ..m
        }),
        m.obeyed(Command::CloseWindow) == (BrowserModel {
            effects: m.effects + seq![Effect::Exit],
            ..m
        }),
        m.obeyed(Command::Nothing) == m,
{
    assert(m.effects.push(Effect::DragWindow) =~= m.effects + seq![Effect::DragWindow]);
    assert(m.effects.push(Effect::MinimizeWindow) =~= m.effects + seq![Effect::MinimizeWindow]);
    assert(m.effects.push(Effect::Exit) =~= m.effects + seq![Effect::Exit]);
}

/// A window that is maximized or restored is laid out anew, and the toolbar is told.
pub proof fn law_maximize(m: BrowserModel)
    ensures
        m.platform == Platform::Windows ==> m.obeyed(Command::ToggleMaximized) == (BrowserModel {
            snapshot: toolbar_state(m),
            toolbar_dirty: true,
            effects: m.effects + seq![
                Effect::ToggleMaximized,
                Effect::Resize(m.devtools_open),
                Effect::RaiseToolbar,
            ],
            ..m
        }),
        m.platform != Platform::Windows ==> m.obeyed(Command::ToggleMaximized) == (BrowserModel {
            effects: m.effects + seq![
                Effect::ToggleMaximized,
                Effect::Resize(m.devtools_open),
                Effect::RaiseToolbar,
                toolbar_script(m),
            ],
            ..m
        }),
{
    let n = m.obeyed(Command::ToggleMaximized);
    let base = seq![
        Effect::ToggleMaximized,
        Effect::Resize(m.devtools_open),
        Effect::RaiseToolbar,
    ];
    if m.platform == Platform::Windows {
        assert(n.effects =~= m.effects + base);
    } else {
        assert(n.effects =~= m.effects + seq![
            Effect::ToggleMaximized,
            Effect::Resize(m.devtools_open),
            Effect::RaiseToolbar,
            toolbar_script(m),
        ]);
    }
}

/// A toolbar that is ready is raised, and told its state where it gets that by scripts.
pub proof fn law_ready(m: BrowserModel)
    ensures
        m.platform == Platform::Windows ==> m.obeyed(Command::Ready) == (BrowserModel {
            effects: m.effects + seq![Effect::RaiseToolbar],
            ..m
        }),
        m.platform != Platform::Windows ==> m.obeyed(Command::Ready) == (BrowserModel {
            effects: m.effects + seq![toolbar_script(m), Effect::RaiseToolbar],
            ..m
        }),
{
    let n = m.obeyed(Command::Ready);
    if m.platform == Platform::Windows {
        assert(n.effects =~= m.effects + seq![Effect::RaiseToolbar]);
    } else {
        assert(n.effects =~= m.effects + seq![toolbar_script(m), Effect::RaiseToolbar]);
    }
}

// ---- commands on the current tab ----

/// The focus goes to the current tab where there is one, and stays with the toolbar on
/// Windows.
pub proof fn law_focus(m: BrowserModel)
    ensures
        m.platform == Platform::Windows || m.current >= m.tabs.len() ==> m.obeyed(
            Command::FocusContent,
        ) == m,
        m.platform != Platform::Windows && m.current < m.tabs.len() ==> m.obeyed(
            Command::FocusContent,
        ) == (BrowserModel { effects: m.effects + seq![Effect::FocusTab(m.current)], ..m }),
{
    assert(m.effects.push(Effect::FocusTab(m.current)) =~= m.effects + seq![
        Effect::FocusTab(m.current),
    ]);
}

/// To go back and forward is done in the current tab, which gets the focus.
pub proof fn law_history(m: BrowserModel)
    requires
        m.current < m.tabs.len(),
    ensures
        m.platform == Platform::Windows ==> m.obeyed(Command::GoBack) == (BrowserModel {
            effects: m.effects + seq![Effect::GoBack(m.current)],
            ..m
        }) && m.obeyed(Command::GoForward) == (BrowserModel {
            effects: m.effects + seq![Effect::GoForward(m.current)],
            ..m
        }),
        m.platform != Platform::Windows ==> m.obeyed(Command::GoBack) == (BrowserModel {
            effects: m.effects + seq![Effect::GoBack(m.current), Effect::FocusTab(m.current)],
            ..m
        }) && m.obeyed(Command::GoForward) == (BrowserModel {
            effects: m.effects + seq![Effect::GoForward(m.current), Effect::FocusTab(m.current)],
            ..m
        }),
{
    let back = m.obeyed(Command::GoBack).effects;
    let forward = m.obeyed(Command::GoForward).effects;
    if m.platform == Platform::Windows {
        assert(back =~= m.effects + seq![Effect::GoBack(m.current)]);
        assert(forward =~= m.effects + seq![Effect::GoForward(m.current)]);
    } else {
        assert(back =~= m.effects + seq![Effect::GoBack(m.current), Effect::FocusTab(m.current)]);
        assert(forward =~= m.effects + seq![
            Effect::GoForward(m.current),
            Effect::FocusTab(m.current),
        ]);
    }
}

/// To reload and to stop changes the progress of the current tab, and of nothing else, and
/// the toolbar is told.
pub proof fn law_reload_and_stop(m: BrowserModel)
    requires
        m.current < m.tabs.len(),
    ensures
        ({
            let i = m.current as int;
            let n = m.obeyed(Command::Reload);
            &&& n.tabs == m.tabs.update(i, (TabModel { loading: true, ..m.tabs[i] }))
            &&& m.platform == Platform::Windows ==> n == (BrowserModel {
                tabs: n.tabs,
                snapshot: toolbar_state(n),
                toolbar_dirty: true,
                effects: m.effects + seq![Effect::Reload(m.current)],
                ..m
            })
            &&& m.platform != Platform::Windows ==> n == (BrowserModel {
                tabs: n.tabs,
                effects: m.effects + seq![
                    Effect::Reload(m.current),
                    toolbar_script(n),
                    Effect::FocusTab(m.current),
                ],
                ..m
            })
        }),
        ({
            let i = m.current as int;
            let n = m.obeyed(Command::Stop);
            &&& n.tabs == m.tabs.update(i, (TabModel { loading: false, ..m.tabs[i] }))
            &&& m.platform == Platform::Windows ==> n == (BrowserModel {
                tabs: n.tabs,
                snapshot: toolbar_state(n),
                toolbar_dirty: true,
                effects: m.effects + seq![Effect::StopLoading(m.current)],
                ..m
            })
            &&& m.platform != Platform::Windows ==> n == (BrowserModel {
                tabs: n.tabs,
                effects: m.effects + seq![
                    Effect::StopLoading(m.current),
                    toolbar_script(n),
                    Effect::FocusTab(m.current),
                ],
                ..m
            })
        }),
{
    let r = m.obeyed(Command::Reload);
    let s = m.obeyed(Command::Stop);
    if m.platform == Platform::Windows {
        assert(r.effects =~= m.effects + seq![Effect::Reload(m.current)]);
        assert(s.effects =~= m.effects + seq![Effect::StopLoading(m.current)]);
    } else {
        assert(r.effects =~= m.effects + seq![
            Effect::Reload(m.current),
            toolbar_script(r),
            Effect::FocusTab(m.current),
        ]);
        assert(s.effects =~= m.effects + seq![
            Effect::StopLoading(m.current),
            toolbar_script(s),
            Effect::FocusTab(m.current),
        ]);
    }
}

/// To load an address makes the current tab keep it, without a title and loading; its web
/// view is asked to load this very address, or the document of the new-tab page for this
/// one; no other tab changes; and the toolbar is told.
pub proof fn law_load(m: BrowserModel, url: Seq<char>)
    requires
        m.current < m.tabs.len(),
    ensures
        ({
            let i = m.current as int;
            let n = m.obeyed(Command::Load(url));
            let load = Effect::LoadUrl(m.current, loaded_address(url));
            &&& n.tabs[i].url == url
            &&& n.tabs == m.tabs.update(
                i,
                (TabModel { id: m.tabs[i].id, url, title: Seq::empty(), loading: true }),
            )
            &&& !internal_newtab(url) ==> load == Effect::LoadUrl(m.current, n.tabs[i].url)
            &&& m.platform == Platform::Windows ==> n == (BrowserModel {
                tabs: n.tabs,
                snapshot: toolbar_state(n),
                toolbar_dirty: true,
                effects: m.effects + seq![load, Effect::RaiseToolbar],
                ..m
            })
            &&& m.platform != Platform::Windows ==> n == (BrowserModel {
                tabs: n.tabs,
                effects: m.effects + seq![
                    load,
                    Effect::FocusTab(m.current),
                    toolbar_script(n),
                    Effect::RaiseToolbar,
                ],
                ..m
            })
        }),
{
    let n = m.obeyed(Command::Load(url));
    let load = Effect::LoadUrl(m.current, loaded_address(url));
    if m.platform == Platform::Windows {
        assert(n.effects =~= m.effects + seq![load, Effect::RaiseToolbar]);
    } else {
        assert(n.effects =~= m.effects + seq![
            load,
            Effect::FocusTab(m.current),
            toolbar_script(n),
            Effect::RaiseToolbar,
        ]);
    }
}

/// What is typed into the address bar is what the web view is asked for: the address that
/// the input is resolved to, character for character.
pub proof fn law_typed_address_is_loaded(m: BrowserModel, input: Seq<char>, url: Seq<char>)
    requires
        m.current < m.tabs.len(),
        resolved_input(input) == Some(url),
        !internal_newtab(url),
    ensures
        m.heard(UserEvent::Ipc("load:"@ + input)).tabs[m.current as int].url == url,
        m.heard(UserEvent::Ipc("load:"@ + input)).effects.len() > m.effects.len(),
        m.heard(UserEvent::Ipc("load:"@ + input)).effects[m.effects.len() as int]
            == Effect::LoadUrl(m.current, url),
{
    crate::laws::message::law_load_message(input);
    law_load(m, url);
}

// ---- showing and hiding ----

/// To hide tabs asks for this of each, in their order, and of nothing else.
pub proof fn law_hidden(m: BrowserModel, n: int)
    requires
        0 <= n <= usize::MAX,
    ensures
        m.hidden(n) == (BrowserModel {
            effects: m.effects + Seq::new(
                n as nat,
                |i: int| Effect::<Seq<char>>::SetTabVisible(i as usize, false),
            ),
            ..m
        }),
    decreases n,
{
    let f = |i: int| Effect::<Seq<char>>::SetTabVisible(i as usize, false);
    if n > 0 {
        law_hidden(m, n - 1);
        assert(m.effects + Seq::new((n - 1) as nat, f) + seq![f(n - 1)] =~= m.effects + Seq::new(
            n as nat,
            f,
        ));
        assert(m.hidden(n).effects =~= m.effects + Seq::new((n - 1) as nat, f) + seq![f(n - 1)]);
    } else {
        assert(m.effects + Seq::new(n as nat, f) =~= m.effects);
    }
}

/// What is asked for one tab when the current one is shown: this to be shown, any other to
/// be hidden, and its developer tools closed where they are not docked.
pub open spec fn shown_or_hidden(m: BrowserModel, i: int) -> Seq<Effect<Seq<char>>> {
    if i == m.current {
        seq![Effect::SetTabVisible(i as usize, true)]
    } else if m.platform == Platform::Windows {
        seq![Effect::SetTabVisible(i as usize, false)]
    } else {
        seq![Effect::SetTabVisible(i as usize, false), Effect::CloseDevtools(i as usize)]
    }
}

/// Each tab is shown or hidden, one after the other.
pub proof fn law_visibility(m: BrowserModel, n: int)
    requires
        0 <= n < usize::MAX,
    ensures
        m.with_visibility(0) == m,
        m.with_visibility(n + 1) == (BrowserModel {
            effects: m.with_visibility(n).effects + shown_or_hidden(m, n),
            ..m
        }),
{
    lemma_visibility_frame(m, n);
    lemma_visibility_frame(m, n + 1);
    assert(m.with_visibility(n + 1).effects =~= m.with_visibility(n).effects + shown_or_hidden(
        m,
        n,
    ));
}

/// To show and hide tabs changes nothing but the effects.
proof fn lemma_visibility_frame(m: BrowserModel, n: int)
    ensures
        m.with_visibility(n) == (BrowserModel { effects: m.with_visibility(n).effects, ..m }),
    decreases n,
{
    if n > 0 {
        lemma_visibility_frame(m, n - 1);
    }
}

/// The search that is started for the developer tools of the current page.
pub open spec fn started_search(m: BrowserModel) -> Option<ConnectModel> {
    Some(
        ConnectModel { page_url: logical_address(m.tabs[m.current as int].url), attempts: 0 },
    )
}

/// What is asked for when the developer tools of the current tab are opened.
pub open spec fn opening_devtools(m: BrowserModel) -> Seq<Effect<Seq<char>>> {
    if m.platform != Platform::Windows {
        seq![Effect::OpenDevtools(m.current)]
    } else if m.panel {
        seq![Effect::ShowPanel]
    } else {
        seq![]
    }
}

/// To show the current tab, with its developer tools where these are open, gives it the
/// focus and raises the toolbar. Nothing else changes, but for the docked developer tools:
/// they are looked for, or asked for where they are not built.
pub proof fn law_shown(m: BrowserModel)
    requires
        m.current < m.tabs.len(),
    ensures
        m.shown() == (BrowserModel {
            connect: if m.devtools_open && m.platform == Platform::Windows && m.panel {
                started_search(m)
            } else {
                m.connect
            },
            panel_pending: m.panel_pending || (m.devtools_open && m.platform == Platform::Windows
                && !m.panel),
            effects: m.with_visibility(m.tabs.len() as int).effects + (if m.devtools_open {
                opening_devtools(m)
            } else {
                seq![]
            }) + (if m.platform == Platform::Windows {
                seq![Effect::RaiseToolbar]
            } else {
                seq![Effect::FocusTab(m.current), Effect::RaiseToolbar]
            }),
            ..m
        }),
{
    reveal(BrowserModel::shown);
    let n = m.tabs.len() as int;
    lemma_visibility_frame(m, n);
    let before = m.with_visibility(n).effects;
    let opening = if m.devtools_open {
        opening_devtools(m)
    } else {
        seq![]
    };
    let closing = if m.platform == Platform::Windows {
        seq![Effect::<Seq<char>>::RaiseToolbar]
    } else {
        seq![Effect::FocusTab(m.current), Effect::RaiseToolbar]
    };
    assert(m.shown().effects =~= before + opening + closing);
}

// ---- tabs ----

/// The tab at every place can be switched to, whatever its state: it becomes the current
/// one, the tabs stay as they are, and the toolbar is told. A place without a tab changes
/// nothing.
pub proof fn law_switch(m: BrowserModel, k: usize)
    ensures
        k >= m.tabs.len() ==> m.obeyed(Command::SwitchTab(k)) == m,
        k < m.tabs.len() ==> {
            let n = m.obeyed(Command::SwitchTab(k));
            let c = BrowserModel { current: k, ..m };
            &&& n.current == k
            &&& n.tabs == m.tabs
            &&& n.next_id == m.next_id
            &&& n.devtools_open == m.devtools_open
            &&& m.platform == Platform::Windows ==> n == (BrowserModel {
                snapshot: toolbar_state(c),
                toolbar_dirty: true,
                ..c.shown()
            })
            &&& m.platform != Platform::Windows ==> n == (BrowserModel {
                effects: c.shown().effects + seq![toolbar_script(c)],
                ..c.shown()
            })
        },
{
    if k < m.tabs.len() {
        let c = BrowserModel { current: k, ..m };
        law_shown(c);
        assert(c.shown().effects.push(toolbar_script(c)) =~= c.shown().effects + seq![
            toolbar_script(c),
        ]);
    }
}

/// A new tab takes the next number and the address in the form that a tab keeps; it has the
/// title of a new tab where the address is one of the shell, and none otherwise. It comes
/// after all the others, which stay as they are, and becomes the current one; the others are
/// hidden, its web view is built, and the toolbar is told.
#[verifier::spinoff_prover]
#[verifier::rlimit(50)]
pub proof fn law_open(m: BrowserModel, url: Seq<char>)
    requires
        m.next_id < u32::MAX,
        m.tabs.len() < usize::MAX,
    ensures
        ({
            let n = m.opened(url);
            let t = TabModel {
                id: m.next_id,
                url: logical_address(url),
                title: if "plum://"@.is_prefix_of(url) {
                    "Новая вкладка"@
                } else {
                    Seq::empty()
                },
                loading: false,
            };
            let build = Effect::BuildTab {
                id: m.next_id,
                url,
                newtab: internal_newtab(url),
                devtools_open: m.devtools_open,
            };
            let opening = if m.devtools_open {
                opening_devtools(n)
            } else {
                seq![]
            };
            &&& n.tabs == m.tabs.push(t)
            &&& n.current == m.tabs.len()
            &&& n.next_id == m.next_id + 1
            &&& m.platform == Platform::Windows ==> n == (BrowserModel {
                tabs: n.tabs,
                current: n.current,
                next_id: n.next_id,
                connect: if m.devtools_open && m.panel {
                    started_search(n)
                } else {
                    m.connect
                },
                panel_pending: m.panel_pending || (m.devtools_open && !m.panel),
                snapshot: toolbar_state(n),
                toolbar_dirty: true,
                effects: m.hidden(m.tabs.len() as int).effects + seq![build] + opening + seq![
                    Effect::Resize(m.devtools_open),
                    Effect::RaiseToolbar,
                ],
                ..m
            })
            &&& m.platform != Platform::Windows ==> n == (BrowserModel {
                tabs: n.tabs,
                current: n.current,
                next_id: n.next_id,
                effects: m.hidden(m.tabs.len() as int).effects + seq![build] + opening + seq![
                    toolbar_script(n),
                    Effect::Resize(m.devtools_open),
                    Effect::FocusTab(n.current),
                    Effect::RaiseToolbar,
                ],
                ..m
            })
        }),
{
    reveal(BrowserModel::opened);
    law_hidden(m, m.tabs.len() as int);
    let n = m.opened(url);
    let build = Effect::BuildTab {
        id: m.next_id,
        url,
        newtab: internal_newtab(url),
        devtools_open: m.devtools_open,
    };
    let opening = if m.devtools_open {
        opening_devtools(n)
    } else {
        seq![]
    };
    let before = m.hidden(m.tabs.len() as int).effects;
    if m.platform == Platform::Windows {
        assert(n.effects =~= before + seq![build] + opening + seq![
            Effect::Resize(m.devtools_open),
            Effect::RaiseToolbar,
        ]);
    } else {
        assert(n.effects =~= before + seq![build] + opening + seq![
            toolbar_script(n),
            Effect::Resize(m.devtools_open),
            Effect::FocusTab(n.current),
            Effect::RaiseToolbar,
        ]);
    }
}

/// A message for a new tab opens the new-tab page; a window that a page asks for becomes a
/// tab with the address that the page asked for, and blank text opens none.
pub proof fn law_opened_for(m: BrowserModel, url: Seq<char>)
    ensures
        m.obeyed(Command::NewTab) == m.opened("plum://newtab"@),
        resolved_input(url) matches Some(address) ==> m.heard((UserEvent::NewWindow { url }))
            == m.opened(address),
        resolved_input(url) is None ==> m.heard((UserEvent::NewWindow { url })) == m,
{
}

/// To close a tab removes it and its web view, and nothing else of the others: with others
/// left, the one that was current stays so, or else the one that took its place or the last
/// one is shown, and the toolbar is told; with none left, the new-tab page is opened. A
/// place without a tab changes nothing.
pub proof fn law_close(m: BrowserModel, i: usize)
    requires
        m.current < m.tabs.len(),
    ensures
        i >= m.tabs.len() ==> m.obeyed(Command::CloseTab(i)) == m,
        i < m.tabs.len() && m.tabs.len() == 1 ==> m.obeyed(Command::CloseTab(i)) == (BrowserModel {
            tabs: Seq::empty(),
            effects: m.effects + seq![Effect::RemoveTab(i)],
            ..m
        }).opened("plum://newtab"@),
        i < m.tabs.len() && m.tabs.len() > 1 ==> {
            let n = m.obeyed(Command::CloseTab(i));
            let c = BrowserModel {
                tabs: m.tabs.remove(i as int),
                current: n.current,
                effects: m.effects + seq![Effect::RemoveTab(i)],
                ..m
            };
            &&& i < m.current ==> n.current == m.current - 1
            &&& i >= m.current && m.current + 1 < m.tabs.len() ==> n.current == m.current
            &&& i == m.current && m.current + 1 == m.tabs.len() ==> n.current == m.current - 1
            &&& n.tabs == m.tabs.remove(i as int)
            &&& m.platform == Platform::Windows ==> n == (BrowserModel {
                snapshot: toolbar_state(c),
                toolbar_dirty: true,
                ..c.shown()
            })
            &&& m.platform != Platform::Windows ==> n == (BrowserModel {
                effects: c.shown().effects + seq![toolbar_script(c)],
                ..c.shown()
            })
        },
{
    reveal(BrowserModel::closed);
    let removed = m.effects.push(Effect::RemoveTab(i));
    assert(removed =~= m.effects + seq![Effect::RemoveTab(i)]);
    if i < m.tabs.len() {
        let n = m.obeyed(Command::CloseTab(i));
        if m.tabs.len() == 1 {
            assert(m.tabs.remove(i as int) =~= Seq::<TabModel>::empty());
        } else {
            let current = crate::browser::current_after_close(
                m.current,
                i,
                m.tabs.remove(i as int).len(),
            );
            let c = BrowserModel {
                tabs: m.tabs.remove(i as int),
                current,
                effects: m.effects + seq![Effect::RemoveTab(i)],
                ..m
            };
            law_shown(c);
            assert(n.current == current);
            assert(c.shown().effects.push(toolbar_script(c)) =~= c.shown().effects + seq![
                toolbar_script(c),
            ]);
        }
    }
}

// ---- developer tools ----

/// Developer tools that are not open are opened, for the current tab, and those that are
/// open are closed; the web views are laid out anew, the toolbar is raised, and the tab gets
/// the focus. Docked ones are shown and looked for, or asked for where they are not built;
/// when they are closed, neither is done any longer. Without a current tab nothing happens.
pub proof fn law_toggle(m: BrowserModel)
    ensures
        m.current >= m.tabs.len() ==> m.toggled() == m,
        m.current < m.tabs.len() && m.platform != Platform::Windows ==> m.toggled()
            == (BrowserModel {
            devtools_open: !m.devtools_open,
            effects: m.effects + seq![
                if m.devtools_open {
                    Effect::CloseDevtools(m.current)
                } else {
                    Effect::OpenDevtools(m.current)
                },
                Effect::Resize(!m.devtools_open),
                Effect::RaiseToolbar,
                Effect::FocusTab(m.current),
            ],
            ..m
        }),
        m.current < m.tabs.len() && m.platform == Platform::Windows && m.panel ==> m.toggled()
            == (BrowserModel {
            devtools_open: !m.devtools_open,
            connect: if m.devtools_open {
                None
            } else {
                started_search(m)
            },
            panel_pending: !m.devtools_open && m.panel_pending,
            panel_build_next: !m.devtools_open && m.panel_build_next,
            effects: m.effects + seq![
                if m.devtools_open {
                    Effect::ClosePanel
                } else {
                    Effect::ShowPanel
                },
                Effect::Resize(!m.devtools_open),
                Effect::RaiseToolbar,
            ],
            ..m
        }),
        m.current < m.tabs.len() && m.platform == Platform::Windows && !m.panel ==> m.toggled()
            == (BrowserModel {
            devtools_open: !m.devtools_open,
            panel_pending: !m.devtools_open,
            panel_build_next: !m.devtools_open && m.panel_build_next,
            effects: m.effects + seq![Effect::Resize(!m.devtools_open), Effect::RaiseToolbar],
            ..m
        }),
        m.obeyed(Command::ToggleDevtools) == m.toggled(),
        m.heard(UserEvent::ToggleDevtools) == m.toggled(),
{
    reveal(BrowserModel::toggled);
    let n = m.toggled();
    if m.current < m.tabs.len() {
        if m.platform != Platform::Windows {
            assert(n.effects =~= m.effects + seq![
                if m.devtools_open {
                    Effect::CloseDevtools(m.current)
                } else {
                    Effect::OpenDevtools(m.current)
                },
                Effect::Resize(!m.devtools_open),
                Effect::RaiseToolbar,
                Effect::FocusTab(m.current),
            ]);
        } else if m.panel {
            assert(n.effects =~= m.effects + seq![
                if m.devtools_open {
                    Effect::ClosePanel
                } else {
                    Effect::ShowPanel
                },
                Effect::Resize(!m.devtools_open),
                Effect::RaiseToolbar,
            ]);
        } else {
            assert(n.effects =~= m.effects + seq![
                Effect::Resize(!m.devtools_open),
                Effect::RaiseToolbar,
            ]);
        }
    }
}

/// Docked developer tools that were asked for are built one step later, and only then: the
/// web views are laid out anew, the toolbar is raised, and the tools of the current page are
/// looked for.
pub proof fn law_panel_build(m: BrowserModel)
    ensures
        m.panel_pending ==> m.panel_built() == (BrowserModel {
            panel_pending: false,
            panel_build_next: true,
            ..m
        }),
        !m.panel_pending && !m.panel_build_next ==> m.panel_built() == m,
        !m.panel_pending && m.panel_build_next && (m.panel || !m.devtools_open) ==> m.panel_built()
            == (BrowserModel { panel_build_next: false, ..m }),
        !m.panel_pending && m.panel_build_next && !m.panel && m.devtools_open && m.current
            < m.tabs.len() ==> m.panel_built() == (BrowserModel {
            panel_build_next: false,
            panel: true,
            connect: started_search(m),
            effects: m.effects + seq![
                Effect::BuildPanel,
                Effect::Resize(true),
                Effect::RaiseToolbar,
                Effect::ShowPanel,
            ],
            ..m
        }),
{
    if !m.panel_pending && m.panel_build_next && !m.panel && m.devtools_open && m.current
        < m.tabs.len() {
        assert(m.panel_built().effects =~= m.effects + seq![
            Effect::BuildPanel,
            Effect::Resize(true),
            Effect::RaiseToolbar,
            Effect::ShowPanel,
        ]);
    }
}

/// A page is searched for exactly while developer tools are open and docked; a search
/// without them is given up, and nothing else changes.
pub proof fn law_searched_page(m: BrowserModel)
    ensures
        m.connect matches Some(c) ==> (m.devtools_open && m.panel ==> m.searched_page() == Some(
            c.page_url,
        ) && m.search_checked() == m),
        m.connect is None || !m.devtools_open || !m.panel ==> m.searched_page() is None
            && m.search_checked() == (BrowserModel { connect: None, ..m }),
{
}

/// What was found is loaded and shown, and the search ends. What was not found is searched
/// for again, a hundred and fifty times in all; then a window is opened for the developer
/// tools of the current tab, and the docked ones are closed.
pub proof fn law_search(m: BrowserModel, c: ConnectModel, url: Seq<char>)
    requires
        m.connect == Some(c),
        m.panel,
        m.current < m.tabs.len(),
    ensures
        m.searched(Some(url)) == (BrowserModel {
            connect: None,
            effects: m.effects + seq![
                Effect::LoadPanel(url),
                Effect::ShowPanel,
                Effect::RaiseToolbar,
            ],
            ..m
        }),
        c.attempts < 149 ==> m.searched(None) == (BrowserModel {
            connect: Some(
                (ConnectModel { page_url: c.page_url, attempts: (c.attempts + 1) as u32 }),
            ),
            ..m
        }),
        c.attempts >= 149 ==> m.searched(None) == (BrowserModel {
            connect: None,
            devtools_open: false,
            effects: m.effects + seq![
                Effect::OpenDevtools(m.current),
                Effect::ClosePanel,
                Effect::Resize(false),
            ],
            ..m
        }),
        (BrowserModel { connect: None, ..m }).searched(Some(url)) == (BrowserModel {
            connect: None,
            ..m
        }),
        (BrowserModel { connect: None, ..m }).searched(None) == (BrowserModel {
            connect: None,
            ..m
        }),
{
    assert(m.searched(Some(url)).effects =~= m.effects + seq![
        Effect::LoadPanel(url),
        Effect::ShowPanel,
        Effect::RaiseToolbar,
    ]);
    if c.attempts >= 149 {
        assert(m.searched(None).effects =~= m.effects + seq![
            Effect::OpenDevtools(m.current),
            Effect::ClosePanel,
            Effect::Resize(false),
        ]);
    }
}

// ---- events of a tab ----

/// A tab is found by its number: the first one that has it.
proof fn lemma_place(tabs: Seq<TabModel>, id: u32, i: int)
    requires
        is_tab_place(tabs, id, i),
    ensures
        tab_place(tabs, id) == Some(i),
{
    lemma_tab_place(tabs, id);
    match tab_place(tabs, id) {
        Some(k) => {
            if k < i {
                assert(tabs[k].id != id);
            }
            if i < k {
                assert(tabs[i].id != id);
            }
        },
        None => {
            assert(tabs[i].id != id);
        },
    }
}

/// The place of a tab is found wherever a tab has the number, and no tab before it has it.
pub proof fn law_tab_place(tabs: Seq<TabModel>, id: u32, j: int)
    requires
        0 <= j < tabs.len(),
    ensures
        tabs[j].id == id ==> tab_place(tabs, id) is Some,
        tab_place(tabs, id) matches Some(i) ==> 0 <= i < tabs.len() && tabs[i].id == id && (
        tabs[j].id == id ==> i <= j),
        is_tab_place(tabs, id, j) ==> tabs[j].id == id && tab_place(tabs, id) == Some(j),
        tabs[j].id == id && (forall|k: int| 0 <= k < j ==> (#[trigger] tabs[k]).id != id)
            ==> is_tab_place(tabs, id, j),
{
    lemma_tab_place(tabs, id);
}

/// An event of a tab that is not there changes nothing.
#[verifier::spinoff_prover]
#[verifier::rlimit(50)]
pub proof fn law_unknown_tab(m: BrowserModel, tab_id: u32, text: Seq<char>)
    requires
        forall|j: int| 0 <= j < m.tabs.len() ==> (#[trigger] m.tabs[j]).id != tab_id,
    ensures
        m.heard((UserEvent::Navigated { tab_id, url: text })) == m,
        m.heard((UserEvent::TitleChanged { tab_id, title: text })) == m,
        m.heard((UserEvent::FocusTab { tab_id })) == m,
        m.heard((UserEvent::LoadStarted { tab_id })) == m,
        m.heard((UserEvent::LoadFinished { tab_id })) == m,
        m.heard((UserEvent::ForceLoad { tab_id, url: text })) == m,
        m.heard(UserEvent::WakeIpc) == m,
{
    lemma_tab_place(m.tabs, tab_id);
    assert(tab_place(m.tabs, tab_id) is None);
}

/// What follows where a tab keeps another address: the toolbar is told, and the current tab
/// gets the focus.
pub open spec fn told_of_address(m: BrowserModel, i: int, url: Seq<char>) -> BrowserModel {
    let n = BrowserModel { tabs: m.tabs.update(i, TabModel { url, ..m.tabs[i] }), ..m };
    if m.platform == Platform::Windows {
        BrowserModel { snapshot: toolbar_state(n), toolbar_dirty: true, ..n }
    } else if i == m.current {
        BrowserModel {
            effects: m.effects + seq![toolbar_script(n), Effect::FocusTab(m.current)],
            ..n
        }
    } else {
        BrowserModel { effects: m.effects + seq![toolbar_script(n)], ..n }
    }
}

/// The parts of a step that follow where a tab keeps another address.
proof fn lemma_told_of_address(m: BrowserModel, i: int, url: Seq<char>)
    requires
        0 <= i < m.tabs.len(),
    ensures
        ({
            let n = m.with_tab(i, TabModel { url, ..m.tabs[i] }).synced();
            told_of_address(m, i, url) == if i == m.current {
                n.focused()
            } else {
                n
            }
        }),
{
    let n = m.with_tab(i, TabModel { url, ..m.tabs[i] });
    if m.platform != Platform::Windows {
        assert(m.effects.push(toolbar_script(n)) =~= m.effects + seq![toolbar_script(n)]);
        assert(m.effects.push(toolbar_script(n)).push(Effect::FocusTab(m.current)) =~= m.effects
            + seq![toolbar_script(n), Effect::FocusTab(m.current)]);
    }
}

/// A navigation of a tab that is there.
proof fn lemma_heard_navigated(m: BrowserModel, tab_id: u32, i: int, url: Seq<char>)
    requires
        is_tab_place(m.tabs, tab_id, i),
    ensures
        m.heard((UserEvent::Navigated { tab_id, url })) == if url == "about:blank"@ {
            m
        } else {
            m.navigated(i, url)
        },
{
    lemma_place(m.tabs, tab_id, i);
}

/// A tab that goes to an address of the web keeps this very address, whether it is loading
/// or not, and nothing else of the tabs changes. Where the address is another than before,
/// the toolbar is told, and the current tab gets the focus.
pub proof fn law_navigated_to_the_web(m: BrowserModel, tab_id: u32, i: int, url: Seq<char>)
    requires
        is_tab_place(m.tabs, tab_id, i),
        !internal_newtab(url),
    ensures
        ({
            let n = m.heard((UserEvent::Navigated { tab_id, url }));
            &&& n.tabs[i].url == url
            &&& n.tabs == m.tabs.update(i, (TabModel { url, ..m.tabs[i] }))
            &&& m.tabs[i].url == url ==> n == m
            &&& m.tabs[i].url != url ==> n == told_of_address(m, i, url)
        }),
{
    lemma_heard_navigated(m, tab_id, i, url);
    lemma_blank_is_internal();
    lemma_told_of_address(m, i, url);
    assert(logical_address(url) == url);
    if m.tabs[i].url == url {
        assert(m.navigated(i, url) == m);
        assert(m.tabs.update(i, TabModel { url, ..m.tabs[i] }) =~= m.tabs);
    } else {
        assert(m.navigated(i, url) == told_of_address(m, i, url));
    }
}

/// The blank page stands for the new-tab page.
proof fn lemma_blank_is_internal()
    ensures
        internal_newtab("about:blank"@),
{
    reveal(internal_newtab);
    reveal_strlit("about:blank");
    crate::address::lemma_trimmed_same("about:blank"@);
}

/// A tab that goes to the new-tab page keeps the address of it, unless a page of the web is
/// still loading in it. The blank page is passed over.
pub proof fn law_navigated_to_newtab(m: BrowserModel, tab_id: u32, i: int, url: Seq<char>)
    requires
        is_tab_place(m.tabs, tab_id, i),
        internal_newtab(url),
    ensures
        ({
            let n = m.heard((UserEvent::Navigated { tab_id, url }));
            let external = m.tabs[i].loading && !internal_newtab(m.tabs[i].url);
            &&& url == "about:blank"@ || external || m.tabs[i].url == "plum://newtab"@ ==> n == m
            &&& url != "about:blank"@ && !external && m.tabs[i].url != "plum://newtab"@ ==> n
                == told_of_address(m, i, "plum://newtab"@)
        }),
{
    lemma_heard_navigated(m, tab_id, i, url);
    law_newtab_is_internal();
    lemma_told_of_address(m, i, "plum://newtab"@);
    assert(logical_address(url) == "plum://newtab"@);
}

/// The title of a tab is the last one that its page gave it, and the toolbar is told: by its
/// whole state on Windows, by the label of the tab elsewhere.
pub proof fn law_titled(m: BrowserModel, tab_id: u32, i: int, title: Seq<char>)
    requires
        is_tab_place(m.tabs, tab_id, i),
    ensures
        ({
            let n = m.heard((UserEvent::TitleChanged { tab_id, title }));
            &&& n.tabs == m.tabs.update(i, (TabModel { title, ..m.tabs[i] }))
            &&& m.platform == Platform::Windows ==> n == (BrowserModel {
                tabs: n.tabs,
                snapshot: toolbar_state(n),
                toolbar_dirty: true,
                ..m
            })
            &&& m.platform != Platform::Windows ==> n == (BrowserModel {
                tabs: n.tabs,
                effects: m.effects + seq![
                    Effect::RunToolbarScript(title_script(i, label_text(n.tabs[i]))),
                ],
                ..m
            })
        }),
{
    lemma_place(m.tabs, tab_id, i);
    let n = m.heard((UserEvent::TitleChanged { tab_id, title }));
    if m.platform != Platform::Windows {
        assert(n.effects =~= m.effects + seq![
            Effect::RunToolbarScript(title_script(i, label_text(n.tabs[i]))),
        ]);
    }
}

/// A tab is loading from when it tells that it started until it tells that it finished; of
/// the current one the toolbar is told.
pub proof fn law_progress(m: BrowserModel, tab_id: u32, i: int, loading: bool)
    requires
        is_tab_place(m.tabs, tab_id, i),
    ensures
        ({
            let n = m.heard(
                (if loading {
                    UserEvent::LoadStarted { tab_id }
                } else {
                    UserEvent::LoadFinished { tab_id }
                }),
            );
            &&& n.tabs == m.tabs.update(i, (TabModel { loading, ..m.tabs[i] }))
            &&& i != m.current ==> n == (BrowserModel { tabs: n.tabs, ..m })
            &&& i == m.current && m.platform == Platform::Windows ==> n == (BrowserModel {
                tabs: n.tabs,
                snapshot: toolbar_state(n),
                toolbar_dirty: true,
                ..m
            })
            &&& i == m.current && m.platform != Platform::Windows ==> n == (BrowserModel {
                tabs: n.tabs,
                effects: m.effects + seq![toolbar_script(n)],
                ..m
            })
        }),
{
    lemma_place(m.tabs, tab_id, i);
    let n = m.heard(
        (if loading {
            UserEvent::LoadStarted { tab_id }
        } else {
            UserEvent::LoadFinished { tab_id }
        }),
    );
    if i == m.current && m.platform != Platform::Windows {
        assert(n.effects =~= m.effects + seq![toolbar_script(n)]);
    }
}

/// What follows where a tab is made to load an address: it keeps the address, without a
/// title and loading, and its web view is asked to load another; of the current tab the
/// toolbar is told.
pub open spec fn made_to_load(
    m: BrowserModel,
    i: int,
    kept: Seq<char>,
    loaded: Seq<char>,
) -> BrowserModel {
    let t = TabModel { id: m.tabs[i].id, url: kept, title: Seq::empty(), loading: true };
    let load = Effect::LoadUrl(i as usize, loaded);
    let n = BrowserModel { tabs: m.tabs.update(i, t), effects: m.effects + seq![load], ..m };
    if i != m.current {
        n
    } else if m.platform == Platform::Windows {
        BrowserModel { snapshot: toolbar_state(n), toolbar_dirty: true, ..n }
    } else {
        BrowserModel { effects: m.effects + seq![load, toolbar_script(n)], ..n }
    }
}

/// A tab that is made to load an address of the web keeps this very address and is asked to
/// load it; one that is made to load the new-tab page keeps the address of it and is asked
/// to load its document.
pub proof fn law_forced(m: BrowserModel, tab_id: u32, i: int, url: Seq<char>)
    requires
        is_tab_place(m.tabs, tab_id, i),
        m.tabs.len() <= usize::MAX,
    ensures
        !internal_newtab(url) ==> m.heard((UserEvent::ForceLoad { tab_id, url })) == made_to_load(
            m,
            i,
            url,
            url,
        ),
        internal_newtab(url) ==> m.heard((UserEvent::ForceLoad { tab_id, url })) == made_to_load(
            m,
            i,
            "plum://newtab"@,
            "data:text/html;charset=utf-8,"@ + crate::encoding::path_encoded(
                crate::pages::NEWTAB_HTML@,
            ),
        ),
{
    lemma_place(m.tabs, tab_id, i);
    law_newtab_is_internal();
    let kept = logical_address(url);
    let load = Effect::LoadUrl(i as usize, loaded_address(kept));
    lemma_made_to_load(m, i, kept, loaded_address(kept));
    assert(m.heard((UserEvent::ForceLoad { tab_id, url })) == m.with_page(i, kept).asked(
        load,
    ).synced_if_current(i));
}

/// The parts of a step that make a tab load an address.
proof fn lemma_made_to_load(m: BrowserModel, i: int, kept: Seq<char>, loaded: Seq<char>)
    requires
        0 <= i < m.tabs.len(),
    ensures
        m.with_page(i, kept).asked(Effect::LoadUrl(i as usize, loaded)).synced_if_current(i)
            == made_to_load(m, i, kept, loaded),
{
    let load = Effect::LoadUrl(i as usize, loaded);
    let n = m.with_page(i, kept).asked(load);
    assert(m.effects.push(load) =~= m.effects + seq![load]);
    assert(m.effects.push(load).push(toolbar_script(n)) =~= m.effects + seq![
        load,
        toolbar_script(n),
    ]);
}

/// The focus that a tab wants goes to it where it is the current one, and nowhere on
/// Windows. Messages that come as events do what they do from the queue.
pub proof fn law_tab_focus(m: BrowserModel, tab_id: u32, i: int, msg: Seq<char>)
    requires
        is_tab_place(m.tabs, tab_id, i),
    ensures
        i != m.current || m.platform == Platform::Windows ==> m.heard(
            (UserEvent::FocusTab { tab_id }),
        ) == m,
        i == m.current && m.platform != Platform::Windows ==> m.heard(
            (UserEvent::FocusTab { tab_id }),
        ) == (BrowserModel { effects: m.effects + seq![Effect::FocusTab(m.current)], ..m }),
        m.heard(UserEvent::Ipc(msg)) == m.obeyed(command_of(msg)),
{
    lemma_place(m.tabs, tab_id, i);
    assert(m.effects.push(Effect::FocusTab(m.current)) =~= m.effects + seq![
        Effect::FocusTab(m.current),
    ]);
}

// ---- events of the window ----

/// The window is left when it is closed; it is laid out anew, under the toolbar, when its
/// size or scale has changed, and after a new size the toolbar is told.
pub proof fn law_window_events(m: BrowserModel)
    ensures
        m.handled(ShellEvent::CloseRequested) == (BrowserModel {
            effects: m.effects + seq![Effect::Exit],
            ..m
        }),
        m.handled(ShellEvent::ScaleFactorChanged) == (BrowserModel {
            effects: m.effects + seq![Effect::Resize(m.devtools_open), Effect::RaiseToolbar],
            ..m
        }),
        m.platform == Platform::Windows ==> m.handled(ShellEvent::Resized) == (BrowserModel {
            snapshot: toolbar_state(m),
            toolbar_dirty: true,
            effects: m.effects + seq![Effect::Resize(m.devtools_open), Effect::RaiseToolbar],
            ..m
        }),
        m.platform != Platform::Windows ==> m.handled(ShellEvent::Resized) == (BrowserModel {
            effects: m.effects + seq![
                Effect::Resize(m.devtools_open),
                Effect::RaiseToolbar,
                toolbar_script(m),
            ],
            ..m
        }),
{
    assert(m.handled(ShellEvent::CloseRequested).effects =~= m.effects + seq![Effect::Exit]);
    assert(m.handled(ShellEvent::ScaleFactorChanged).effects =~= m.effects + seq![
        Effect::Resize(m.devtools_open),
        Effect::RaiseToolbar,
    ]);
    if m.platform == Platform::Windows {
        assert(m.handled(ShellEvent::Resized).effects =~= m.effects + seq![
            Effect::Resize(m.devtools_open),
            Effect::RaiseToolbar,
        ]);
    } else {
        assert(m.handled(ShellEvent::Resized).effects =~= m.effects + seq![
            Effect::Resize(m.devtools_open),
            Effect::RaiseToolbar,
            toolbar_script(m),
        ]);
    }
}

/// A key that is pressed, not held, toggles the developer tools where it is F12, or the
/// letter I with Control and Shift, or on macOS with Command and Option. Other keys, and the
/// modifiers, which are remembered, do nothing.
pub proof fn law_keys(m: BrowserModel, key: Key, pressed: bool, repeat: bool, held: Modifiers)
    ensures
        ({
            let asks = key == Key::F12 || (key == Key::KeyI && ((m.modifiers.control
                && m.modifiers.shift) || (m.platform == Platform::MacOs && m.modifiers.logo
                && m.modifiers.alt)));
            let n = m.handled((ShellEvent::KeyboardInput { key, pressed, repeat }));
            &&& asks && pressed && !repeat ==> n == m.toggled()
            &&& !asks || !pressed || repeat ==> n == m
        }),
        m.handled(ShellEvent::ModifiersChanged(held)) == (BrowserModel { modifiers: held, ..m }),
{
}

/// The window that gets the focus gives it to the current tab; events of the web views are
/// handled as such.
pub proof fn law_window_focus(m: BrowserModel, e: UserEvent<Seq<char>>)
    ensures
        m.handled(ShellEvent::Focused(true)) == m.obeyed(Command::FocusContent),
        m.handled(ShellEvent::Focused(false)) == m,
        m.handled(ShellEvent::User(e)) == m.heard(e),
{
}

/// With docked developer tools the toolbar is raised when the cursor is over it, and gets
/// the focus; and it is raised after the first sixty events. Without them nothing happens.
pub proof fn law_toolbar_above_panel(m: BrowserModel, over_toolbar: bool)
    ensures
        m.platform == Platform::Windows && m.panel && over_toolbar ==> m.handled(
            (ShellEvent::CursorMoved { over_toolbar }),
        ) == (BrowserModel {
            effects: m.effects + seq![Effect::RaiseToolbar, Effect::FocusToolbar],
            ..m
        }),
        m.platform != Platform::Windows || !m.panel || !over_toolbar ==> m.handled(
            (ShellEvent::CursorMoved { over_toolbar }),
        ) == m,
        m.platform == Platform::Windows && m.panel && m.z_order_nudges < 60 ==> m.handled(
            ShellEvent::MainEventsCleared,
        ) == (BrowserModel {
            z_order_nudges: (m.z_order_nudges + 1) as u32,
            effects: m.effects + seq![Effect::RaiseToolbar],
            ..m
        }),
        m.platform != Platform::Windows || !m.panel || m.z_order_nudges >= 60 ==> m.handled(
            ShellEvent::MainEventsCleared,
        ) == m,
{
    assert(m.effects.push(Effect::RaiseToolbar).push(Effect::FocusToolbar) =~= m.effects + seq![
        Effect::RaiseToolbar,
        Effect::FocusToolbar,
    ]);
    assert(m.effects.push(Effect::RaiseToolbar) =~= m.effects + seq![Effect::RaiseToolbar]);
}

// ---- the start ----

/// A toolbar without scripts is loaded exactly where its state has changed, with the page
/// rendered from this state.
pub proof fn law_flush(m: BrowserModel)
    ensures
        !m.toolbar_dirty ==> m.flushed() == m,
        m.toolbar_dirty ==> m.flushed() == (BrowserModel {
            toolbar_dirty: false,
            effects: m.effects + seq![
                Effect::LoadToolbar(document_address(rendered_page(m.snapshot, m.version, m.icon))),
            ],
            ..m
        }),
        m.queue_handled(Seq::empty()) == m.flushed(),
{
    let load = Effect::LoadToolbar(
        document_address(rendered_page(m.snapshot, m.version, m.icon)),
    );
    assert(m.effects.push(load) =~= m.effects + seq![load]);
}

/// The messages of the queue are obeyed one after the other, the oldest first and each of
/// them once; only the sign that the toolbar is ready is passed over.
pub proof fn law_queue(m: BrowserModel, msg: Seq<char>, rest: Seq<Seq<char>>)
    ensures
        m.queue_handled(seq![msg] + rest) == m.drained(seq![msg] + rest),
        msg != "ready"@ ==> m.drained(seq![msg] + rest) == m.obeyed(command_of(msg)).drained(rest),
        msg == "ready"@ ==> m.drained(seq![msg] + rest) == m.drained(rest),
        m.drained(Seq::empty()) == m,
{
    assert((seq![msg] + rest).drop_first() =~= rest);
    assert((seq![msg] + rest)[0] == msg);
}

/// The first tab shows the new-tab page under the number one.
pub proof fn law_first_tab(m: BrowserModel)
    requires
        m.tabs.len() == 0,
    ensures
        ({
            let n = m.started();
            let build = Effect::BuildTab {
                id: 1,
                url: "plum://newtab"@,
                newtab: true,
                devtools_open: m.devtools_open,
            };
            &&& n.tabs == seq![
                (TabModel {
                    id: 1,
                    url: "plum://newtab"@,
                    title: "Новая вкладка"@,
                    loading: false,
                }),
            ]
            &&& n.current == 0
            &&& n.next_id == 2
            &&& m.platform != Platform::Windows ==> n == (BrowserModel {
                tabs: n.tabs,
                current: 0,
                next_id: 2,
                effects: m.effects + seq![
                    build,
                    Effect::RaiseToolbar,
                    Effect::Resize(m.devtools_open),
                    toolbar_script(n),
                ],
                ..m
            })
        }),
        m.bootstrap_phase == 1 && m.platform == Platform::Windows ==> {
            let n = m.bootstrapped();
            &&& n.tabs == m.started().tabs
            &&& n == (BrowserModel {
                tabs: n.tabs,
                current: 0,
                next_id: 2,
                snapshot: toolbar_state(n),
                toolbar_dirty: false,
                bootstrap_phase: 2,
                ipc_ready: true,
                effects: m.effects + seq![
                    (Effect::BuildTab {
                        id: 1,
                        url: "plum://newtab"@,
                        newtab: true,
                        devtools_open: m.devtools_open,
                    }),
                    Effect::FocusWindow,
                    Effect::RaiseToolbar,
                    Effect::Resize(m.devtools_open),
                    Effect::LoadToolbar(
                        document_address(rendered_page(toolbar_state(n), m.version, m.icon)),
                    ),
                ],
                ..m
            })
        },
{
    law_newtab_is_internal();
    reveal_strlit("plum://newtab");
    reveal_strlit("plum://");
    assert("plum://"@.is_prefix_of("plum://newtab"@));
    let build = Effect::BuildTab {
        id: 1,
        url: "plum://newtab"@,
        newtab: true,
        devtools_open: m.devtools_open,
    };
    let t = TabModel {
        id: 1,
        url: "plum://newtab"@,
        title: "Новая вкладка"@,
        loading: false,
    };
    assert(m.started().tabs =~= seq![t]);
    if m.platform != Platform::Windows {
        assert(m.started().effects =~= m.effects + seq![
            build,
            Effect::RaiseToolbar,
            Effect::Resize(m.devtools_open),
            toolbar_script(m.started()),
        ]);
    } else if m.bootstrap_phase == 1 {
        let n = m.bootstrapped();
        assert(n.effects =~= m.effects + seq![
            build,
            Effect::FocusWindow,
            Effect::RaiseToolbar,
            Effect::Resize(m.devtools_open),
            Effect::LoadToolbar(
                document_address(rendered_page(toolbar_state(n), m.version, m.icon)),
            ),
        ]);
    }
}

/// The start on Windows first shows the window, which asks for the focus from then on; when
/// it is done it changes nothing.
pub proof fn law_bootstrap(m: BrowserModel)
    ensures
        m.bootstrap_phase == 0 ==> m.bootstrapped() == (BrowserModel {
            bootstrap_phase: 1,
            startup_focus_frames: 120,
            effects: m.effects + seq![Effect::ShowWindow, Effect::FocusWindow],
            ..m
        }),
        m.bootstrap_phase > 1 ==> m.bootstrapped() == m,
{
    assert(m.effects.push(Effect::ShowWindow).push(Effect::FocusWindow) =~= m.effects + seq![
        Effect::ShowWindow,
        Effect::FocusWindow,
    ]);
}

/// The window asks for the focus at every fifteenth of the steps that are counted down.
pub proof fn law_startup_focus(m: BrowserModel)
    ensures
        m.startup_focus_frames == 0 ==> m.startup_focused() == m,
        m.startup_focus_frames > 0 ==> m.startup_focused().startup_focus_frames
            == m.startup_focus_frames - 1,
        m.startup_focus_frames > 0 && (m.startup_focus_frames - 1) % 15 == 0
            ==> m.startup_focused() == (BrowserModel {
            startup_focus_frames: (m.startup_focus_frames - 1) as u32,
            effects: m.effects + seq![Effect::FocusWindow],
            ..m
        }),
        m.startup_focus_frames > 0 && (m.startup_focus_frames - 1) % 15 != 0
            ==> m.startup_focused() == (BrowserModel {
            startup_focus_frames: (m.startup_focus_frames - 1) as u32,
            ..m
        }),
{
    assert(m.effects.push(Effect::FocusWindow) =~= m.effects + seq![Effect::FocusWindow]);
}

/// Before the start there is no tab, nothing is open or asked for, and the first tab will
/// have the number one.
pub proof fn law_initial(platform: Platform, version: Seq<char>, icon: Seq<char>)
    ensures
        ({
            let m = initial_model(platform, version, icon);
            &&& m.platform == platform && m.version == version && m.icon == icon
            &&& m.tabs.len() == 0 && m.current == 0 && m.next_id == 1
            &&& !m.devtools_open && !m.panel && !m.panel_pending && !m.panel_build_next
            &&& m.connect is None && m.z_order_nudges == 0 && !m.toolbar_dirty
            &&& m.bootstrap_phase == 0 && m.startup_focus_frames == 0 && !m.ipc_ready
            &&& m.effects.len() == 0
            &&& !m.modifiers.control && !m.modifiers.shift && !m.modifiers.alt && !m.modifiers.logo
        }),
{
}

} // verus!
