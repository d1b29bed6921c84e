//! What the shell asks of the window and its web views.

use vstd::prelude::*;

verus! {

/// One thing to do with the window or a web view. The web views of the tabs are counted as
/// the tabs are. `S` is the type of text.
#[derive(Clone, Debug)]
pub enum Effect<S> {
    Exit,
    DragWindow,
    MinimizeWindow,
    /// Maximize the window, or restore it, and measure it again.
    ToggleMaximized,
    ShowWindow,
    FocusWindow,
    /// Build the web view of a new tab, visible and after all the others. It shows the
    /// new-tab page or loads the address.
    BuildTab { id: u32, url: S, newtab: bool, devtools_open: bool },
    RemoveTab(usize),
    SetTabVisible(usize, bool),
    FocusTab(usize),
    OpenDevtools(usize),
    CloseDevtools(usize),
    GoBack(usize),
    GoForward(usize),
    Reload(usize),
    StopLoading(usize),
    LoadUrl(usize, S),
    RunToolbarScript(S),
    LoadToolbar(S),
    RaiseToolbar,
    FocusToolbar,
    /// Fit the web views into the window, with or without room for the docked developer
    /// tools, and show or hide these.
    Resize(bool),
    /// Build the hidden web view of the docked developer tools.
    BuildPanel,
    ShowPanel,
    /// Hide the docked developer tools and clear them.
    ClosePanel,
    LoadPanel(S),
}

impl View for Effect<String> {
    type V = Effect<Seq<char>>;

    open spec fn view(&self) -> Effect<Seq<char>> {
        match *self {
            Effect::Exit => Effect::Exit,
            Effect::DragWindow => Effect::DragWindow,
            Effect::MinimizeWindow => Effect::MinimizeWindow,
            Effect::ToggleMaximized => Effect::ToggleMaximized,
            Effect::ShowWindow => Effect::ShowWindow,
            Effect::FocusWindow => Effect::FocusWindow,
            Effect::BuildTab { id, url, newtab, devtools_open } => Effect::BuildTab {
                id,
                url: url@,
                newtab,
                devtools_open,
            },
            Effect::RemoveTab(i) => Effect::RemoveTab(i),
            Effect::SetTabVisible(i, visible) => Effect::SetTabVisible(i, visible),
            Effect::FocusTab(i) => Effect::FocusTab(i),
            Effect::OpenDevtools(i) => Effect::OpenDevtools(i),
            Effect::CloseDevtools(i) => Effect::CloseDevtools(i),
            Effect::GoBack(i) => Effect::GoBack(i),
            Effect::GoForward(i) => Effect::GoForward(i),
            Effect::Reload(i) => Effect::Reload(i),
            Effect::StopLoading(i) => Effect::StopLoading(i),
            Effect::LoadUrl(i, url) => Effect::LoadUrl(i, url@),
            Effect::RunToolbarScript(script) => Effect::RunToolbarScript(script@),
            Effect::LoadToolbar(url) => Effect::LoadToolbar(url@),
            Effect::RaiseToolbar => Effect::RaiseToolbar,
            Effect::FocusToolbar => Effect::FocusToolbar,
            Effect::Resize(devtools_open) => Effect::Resize(devtools_open),
            Effect::BuildPanel => Effect::BuildPanel,
            Effect::ShowPanel => Effect::ShowPanel,
            Effect::ClosePanel => Effect::ClosePanel,
            Effect::LoadPanel(url) => Effect::LoadPanel(url@),
        }
    }
}

/// Effects with their text.
pub open spec fn effect_models(v: Seq<Effect<String>>) -> Seq<Effect<Seq<char>>> {
    v.map_values(|e: Effect<String>| e@)
}

// ---- what the effects do to the web views ----

/// The web view of a tab.
pub ghost struct TabView {
    pub id: u32,
    pub visible: bool,
}

/// The web views of the window: those of the tabs, and whether there are docked developer
/// tools.
#[verifier::ext_equal]
pub ghost struct Screen {
    pub views: Seq<TabView>,
    pub panel: bool,
}

/// The number of the web view that an effect needs.
pub open spec fn needed_view(e: Effect<Seq<char>>) -> Option<usize> {
    match e {
        Effect::RemoveTab(i) => Some(i),
        Effect::SetTabVisible(i, _) => Some(i),
        Effect::FocusTab(i) => Some(i),
        Effect::OpenDevtools(i) => Some(i),
        Effect::CloseDevtools(i) => Some(i),
        Effect::GoBack(i) => Some(i),
        Effect::GoForward(i) => Some(i),
        Effect::Reload(i) => Some(i),
        Effect::StopLoading(i) => Some(i),
        Effect::LoadUrl(i, _) => Some(i),
        _ => None,
    }
}

/// Whether an effect needs the docked developer tools.
pub open spec fn needs_panel(e: Effect<Seq<char>>) -> bool {
    e is ShowPanel || e is ClosePanel || e is LoadPanel
}

/// Whether all that an effect needs is on the screen.
pub open spec fn can_perform(s: Screen, e: Effect<Seq<char>>) -> bool {
    &&& needed_view(e) matches Some(i) ==> i < s.views.len()
    &&& needs_panel(e) ==> s.panel
    &&& e is BuildPanel ==> !s.panel
}

/// The web views after an effect.
pub open spec fn performed(s: Screen, e: Effect<Seq<char>>) -> Screen {
    match e {
        Effect::BuildTab { id, .. } => Screen {
            views: s.views.push(TabView { id, visible: true }),
            ..s
        },
        Effect::RemoveTab(i) => Screen { views: s.views.remove(i as int), ..s },
        Effect::SetTabVisible(i, visible) => Screen {
            views: s.views.update(i as int, TabView { visible, ..s.views[i as int] }),
            ..s
        },
        Effect::BuildPanel => Screen { panel: true, ..s },
        _ => s,
    }
}

/// The web views after all the effects, one after the other, or `None` where one of them
/// needed what was not there.
pub open spec fn screen_after(s: Screen, effects: Seq<Effect<Seq<char>>>) -> Option<Screen>
    decreases effects.len(),
{
    if effects.len() == 0 {
        Some(s)
    } else {
        match screen_after(s, effects.drop_last()) {
            Some(t) => if can_perform(t, effects.last()) {
                Some(performed(t, effects.last()))
            } else {
                None
            },
            None => None,
        }
    }
}

/// One more effect is performed on the web views that the others left.
pub proof fn lemma_screen_after_push(s: Screen, effects: Seq<Effect<Seq<char>>>, e: Effect<Seq<char>>)
    ensures
        screen_after(s, effects.push(e)) == match screen_after(s, effects) {
            Some(t) => if can_perform(t, e) {
                Some(performed(t, e))
            } else {
                None
            },
            None => None,
        },
{
    assert(effects.push(e).drop_last() =~= effects);
}

} // verus!
