//! A tab.

use crate::pages::NEWTAB_TITLE;
use crate::text::{copy_of, remove_all, starts_with, without};
use vstd::prelude::*;

verus! {

/// What the shell knows of a tab.
#[derive(Clone, Debug)]
pub struct Tab {
    pub id: u32,
    pub url: String,
    pub title: String,
    pub loading: bool,
}

/// A tab with its text.
pub ghost struct TabModel {
    pub id: u32,
    pub url: Seq<char>,
    pub title: Seq<char>,
    pub loading: bool,
}

impl View for Tab {
    type V = TabModel;

    open spec fn view(&self) -> TabModel {
        TabModel { id: self.id, url: self.url@, title: self.title@, loading: self.loading }
    }
}

/// The tabs with their text.
pub open spec fn tab_models(tabs: Seq<Tab>) -> Seq<TabModel> {
    tabs.map_values(|t: Tab| t@)
}

/// What a tab is labelled with: its title, else the title of a new tab for a page of the
/// shell, else the address without its scheme.
pub open spec fn label_text(t: TabModel) -> Seq<char> {
    if t.title.len() > 0 {
        t.title
    } else if "plum://"@.is_prefix_of(t.url) || "data:text/html"@.is_prefix_of(t.url) {
        NEWTAB_TITLE@
    } else {
        without(without(t.url, "https://"@), "http://"@)
    }
}

/// What a tab is labelled with.
pub fn tab_label(tab: &Tab) -> (r: String)
    ensures
        r@ == label_text(tab@),
{
    if !tab.title.as_str().is_empty() {
        return tab.title.clone();
    }
    if starts_with(tab.url.as_str(), "plum://") || starts_with(tab.url.as_str(), "data:text/html") {
        return copy_of(NEWTAB_TITLE);
    }
    proof {
        reveal_strlit("https://");
        reveal_strlit("http://");
    }
    let bare: String = remove_all(tab.url.as_str(), "https://");
    remove_all(bare.as_str(), "http://")
}

/// The place of the first tab with that number.
pub open spec fn is_tab_place(tabs: Seq<TabModel>, id: u32, i: int) -> bool {
    &&& 0 <= i < tabs.len()
    &&& tabs[i].id == id
    &&& forall|j: int| 0 <= j < i ==> (#[trigger] tabs[j]).id != id
}

/// The place of the first tab with that number, if there is one.
pub open spec fn tab_place(tabs: Seq<TabModel>, id: u32) -> Option<int>
    decreases tabs.len(),
{
    if tabs.len() == 0 {
        None
    } else {
        match tab_place(tabs.drop_last(), id) {
            Some(i) => Some(i),
            None => if tabs.last().id == id {
                Some(tabs.len() - 1)
            } else {
                None
            },
        }
    }
}

/// The place of a tab is that of the first tab with the number; none is found where no tab
/// has it.
pub proof fn lemma_tab_place(tabs: Seq<TabModel>, id: u32)
    ensures
        match tab_place(tabs, id) {
            Some(i) => is_tab_place(tabs, id, i),
            None => forall|j: int| 0 <= j < tabs.len() ==> (#[trigger] tabs[j]).id != id,
        },
    decreases tabs.len(),
{
    if tabs.len() > 0 {
        lemma_tab_place(tabs.drop_last(), id);
        let init = tabs.drop_last();
        assert forall|j: int| 0 <= j < init.len() implies init[j] == #[trigger] tabs[j] by {}
    }
}

/// The place of the tab with that number.
pub fn find_tab_idx(tabs: &Vec<Tab>, tab_id: u32) -> (r: Option<usize>)
    ensures
        match r {
            Some(i) => tab_place(tab_models(tabs@), tab_id) == Some(i as int) && is_tab_place(
                tab_models(tabs@),
                tab_id,
                i as int,
            ),
            None => tab_place(tab_models(tabs@), tab_id) is None,
        },
{
    let ghost ts = tab_models(tabs@);
    let mut i: usize = 0;
    proof {
        lemma_tab_place(ts, tab_id);
    }
    while i < tabs.len()
        invariant
            ts == tab_models(tabs@),
            i <= tabs@.len(),
            forall|j: int| 0 <= j < i ==> (#[trigger] ts[j]).id != tab_id,
            match tab_place(ts, tab_id) {
                Some(k) => is_tab_place(ts, tab_id, k),
                None => forall|j: int| 0 <= j < ts.len() ==> (#[trigger] ts[j]).id != tab_id,
            },
        decreases tabs.len() - i,
    {
        assert(ts[i as int] == tabs@[i as int]@);
        if tabs[i].id == tab_id {
            return Some(i);
        }
        i += 1;
    }
    None
}

} // verus!
