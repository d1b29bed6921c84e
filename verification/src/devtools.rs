//! The debugging targets of the web views and the inspector page for one of them.

use crate::json::{member, member_text, members_of, parse_elements, parsed_elements};
use crate::text::{
    contains, copy_of, occurs, remove_leading, remove_trailing, same, starts_with, without_leading,
    without_trailing,
};
use vstd::prelude::*;

verus! {

/// Where the web views offer their debugging targets.
pub const CDP_BASE: &'static str = "http://127.0.0.1:9222";

/// A debugging target: the members of its description that matter here.
pub struct Target {
    pub kind: Option<String>,
    pub url: Option<String>,
    pub devtools_frontend_url: Option<String>,
    pub web_socket_debugger_url: Option<String>,
}

/// The text of a debugging target.
pub ghost struct TargetModel {
    pub kind: Option<Seq<char>>,
    pub url: Option<Seq<char>>,
    pub devtools_frontend_url: Option<Seq<char>>,
    pub web_socket_debugger_url: Option<Seq<char>>,
}

/// The text of an optional string.
pub open spec fn optional_text(s: Option<String>) -> Option<Seq<char>> {
    match s {
        Some(t) => Some(t@),
        None => None,
    }
}

impl View for Target {
    type V = TargetModel;

    open spec fn view(&self) -> TargetModel {
        TargetModel {
            kind: optional_text(self.kind),
            url: optional_text(self.url),
            devtools_frontend_url: optional_text(self.devtools_frontend_url),
            web_socket_debugger_url: optional_text(self.web_socket_debugger_url),
        }
    }
}

/// The text of each target.
pub open spec fn target_models(v: Seq<Target>) -> Seq<TargetModel> {
    v.map_values(|t: Target| t@)
}

/// The target that an object with these string members describes.
pub open spec fn described_target(m: Map<Seq<char>, Seq<char>>) -> TargetModel {
    TargetModel {
        kind: member(m, "type"@),
        url: member(m, "url"@),
        devtools_frontend_url: member(m, "devtoolsFrontendUrl"@),
        web_socket_debugger_url: member(m, "webSocketDebuggerUrl"@),
    }
}

/// The targets that a reply lists, or `None` where it is no JSON array.
pub open spec fn listed_targets(body: Seq<u8>) -> Option<Seq<TargetModel>> {
    match parsed_elements(body) {
        Some(v) => Some(v.map_values(|m: Map<Seq<char>, Seq<char>>| described_target(m))),
        None => None,
    }
}

/// Reads one target out of its description.
fn read_target(v: &serde_json::Value) -> (r: Target)
    ensures
        r@ == described_target(crate::json::string_members(*v)),
{
    Target {
        kind: member_text(v, "type"),
        url: member_text(v, "url"),
        devtools_frontend_url: member_text(v, "devtoolsFrontendUrl"),
        web_socket_debugger_url: member_text(v, "webSocketDebuggerUrl"),
    }
}

/// Reads the targets out of a reply.
pub fn parse_targets(body: &[u8]) -> (r: Option<Vec<Target>>)
    ensures
        match r {
            Some(v) => listed_targets(body@) == Some(target_models(v@)),
            None => listed_targets(body@) is None,
        },
{
    match parse_elements(body) {
        Ok(values) => {
            let mut out: Vec<Target> = Vec::new();
            let mut i: usize = 0;
            while i < values.len()
                invariant
                    i <= values@.len(),
                    out@.len() == i,
                    forall|j: int|
                        0 <= j < i ==> (#[trigger] out@[j])@ == described_target(
                            members_of(values@)[j],
                        ),
                decreases values.len() - i,
            {
                out.push(read_target(&values[i]));
                i += 1;
            }
            assert(target_models(out@) =~= members_of(values@).map_values(
                |m: Map<Seq<char>, Seq<char>>| described_target(m),
            ));
            Some(out)
        },
        Err(_) => None,
    }
}

/// What to do after a request for the list of targets.
pub enum TargetFetch {
    /// Ask at this address next.
    Ask(String),
    /// The targets were found.
    Found(Vec<Target>),
    /// No address is left to ask at.
    Failed,
}

/// Where the list of targets is asked for first.
pub open spec fn first_request() -> Seq<char> {
    CDP_BASE@ + "/json/list"@
}

/// Where the list of targets is asked for first.
pub fn first_target_request() -> (r: String)
    ensures
        r@ == first_request(),
{
    copy_of(CDP_BASE).concat("/json/list")
}

/// What follows a request: the targets that it brought, the second address after a first
/// request that brought none, the end after any later one.
pub fn after_targets(requests_made: usize, targets: Option<Vec<Target>>) -> (r: TargetFetch)
    ensures
        match targets {
            Some(v) => v@.len() > 0 ==> r == TargetFetch::Found(v),
            None => true,
        },
        (targets is None || targets->0@.len() == 0) ==> is_next_request(requests_made, r),
{
    if let Some(v) = targets {
        if v.len() > 0 {
            return TargetFetch::Found(v);
        }
    }
    if requests_made <= 1 {
        TargetFetch::Ask(copy_of(CDP_BASE).concat("/json"))
    } else {
        TargetFetch::Failed
    }
}

/// What follows a request, given the bytes of its reply, or `None` where none came.
pub fn fetch_targets(requests_made: usize, reply: Option<&[u8]>) -> (r: TargetFetch)
    ensures
        ({
            let listed = match reply {
                Some(body) => listed_targets(body@),
                None => None,
            };
            match listed {
                Some(models) => if models.len() > 0 {
                    r matches TargetFetch::Found(v) && target_models(v@) == models
                } else {
                    is_next_request(requests_made, r)
                },
                None => is_next_request(requests_made, r),
            }
        }),
{
    let targets: Option<Vec<Target>> = match reply {
        Some(body) => parse_targets(body),
        None => None,
    };
    after_targets(requests_made, targets)
}

/// What follows a request that brought no targets.
pub open spec fn is_next_request(requests_made: usize, r: TargetFetch) -> bool {
    if requests_made <= 1 {
        r matches TargetFetch::Ask(url) && url@ == CDP_BASE@ + "/json"@
    } else {
        r == TargetFetch::Failed
    }
}

/// Whether two addresses are the same but for slashes at their ends.
pub open spec fn same_address(a: Seq<char>, b: Seq<char>) -> bool {
    without_trailing(a, '/') == without_trailing(b, '/')
}

/// Whether a target shows the page: the addresses agree, or the page is the new-tab page
/// and the target's address is one that this page is loaded under.
pub open spec fn shows_page(target_url: Seq<char>, page_url: Seq<char>) -> bool {
    let target = without_trailing(target_url, '/');
    ||| same_address(target_url, page_url)
    ||| without_trailing(page_url, '/') == "plum://newtab"@ && (occurs(target, "newtab"@)
        || "data:text/html"@.is_prefix_of(target) || occurs(target, "plum.newtab"@))
}

/// Whether a target is a page.
pub open spec fn is_page(t: TargetModel) -> bool {
    t.kind == Some("page"@)
}

/// Whether a target is a page that shows the address.
pub open spec fn is_page_showing(t: TargetModel, page_url: Seq<char>) -> bool {
    is_page(t) && (t.url matches Some(u) && shows_page(u, page_url))
}

/// Whether a target is a page with an address.
pub open spec fn is_page_with_address(t: TargetModel) -> bool {
    is_page(t) && (t.url matches Some(u) && u.len() > 0)
}

/// Whether `i` is the target to inspect for the page: the first page that shows it, else
/// the first page with an address, else the last page.
pub open spec fn is_pick(ts: Seq<TargetModel>, page_url: Seq<char>, i: int) -> bool {
    &&& 0 <= i < ts.len()
    &&& if exists|j: int| 0 <= j < ts.len() && is_page_showing(#[trigger] ts[j], page_url) {
        &&& is_page_showing(ts[i], page_url)
        &&& forall|j: int| 0 <= j < i ==> !is_page_showing(#[trigger] ts[j], page_url)
    } else if exists|j: int| 0 <= j < ts.len() && is_page_with_address(#[trigger] ts[j]) {
        &&& is_page_with_address(ts[i])
        &&& forall|j: int| 0 <= j < i ==> !is_page_with_address(#[trigger] ts[j])
    } else {
        &&& is_page(ts[i])
        &&& forall|j: int| i < j < ts.len() ==> !is_page(#[trigger] ts[j])
    }
}

/// The address of the inspector for a target: the page that the target names, else the
/// inspector page with the target's socket.
pub open spec fn inspector_address(t: TargetModel) -> Option<Seq<char>> {
    match (t.devtools_frontend_url, t.web_socket_debugger_url) {
        (Some(path), _) => Some(frontend_address(path)),
        (None, Some(socket)) => Some(
            CDP_BASE@ + "/devtools/inspector.html?ws="@ + without_leading(socket, "ws://"@),
        ),
        (None, None) => None,
    }
}

/// A frontend path as an address.
pub open spec fn frontend_address(path: Seq<char>) -> Seq<char> {
    if "http://"@.is_prefix_of(path) || "https://"@.is_prefix_of(path) {
        path
    } else {
        CDP_BASE@ + path
    }
}

/// No two targets are both the one to inspect.
pub proof fn law_pick_is_unique(ts: Seq<TargetModel>, page_url: Seq<char>, i: int, j: int)
    requires
        is_pick(ts, page_url, i),
        is_pick(ts, page_url, j),
    ensures
        i == j,
{
}

/// There is a target to inspect exactly where there is a page among the targets.
pub proof fn law_pick_exists(ts: Seq<TargetModel>, page_url: Seq<char>)
    ensures
        (exists|i: int| is_pick(ts, page_url, i)) <==> (exists|i: int|
            0 <= i < ts.len() && is_page(#[trigger] ts[i])),
{
    if exists|i: int| 0 <= i < ts.len() && is_page(#[trigger] ts[i]) {
        if exists|j: int| 0 <= j < ts.len() && is_page_showing(#[trigger] ts[j], page_url) {
            let j = choose|j: int| 0 <= j < ts.len() && is_page_showing(#[trigger] ts[j], page_url);
            let i = lemma_first(ts, j, |t: TargetModel| is_page_showing(t, page_url));
            assert(is_pick(ts, page_url, i));
        } else if exists|j: int| 0 <= j < ts.len() && is_page_with_address(#[trigger] ts[j]) {
            let j = choose|j: int| 0 <= j < ts.len() && is_page_with_address(#[trigger] ts[j]);
            let i = lemma_first(ts, j, |t: TargetModel| is_page_with_address(t));
            assert(is_pick(ts, page_url, i));
        } else {
            let j = choose|i: int| 0 <= i < ts.len() && is_page(#[trigger] ts[i]);
            let i = lemma_last(ts, j, |t: TargetModel| is_page(t));
            assert(is_pick(ts, page_url, i));
        }
    }
}

/// The first index at which a property holds.
proof fn lemma_first(ts: Seq<TargetModel>, j: int, p: spec_fn(TargetModel) -> bool) -> (i: int)
    requires
        0 <= j < ts.len(),
        p(ts[j]),
    ensures
        0 <= i <= j,
        p(ts[i]),
        forall|k: int| 0 <= k < i ==> !p(#[trigger] ts[k]),
    decreases j,
{
    if exists|k: int| 0 <= k < j && p(#[trigger] ts[k]) {
        let k = choose|k: int| 0 <= k < j && p(#[trigger] ts[k]);
        lemma_first(ts, k, p)
    } else {
        j
    }
}

/// The last index at which a property holds.
proof fn lemma_last(ts: Seq<TargetModel>, j: int, p: spec_fn(TargetModel) -> bool) -> (i: int)
    requires
        0 <= j < ts.len(),
        p(ts[j]),
    ensures
        j <= i < ts.len(),
        p(ts[i]),
        forall|k: int| i < k < ts.len() ==> !p(#[trigger] ts[k]),
    decreases ts.len() - j,
{
    if exists|k: int| j < k < ts.len() && p(#[trigger] ts[k]) {
        let k = choose|k: int| j < k < ts.len() && p(#[trigger] ts[k]);
        lemma_last(ts, k, p)
    } else {
        j
    }
}

/// The address without the slashes at its end.
pub fn normalize_url(url: &str) -> (r: String)
    ensures
        r@ == without_trailing(url@, '/'),
{
    remove_trailing(url, '/')
}

/// Whether two addresses are the same but for slashes at their ends.
pub fn urls_match(a: &str, b: &str) -> (r: bool)
    ensures
        r == same_address(a@, b@),
{
    let x: String = normalize_url(a);
    let y: String = normalize_url(b);
    same(x.as_str(), y.as_str())
}

/// Whether a target with that address shows the page.
pub fn target_matches_page(target_url: &str, page_url: &str) -> (r: bool)
    ensures
        r == shows_page(target_url@, page_url@),
{
    if urls_match(target_url, page_url) {
        return true;
    }
    let target: String = normalize_url(target_url);
    let page: String = normalize_url(page_url);
    if same(page.as_str(), "plum://newtab") {
        return contains(target.as_str(), "newtab") || starts_with(
            target.as_str(),
            "data:text/html",
        ) || contains(target.as_str(), "plum.newtab");
    }
    false
}

/// Whether the target is a page.
fn target_is_page(t: &Target) -> (r: bool)
    ensures
        r == is_page(t@),
{
    match &t.kind {
        Some(k) => same(k.as_str(), "page"),
        None => false,
    }
}

/// Whether the target is a page that shows the address.
fn target_is_page_showing(t: &Target, page_url: &str) -> (r: bool)
    ensures
        r == is_page_showing(t@, page_url@),
{
    target_is_page(t) && match &t.url {
        Some(u) => target_matches_page(u.as_str(), page_url),
        None => false,
    }
}

/// Whether the target is a page with an address.
fn target_is_page_with_address(t: &Target) -> (r: bool)
    ensures
        r == is_page_with_address(t@),
{
    target_is_page(t) && match &t.url {
        Some(u) => !u.as_str().is_empty(),
        None => false,
    }
}

/// The target to inspect for a page: the first page that shows it, else the first page
/// with an address, else the last page.
pub fn pick_target<'a>(targets: &'a Vec<Target>, page_url: &str) -> (r: Option<&'a Target>)
    ensures
        match r {
            Some(t) => exists|i: int|
                is_pick(target_models(targets@), page_url@, i) && *t == #[trigger] targets@[i],
            None => forall|i: int|
                0 <= i < targets@.len() ==> !is_page(#[trigger] target_models(targets@)[i]),
        },
{
    let ghost ts = target_models(targets@);
    let n: usize = targets.len();
    let mut i: usize = 0;
    while i < n
        invariant
            n == targets@.len(),
            ts == target_models(targets@),
            i <= n,
            forall|j: int| 0 <= j < i ==> !is_page_showing(#[trigger] ts[j], page_url@),
        decreases n - i,
    {
        assert(ts[i as int] == targets@[i as int]@);
        if target_is_page_showing(&targets[i], page_url) {
            assert(is_pick(ts, page_url@, i as int));
            return Some(&targets[i]);
        }
        i += 1;
    }
    i = 0;
    while i < n
        invariant
            n == targets@.len(),
            ts == target_models(targets@),
            i <= n,
            forall|j: int| 0 <= j < n ==> !is_page_showing(#[trigger] ts[j], page_url@),
            forall|j: int| 0 <= j < i ==> !is_page_with_address(#[trigger] ts[j]),
        decreases n - i,
    {
        assert(ts[i as int] == targets@[i as int]@);
        if target_is_page_with_address(&targets[i]) {
            assert(is_pick(ts, page_url@, i as int));
            return Some(&targets[i]);
        }
        i += 1;
    }
    i = n;
    while i > 0
        invariant
            n == targets@.len(),
            ts == target_models(targets@),
            i <= n,
            forall|j: int| 0 <= j < n ==> !is_page_showing(#[trigger] ts[j], page_url@),
            forall|j: int| 0 <= j < n ==> !is_page_with_address(#[trigger] ts[j]),
            forall|j: int| i <= j < n ==> !is_page(#[trigger] ts[j]),
        decreases i,
    {
        i -= 1;
        assert(ts[i as int] == targets@[i as int]@);
        if target_is_page(&targets[i]) {
            assert(is_pick(ts, page_url@, i as int));
            return Some(&targets[i]);
        }
    }
    None
}

/// A frontend path as an address: one that is an address already stays.
pub fn frontend_url(path: &str) -> (r: String)
    ensures
        r@ == frontend_address(path@),
{
    if starts_with(path, "http://") || starts_with(path, "https://") {
        copy_of(path)
    } else {
        copy_of(CDP_BASE).concat(path)
    }
}

/// The address of the inspector for the page, given the targets, or `None` where there is
/// no target to inspect or the target offers no way to do so.
pub fn inspector_url_for_page(targets: Option<&Vec<Target>>, page_url: &str) -> (r: Option<String>)
    ensures
        match targets {
            Some(v) => {
                let ts = target_models(v@);
                if exists|i: int| 0 <= i < ts.len() && is_page(#[trigger] ts[i]) {
                    exists|i: int|
                        #[trigger] is_pick(ts, page_url@, i) && optional_text(r)
                            == inspector_address(ts[i])
                } else {
                    r is None
                }
            },
            None => r is None,
        },
{
    let list: &Vec<Target> = match targets {
        Some(v) => v,
        None => {
            return None;
        },
    };
    match pick_target(list, page_url) {
        Some(t) => {
            let found: Option<String> = match &t.devtools_frontend_url {
                Some(path) => Some(frontend_url(path.as_str())),
                None => match &t.web_socket_debugger_url {
                    Some(socket) => {
                        proof {
                            reveal_strlit("ws://");
                        }
                        let rest: String = remove_leading(socket.as_str(), "ws://");
                        Some(
                            copy_of(CDP_BASE).concat("/devtools/inspector.html?ws=").concat(
                                rest.as_str(),
                            ),
                        )
                    },
                    None => None,
                },
            };
            proof {
                let ts = target_models(list@);
                let i = choose|i: int|
                    is_pick(ts, page_url@, i) && *t == #[trigger] list@[i];
                assert(ts[i] == t@);
                assert(optional_text(found) == inspector_address(ts[i]));
                assert(is_page(ts[i]));
            }
            found
        },
        None => None,
    }
}

} // verus!
