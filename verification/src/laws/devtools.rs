//! What the search for developer tools is for.

use crate::devtools::{
    described_target, first_request, inspector_address, is_next_request, is_page_showing,
    is_page_with_address, is_pick, listed_targets, shows_page, Target, TargetFetch, TargetModel,
};
use crate::json::parsed_elements;
use crate::laws::text::law_remove_leading;
use crate::text::{occurs, occurs_at, without_trailing};
use vstd::prelude::*;

verus! {

/// A target is described by the string members of its object under their four names; a
/// member that is not there, or is no string, is left out.
pub proof fn law_described_target(m: Map<Seq<char>, Seq<char>>, v: Seq<char>)
    ensures
        described_target(m).kind == Some(v) <==> m.contains_pair("type"@, v),
        described_target(m).url == Some(v) <==> m.contains_pair("url"@, v),
        described_target(m).devtools_frontend_url == Some(v) <==> m.contains_pair(
            "devtoolsFrontendUrl"@,
            v,
        ),
        described_target(m).web_socket_debugger_url == Some(v) <==> m.contains_pair(
            "webSocketDebuggerUrl"@,
            v,
        ),
{
}

/// A reply lists a target for each element of its array, in their order; a reply that is no
/// array lists none.
pub proof fn law_listed_targets(body: Seq<u8>, i: int)
    ensures
        parsed_elements(body) is None ==> listed_targets(body) is None,
        parsed_elements(body) matches Some(v) ==> listed_targets(body) is Some && listed_targets(
            body,
        )->0.len() == v.len() && (0 <= i < v.len() ==> listed_targets(body)->0[i]
            == described_target(v[i])),
{
}

/// The targets are asked for at the debugging port of this machine. After a first request
/// that brought none the second address is asked, and after any later one none.
pub proof fn law_next_request(requests_made: usize, url: String, v: Vec<Target>)
    ensures
        is_next_request(requests_made, TargetFetch::Ask(url)) <==> requests_made <= 1 && url@
            == "http://127.0.0.1:9222/json"@,
        is_next_request(requests_made, TargetFetch::Failed) <==> requests_made > 1,
        !is_next_request(requests_made, TargetFetch::Found(v)),
        first_request() == "http://127.0.0.1:9222/json/list"@,
{
    reveal_strlit("/json/list");
    reveal_strlit("http://127.0.0.1:9222/json/list");
    reveal_strlit("http://127.0.0.1:9222");
    reveal_strlit("/json");
    reveal_strlit("http://127.0.0.1:9222/json");
    assert("http://127.0.0.1:9222"@ + "/json"@ =~= "http://127.0.0.1:9222/json"@);
    assert("http://127.0.0.1:9222"@ + "/json/list"@ =~= "http://127.0.0.1:9222/json/list"@);
}

/// A target shows a page where their addresses agree but for slashes at their ends. The
/// new-tab page is also shown by a target that names it or shows a document written out in
/// its address. No other target shows a page.
pub proof fn law_shows_page(target: Seq<char>, page: Seq<char>)
    ensures
        ({
            let t = without_trailing(target, '/');
            let p = without_trailing(page, '/');
            &&& t == p ==> shows_page(target, page)
            &&& p == "plum://newtab"@ && (occurs(t, "newtab"@) || "data:text/html"@.is_prefix_of(t))
                ==> shows_page(target, page)
            &&& p == "plum://newtab"@ && t != p && !occurs(t, "newtab"@)
                && !"data:text/html"@.is_prefix_of(t) ==> !shows_page(target, page)
            &&& p != "plum://newtab"@ && t != p ==> !shows_page(target, page)
        }),
{
    let t = without_trailing(target, '/');
    reveal_strlit("newtab");
    reveal_strlit("plum.newtab");
    if occurs(t, "plum.newtab"@) {
        let i = choose|i: int| occurs_at(t, "plum.newtab"@, i);
        assert(t.subrange(i + 5, i + 11) =~= t.subrange(i, i + 11).skip(5));
        assert("plum.newtab"@.skip(5) =~= "newtab"@);
        assert(occurs_at(t, "newtab"@, i + 5));
    }
}

/// The target that is picked for a page is a page. No page before it shows the page that is
/// asked for, and it does where one does; else no page before it has an address, and it does
/// where one does; else no page comes after it.
pub proof fn law_pick(ts: Seq<TargetModel>, page_url: Seq<char>, i: int, j: int, u: Seq<char>)
    requires
        is_pick(ts, page_url, i),
        0 <= j < ts.len(),
        ts[j].kind == Some("page"@),
    ensures
        0 <= i < ts.len(),
        ts[i].kind == Some("page"@),
        ts[j].url == Some(u) && shows_page(u, page_url) ==> i <= j && (ts[i].url matches Some(v)
            && shows_page(v, page_url)),
        !(ts[i].url matches Some(v) && shows_page(v, page_url)) && ts[j].url == Some(u) && u.len()
            > 0 ==> i <= j && (ts[i].url matches Some(v) && v.len() > 0),
        !(ts[i].url matches Some(v) && shows_page(v, page_url)) && !(ts[i].url matches Some(v)
            && v.len() > 0) ==> j <= i,
{
    if ts[j].url == Some(u) && shows_page(u, page_url) {
        assert(is_page_showing(ts[j], page_url));
    }
    if ts[j].url == Some(u) && u.len() > 0 {
        assert(is_page_with_address(ts[j]));
    }
}

/// The inspector of a target is the page that it names, at the server unless it is a web
/// address; else the inspector page with its socket, whose scheme is taken off; else there
/// is none.
pub proof fn law_inspector(
    kind: Option<Seq<char>>,
    url: Option<Seq<char>>,
    path: Seq<char>,
    socket: Seq<char>,
    other: Option<Seq<char>>,
)
    requires
        !"ws://"@.is_prefix_of(socket),
    ensures
        ({
            let named = TargetModel {
                kind,
                url,
                devtools_frontend_url: Some(path),
                web_socket_debugger_url: other,
            };
            let web = "http://"@.is_prefix_of(path) || "https://"@.is_prefix_of(path);
            &&& web ==> inspector_address(named) == Some(path)
            &&& !web ==> inspector_address(named) == Some("http://127.0.0.1:9222"@ + path)
        }),
        inspector_address(
            (TargetModel {
                kind,
                url,
                devtools_frontend_url: None,
                web_socket_debugger_url: Some("ws://"@ + socket),
            }),
        ) == Some("http://127.0.0.1:9222"@ + "/devtools/inspector.html?ws="@ + socket),
        inspector_address(
            (TargetModel {
                kind,
                url,
                devtools_frontend_url: None,
                web_socket_debugger_url: Some(socket),
            }),
        ) == Some("http://127.0.0.1:9222"@ + "/devtools/inspector.html?ws="@ + socket),
        inspector_address(
            (TargetModel {
                kind,
                url,
                devtools_frontend_url: None,
                web_socket_debugger_url: None,
            }),
        ) is None,
{
    reveal_strlit("ws://");
    law_remove_leading("ws://"@, socket);
}

} // verus!
