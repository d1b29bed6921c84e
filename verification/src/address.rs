//! Addresses: what the user types, what a tab keeps, what the address bar shows.

use crate::encoding::{
    base64_encode, base64_text, percent_decode_component, percent_decoded, percent_encode_ipc_path,
    percent_encode_query, path_encoded, query_encoded,
};
use crate::pages::NEWTAB_HTML;
use crate::text::{
    ascii_lower, ascii_lowered, before_first, contains, copy_of, has_char, has_white_space,
    head_before, law_lower_case_after_slash, law_lower_case_ignores_ascii_case, lowercased, occurs,
    occurs_at, same, same_but_for_ascii_case, starts_with, strip_prefix, to_lowercase, trim,
    trim_end, trim_start, trimmed, white_space,
};
use vstd::prelude::*;
use vstd::utf8::is_ascii_chars;

verus! {

/// The address that a tab keeps for the new-tab page.
pub const NEWTAB_URL: &'static str = "plum://newtab";

// ---- recognizing addresses ----

/// Lower-case text that asks for the new-tab page.
pub open spec fn newtab_alias(lower: Seq<char>) -> bool {
    ||| lower == "plum.newtab"@
    ||| lower == "plum://newtab"@
    ||| "http://plum.newtab"@.is_prefix_of(lower)
    ||| "https://plum.newtab"@.is_prefix_of(lower)
}

/// Lower-case text of a web address of the new-tab page.
pub open spec fn newtab_web_address(lower: Seq<char>) -> bool {
    "http://plum.newtab"@.is_prefix_of(lower) || "https://plum.newtab"@.is_prefix_of(lower)
}

/// Whether an address, without white space around it and in lower case beside it, stands
/// for the new-tab page.
pub open spec fn newtab_address(u: Seq<char>, lower: Seq<char>) -> bool {
    ||| u.len() == 0
    ||| u == "about:blank"@
    ||| "data:text/html"@.is_prefix_of(u)
    ||| "plum://newtab"@.is_prefix_of(u)
    ||| lower == "plum.newtab"@
    ||| newtab_web_address(lower)
}

/// Whether an address stands for the new-tab page.
#[verifier::opaque]
pub open spec fn internal_newtab(url: Seq<char>) -> bool {
    newtab_address(trimmed(url), lowercased(trimmed(url)))
}

/// Lower-case text of a web address that is reserved for the shell and none of its pages.
pub open spec fn reserved_web_address(lower: Seq<char>) -> bool {
    &&& "http://plum."@.is_prefix_of(lower) || "https://plum."@.is_prefix_of(lower)
    &&& !occurs(lower, "plum.toolbar"@)
    &&& !occurs(lower, "plum.ipc"@)
}

/// The address that a tab keeps.
pub open spec fn logical_address(url: Seq<char>) -> Seq<char> {
    if internal_newtab(url) {
        NEWTAB_URL@
    } else {
        url
    }
}

/// The address that the address bar shows.
pub open spec fn displayed_address(url: Seq<char>) -> Seq<char> {
    if internal_newtab(url) {
        Seq::empty()
    } else {
        url
    }
}

/// Whether the lower-case address is a web address of the new-tab page.
pub fn is_newtab_web_address(lower: &str) -> (r: bool)
    ensures
        r == newtab_web_address(lower@),
{
    starts_with(lower, "http://plum.newtab") || starts_with(lower, "https://plum.newtab")
}

/// Whether the address is a web address of the new-tab page.
pub fn is_plum_newtab_http_url(url: &str) -> (r: bool)
    ensures
        r == newtab_web_address(lowercased(url@)),
{
    let lower: String = to_lowercase(url);
    is_newtab_web_address(lower.as_str())
}

/// Whether an address without white space around it, given in lower case beside it, stands
/// for the new-tab page.
pub fn is_newtab_address(u: &str, lower: &str) -> (r: bool)
    ensures
        r == newtab_address(u@, lower@),
{
    u.is_empty() || same(u, "about:blank") || starts_with(u, "data:text/html") || starts_with(
        u,
        "plum://newtab",
    ) || same(lower, "plum.newtab") || is_newtab_web_address(lower)
}

/// Whether the address stands for the new-tab page.
pub fn is_internal_newtab_url(url: &str) -> (r: bool)
    ensures
        r == internal_newtab(url@),
{
    proof {
        reveal(internal_newtab);
    }
    let u: String = trim(url);
    let lower: String = to_lowercase(u.as_str());
    is_newtab_address(u.as_str(), lower.as_str())
}

/// Whether the lower-case address is reserved for the shell and none of its pages.
pub fn is_reserved_web_address(lower: &str) -> (r: bool)
    ensures
        r == reserved_web_address(lower@),
{
    if !(starts_with(lower, "http://plum.") || starts_with(lower, "https://plum.")) {
        return false;
    }
    !contains(lower, "plum.toolbar") && !contains(lower, "plum.ipc")
}

/// Whether a tab must not go to the address because it is reserved for the shell.
pub fn is_blocked_plum_http_url(url: &str) -> (r: bool)
    ensures
        r == reserved_web_address(lowercased(url@)),
{
    let lower: String = to_lowercase(url);
    is_reserved_web_address(lower.as_str())
}

/// The address that a tab keeps: the same one for every form of the new-tab page.
pub fn logical_tab_url(url: &str) -> (r: String)
    ensures
        r@ == logical_address(url@),
{
    if is_internal_newtab_url(url) {
        copy_of(NEWTAB_URL)
    } else {
        copy_of(url)
    }
}

/// The address that the address bar shows: nothing for the new-tab page.
pub fn omnibox_display_url(url: &str) -> (r: String)
    ensures
        r@ == displayed_address(url@),
{
    if is_internal_newtab_url(url) {
        String::new()
    } else {
        copy_of(url)
    }
}

/// Text that neither begins nor ends with white space is not trimmed.
pub proof fn lemma_trimmed_same(s: Seq<char>)
    requires
        s.len() > 0,
        !white_space(s.first()),
        !white_space(s.last()),
    ensures
        trimmed(s) == s,
{
}

/// What trimming leaves has no white space at its ends.
pub proof fn lemma_trimmed_ends(s: Seq<char>)
    ensures
        trimmed(s).len() > 0 ==> !white_space(trimmed(s).first()) && !white_space(
            trimmed(s).last(),
        ),
{
    lemma_trim_start_ends(s);
    lemma_trim_end_ends(trim_start(s));
}

/// The first character left by trimming at the start is no white space.
proof fn lemma_trim_start_ends(s: Seq<char>)
    ensures
        trim_start(s).len() > 0 ==> !white_space(trim_start(s).first()),
    decreases s.len(),
{
    if s.len() > 0 && white_space(s.first()) {
        lemma_trim_start_ends(s.drop_first());
    }
}

/// The last character left by trimming at the end is no white space, and the first one is
/// the text's own.
proof fn lemma_trim_end_ends(s: Seq<char>)
    ensures
        trim_end(s).len() > 0 ==> !white_space(trim_end(s).last()) && trim_end(s).first()
            == s.first(),
    decreases s.len(),
{
    if s.len() > 0 && white_space(s.last()) {
        lemma_trim_end_ends(s.drop_last());
    }
}

/// The address of the new-tab page stands for the new-tab page.
pub proof fn law_newtab_is_internal()
    ensures
        internal_newtab(NEWTAB_URL@),
{
    reveal(internal_newtab);
    reveal_strlit("plum://newtab");
    lemma_trimmed_same("plum://newtab"@);
    assert("plum://newtab"@.is_prefix_of(NEWTAB_URL@));
}

/// The address that a tab keeps is kept as it is when it is stored again.
pub proof fn law_logical_is_canonical(url: Seq<char>)
    ensures
        logical_address(logical_address(url)) == logical_address(url),
{
    law_newtab_is_internal();
}

/// A tab keeps the address of the new-tab page exactly for the addresses that stand for it.
pub proof fn law_logical_is_newtab_iff_internal(url: Seq<char>)
    ensures
        logical_address(url) == NEWTAB_URL@ <==> internal_newtab(url),
{
    law_newtab_is_internal();
}

/// The address bar shows the same for an address and for the one that the tab keeps.
pub proof fn law_display_of_logical(url: Seq<char>)
    ensures
        displayed_address(logical_address(url)) == displayed_address(url),
{
    law_newtab_is_internal();
}

/// The address bar never shows an address of the new-tab page, nor one of a document that
/// is written out in its address.
pub proof fn law_display_hides_documents(url: Seq<char>)
    ensures
        displayed_address(url).len() > 0 ==> !internal_newtab(displayed_address(url)),
        !"data:text/html"@.is_prefix_of(displayed_address(url)),
{
    reveal(internal_newtab);
    reveal_strlit("data:text/html");
    let d = displayed_address(url);
    if "data:text/html"@.is_prefix_of(d) {
        lemma_trim_keeps_prefix(d, "data:text/html"@);
        assert(internal_newtab(d));
        assert(false);
    }
}

/// Trimming keeps the text at the start up to its last character that is no white space.
proof fn lemma_trim_keeps_prefix(s: Seq<char>, p: Seq<char>)
    requires
        p.is_prefix_of(s),
        p.len() > 0,
        !white_space(p.first()),
        !white_space(p.last()),
    ensures
        p.is_prefix_of(trimmed(s)),
{
    assert(s.first() == p.first()) by {
        assert(s.subrange(0, p.len() as int)[0] == p[0]);
    }
    lemma_trim_end_keeps_prefix(s, p);
}

/// Trimming at the end stops at a character that is no white space.
proof fn lemma_trim_end_keeps_prefix(s: Seq<char>, p: Seq<char>)
    requires
        p.is_prefix_of(s),
        p.len() > 0,
        !white_space(p.last()),
    ensures
        p.is_prefix_of(trim_end(s)),
    decreases s.len(),
{
    if white_space(s.last()) {
        if s.len() == p.len() {
            assert(s.subrange(0, p.len() as int)[p.len() - 1] == s.last());
        } else {
            assert(s.drop_last().subrange(0, p.len() as int) =~= s.subrange(0, p.len() as int));
            lemma_trim_end_keeps_prefix(s.drop_last(), p);
        }
    }
}

/// A web address of the new-tab page is reserved, unless it names another page of the shell.
pub proof fn law_newtab_web_address_is_reserved(lower: Seq<char>)
    requires
        newtab_web_address(lower),
        !occurs(lower, "plum.toolbar"@),
        !occurs(lower, "plum.ipc"@),
    ensures
        reserved_web_address(lower),
{
    reveal_strlit("http://plum.newtab");
    reveal_strlit("https://plum.newtab");
    reveal_strlit("http://plum.");
    reveal_strlit("https://plum.");
    if "http://plum.newtab"@.is_prefix_of(lower) {
        lemma_prefix_of_prefix("http://plum."@, "http://plum.newtab"@, lower);
    } else {
        lemma_prefix_of_prefix("https://plum."@, "https://plum.newtab"@, lower);
    }
}

/// What begins a beginning of a text begins the text.
pub proof fn lemma_prefix_of_prefix(a: Seq<char>, b: Seq<char>, s: Seq<char>)
    requires
        b.is_prefix_of(s),
        a.len() <= b.len(),
        forall|i: int| 0 <= i < a.len() ==> a[i] == b[i],
    ensures
        a.is_prefix_of(s),
{
    assert forall|i: int| 0 <= i < a.len() implies s[i] == a[i] by {
        assert(s.subrange(0, b.len() as int)[i] == b[i]);
    }
    assert(s.subrange(0, a.len() as int) =~= a);
}

// ---- the address bar ----

/// Whether the text holds white space.
pub open spec fn holds_white_space(u: Seq<char>) -> bool {
    exists|i: int| 0 <= i < u.len() && white_space(#[trigger] u[i])
}

/// Whether the text begins with a scheme that is loaded as it stands.
pub open spec fn has_scheme(u: Seq<char>) -> bool {
    ||| "http://"@.is_prefix_of(u)
    ||| "https://"@.is_prefix_of(u)
    ||| "file://"@.is_prefix_of(u)
    ||| "plum://"@.is_prefix_of(u)
}

/// Whether the text could name a host: a dot stands in it, but not at an end.
pub open spec fn looks_like_host(u: Seq<char>) -> bool {
    u.contains('.') && u.first() != '.' && u.last() != '.'
}

/// The address of a search for the text.
pub open spec fn search_address(u: Seq<char>) -> Seq<char> {
    "https://www.google.com/search?q="@ + query_encoded(u)
}

/// The address that text asks for, the text without white space around it and given in
/// lower case beside it.
pub open spec fn resolved_text(u: Seq<char>, lower: Seq<char>) -> Seq<char> {
    if newtab_alias(lower) {
        NEWTAB_URL@
    } else if has_scheme(u) {
        u
    } else if !holds_white_space(u) && looks_like_host(u) {
        "http://"@ + u
    } else {
        search_address(u)
    }
}

/// The address that the input asks for; blank input asks for none.
pub open spec fn resolved_input(input: Seq<char>) -> Option<Seq<char>> {
    let u = trimmed(input);
    if u.len() == 0 {
        None
    } else {
        Some(resolved_text(u, lowercased(u)))
    }
}

/// The address of a search for the text.
fn search_url(u: &str) -> (r: String)
    ensures
        r@ == search_address(u@),
{
    let q: String = percent_encode_query(u);
    copy_of("https://www.google.com/search?q=").concat(q.as_str())
}

/// Whether the text could name a host.
fn could_be_host(u: &str) -> (r: bool)
    requires
        u@.len() > 0,
    ensures
        r == looks_like_host(u@),
{
    let n: usize = u.unicode_len();
    has_char(u, '.') && u.get_char(0) != '.' && u.get_char(n - 1) != '.'
}

/// The address that text asks for, the text without white space around it and given in
/// lower case beside it: the new-tab page, an address with its scheme, a host, or else a
/// search.
pub fn resolve_text(u: &str, lower: &str) -> (r: String)
    requires
        u@.len() > 0,
    ensures
        r@ == resolved_text(u@, lower@),
{
    if same(lower, "plum.newtab") || same(lower, "plum://newtab") || is_newtab_web_address(lower) {
        return copy_of(NEWTAB_URL);
    }
    if starts_with(u, "http://") || starts_with(u, "https://") || starts_with(u, "file://")
        || starts_with(u, "plum://") {
        return copy_of(u);
    }
    if has_white_space(u) {
        return search_url(u);
    }
    if could_be_host(u) {
        return copy_of("http://").concat(u);
    }
    search_url(u)
}

/// The address that the input of the address bar asks for, or `None` for blank input.
pub fn resolve_omnibox_input(input: &str) -> (r: Option<String>)
    ensures
        match r {
            Some(url) => resolved_input(input@) == Some(url@),
            None => resolved_input(input@) is None,
        },
{
    let u: String = trim(input);
    if u.as_str().is_empty() {
        return None;
    }
    let lower: String = to_lowercase(u.as_str());
    Some(resolve_text(u.as_str(), lower.as_str()))
}

/// Every address that the address bar resolves to begins with a scheme that is loaded.
pub proof fn law_resolved_has_scheme(input: Seq<char>)
    ensures
        resolved_input(input) matches Some(url) ==> has_scheme(url) && url.len() > 0,
{
    reveal_strlit("plum://newtab");
    reveal_strlit("plum://");
    reveal_strlit("http://");
    reveal_strlit("https://");
    reveal_strlit("https://www.google.com/search?q=");
    let u = trimmed(input);
    if u.len() > 0 {
        let lower = lowercased(u);
        assert("plum://"@.is_prefix_of(NEWTAB_URL@));
        assert("http://"@.is_prefix_of("http://"@ + u));
        let search = "https://www.google.com/search?q="@;
        assert(search.is_prefix_of(search + query_encoded(u)));
        lemma_prefix_of_prefix("https://"@, search, search + query_encoded(u));
    }
}

/// Whether the input names a host whose name begins with that of the new-tab page and goes
/// on. It is resolved to the address of the host, which stands for the new-tab page.
pub open spec fn names_host_below_newtab(input: Seq<char>) -> bool {
    let u = trimmed(input);
    &&& "plum.newtab"@.is_prefix_of(lowercased(u))
    &&& lowercased(u) != "plum.newtab"@
    &&& !holds_white_space(u)
    &&& looks_like_host(u)
}

/// A text with a scheme of the web in front is another name of the new-tab page exactly
/// where its lower case begins with the name of this page.
proof fn lemma_host_alias(u: Seq<char>)
    ensures
        newtab_alias(lowercased("http://"@ + u)) <==> "plum.newtab"@.is_prefix_of(lowercased(u)),
{
    reveal_strlit("http://");
    reveal_strlit("plum.newtab");
    reveal_strlit("plum://newtab");
    reveal_strlit("http://plum.newtab");
    reveal_strlit("https://plum.newtab");
    law_lower_case_after_slash("http://"@, u);
    assert(ascii_lowered("http://"@) =~= "http://"@);
    let lower = lowercased("http://"@ + u);
    let name = "plum.newtab"@;
    assert(lower == "http://"@ + lowercased(u));
    assert(lower[0] == 'h' && lower[4] == ':');
    assert("http://plum.newtab"@ =~= "http://"@ + name);
    if "https://plum.newtab"@.is_prefix_of(lower) {
        assert(lower.subrange(0, 19)[4] == 's');
    }
    if "http://plum.newtab"@.is_prefix_of(lower) {
        assert(lowercased(u).subrange(0, 11) =~= lower.subrange(0, 18).skip(7));
        assert("http://plum.newtab"@.skip(7) =~= name);
    }
    if name.is_prefix_of(lowercased(u)) {
        assert(lower.subrange(0, 18) =~= "http://"@ + lowercased(u).subrange(0, 11));
    }
}

/// What has a scheme is no text whose lower case begins with the name of the new-tab page.
proof fn lemma_scheme_is_no_newtab_name(u: Seq<char>)
    requires
        has_scheme(u),
    ensures
        !"plum.newtab"@.is_prefix_of(lowercased(u)),
{
    reveal_strlit("http://");
    reveal_strlit("https://");
    reveal_strlit("file://");
    reveal_strlit("plum://");
    reveal_strlit("plum.newtab");
    let p = if "http://"@.is_prefix_of(u) {
        "http://"@
    } else if "https://"@.is_prefix_of(u) {
        "https://"@
    } else if "file://"@.is_prefix_of(u) {
        "file://"@
    } else {
        "plum://"@
    };
    assert(u =~= p + u.skip(p.len() as int));
    law_lower_case_after_slash(p, u.skip(p.len() as int));
    if "plum.newtab"@.is_prefix_of(lowercased(u)) {
        assert(lowercased(u).subrange(0, 11)[4] == '.');
        assert(lowercased(u)[4] == ascii_lower(p[4]));
        assert(false);
    }
}

/// An address that input was resolved to is resolved to itself, but for a host whose name
/// begins with that of the new-tab page and goes on: its address is then resolved to the
/// new-tab page.
pub proof fn law_resolved_is_stable(input: Seq<char>, url: Seq<char>)
    requires
        resolved_input(input) == Some(url),
    ensures
        !names_host_below_newtab(input) ==> resolved_input(url) == Some(url),
        names_host_below_newtab(input) ==> resolved_input(url) == Some(NEWTAB_URL@) && url
            != NEWTAB_URL@,
{
    reveal_strlit("plum://newtab");
    reveal_strlit("plum.newtab");
    reveal_strlit("http://");
    reveal_strlit("http://plum.newtab");
    reveal_strlit("https://plum.newtab");
    reveal_strlit("https://www.google.com/search?q=");
    let u = trimmed(input);
    let lower = lowercased(u);
    law_resolved_has_scheme(input);
    lemma_trimmed_ends(input);
    if has_scheme(u) {
        lemma_scheme_is_no_newtab_name(u);
    }
    if "plum.newtab"@.is_prefix_of(lower) && newtab_alias(lower) {
        assert(lower.subrange(0, 11)[0] == 'p' && lower.subrange(0, 11)[4] == '.');
        assert(lower[0] == 'p' && lower[4] == '.');
        if "http://plum.newtab"@.is_prefix_of(lower) {
            assert(lower.subrange(0, 18)[0] == 'h');
        }
        if "https://plum.newtab"@.is_prefix_of(lower) {
            assert(lower.subrange(0, 19)[0] == 'h');
        }
        assert(lower == "plum.newtab"@);
    }
    if newtab_alias(lower) {
        assert(url == NEWTAB_URL@);
        lemma_trimmed_same(url);
        assert(is_ascii_chars(url));
        assert(lowercased(url) =~= url);
    } else if has_scheme(u) {
        assert(url == u);
        lemma_trimmed_same(url);
    } else if !holds_white_space(u) && looks_like_host(u) {
        assert(url == "http://"@ + u);
        assert(url.last() == u.last());
        assert(url.first() == "http://"@.first());
        lemma_trimmed_same(url);
        lemma_host_alias(u);
        assert(url[0] == 'h');
    } else {
        let search = "https://www.google.com/search?q="@;
        crate::encoding::law_query_encoding_is_ascii(u);
        assert(url == search + query_encoded(u));
        assert(url.last() == if query_encoded(u).len() > 0 {
            query_encoded(u).last()
        } else {
            search.last()
        });
        assert(!white_space(url.last()));
        assert(url.first() == search.first());
        lemma_trimmed_same(url);
        assert(is_ascii_chars(search));
        vstd::utf8::is_ascii_chars_concat(url, search, query_encoded(u));
        assert(lowercased(url)[0] == 'h' && lowercased(url)[8] == 'w' && lowercased(url)[4] == 's');
        if "http://plum.newtab"@.is_prefix_of(lowercased(url)) {
            assert(lowercased(url).subrange(0, 18)[4] == ':');
        }
        if "https://plum.newtab"@.is_prefix_of(lowercased(url)) {
            assert(lowercased(url).subrange(0, 19)[8] == 'p');
        }
        assert(!newtab_alias(lowercased(url)));
    }
}

// ---- messages in addresses ----

/// The message that an address carries.
pub open spec fn carried_message(url: Seq<char>) -> Option<Seq<char>> {
    if "plum://ipc/"@.is_prefix_of(url) {
        Some(percent_decoded(url.skip("plum://ipc/"@.len() as int)))
    } else if "http://plum.ipc/"@.is_prefix_of(url) {
        Some(percent_decoded(url.skip("http://plum.ipc/"@.len() as int)))
    } else if "https://plum.ipc/"@.is_prefix_of(url) {
        Some(percent_decoded(url.skip("https://plum.ipc/"@.len() as int)))
    } else {
        None
    }
}

/// The address that carries a message.
pub open spec fn message_address(msg: Seq<char>) -> Seq<char> {
    "plum://ipc/"@ + path_encoded(msg)
}

/// Whether the toolbar may go to an address: any page of the shell, and no other page.
pub open spec fn toolbar_may_open(url: Seq<char>) -> bool {
    ||| "http://plum."@.is_prefix_of(url)
    ||| "https://plum."@.is_prefix_of(url)
    ||| "plum://"@.is_prefix_of(url)
    ||| "data:text/html"@.is_prefix_of(url)
    ||| !"http://"@.is_prefix_of(url) && !"https://"@.is_prefix_of(url)
        && !"file://"@.is_prefix_of(url)
}

/// The address that carries a message to the shell.
pub fn ipc_nav_url(msg: &str) -> (r: String)
    ensures
        r@ == message_address(msg@),
{
    let path: String = percent_encode_ipc_path(msg);
    copy_of("plum://ipc/").concat(path.as_str())
}

/// The message that an address carries to the shell, or `None` for any other address.
pub fn toolbar_ipc_from_url(url: &str) -> (r: Option<String>)
    ensures
        match r {
            Some(msg) => carried_message(url@) == Some(msg@),
            None => carried_message(url@) is None,
        },
{
    if let Some(rest) = strip_prefix(url, "plum://ipc/") {
        return Some(percent_decode_component(rest.as_str()));
    }
    if let Some(rest) = strip_prefix(url, "http://plum.ipc/") {
        return Some(percent_decode_component(rest.as_str()));
    }
    if let Some(rest) = strip_prefix(url, "https://plum.ipc/") {
        return Some(percent_decode_component(rest.as_str()));
    }
    None
}

/// Whether the toolbar may go to the address.
pub fn toolbar_navigation_allowed(url: &str) -> (r: bool)
    ensures
        r == toolbar_may_open(url@),
{
    if starts_with(url, "http://plum.") || starts_with(url, "https://plum.") {
        return true;
    }
    if starts_with(url, "plum://") {
        return true;
    }
    if starts_with(url, "data:text/html") {
        return true;
    }
    !starts_with(url, "http://") && !starts_with(url, "https://") && !starts_with(url, "file://")
}

/// The address made for a message carries this message.
pub proof fn law_message_round_trip(msg: Seq<char>)
    ensures
        carried_message(message_address(msg)) == Some(msg),
{
    let prefix = "plum://ipc/"@;
    let url = message_address(msg);
    assert(prefix.is_prefix_of(url));
    assert(url.skip(prefix.len() as int) =~= path_encoded(msg));
    crate::encoding::law_path_encoding_round_trip(msg);
}

/// An address that carries a message is never blocked: a tab may go there.
pub proof fn law_message_is_never_blocked(url: Seq<char>)
    requires
        carried_message(url) is Some,
    ensures
        !reserved_web_address(lowercased(url)),
{
    reveal_strlit("plum://ipc/");
    reveal_strlit("http://plum.ipc/");
    reveal_strlit("https://plum.ipc/");
    reveal_strlit("http://plum.");
    reveal_strlit("https://plum.");
    reveal_strlit("plum.ipc");
    let p = if "plum://ipc/"@.is_prefix_of(url) {
        "plum://ipc/"@
    } else if "http://plum.ipc/"@.is_prefix_of(url) {
        "http://plum.ipc/"@
    } else {
        "https://plum.ipc/"@
    };
    let lower = lowercased(url);
    assert(url =~= p + url.skip(p.len() as int));
    law_lower_case_after_slash(p, url.skip(p.len() as int));
    assert(ascii_lowered(p) =~= p);
    assert(forall|i: int| 0 <= i < p.len() ==> lower[i] == p[i]);
    if "plum://ipc/"@.is_prefix_of(url) {
        assert(lower[0] == 'p');
        if "http://plum."@.is_prefix_of(lower) {
            assert(lower.subrange(0, 12)[0] == 'h');
        }
        if "https://plum."@.is_prefix_of(lower) {
            assert(lower.subrange(0, 13)[0] == 'h');
        }
    } else {
        let at: int = if "http://plum.ipc/"@.is_prefix_of(url) {
            7
        } else {
            8
        };
        assert(lower.subrange(at, at + 8) =~= "plum.ipc"@);
        assert(occurs_at(lower, "plum.ipc"@, at));
    }
}

/// Neither whether an address is blocked nor whether it is a web address of the new-tab page
/// depends on the case of its ASCII letters.
pub proof fn law_blocking_ignores_ascii_case(a: Seq<char>, b: Seq<char>)
    requires
        same_but_for_ascii_case(a, b),
    ensures
        reserved_web_address(lowercased(a)) == reserved_web_address(lowercased(b)),
        newtab_web_address(lowercased(a)) == newtab_web_address(lowercased(b)),
{
    law_lower_case_ignores_ascii_case(a, b);
}

/// What is blocked is a web address of the shell, in any case; a web address of the new-tab
/// page is, unless it names the toolbar or the host of the messages.
pub proof fn law_blocked_addresses(url: Seq<char>)
    ensures
        reserved_web_address(lowercased(url)) ==> "http://plum."@.is_prefix_of(lowercased(url))
            || "https://plum."@.is_prefix_of(lowercased(url)),
        newtab_web_address(lowercased(url)) && !occurs(lowercased(url), "plum.toolbar"@) && !occurs(
            lowercased(url),
            "plum.ipc"@,
        ) ==> reserved_web_address(lowercased(url)),
{
    let lower = lowercased(url);
    if newtab_web_address(lower) && !occurs(lower, "plum.toolbar"@) && !occurs(lower, "plum.ipc"@) {
        law_newtab_web_address_is_reserved(lower);
    }
}

// ---- documents and icons ----

/// An HTML document written out in an address.
pub open spec fn document_address(html: Seq<char>) -> Seq<char> {
    "data:text/html;charset=utf-8,"@ + path_encoded(html)
}

/// The icon of a page: the browser's own for the new-tab page and for an address without
/// a host, else the one at the root of the host.
pub open spec fn favicon_address(page_url: Seq<char>, icon: Seq<char>) -> Seq<char> {
    let host = if "https://"@.is_prefix_of(page_url) {
        before_first(page_url.skip("https://"@.len() as int), '/')
    } else if "http://"@.is_prefix_of(page_url) {
        before_first(page_url.skip("http://"@.len() as int), '/')
    } else {
        Seq::empty()
    };
    if internal_newtab(page_url) || host.len() == 0 {
        icon
    } else {
        "http://"@ + host + "/favicon.ico"@
    }
}

/// An HTML document written out in an address.
pub fn document_url(html: &str) -> (r: String)
    ensures
        r@ == document_address(html@),
{
    let body: String = percent_encode_ipc_path(html);
    copy_of("data:text/html;charset=utf-8,").concat(body.as_str())
}

/// The address under which a tab loads the new-tab page.
pub open spec fn newtab_document() -> Seq<char> {
    document_address(NEWTAB_HTML@)
}

/// The address that a tab loads for an address that it was asked for.
pub open spec fn loaded_address(url: Seq<char>) -> Seq<char> {
    if internal_newtab(url) {
        newtab_document()
    } else {
        url
    }
}

/// The address under which a tab loads the new-tab page.
pub fn newtab_data_url() -> (r: String)
    ensures
        r@ == newtab_document(),
{
    document_url(NEWTAB_HTML)
}

/// The address that a tab loads for an address that it was asked for: the document of the
/// new-tab page, or the address as it is.
pub fn content_load_url(url: &str) -> (r: String)
    ensures
        r@ == loaded_address(url@),
{
    if is_internal_newtab_url(url) {
        newtab_data_url()
    } else {
        copy_of(url)
    }
}

/// The browser's icon as an address, given the bytes of its PNG file.
pub open spec fn icon_address(file: Option<Seq<u8>>) -> Seq<char> {
    match file {
        Some(bytes) => "data:image/png;base64,"@ + base64_text(bytes),
        None => Seq::empty(),
    }
}

/// The browser's icon as an address, given the bytes of its PNG file; nothing where the
/// file could not be read.
pub fn browser_icon_data_url(file: Option<&[u8]>) -> (r: String)
    ensures
        r@ == icon_address(
            match file {
                Some(bytes) => Some(bytes@),
                None => None,
            },
        ),
{
    match file {
        Some(bytes) => {
            let body: String = base64_encode(bytes);
            copy_of("data:image/png;base64,").concat(body.as_str())
        },
        None => String::new(),
    }
}

/// The address of the icon that a tab shows for its page, given the browser's own icon.
pub fn tab_favicon_url(page_url: &str, icon: &str) -> (r: String)
    ensures
        r@ == favicon_address(page_url@, icon@),
{
    if is_internal_newtab_url(page_url) {
        return copy_of(icon);
    }
    let rest: Option<String> = match strip_prefix(page_url, "https://") {
        Some(s) => Some(s),
        None => strip_prefix(page_url, "http://"),
    };
    if let Some(s) = rest {
        let host: String = head_before(s.as_str(), '/');
        if !host.as_str().is_empty() {
            return copy_of("http://").concat(host.as_str()).concat("/favicon.ico");
        }
    }
    copy_of(icon)
}

/// The toolbar may open the pages and the messages of the shell.
pub proof fn law_toolbar_may_open_own_pages(text: Seq<char>)
    ensures
        toolbar_may_open(document_address(text)),
        toolbar_may_open(message_address(text)),
{
    reveal_strlit("data:text/html;charset=utf-8,");
    reveal_strlit("data:text/html");
    reveal_strlit("plum://ipc/");
    reveal_strlit("plum://");
    let d = "data:text/html;charset=utf-8,"@;
    let m = "plum://ipc/"@;
    assert(d.is_prefix_of(document_address(text)));
    assert(m.is_prefix_of(message_address(text)));
    lemma_prefix_of_prefix("data:text/html"@, d, document_address(text));
    lemma_prefix_of_prefix("plum://"@, m, message_address(text));
}

/// A document written out in an address stands for the new-tab page in a tab.
pub proof fn law_document_is_internal(html: Seq<char>)
    ensures
        internal_newtab(document_address(html)),
{
    reveal(internal_newtab);
    reveal_strlit("data:text/html;charset=utf-8,");
    reveal_strlit("data:text/html");
    let d = "data:text/html;charset=utf-8,"@;
    assert(d.is_prefix_of(document_address(html)));
    lemma_prefix_of_prefix("data:text/html"@, d, document_address(html));
    lemma_trim_keeps_prefix(document_address(html), "data:text/html"@);
}

} // verus!
