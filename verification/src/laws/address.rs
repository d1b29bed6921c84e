//! What the operations on addresses are for.

use crate::address::{
    carried_message, displayed_address, document_address, favicon_address, icon_address,
    internal_newtab, loaded_address, logical_address, message_address, newtab_web_address,
    reserved_web_address, resolved_input, toolbar_may_open,
};
use crate::encoding::{base64_text, path_encoded, percent_decoded, query_encoded};
use crate::laws::text::{blank, law_before_first, law_trim, law_trim_blank, tight};
use crate::pages::NEWTAB_HTML;
use crate::text::{lowercased, occurs, white_space};
use vstd::prelude::*;

verus! {

// ---- the address bar ----

/// Whether text in lower case names the new-tab page in the address bar.
pub open spec fn asks_for_newtab(lower: Seq<char>) -> bool {
    ||| lower == "plum.newtab"@
    ||| lower == "plum://newtab"@
    ||| "http://plum.newtab"@.is_prefix_of(lower)
    ||| "https://plum.newtab"@.is_prefix_of(lower)
}

/// Whether text begins with one of the schemes that the address bar takes as they are.
pub open spec fn begins_with_scheme(u: Seq<char>) -> bool {
    ||| "http://"@.is_prefix_of(u)
    ||| "https://"@.is_prefix_of(u)
    ||| "file://"@.is_prefix_of(u)
    ||| "plum://"@.is_prefix_of(u)
}

/// Blank input, and no other, asks for nothing.
pub proof fn law_blank_input(input: Seq<char>)
    ensures
        resolved_input(input) is None <==> blank(input),
{
    law_trim_blank(input);
}

/// A name of the new-tab page, in any case and with white space around it, asks for this
/// page.
pub proof fn law_input_newtab(a: Seq<char>, u: Seq<char>, b: Seq<char>)
    requires
        blank(a),
        tight(u),
        blank(b),
        asks_for_newtab(lowercased(u)),
    ensures
        resolved_input(a + u + b) == Some("plum://newtab"@),
{
    law_trim(a, u, b);
}

/// An address with its scheme asks for itself, without the white space around it.
pub proof fn law_input_address(a: Seq<char>, u: Seq<char>, b: Seq<char>)
    requires
        blank(a),
        tight(u),
        blank(b),
        !asks_for_newtab(lowercased(u)),
        begins_with_scheme(u),
    ensures
        resolved_input(a + u + b) == Some(u),
{
    law_trim(a, u, b);
}

/// Text without a scheme and without white space, with a dot in it but not at an end, is a
/// host, whatever its other characters are: it asks for the address of the host.
pub proof fn law_input_host(a: Seq<char>, u: Seq<char>, b: Seq<char>, dot: int)
    requires
        blank(a),
        tight(u),
        blank(b),
        !asks_for_newtab(lowercased(u)),
        !begins_with_scheme(u),
        forall|i: int| 0 <= i < u.len() ==> !white_space(#[trigger] u[i]),
        0 < dot < u.len() - 1,
        u[dot] == '.',
        u[0] != '.',
        u[u.len() - 1] != '.',
    ensures
        resolved_input(a + u + b) == Some("http://"@ + u),
{
    law_trim(a, u, b);
    assert(u.contains('.'));
}

/// Other text is searched for: text with white space in it, text without a dot, and text
/// with a dot at an end.
pub proof fn law_input_search(a: Seq<char>, u: Seq<char>, b: Seq<char>)
    requires
        blank(a),
        tight(u),
        blank(b),
        !asks_for_newtab(lowercased(u)),
        !begins_with_scheme(u),
        (exists|i: int| 0 <= i < u.len() && white_space(#[trigger] u[i])) || (forall|i: int|
            0 <= i < u.len() ==> #[trigger] u[i] != '.') || u[0] == '.' || u[u.len() - 1] == '.',
    ensures
        resolved_input(a + u + b) == Some("https://www.google.com/search?q="@ + query_encoded(u)),
{
    law_trim(a, u, b);
}

/// What is searched for can be read out of the address of the search.
pub proof fn law_search_keeps_text(a: Seq<char>, u: Seq<char>, b: Seq<char>)
    requires
        blank(a),
        tight(u),
        blank(b),
        !asks_for_newtab(lowercased(u)),
        !begins_with_scheme(u),
        !u.contains('.'),
    ensures
        resolved_input(a + u + b) matches Some(url) && "https://www.google.com/search?q="@.is_prefix_of(
            url,
        ) && percent_decoded(
            crate::encoding::with_plus_as_space(
                url.skip("https://www.google.com/search?q="@.len() as int),
            ),
        ) == u,
{
    assert forall|i: int| 0 <= i < u.len() implies #[trigger] u[i] != '.' by {
        assert(u.contains(u[i]));
    }
    law_input_search(a, u, b);
    let p = "https://www.google.com/search?q="@;
    assert(p.is_prefix_of(p + query_encoded(u)));
    assert((p + query_encoded(u)).skip(p.len() as int) =~= query_encoded(u));
    crate::encoding::law_query_encoding_round_trip(u);
}

// ---- the new-tab page ----

/// Whether an address without white space at its ends is a form of the new-tab page.
pub open spec fn newtab_form(u: Seq<char>) -> bool {
    ||| u == "about:blank"@
    ||| "data:text/html"@.is_prefix_of(u)
    ||| "plum://newtab"@.is_prefix_of(u)
    ||| lowercased(u) == "plum.newtab"@
    ||| "http://plum.newtab"@.is_prefix_of(lowercased(u))
    ||| "https://plum.newtab"@.is_prefix_of(lowercased(u))
}

/// Exactly the forms of the new-tab page, and blank text, stand for this page.
pub proof fn law_newtab_forms(a: Seq<char>, u: Seq<char>, b: Seq<char>)
    requires
        blank(a),
        tight(u),
        blank(b),
    ensures
        internal_newtab(a + u + b) <==> newtab_form(u),
        internal_newtab(a),
{
    reveal(internal_newtab);
    law_trim(a, u, b);
    law_trim_blank(a);
}

/// For the new-tab page a tab keeps the one address of it and loads its document, and the
/// address bar is empty. Every other address is kept, shown and loaded as it is, character
/// for character.
pub proof fn law_addresses_are_kept(url: Seq<char>)
    ensures
        internal_newtab(url) ==> logical_address(url) == "plum://newtab"@ && displayed_address(
            url,
        ).len() == 0 && loaded_address(url) == "data:text/html;charset=utf-8,"@ + path_encoded(
            NEWTAB_HTML@,
        ),
        !internal_newtab(url) ==> logical_address(url) == url && displayed_address(url) == url
            && loaded_address(url) == url,
{
}

/// What input is resolved to is what a tab then keeps and loads, unless it stands for the
/// new-tab page.
pub proof fn law_resolved_is_loaded(input: Seq<char>, url: Seq<char>)
    requires
        resolved_input(input) == Some(url),
        !internal_newtab(url),
    ensures
        logical_address(url) == url,
        loaded_address(logical_address(url)) == url,
        displayed_address(logical_address(url)) == url,
{
}

// ---- the shell's own addresses ----

/// A web address is reserved exactly where its host begins with the name of the shell and
/// neither the toolbar nor the host of the messages is named in it.
pub proof fn law_reserved(lower: Seq<char>)
    ensures
        !"http://plum."@.is_prefix_of(lower) && !"https://plum."@.is_prefix_of(lower)
            ==> !reserved_web_address(lower),
        occurs(lower, "plum.toolbar"@) || occurs(lower, "plum.ipc"@) ==> !reserved_web_address(
            lower,
        ),
        ("http://plum."@.is_prefix_of(lower) || "https://plum."@.is_prefix_of(lower)) && !occurs(
            lower,
            "plum.toolbar"@,
        ) && !occurs(lower, "plum.ipc"@) ==> reserved_web_address(lower),
        newtab_web_address(lower) <==> "http://plum.newtab"@.is_prefix_of(lower)
            || "https://plum.newtab"@.is_prefix_of(lower),
{
}

/// What follows one of the three beginnings of a message address is the encoded message.
/// Other addresses carry none.
pub proof fn law_carried_message(t: Seq<char>)
    ensures
        carried_message("plum://ipc/"@ + t) == Some(percent_decoded(t)),
        carried_message("http://plum.ipc/"@ + t) == Some(percent_decoded(t)),
        carried_message("https://plum.ipc/"@ + t) == Some(percent_decoded(t)),
        !"plum://ipc/"@.is_prefix_of(t) && !"http://plum.ipc/"@.is_prefix_of(t)
            && !"https://plum.ipc/"@.is_prefix_of(t) ==> carried_message(t) is None,
        message_address(t) == "plum://ipc/"@ + path_encoded(t),
{
    reveal_strlit("plum://ipc/");
    reveal_strlit("http://plum.ipc/");
    reveal_strlit("https://plum.ipc/");
    let p = "plum://ipc/"@;
    let h = "http://plum.ipc/"@;
    let s = "https://plum.ipc/"@;
    assert(p.is_prefix_of(p + t));
    assert(h.is_prefix_of(h + t));
    assert(s.is_prefix_of(s + t));
    assert((p + t).skip(p.len() as int) =~= t);
    assert((h + t).skip(h.len() as int) =~= t);
    assert((s + t).skip(s.len() as int) =~= t);
    if p.is_prefix_of(h + t) {
        assert((h + t).subrange(0, 11)[0] == 'p');
    }
    if p.is_prefix_of(s + t) {
        assert((s + t).subrange(0, 11)[0] == 'p');
    }
    if h.is_prefix_of(s + t) {
        assert((s + t).subrange(0, 16)[4] == ':');
    }
}

/// The toolbar may open every page of the shell and no page of the web nor of the disk; what
/// has none of these schemes it may open.
pub proof fn law_toolbar_pages(url: Seq<char>)
    ensures
        "http://plum."@.is_prefix_of(url) || "https://plum."@.is_prefix_of(url)
            || "plum://"@.is_prefix_of(url) || "data:text/html"@.is_prefix_of(url)
            ==> toolbar_may_open(url),
        "http://"@.is_prefix_of(url) && !"http://plum."@.is_prefix_of(url) ==> !toolbar_may_open(
            url,
        ),
        "https://"@.is_prefix_of(url) && !"https://plum."@.is_prefix_of(url) ==> !toolbar_may_open(
            url,
        ),
        "file://"@.is_prefix_of(url) ==> !toolbar_may_open(url),
        !"http://"@.is_prefix_of(url) && !"https://"@.is_prefix_of(url) && !"file://"@.is_prefix_of(
            url,
        ) ==> toolbar_may_open(url),
{
    reveal_strlit("http://plum.");
    reveal_strlit("https://plum.");
    reveal_strlit("plum://");
    reveal_strlit("data:text/html");
    reveal_strlit("http://");
    reveal_strlit("https://");
    reveal_strlit("file://");
    lemma_at(url, "http://plum."@, 0);
    lemma_at(url, "http://plum."@, 4);
    lemma_at(url, "https://plum."@, 0);
    lemma_at(url, "https://plum."@, 4);
    lemma_at(url, "plum://"@, 0);
    lemma_at(url, "data:text/html"@, 0);
    lemma_at(url, "http://"@, 0);
    lemma_at(url, "http://"@, 4);
    lemma_at(url, "https://"@, 0);
    lemma_at(url, "https://"@, 4);
    lemma_at(url, "file://"@, 0);
}

/// A character at the beginning of a text.
pub proof fn lemma_at(s: Seq<char>, p: Seq<char>, i: int)
    requires
        0 <= i < p.len(),
    ensures
        p.is_prefix_of(s) ==> s.len() >= p.len() && s[i] == p[i],
{
    if p.is_prefix_of(s) {
        assert(s.subrange(0, p.len() as int)[i] == p[i]);
    }
}

// ---- documents and icons ----

/// The address of a document is its fixed beginning and text that is decoded to the
/// document.
pub proof fn law_document_round_trip(html: Seq<char>)
    ensures
        "data:text/html;charset=utf-8,"@.is_prefix_of(document_address(html)),
        percent_decoded(
            document_address(html).skip("data:text/html;charset=utf-8,"@.len() as int),
        ) == html,
        document_address(html) == "data:text/html;charset=utf-8,"@ + path_encoded(html),
{
    let d = "data:text/html;charset=utf-8,"@;
    assert(d.is_prefix_of(d + path_encoded(html)));
    assert((d + path_encoded(html)).skip(d.len() as int) =~= path_encoded(html));
    crate::encoding::law_path_encoding_round_trip(html);
}

/// The icon of a page of the web is the one at the root of its host.
pub proof fn law_favicon_of_host(host: Seq<char>, rest: Seq<char>, icon: Seq<char>)
    requires
        host.len() > 0,
        !host.contains('/'),
    ensures
        !internal_newtab("https://"@ + host) ==> favicon_address("https://"@ + host, icon)
            == "http://"@ + host + "/favicon.ico"@,
        !internal_newtab("https://"@ + (host + seq!['/'] + rest)) ==> favicon_address(
            "https://"@ + (host + seq!['/'] + rest),
            icon,
        ) == "http://"@ + host + "/favicon.ico"@,
        !internal_newtab("http://"@ + host) ==> favicon_address("http://"@ + host, icon)
            == "http://"@ + host + "/favicon.ico"@,
        !internal_newtab("http://"@ + (host + seq!['/'] + rest)) ==> favicon_address(
            "http://"@ + (host + seq!['/'] + rest),
            icon,
        ) == "http://"@ + host + "/favicon.ico"@,
{
    reveal_strlit("http://");
    reveal_strlit("https://");
    law_before_first(host, '/', rest);
    lemma_after("https://"@, host);
    lemma_after("http://"@, host);
    lemma_after("https://"@, host + seq!['/'] + rest);
    lemma_after("http://"@, host + seq!['/'] + rest);
    lemma_at("http://"@ + host, "https://"@, 4);
    lemma_at("http://"@ + (host + seq!['/'] + rest), "https://"@, 4);
}

/// What follows the beginning of a text.
proof fn lemma_after(p: Seq<char>, s: Seq<char>)
    ensures
        p.is_prefix_of(p + s),
        (p + s).skip(p.len() as int) == s,
{
    assert((p + s).skip(p.len() as int) =~= s);
}

/// The icon is the browser's own for the new-tab page, for what is no page of the web, and
/// for an address without a host.
pub proof fn law_own_favicon(url: Seq<char>, rest: Seq<char>, icon: Seq<char>)
    ensures
        internal_newtab(url) ==> favicon_address(url, icon) == icon,
        !"http://"@.is_prefix_of(url) && !"https://"@.is_prefix_of(url) ==> favicon_address(url, icon)
            == icon,
        favicon_address("http://"@, icon) == icon,
        favicon_address("https://"@, icon) == icon,
        favicon_address("http://"@ + (seq!['/'] + rest), icon) == icon,
        favicon_address("https://"@ + (seq!['/'] + rest), icon) == icon,
{
    reveal_strlit("http://");
    reveal_strlit("https://");
    let e = Seq::<char>::empty();
    law_before_first(e, '/', rest);
    assert(e + seq!['/'] + rest =~= seq!['/'] + rest);
    lemma_after("https://"@, seq!['/'] + rest);
    lemma_after("http://"@, seq!['/'] + rest);
    lemma_after("https://"@, e);
    lemma_after("http://"@, e);
    assert("https://"@ + e =~= "https://"@);
    assert("http://"@ + e =~= "http://"@);
    lemma_at("http://"@, "https://"@, 4);
    lemma_at("http://"@ + (seq!['/'] + rest), "https://"@, 4);
}

/// The icon is its bytes in Base64 behind a fixed beginning, or nothing.
pub proof fn law_icon(bytes: Seq<u8>)
    ensures
        icon_address(Some(bytes)) == "data:image/png;base64,"@ + base64_text(bytes),
        icon_address(None).len() == 0,
{
}

} // verus!
