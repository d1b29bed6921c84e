//! Percent encoding, HTML escaping and Base64.

use crate::text::{chars_of, joined, lemma_joined_concat, lemma_joined_push};
use vstd::prelude::*;
use vstd::utf8::{decode_utf8, encode_utf8, is_ascii_chars, valid_utf8};

verus! {

// ---- percent encoding ----

/// Bytes that percent encoding leaves as they are.
pub open spec fn unreserved(b: u8) -> bool {
    ||| 0x41 <= b <= 0x5a
    ||| 0x61 <= b <= 0x7a
    ||| 0x30 <= b <= 0x39
    ||| b == 0x2d
    ||| b == 0x5f
    ||| b == 0x2e
    ||| b == 0x7e
}

/// The upper-case hexadecimal digit of a number below sixteen.
pub open spec fn hex_digit(d: int) -> char {
    if d < 10 {
        ('0' as int + d) as char
    } else {
        ('A' as int + d - 10) as char
    }
}

/// A byte as a percent sign and two hexadecimal digits.
pub open spec fn percent_triplet(b: u8) -> Seq<char> {
    seq!['%', hex_digit(b as int / 16), hex_digit(b as int % 16)]
}

/// A byte in a query: a space becomes a plus sign.
pub open spec fn query_byte(b: u8) -> Seq<char> {
    if unreserved(b) {
        seq![b as char]
    } else if b == 0x20 {
        seq!['+']
    } else {
        percent_triplet(b)
    }
}

/// A byte in a path.
pub open spec fn path_byte(b: u8) -> Seq<char> {
    if unreserved(b) {
        seq![b as char]
    } else {
        percent_triplet(b)
    }
}

/// `query_byte` as a function value.
pub open spec fn query_bytes() -> spec_fn(u8) -> Seq<char> {
    |b: u8| query_byte(b)
}

/// `path_byte` as a function value.
pub open spec fn path_bytes() -> spec_fn(u8) -> Seq<char> {
    |b: u8| path_byte(b)
}

/// Text for a query: its UTF-8 bytes, each one encoded.
pub open spec fn query_encoded(s: Seq<char>) -> Seq<char> {
    joined(encode_utf8(s), query_bytes())
}

/// Text for a path: its UTF-8 bytes, each one encoded.
pub open spec fn path_encoded(s: Seq<char>) -> Seq<char> {
    joined(encode_utf8(s), path_bytes())
}

/// The value of a hexadecimal digit of either case.
pub open spec fn hex_value(b: u8) -> Option<u8> {
    if 0x30 <= b <= 0x39 {
        Some((b - 0x30) as u8)
    } else if 0x41 <= b <= 0x46 {
        Some((b - 0x41 + 10) as u8)
    } else if 0x61 <= b <= 0x66 {
        Some((b - 0x61 + 10) as u8)
    } else {
        None
    }
}

/// The byte that two characters write: two hexadecimal digits, or a plus sign and one.
pub open spec fn hex_pair(hi: u8, lo: u8) -> Option<u8> {
    match (hex_value(hi), hex_value(lo)) {
        (Some(h), Some(l)) => Some((h * 16 + l) as u8),
        (None, Some(l)) => if hi == 0x2b {
            Some(l)
        } else {
            None
        },
        _ => None,
    }
}

/// Whether `b` begins with a percent sign and two characters that write a byte.
pub open spec fn begins_with_triplet(b: Seq<u8>) -> bool {
    b.len() >= 3 && b[0] == 0x25 && hex_pair(b[1], b[2]) is Some
}

/// `b` with its triplets, found from the left, replaced by the bytes that they write.
pub open spec fn decoded_bytes(b: Seq<u8>) -> Seq<u8>
    decreases b.len(),
{
    if b.len() == 0 {
        Seq::empty()
    } else if begins_with_triplet(b) {
        seq![hex_pair(b[1], b[2])->0] + decoded_bytes(b.skip(3))
    } else {
        seq![b[0]] + decoded_bytes(b.drop_first())
    }
}

/// The text that `String::from_utf8_lossy` makes of bytes that are not UTF-8.
pub uninterp spec fn repaired_utf8(b: Seq<u8>) -> Seq<char>;

/// The text of bytes: decoded where they are UTF-8, repaired where they are not.
pub open spec fn lossy_text(b: Seq<u8>) -> Seq<char> {
    if valid_utf8(b) {
        decode_utf8(b)
    } else {
        repaired_utf8(b)
    }
}

/// Percent-encoded text decoded.
pub open spec fn percent_decoded(s: Seq<char>) -> Seq<char> {
    lossy_text(decoded_bytes(encode_utf8(s)))
}

/// `String::from_utf8_lossy` of std: UTF-8 is decoded; in other bytes each ill-formed
/// run is replaced, a result that depends on the bytes alone and is only named here.
#[verifier::external_body]
fn from_utf8_lossy(b: &[u8]) -> (r: String)
    ensures
        r@ == (if valid_utf8(b@) {
            decode_utf8(b@)
        } else {
            repaired_utf8(b@)
        }),
{
    String::from_utf8_lossy(b).into_owned()
}

/// Appends a percent sign and the two hexadecimal digits of the byte.
fn push_triplet(out: &mut String, b: u8)
    ensures
        final(out)@ == old(out)@ + percent_triplet(b),
{
    let hi: u8 = b / 16;
    let lo: u8 = b % 16;
    out.push('%');
    out.push(if hi < 10 { (0x30 + hi) as char } else { (0x41 + hi - 10) as char });
    out.push(if lo < 10 { (0x30 + lo) as char } else { (0x41 + lo - 10) as char });
    assert(out@ =~= old(out)@ + percent_triplet(b));
}

/// Whether percent encoding leaves the byte as it is.
fn is_unreserved(b: u8) -> (r: bool)
    ensures
        r == unreserved(b),
{
    (0x41 <= b && b <= 0x5a) || (0x61 <= b && b <= 0x7a) || (0x30 <= b && b <= 0x39) || b == 0x2d
        || b == 0x5f || b == 0x2e || b == 0x7e
}

/// Encodes text for a query: letters, digits and `-_.~` stay, a space becomes a plus
/// sign, every other byte a triplet.
pub fn percent_encode_query(s: &str) -> (r: String)
    ensures
        r@ == query_encoded(s@),
{
    let bytes: &[u8] = s.as_bytes();
    let n: usize = bytes.len();
    let mut out: String = String::new();
    let mut i: usize = 0;
    while i < n
        invariant
            n == bytes@.len(),
            i <= n,
            out@ == joined(bytes@.take(i as int), query_bytes()),
        decreases n - i,
    {
        let b: u8 = bytes[i];
        let ghost before = out@;
        if is_unreserved(b) {
            out.push(b as char);
        } else if b == 0x20 {
            out.push('+');
        } else {
            push_triplet(&mut out, b);
        }
        proof {
            assert(out@ =~= before + query_byte(b));
            lemma_joined_push(bytes@.take(i as int), b, query_bytes());
            assert(bytes@.take(i as int).push(b) =~= bytes@.take(i + 1));
        }
        i += 1;
    }
    assert(bytes@.take(n as int) =~= bytes@);
    out
}

/// Encodes text for a path: letters, digits and `-_.~` stay, every other byte becomes a
/// triplet.
pub fn percent_encode_ipc_path(s: &str) -> (r: String)
    ensures
        r@ == path_encoded(s@),
{
    let bytes: &[u8] = s.as_bytes();
    let n: usize = bytes.len();
    let mut out: String = String::new();
    let mut i: usize = 0;
    while i < n
        invariant
            n == bytes@.len(),
            i <= n,
            out@ == joined(bytes@.take(i as int), path_bytes()),
        decreases n - i,
    {
        let b: u8 = bytes[i];
        let ghost before = out@;
        if is_unreserved(b) {
            out.push(b as char);
        } else {
            push_triplet(&mut out, b);
        }
        proof {
            assert(out@ =~= before + path_byte(b));
            lemma_joined_push(bytes@.take(i as int), b, path_bytes());
            assert(bytes@.take(i as int).push(b) =~= bytes@.take(i + 1));
        }
        i += 1;
    }
    assert(bytes@.take(n as int) =~= bytes@);
    out
}

/// The value of a hexadecimal digit.
fn hex_digit_value(b: u8) -> (r: Option<u8>)
    ensures
        r == hex_value(b),
        r matches Some(v) ==> v < 16,
{
    if 0x30 <= b && b <= 0x39 {
        Some(b - 0x30)
    } else if 0x41 <= b && b <= 0x46 {
        Some(b - 0x41 + 10)
    } else if 0x61 <= b && b <= 0x66 {
        Some(b - 0x61 + 10)
    } else {
        None
    }
}

/// The byte that two characters write.
fn hex_pair_value(hi: u8, lo: u8) -> (r: Option<u8>)
    ensures
        r == hex_pair(hi, lo),
{
    match (hex_digit_value(hi), hex_digit_value(lo)) {
        (Some(h), Some(l)) => Some(h * 16 + l),
        (None, Some(l)) => if hi == 0x2b {
            Some(l)
        } else {
            None
        },
        _ => None,
    }
}

/// The bytes of percent-encoded text, before they are read as text again.
pub fn percent_decode_bytes(s: &str) -> (r: Vec<u8>)
    ensures
        r@ == decoded_bytes(encode_utf8(s@)),
{
    let bytes: &[u8] = s.as_bytes();
    let n: usize = bytes.len();
    let mut out: Vec<u8> = Vec::new();
    let mut i: usize = 0;
    assert(bytes@.skip(0) =~= bytes@);
    assert(Seq::<u8>::empty() + decoded_bytes(bytes@) =~= decoded_bytes(bytes@));
    while i < n
        invariant
            n == bytes@.len(),
            i <= n,
            decoded_bytes(bytes@) == out@ + decoded_bytes(bytes@.skip(i as int)),
        decreases n - i,
    {
        let ghost rest = bytes@.skip(i as int);
        let ghost before = out@;
        let mut triplet: Option<u8> = None;
        if bytes[i] == 0x25 && n - i >= 3 {
            triplet = hex_pair_value(bytes[i + 1], bytes[i + 2]);
        }
        match triplet {
            Some(b) => {
                out.push(b);
                proof {
                    assert(begins_with_triplet(rest));
                    assert(rest.skip(3) =~= bytes@.skip(i + 3));
                    assert(before + (seq![b] + decoded_bytes(bytes@.skip(i + 3))) =~= out@
                        + decoded_bytes(bytes@.skip(i + 3)));
                }
                i += 3;
            },
            None => {
                out.push(bytes[i]);
                proof {
                    assert(!begins_with_triplet(rest));
                    assert(rest.drop_first() =~= bytes@.skip(i + 1));
                    assert(before + (seq![rest[0]] + decoded_bytes(bytes@.skip(i + 1))) =~= out@
                        + decoded_bytes(bytes@.skip(i + 1)));
                }
                i += 1;
            },
        }
    }
    assert(out@ + decoded_bytes(bytes@.skip(i as int)) =~= out@);
    out
}

/// Decodes percent-encoded text; bytes that are not UTF-8 are repaired.
pub fn percent_decode_component(s: &str) -> (r: String)
    ensures
        r@ == percent_decoded(s@),
{
    let bytes: Vec<u8> = percent_decode_bytes(s);
    from_utf8_lossy(bytes.as_slice())
}

/// What path encoding writes is decoded to what it was given.
pub proof fn law_path_encoding_round_trip(s: Seq<char>)
    ensures
        percent_decoded(path_encoded(s)) == s,
{
    assert(readable(path_bytes()));
    lemma_readable_decode(encode_utf8(s), path_bytes());
    vstd::utf8::encode_utf8_valid_utf8(s);
    vstd::utf8::encode_utf8_decode_utf8(s);
}

/// Path encoding writes only unreserved characters and triplets, which are ASCII.
pub proof fn law_path_encoding_is_ascii(s: Seq<char>)
    ensures
        is_ascii_chars(path_encoded(s)),
{
    assert(readable(path_bytes()));
    lemma_readable_ascii(encode_utf8(s), path_bytes());
}

/// Query encoding writes only ASCII characters, none of them white space.
pub proof fn law_query_encoding_is_ascii(s: Seq<char>)
    ensures
        is_ascii_chars(query_encoded(s)),
        forall|i: int|
            0 <= i < query_encoded(s).len() ==> !crate::text::white_space(
                #[trigger] query_encoded(s)[i],
            ),
{
    lemma_query_bytes_ascii(encode_utf8(s));
}

/// Text for a query with its plus signs written as the triplet of a space.
pub open spec fn with_spelled_spaces(q: Seq<char>) -> Seq<char> {
    joined(q, spelled_spaces())
}

/// A plus sign as the triplet of a space, and other characters as they are.
pub open spec fn spelled_spaces() -> spec_fn(char) -> Seq<char> {
    |c: char|
        if c == '+' {
            seq!['%', '2', '0']
        } else {
            seq![c]
        }
}

/// Text for a query with its plus signs read as spaces.
pub open spec fn with_plus_as_space(q: Seq<char>) -> Seq<char> {
    q.map_values(
        |c: char|
            if c == '+' {
                ' '
            } else {
                c
            },
    )
}

/// The two encodings differ only in how a space is written: as a plus sign in a query, as a
/// triplet in a path.
pub proof fn law_encodings_differ_in_spaces(s: Seq<char>)
    ensures
        path_encoded(s) == with_spelled_spaces(query_encoded(s)),
        query_encoded(s).contains('+') <==> encode_utf8(s).contains(0x20),
{
    lemma_spelled_spaces(encode_utf8(s));
}

/// The joined query bytes with their plus signs spelled out are the joined path bytes, and
/// hold a plus sign for each space.
proof fn lemma_spelled_spaces(b: Seq<u8>)
    ensures
        with_spelled_spaces(joined(b, query_bytes())) == joined(b, path_bytes()),
        joined(b, query_bytes()).contains('+') <==> b.contains(0x20),
    decreases b.len(),
{
    if b.len() > 0 {
        let init = joined(b.drop_last(), query_bytes());
        let last = b.last();
        let t = query_byte(last);
        lemma_spelled_spaces(b.drop_last());
        lemma_joined_concat(init, t, spelled_spaces());
        assert(joined(b, query_bytes()) == init + t);
        assert(joined(t, spelled_spaces()) =~= path_byte(last)) by {
            reveal_with_fuel(joined, 4);
        }
        assert(b =~= b.drop_last().push(last));
        assert(last == 0x20 ==> t[0] == '+');
        assert(t.contains('+') ==> last == 0x20);
        if (init + t).contains('+') {
            let i = (init + t).index_of('+');
            if i < init.len() {
                assert(init[i] == '+');
                let j = b.drop_last().index_of(0x20);
                assert(b[j] == 0x20);
            } else {
                assert(t[i - init.len()] == '+');
                assert(b[b.len() - 1] == 0x20);
            }
        }
        if b.contains(0x20) {
            let j = b.index_of(0x20);
            if j < b.len() - 1 {
                assert(b.drop_last()[j] == 0x20);
                let i = init.index_of('+');
                assert((init + t)[i] == '+');
            } else {
                assert((init + t)[init.len() as int] == '+');
            }
        }
    }
}

/// Query text with its plus signs read as spaces is decoded to what it was made of.
pub proof fn law_query_encoding_round_trip(s: Seq<char>)
    ensures
        percent_decoded(with_plus_as_space(query_encoded(s))) == s,
{
    let bytes = encode_utf8(s);
    lemma_plus_as_space(bytes);
    assert(readable(spaced_bytes()));
    lemma_readable_decode(bytes, spaced_bytes());
    vstd::utf8::encode_utf8_valid_utf8(s);
    vstd::utf8::encode_utf8_decode_utf8(s);
}

/// A byte as in a query, but for a space, which stays.
spec fn spaced_bytes() -> spec_fn(u8) -> Seq<char> {
    |b: u8|
        if b == 0x20 {
            seq![b as char]
        } else {
            query_byte(b)
        }
}

/// The joined query bytes with their plus signs read as spaces.
proof fn lemma_plus_as_space(b: Seq<u8>)
    ensures
        with_plus_as_space(joined(b, query_bytes())) == joined(b, spaced_bytes()),
    decreases b.len(),
{
    if b.len() > 0 {
        lemma_plus_as_space(b.drop_last());
        let init = joined(b.drop_last(), query_bytes());
        let t = query_byte(b.last());
        assert(joined(b, query_bytes()) == init + t);
        assert(with_plus_as_space(init + t) =~= with_plus_as_space(init) + with_plus_as_space(t));
        assert(with_plus_as_space(t) =~= spaced_bytes()(b.last()));
    } else {
        assert(with_plus_as_space(joined(b, query_bytes())) =~= joined(b, spaced_bytes()));
    }
}

/// What is written for one item.
proof fn lemma_joined_one<A, B>(a: A, f: spec_fn(A) -> Seq<B>)
    ensures
        joined(seq![a], f) == f(a),
{
    reveal_with_fuel(joined, 2);
    assert(seq![a].drop_last() =~= Seq::<A>::empty());
    assert(joined(seq![a], f) =~= f(a));
}

/// The joined query bytes are ASCII and hold no white space.
proof fn lemma_query_bytes_ascii(b: Seq<u8>)
    ensures
        is_ascii_chars(joined(b, query_bytes())),
        forall|i: int|
            0 <= i < joined(b, query_bytes()).len() ==> !crate::text::white_space(
                #[trigger] joined(b, query_bytes())[i],
            ),
    decreases b.len(),
{
    if b.len() > 0 {
        lemma_query_bytes_ascii(b.drop_last());
        let t = query_byte(b.last());
        assert(joined(b, query_bytes()) == joined(b.drop_last(), query_bytes()) + t);
    }
}

/// Whether a way to write a byte can be read back: as the byte itself, an ASCII one that is
/// no percent sign, or as a triplet.
pub open spec fn readable(f: spec_fn(u8) -> Seq<char>) -> bool {
    forall|b: u8|
        #![trigger f(b)]
        f(b) == percent_triplet(b) || (f(b) == seq![b as char] && b < 0x80 && b != 0x25)
}

/// Bytes that can be read back are written in ASCII.
proof fn lemma_readable_ascii(b: Seq<u8>, f: spec_fn(u8) -> Seq<char>)
    requires
        readable(f),
    ensures
        is_ascii_chars(joined(b, f)),
    decreases b.len(),
{
    if b.len() > 0 {
        lemma_readable_ascii(b.drop_last(), f);
        let t = f(b.last());
        assert(joined(b, f) == joined(b.drop_last(), f) + t);
        assert(is_ascii_chars(t));
    }
}

/// The UTF-8 bytes of ASCII text are its characters.
proof fn lemma_ascii_bytes(c: Seq<char>)
    requires
        is_ascii_chars(c),
    ensures
        encode_utf8(c) == Seq::new(c.len(), |i: int| c[i] as u8),
{
    vstd::utf8::is_ascii_chars_encode_utf8(c);
    assert(encode_utf8(c) =~= Seq::new(c.len(), |i: int| c[i] as u8));
}

/// Bytes that can be read back are decoded to the bytes.
proof fn lemma_readable_decode(b: Seq<u8>, f: spec_fn(u8) -> Seq<char>)
    requires
        readable(f),
    ensures
        decoded_bytes(encode_utf8(joined(b, f))) == b,
    decreases b.len(),
{
    let all = joined(b, f);
    lemma_readable_ascii(b, f);
    lemma_ascii_bytes(all);
    if b.len() == 0 {
        assert(encode_utf8(all) =~= Seq::<u8>::empty());
        assert(b =~= Seq::<u8>::empty());
    } else {
        let first = b.first();
        let tail = joined(b.drop_first(), f);
        lemma_joined_concat(seq![first], b.drop_first(), f);
        assert(seq![first] + b.drop_first() =~= b);
        lemma_joined_one(first, f);
        assert(all == f(first) + tail);
        lemma_readable_ascii(b.drop_first(), f);
        lemma_ascii_bytes(tail);
        lemma_readable_decode(b.drop_first(), f);
        let e = encode_utf8(all);
        if f(first) == percent_triplet(first) {
            lemma_hex_digits(first as int / 16);
            lemma_hex_digits(first as int % 16);
            assert(e[1] == hex_digit(first as int / 16) as u8);
            assert(e[2] == hex_digit(first as int % 16) as u8);
            assert(hex_pair(e[1], e[2]) == Some(first));
            assert(begins_with_triplet(e));
            assert(e.skip(3) =~= encode_utf8(tail));
        } else {
            assert(e[0] == first);
            assert(e.drop_first() =~= encode_utf8(tail));
            assert(!begins_with_triplet(e));
        }
        assert(decoded_bytes(e) =~= seq![first] + b.drop_first());
    }
}

/// A hexadecimal digit has the value that it was written for.
proof fn lemma_hex_digits(d: int)
    requires
        0 <= d < 16,
    ensures
        hex_value(hex_digit(d) as u8) == Some(d as u8),
{
}

// ---- HTML ----

/// A character as it stands in HTML text or in a quoted attribute.
pub open spec fn html_char(c: char) -> Seq<char> {
    if c == '&' {
        "&amp;"@
    } else if c == '<' {
        "&lt;"@
    } else if c == '>' {
        "&gt;"@
    } else if c == '"' {
        "&quot;"@
    } else {
        seq![c]
    }
}

/// `html_char` as a function value.
pub open spec fn html_chars() -> spec_fn(char) -> Seq<char> {
    |c: char| html_char(c)
}

/// Text with the characters that HTML gives a meaning replaced by references.
pub open spec fn html_escaped(s: Seq<char>) -> Seq<char> {
    joined(s, html_chars())
}

/// HTML text with the four references that escaping writes read back.
pub open spec fn html_unescaped(s: Seq<char>) -> Seq<char>
    decreases s.len(),
{
    if s.len() == 0 {
        Seq::empty()
    } else if s.len() >= 5 && "&amp;"@.is_prefix_of(s) {
        seq!['&'] + html_unescaped(s.skip(5))
    } else if s.len() >= 4 && "&lt;"@.is_prefix_of(s) {
        seq!['<'] + html_unescaped(s.skip(4))
    } else if s.len() >= 4 && "&gt;"@.is_prefix_of(s) {
        seq!['>'] + html_unescaped(s.skip(4))
    } else if s.len() >= 6 && "&quot;"@.is_prefix_of(s) {
        seq!['"'] + html_unescaped(s.skip(6))
    } else {
        seq![s[0]] + html_unescaped(s.drop_first())
    }
}

/// Replaces `&`, `<`, `>` and `"` by references.
pub fn html_escape(s: &str) -> (r: String)
    ensures
        r@ == html_escaped(s@),
{
    let v: Vec<char> = chars_of(s);
    let mut out: String = String::new();
    let mut i: usize = 0;
    while i < v.len()
        invariant
            i <= v@.len(),
            out@ == html_escaped(v@.take(i as int)),
        decreases v.len() - i,
    {
        let c: char = v[i];
        let ghost before = out@;
        if c == '&' {
            out.append("&amp;");
        } else if c == '<' {
            out.append("&lt;");
        } else if c == '>' {
            out.append("&gt;");
        } else if c == '"' {
            out.append("&quot;");
        } else {
            out.push(c);
        }
        proof {
            assert(out@ =~= before + html_char(c));
            lemma_joined_push(v@.take(i as int), c, html_chars());
            assert(v@.take(i as int).push(c) =~= v@.take(i + 1));
        }
        i += 1;
    }
    assert(v@.take(v@.len() as int) =~= v@);
    out
}

/// Escaped text holds no `<`, `>` or `"`.
pub proof fn law_html_escape_is_inert(s: Seq<char>)
    ensures
        !html_escaped(s).contains('<'),
        !html_escaped(s).contains('>'),
        !html_escaped(s).contains('"'),
    decreases s.len(),
{
    if s.len() > 0 {
        law_html_escape_is_inert(s.drop_last());
        reveal_strlit("&amp;");
        reveal_strlit("&lt;");
        reveal_strlit("&gt;");
        reveal_strlit("&quot;");
        let head = html_escaped(s.drop_last());
        let t = html_char(s.last());
        assert(html_escaped(s) == head + t);
        assert forall|c: char| (c == '<' || c == '>' || c == '"') implies !(#[trigger] (head
            + t).contains(c)) by {
            assert(!t.contains(c)) by {
                assert forall|k: int| 0 <= k < t.len() implies t[k] != c by {}
            }
            assert forall|k: int| 0 <= k < (head + t).len() implies (head + t)[k] != c by {
                if k < head.len() {
                    assert(head.contains(head[k]));
                } else {
                    assert(t.contains(t[k - head.len()]));
                }
            }
        }
    }
}

/// Escaped text is read back as the text, so no two texts are escaped alike.
pub proof fn law_html_escape_round_trip(s: Seq<char>)
    ensures
        html_unescaped(html_escaped(s)) == s,
    decreases s.len(),
{
    reveal_strlit("&amp;");
    reveal_strlit("&lt;");
    reveal_strlit("&gt;");
    reveal_strlit("&quot;");
    if s.len() == 0 {
        assert(s =~= Seq::<char>::empty());
    } else {
        let c = s.first();
        let tail = html_escaped(s.drop_first());
        law_html_escape_round_trip(s.drop_first());
        lemma_joined_concat(seq![c], s.drop_first(), html_chars());
        assert(seq![c] + s.drop_first() =~= s);
        assert(joined(seq![c], html_chars()) =~= html_char(c)) by {
            reveal_with_fuel(joined, 2);
            assert(seq![c].drop_last() =~= Seq::<char>::empty());
        }
        let e = html_escaped(s);
        assert(e == html_char(c) + tail);
        assert(e.skip(html_char(c).len() as int) =~= tail);
        if c == '&' {
            assert("&amp;"@.is_prefix_of(e));
        } else if c == '<' {
            assert("&lt;"@.is_prefix_of(e));
            assert(e[1] != "&amp;"@[1]);
        } else if c == '>' {
            assert("&gt;"@.is_prefix_of(e));
            assert(e[1] != "&amp;"@[1] && e[1] != "&lt;"@[1]);
        } else if c == '"' {
            assert("&quot;"@.is_prefix_of(e));
            assert(e[1] != "&amp;"@[1] && e[1] != "&lt;"@[1] && e[1] != "&gt;"@[1]);
        } else {
            assert(e[0] == c);
            assert(e[0] != "&amp;"@[0] && e[0] != "&lt;"@[0] && e[0] != "&gt;"@[0] && e[0]
                != "&quot;"@[0]);
            assert(e.drop_first() =~= tail);
        }
        assert(html_unescaped(e) =~= seq![c] + s.drop_first());
    }
}

// ---- Base64 ----

/// The Base64 digit of a number below sixty-four.
pub open spec fn base64_digit(d: int) -> char {
    if d < 26 {
        ('A' as int + d) as char
    } else if d < 52 {
        ('a' as int + d - 26) as char
    } else if d < 62 {
        ('0' as int + d - 52) as char
    } else if d == 62 {
        '+'
    } else {
        '/'
    }
}

/// Three bytes as one number, the missing ones counted as zero.
pub open spec fn base64_number(b: Seq<u8>) -> int {
    b[0] as int * 65536 + (if b.len() > 1 { b[1] as int } else { 0 }) * 256 + (if b.len() > 2 {
        b[2] as int
    } else {
        0
    })
}

/// The four characters for the first three bytes of `b`, padded where bytes are missing.
pub open spec fn base64_group(b: Seq<u8>) -> Seq<char> {
    let n = base64_number(b);
    seq![
        base64_digit(n / 262144),
        base64_digit(n / 4096 % 64),
        if b.len() > 1 { base64_digit(n / 64 % 64) } else { '=' },
        if b.len() > 2 { base64_digit(n % 64) } else { '=' },
    ]
}

/// Bytes in Base64, with padding.
pub open spec fn base64_text(b: Seq<u8>) -> Seq<char>
    decreases b.len(),
{
    if b.len() == 0 {
        Seq::empty()
    } else if b.len() <= 3 {
        base64_group(b)
    } else {
        base64_group(b) + base64_text(b.skip(3))
    }
}

/// The number that a Base64 digit stands for.
pub open spec fn base64_value(c: char) -> int {
    if 'A' <= c <= 'Z' {
        c as int - 'A' as int
    } else if 'a' <= c <= 'z' {
        c as int - 'a' as int + 26
    } else if '0' <= c <= '9' {
        c as int - '0' as int + 52
    } else if c == '+' {
        62
    } else {
        63
    }
}

/// The bytes that padded Base64 text stands for.
pub open spec fn base64_bytes(s: Seq<char>) -> Seq<u8>
    decreases s.len(),
{
    if s.len() < 4 {
        Seq::empty()
    } else {
        let a = base64_value(s[0]);
        let b = base64_value(s[1]);
        let c = if s[2] == '=' { 0 } else { base64_value(s[2]) };
        let d = if s[3] == '=' { 0 } else { base64_value(s[3]) };
        let n = a * 262144 + b * 4096 + c * 64 + d;
        let group = if s[2] == '=' {
            seq![(n / 65536) as u8]
        } else if s[3] == '=' {
            seq![(n / 65536) as u8, (n / 256 % 256) as u8]
        } else {
            seq![(n / 65536) as u8, (n / 256 % 256) as u8, (n % 256) as u8]
        };
        group + base64_bytes(s.skip(4))
    }
}

/// The Base64 digit of a number below sixty-four.
fn base64_char(d: u32) -> (r: char)
    requires
        d < 64,
    ensures
        r == base64_digit(d as int),
{
    if d < 26 {
        (0x41u8 + d as u8) as char
    } else if d < 52 {
        (0x61u8 + (d - 26) as u8) as char
    } else if d < 62 {
        (0x30u8 + (d - 52) as u8) as char
    } else if d == 62 {
        '+'
    } else {
        '/'
    }
}

/// Encodes bytes in Base64, with padding.
pub fn base64_encode(bytes: &[u8]) -> (r: String)
    ensures
        r@ == base64_text(bytes@),
{
    let n: usize = bytes.len();
    let mut out: String = String::new();
    let mut i: usize = 0;
    assert(bytes@.skip(0) =~= bytes@);
    assert(Seq::<char>::empty() + base64_text(bytes@) =~= base64_text(bytes@));
    while i < n
        invariant
            n == bytes@.len(),
            i <= n,
            base64_text(bytes@) == out@ + base64_text(bytes@.skip(i as int)),
        decreases n - i,
    {
        let left: usize = n - i;
        let ghost rest = bytes@.skip(i as int);
        let ghost before = out@;
        let b0: u32 = bytes[i] as u32;
        let b1: u32 = if left > 1 { bytes[i + 1] as u32 } else { 0 };
        let b2: u32 = if left > 2 { bytes[i + 2] as u32 } else { 0 };
        let group: u32 = b0 * 65536 + b1 * 256 + b2;
        assert(group == base64_number(rest));
        out.push(base64_char(group / 262144));
        out.push(base64_char(group / 4096 % 64));
        out.push(if left > 1 { base64_char(group / 64 % 64) } else { '=' });
        out.push(if left > 2 { base64_char(group % 64) } else { '=' });
        assert(out@ =~= before + base64_group(rest));
        if left <= 3 {
            proof {
                assert(bytes@.skip(n as int) =~= Seq::<u8>::empty());
                assert(before + base64_group(rest) =~= out@ + base64_text(bytes@.skip(n as int)));
            }
            i = n;
        } else {
            proof {
                assert(rest.skip(3) =~= bytes@.skip(i + 3));
                assert(before + (base64_group(rest) + base64_text(bytes@.skip(i + 3))) =~= out@
                    + base64_text(bytes@.skip(i + 3)));
            }
            i += 3;
        }
    }
    assert(out@ + base64_text(bytes@.skip(i as int)) =~= out@);
    out
}

/// Base64 text is read back as the bytes, so no two byte sequences are encoded alike.
pub proof fn law_base64_round_trip(b: Seq<u8>)
    ensures
        base64_bytes(base64_text(b)) == b,
    decreases b.len(),
{
    if b.len() == 0 {
        assert(b =~= Seq::<u8>::empty());
    } else {
        let s = base64_text(b);
        lemma_base64_first_group(b);
        if b.len() > 3 {
            law_base64_round_trip(b.skip(3));
            assert(s.skip(4) =~= base64_text(b.skip(3)));
            assert(b.take(3) + b.skip(3) =~= b);
        } else {
            assert(s.skip(4) =~= Seq::<char>::empty());
            assert(b + Seq::<u8>::empty() =~= b);
        }
    }
}

/// The first three bytes are read back from the first four characters.
proof fn lemma_base64_first_group(b: Seq<u8>)
    requires
        b.len() > 0,
    ensures
        ({
            let s = base64_text(b);
            base64_bytes(s) == b.take(if b.len() < 3 { b.len() as int } else { 3 })
                + base64_bytes(s.skip(4))
        }),
{
    let s = base64_text(b);
    let g = base64_group(b);
    let b1 = if b.len() > 1 { b[1] as int } else { 0 };
    let b2 = if b.len() > 2 { b[2] as int } else { 0 };
    let n = base64_number(b);
    assert(0 <= n < 16777216);
    lemma_base64_number(b[0] as int, b1, b2);
    lemma_base64_digits(n / 262144);
    lemma_base64_digits(n / 4096 % 64);
    lemma_base64_digits(n / 64 % 64);
    lemma_base64_digits(n % 64);
    assert(s[0] == g[0] && s[1] == g[1] && s[2] == g[2] && s[3] == g[3]);
    let k = if b.len() < 3 { b.len() as int } else { 3 };
    let group = if b.len() == 1 {
        seq![(n / 65536) as u8]
    } else if b.len() == 2 {
        seq![(n / 65536) as u8, (n / 256 % 256) as u8]
    } else {
        seq![(n / 65536) as u8, (n / 256 % 256) as u8, (n % 256) as u8]
    };
    assert(group =~= b.take(k));
    assert(base64_bytes(s) == group + base64_bytes(s.skip(4)));
}

/// A number of three bytes is split into its four Base64 digits and into its bytes.
proof fn lemma_base64_number(b0: int, b1: int, b2: int)
    requires
        0 <= b0 < 256,
        0 <= b1 < 256,
        0 <= b2 < 256,
    ensures
        ({
            let n = b0 * 65536 + b1 * 256 + b2;
            &&& n == n / 262144 * 262144 + n / 4096 % 64 * 4096 + n / 64 % 64 * 64 + n % 64
            &&& 0 <= n / 262144 < 64
            &&& n / 65536 == b0
            &&& n / 256 % 256 == b1
            &&& n % 256 == b2
            &&& b2 == 0 ==> n % 64 == 0
            &&& b1 == 0 && b2 == 0 ==> n / 64 % 64 == 0
        }),
{
    let n = b0 * 65536 + b1 * 256 + b2;
    let q1 = n / 64;
    let q2 = q1 / 64;
    let q3 = q2 / 64;
    vstd::arithmetic::div_mod::lemma_div_denominator(n, 64, 64);
    vstd::arithmetic::div_mod::lemma_div_denominator(n, 4096, 64);
    assert(n / 4096 == q2 && n / 262144 == q3);
    assert(n == q1 * 64 + n % 64);
    assert(q1 == q2 * 64 + q1 % 64);
    assert(q2 == q3 * 64 + q2 % 64);
    assert(n / 256 == b0 * 256 + b1);
    assert(b2 == 0 ==> n == (b0 * 1024 + b1 * 4) * 64);
    assert(b1 == 0 && b2 == 0 ==> q1 == b0 * 16 * 64);
}

/// A Base64 digit stands for the number that it was written for and is no padding.
proof fn lemma_base64_digits(d: int)
    requires
        0 <= d < 64,
    ensures
        base64_value(base64_digit(d)) == d,
        base64_digit(d) != '=',
{
}

} // verus!
