//! What the encodings are for.

use crate::encoding::{
    base64_group, base64_text, decoded_bytes, html_escaped, path_byte, path_bytes, path_encoded,
    percent_decoded, query_byte, query_bytes, query_encoded,
};
use crate::text::{joined, lemma_joined_concat};
use vstd::prelude::*;
use vstd::utf8::{encode_utf8, is_ascii_chars, valid_utf8};

verus! {

// ---- percent encoding ----

/// Letters, digits and the four marks that percent encoding leaves as they are.
pub open spec fn plain_char(c: char) -> bool {
    ||| 'A' <= c <= 'Z'
    ||| 'a' <= c <= 'z'
    ||| '0' <= c <= '9'
    ||| c == '-'
    ||| c == '_'
    ||| c == '.'
    ||| c == '~'
}

/// A hexadecimal digit as percent encoding writes it.
pub open spec fn upper_hex(c: char) -> bool {
    '0' <= c <= '9' || 'A' <= c <= 'F'
}

/// Whether a text is made of plain characters, characters of a choice, and percent signs
/// with two hexadecimal digits after them.
pub open spec fn percent_text(s: Seq<char>, also: spec_fn(char) -> bool) -> bool {
    forall|i: int|
        0 <= i < s.len() ==> {
            ||| plain_char(#[trigger] s[i])
            ||| also(s[i])
            ||| s[i] == '%' && i + 2 < s.len() && upper_hex(s[i + 1]) && upper_hex(s[i + 2])
        }
}

/// Two such texts put together are one.
proof fn lemma_percent_concat(s: Seq<char>, t: Seq<char>, also: spec_fn(char) -> bool)
    requires
        percent_text(s, also),
        percent_text(t, also),
    ensures
        percent_text(s + t, also),
{
    assert forall|i: int| 0 <= i < (s + t).len() implies {
        ||| plain_char(#[trigger] (s + t)[i])
        ||| also((s + t)[i])
        ||| (s + t)[i] == '%' && i + 2 < (s + t).len() && upper_hex((s + t)[i + 1]) && upper_hex(
            (s + t)[i + 2],
        )
    } by {
        if i < s.len() {
            assert((s + t)[i] == s[i]);
        } else {
            assert((s + t)[i] == t[i - s.len()]);
        }
    }
}

/// The joined path bytes are such a text.
proof fn lemma_path_text(b: Seq<u8>)
    ensures
        percent_text(joined(b, path_bytes()), |c: char| false),
    decreases b.len(),
{
    if b.len() > 0 {
        lemma_path_text(b.drop_last());
        assert(percent_text(path_byte(b.last()), |c: char| false));
        lemma_percent_concat(
            joined(b.drop_last(), path_bytes()),
            path_byte(b.last()),
            |c: char| false,
        );
    }
}

/// The joined query bytes are such a text, with plus signs.
proof fn lemma_query_text(b: Seq<u8>)
    ensures
        percent_text(joined(b, query_bytes()), |c: char| c == '+'),
    decreases b.len(),
{
    if b.len() > 0 {
        lemma_query_text(b.drop_last());
        assert(percent_text(query_byte(b.last()), |c: char| c == '+'));
        lemma_percent_concat(
            joined(b.drop_last(), query_bytes()),
            query_byte(b.last()),
            |c: char| c == '+',
        );
    }
}

/// An encoded path holds plain characters and triplets with capital digits only, an encoded
/// query also plus signs.
pub proof fn law_encoded_characters(s: Seq<char>)
    ensures
        percent_text(path_encoded(s), |c: char| false),
        percent_text(query_encoded(s), |c: char| c == '+'),
{
    lemma_path_text(encode_utf8(s));
    lemma_query_text(encode_utf8(s));
}

/// What is joined of items that each stand for themselves is the items.
proof fn lemma_joined_same(b: Seq<u8>, c: Seq<char>, f: spec_fn(u8) -> Seq<char>)
    requires
        b.len() == c.len(),
        forall|i: int| 0 <= i < b.len() ==> f(#[trigger] b[i]) == seq![c[i]],
    ensures
        joined(b, f) == c,
    decreases b.len(),
{
    if b.len() > 0 {
        assert forall|i: int| 0 <= i < b.drop_last().len() implies f(#[trigger] b.drop_last()[i])
            == seq![c.drop_last()[i]] by {
            assert(f(b[i]) == seq![c[i]]);
        }
        lemma_joined_same(b.drop_last(), c.drop_last(), f);
        assert(f(b[b.len() - 1]) == seq![c[c.len() - 1]]);
        assert(c.drop_last() + seq![c.last()] =~= c);
    } else {
        assert(joined(b, f) =~= c);
    }
}

/// Text of plain characters is encoded to itself.
pub proof fn law_plain_text_stays(s: Seq<char>)
    requires
        forall|i: int| 0 <= i < s.len() ==> plain_char(#[trigger] s[i]),
    ensures
        path_encoded(s) == s,
        query_encoded(s) == s,
{
    assert(is_ascii_chars(s));
    vstd::utf8::is_ascii_chars_encode_utf8(s);
    let b = encode_utf8(s);
    assert forall|i: int| 0 <= i < b.len() implies path_bytes()(#[trigger] b[i]) == seq![s[i]]
        && query_bytes()(b[i]) == seq![s[i]] by {
        assert(plain_char(s[i]));
        assert(s[i] as u8 == b[i]);
        assert(path_byte(b[i]) =~= seq![s[i]]);
    }
    lemma_joined_same(b, s, path_bytes());
    lemma_joined_same(b, s, query_bytes());
}

/// Texts put together are encoded one after the other.
pub proof fn law_encoding_concat(s: Seq<char>, t: Seq<char>)
    ensures
        path_encoded(s + t) == path_encoded(s) + path_encoded(t),
        query_encoded(s + t) == query_encoded(s) + query_encoded(t),
{
    lemma_encode_concat(s, t);
    lemma_joined_concat(encode_utf8(s), encode_utf8(t), path_bytes());
    lemma_joined_concat(encode_utf8(s), encode_utf8(t), query_bytes());
}

/// The bytes of texts put together are those of the texts.
proof fn lemma_encode_concat(s: Seq<char>, t: Seq<char>)
    ensures
        encode_utf8(s + t) == encode_utf8(s) + encode_utf8(t),
    decreases s.len(),
{
    reveal(encode_utf8);
    if s.len() == 0 {
        assert(s + t =~= t);
        assert(encode_utf8(s) + encode_utf8(t) =~= encode_utf8(t));
    } else {
        assert((s + t).drop_first() =~= s.drop_first() + t);
        lemma_encode_concat(s.drop_first(), t);
        assert(encode_utf8(s + t) =~= encode_utf8(s) + encode_utf8(t));
    }
}

/// Bytes without a percent sign are decoded to themselves, and so they are before others.
pub proof fn law_decode_plain(a: Seq<u8>, b: Seq<u8>)
    requires
        !a.contains(0x25),
    ensures
        decoded_bytes(a) == a,
        decoded_bytes(a + b) == a + decoded_bytes(b),
    decreases a.len(),
{
    if a.len() == 0 {
        assert(a + b =~= b);
        assert(a =~= Seq::<u8>::empty());
        assert(a + decoded_bytes(b) =~= decoded_bytes(b));
    } else {
        let c = a.drop_first();
        assert(a.contains(a[0]));
        if c.contains(0x25) {
            let i = c.index_of(0x25);
            assert(a[i + 1] == 0x25);
        }
        law_decode_plain(c, b);
        assert((a + b).drop_first() =~= c + b);
        assert((a + b)[0] == a[0]);
        assert(seq![a[0]] + c =~= a);
        assert(seq![a[0]] + (c + decoded_bytes(b)) =~= a + decoded_bytes(b));
    }
}

/// Whether a byte writes a hexadecimal digit of a value, in either case.
pub open spec fn writes_digit(h: u8, v: int) -> bool {
    ||| 0 <= v < 10 && h == 0x30 + v
    ||| 10 <= v < 16 && (h == 0x41 + v - 10 || h == 0x61 + v - 10)
}

/// A percent sign and two hexadecimal digits are decoded to the byte that they write; a plus
/// sign may stand for the first digit, as zero does.
pub proof fn law_decode_triplet(h: u8, l: u8, x: int, y: int, b: Seq<u8>)
    requires
        writes_digit(h, x) || (h == 0x2b && x == 0),
        writes_digit(l, y),
    ensures
        decoded_bytes(seq![0x25, h, l] + b) == seq![(x * 16 + y) as u8] + decoded_bytes(b),
{
    let s = seq![0x25u8, h, l] + b;
    assert(s.skip(3) =~= b);
    assert(s[0] == 0x25 && s[1] == h && s[2] == l);
}

/// Whether a byte writes a hexadecimal digit.
pub open spec fn digit_byte(h: u8) -> bool {
    0x30 <= h <= 0x39 || 0x41 <= h <= 0x46 || 0x61 <= h <= 0x66
}

/// A percent sign without two such characters after it stays as it is.
pub proof fn law_decode_stray_sign(b: Seq<u8>)
    requires
        b.len() < 2 || !(digit_byte(b[0]) || b[0] == 0x2b) || !digit_byte(b[1]),
    ensures
        decoded_bytes(seq![0x25u8] + b) == seq![0x25u8] + decoded_bytes(b),
{
    let s = seq![0x25u8] + b;
    assert(s.drop_first() =~= b);
    if b.len() >= 2 {
        assert(s[1] == b[0] && s[2] == b[1]);
    }
}

/// Text whose decoded bytes are UTF-8 is decoded to the text of these bytes.
pub proof fn law_decoded_text(s: Seq<char>)
    requires
        valid_utf8(decoded_bytes(encode_utf8(s))),
    ensures
        encode_utf8(percent_decoded(s)) == decoded_bytes(encode_utf8(s)),
{
    vstd::utf8::decode_utf8_encode_utf8(decoded_bytes(encode_utf8(s)));
}

// ---- HTML ----

/// Escaping replaces the four characters that HTML gives a meaning by their references, and
/// keeps every other character, one after the other.
pub proof fn law_html_escape_by_character(s: Seq<char>, c: char)
    ensures
        html_escaped(Seq::empty()) == Seq::<char>::empty(),
        c == '&' ==> html_escaped(s.push(c)) == html_escaped(s) + "&amp;"@,
        c == '<' ==> html_escaped(s.push(c)) == html_escaped(s) + "&lt;"@,
        c == '>' ==> html_escaped(s.push(c)) == html_escaped(s) + "&gt;"@,
        c == '"' ==> html_escaped(s.push(c)) == html_escaped(s) + "&quot;"@,
        c != '&' && c != '<' && c != '>' && c != '"' ==> html_escaped(s.push(c)) == html_escaped(
            s,
        ).push(c),
{
    assert(s.push(c).drop_last() =~= s);
    assert(html_escaped(s) + seq![c] =~= html_escaped(s).push(c));
}

// ---- Base64 ----

/// The digits of Base64 in their order.
pub open spec fn base64_alphabet() -> Seq<char> {
    "ABCDEFGHIJKLMNOPQRSTUVWXYZabcdefghijklmnopqrstuvwxyz0123456789+/"@
}

/// A digit of Base64 is the one at its place in the alphabet.
proof fn lemma_alphabet(d: int)
    requires
        0 <= d < 64,
    ensures
        crate::encoding::base64_digit(d) == base64_alphabet()[d],
{
    reveal_strlit("ABCDEFGHIJKLMNOPQRSTUVWXYZabcdefghijklmnopqrstuvwxyz0123456789+/");
}

/// Base64 writes each three bytes as four digits, from the highest bits to the lowest.
pub proof fn law_base64_groups(x: u8, y: u8, z: u8, b: Seq<u8>)
    ensures
        ({
            let n = x as int * 65536 + y as int * 256 + z as int;
            base64_text(seq![x, y, z] + b) == seq![
                base64_alphabet()[n / 262144],
                base64_alphabet()[n / 4096 % 64],
                base64_alphabet()[n / 64 % 64],
                base64_alphabet()[n % 64],
            ] + base64_text(b)
        }),
{
    let s = seq![x, y, z] + b;
    let n = x as int * 65536 + y as int * 256 + z as int;
    lemma_alphabet(n / 262144);
    lemma_alphabet(n / 4096 % 64);
    lemma_alphabet(n / 64 % 64);
    lemma_alphabet(n % 64);
    assert(s[0] == x && s[1] == y && s[2] == z);
    assert(s.skip(3) =~= b);
    if b.len() == 0 {
        assert(base64_group(s) + base64_text(b) =~= base64_group(s));
    }
}

/// The bits of one and of two bytes, six by six.
#[verifier::spinoff_prover]
#[verifier::rlimit(50)]
proof fn lemma_six_bits(x: int, y: int)
    requires
        0 <= x < 256,
        0 <= y < 256,
    ensures
        (x * 65536) / 262144 == x / 4,
        (x * 65536) / 4096 % 64 == x % 4 * 16,
        (x * 65536 + y * 256) / 262144 == x / 4,
        (x * 65536 + y * 256) / 4096 % 64 == x % 4 * 16 + y / 16,
        (x * 65536 + y * 256) / 64 % 64 == y % 16 * 4,
{
    let a = x / 4;
    let b = x % 4;
    let c = y / 16;
    let d = y % 16;
    assert(x == a * 4 + b && y == c * 16 + d);
    assert((x * 65536) / 4096 == a * 64 + b * 16);
    assert((a * 64 + b * 16) % 64 == b * 16);
    assert((x * 65536 + y * 256) / 4096 == a * 64 + (b * 16 + c));
    assert((a * 64 + (b * 16 + c)) % 64 == b * 16 + c);
    assert((x * 65536 + y * 256) / 64 == (a * 64 + b * 16 + c) * 64 + d * 4);
    assert(((a * 64 + b * 16 + c) * 64 + d * 4) % 64 == d * 4);
}

/// One or two bytes at the end are written with two or three digits, and filled up.
pub proof fn law_base64_padding(x: u8, y: u8)
    ensures
        base64_text(Seq::empty()) == Seq::<char>::empty(),
        base64_text(seq![x]) == seq![
            base64_alphabet()[x as int / 4],
            base64_alphabet()[x as int % 4 * 16],
            '=',
            '=',
        ],
        base64_text(seq![x, y]) == seq![
            base64_alphabet()[x as int / 4],
            base64_alphabet()[x as int % 4 * 16 + y as int / 16],
            base64_alphabet()[y as int % 16 * 4],
            '=',
        ],
{
    lemma_six_bits(x as int, y as int);
    lemma_alphabet(x as int / 4);
    lemma_alphabet(x as int % 4 * 16);
    lemma_alphabet(x as int % 4 * 16 + y as int / 16);
    lemma_alphabet(y as int % 16 * 4);
    let one = seq![x];
    let two = seq![x, y];
    assert(crate::encoding::base64_number(one) == x as int * 65536);
    assert(crate::encoding::base64_number(two) == x as int * 65536 + y as int * 256);
    assert(base64_text(one) == base64_group(one));
    assert(base64_text(two) == base64_group(two));
}

} // verus!
