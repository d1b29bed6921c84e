//! Text as a sequence of characters: searching, trimming, numbers.

use vstd::prelude::*;
use vstd::utf8::is_ascii_chars;

verus! {

/// `String::push` of std: appends the character at the end.
pub assume_specification[ String::push ](s: &mut String, c: char)
    ensures
        final(s)@ == old(s)@.push(c),
;

/// The characters of each string.
pub open spec fn texts(v: Seq<String>) -> Seq<Seq<char>> {
    v.map_values(|s: String| s@)
}

/// What `str::to_lowercase` makes of a text after its ASCII beginning, given the text with
/// its ASCII letters in lower case.
pub uninterp spec fn unicode_lowercase(s: Seq<char>) -> Seq<char>;

/// An ASCII capital letter in lower case; other characters as they are.
pub open spec fn ascii_lower(c: char) -> char {
    if 'A' <= c <= 'Z' {
        (c as int + 32) as char
    } else {
        c
    }
}

/// Text with its ASCII letters in lower case.
pub open spec fn ascii_lowered(s: Seq<char>) -> Seq<char> {
    s.map_values(|c: char| ascii_lower(c))
}

/// Whether two texts are the same but for the case of ASCII letters.
pub open spec fn same_but_for_ascii_case(s: Seq<char>, t: Seq<char>) -> bool {
    ascii_lowered(s) == ascii_lowered(t)
}

/// The length of the ASCII beginning of a text.
pub open spec fn ascii_len(s: Seq<char>) -> nat
    decreases s.len(),
{
    if s.len() > 0 && '\0' <= s.first() <= '\u{7f}' {
        1 + ascii_len(s.drop_first())
    } else {
        0
    }
}

/// The length of the ASCII beginning of a text up to its last slash.
pub open spec fn slash_len(s: Seq<char>) -> nat
    decreases s.len(),
{
    if s.len() > 0 && '\0' <= s.first() <= '\u{7f}' {
        let rest = slash_len(s.drop_first());
        if rest > 0 {
            rest + 1
        } else if s.first() == '/' {
            1
        } else {
            0
        }
    } else {
        0
    }
}

/// Text in lower case.
pub open spec fn lowercased(s: Seq<char>) -> Seq<char> {
    if is_ascii_chars(s) {
        ascii_lowered(s)
    } else {
        ascii_lowered(s.take(ascii_len(s) as int)) + unicode_lowercase(
            ascii_lowered(s.skip(slash_len(s) as int)),
        )
    }
}

/// `str::to_lowercase` of std, which maps character by character as Unicode does. The one
/// character whose lower case depends on the text around it is the capital sigma, on
/// whether it ends a word. So ASCII letters are mapped one by one. What becomes of the text
/// from its first other character on is only named here: it depends on this text and on
/// the ASCII characters before it, back to a slash, which no word reaches across, and not
/// on the case of ASCII letters.
#[verifier::external_body]
pub(crate) fn to_lowercase(s: &str) -> (r: String)
    ensures
        r@ == (if is_ascii_chars(s@) {
            ascii_lowered(s@)
        } else {
            ascii_lowered(s@.take(ascii_len(s@) as int)) + unicode_lowercase(
                ascii_lowered(s@.skip(slash_len(s@) as int)),
            )
        }),
{
    s.to_lowercase()
}

/// The ASCII beginning of a text is ASCII, and all of the text where the text is.
proof fn lemma_ascii_len(s: Seq<char>)
    ensures
        slash_len(s) <= ascii_len(s) <= s.len(),
        is_ascii_chars(s) <==> ascii_len(s) == s.len(),
    decreases s.len(),
{
    if s.len() > 0 {
        let rest = s.drop_first();
        lemma_ascii_len(rest);
        assert(s =~= seq![s[0]] + rest);
        vstd::utf8::is_ascii_chars_concat(s, seq![s[0]], rest);
        if '\0' <= s[0] <= '\u{7f}' {
            assert(is_ascii_chars(seq![s[0]]));
        } else {
            assert(!is_ascii_chars(seq![s[0]])) by {
                assert(seq![s[0]][0] == s[0]);
            }
        }
    }
}

/// ASCII text before another text lengthens its ASCII beginning.
proof fn lemma_ascii_len_concat(p: Seq<char>, s: Seq<char>)
    requires
        is_ascii_chars(p),
    ensures
        ascii_len(p + s) == p.len() + ascii_len(s),
        p.len() > 0 && p.last() == '/' ==> slash_len(p + s) == p.len() + slash_len(s),
    decreases p.len(),
{
    if p.len() == 0 {
        assert(p + s =~= s);
    } else {
        assert((p + s).drop_first() =~= p.drop_first() + s);
        assert('\0' <= p[0] <= '\u{7f}');
        assert forall|i: int| 0 <= i < p.drop_first().len() implies '\0' <= #[trigger] p.drop_first()[i]
            <= '\u{7f}' by {
            assert('\0' <= p[i + 1] <= '\u{7f}');
        }
        lemma_ascii_len_concat(p.drop_first(), s);
    }
}

/// The case of ASCII letters is of no account to the ASCII beginning of a text.
proof fn lemma_ascii_len_lowered(s: Seq<char>)
    ensures
        ascii_len(ascii_lowered(s)) == ascii_len(s),
        slash_len(ascii_lowered(s)) == slash_len(s),
    decreases s.len(),
{
    if s.len() > 0 {
        assert(ascii_lowered(s).drop_first() =~= ascii_lowered(s.drop_first()));
        lemma_ascii_len_lowered(s.drop_first());
    }
}

/// ASCII text up to a slash is put in lower case for itself, and so is what follows it.
pub proof fn law_lower_case_after_slash(p: Seq<char>, s: Seq<char>)
    requires
        is_ascii_chars(p),
        p.len() > 0,
        p.last() == '/',
    ensures
        lowercased(p + s) == ascii_lowered(p) + lowercased(s),
{
    lemma_ascii_len_concat(p, s);
    lemma_ascii_len(s);
    lemma_ascii_len(p + s);
    if is_ascii_chars(s) {
        assert(ascii_lowered(p + s) =~= ascii_lowered(p) + ascii_lowered(s));
    } else {
        let n = ascii_len(s) as int;
        assert((p + s).skip((p.len() + slash_len(s)) as int) =~= s.skip(slash_len(s) as int));
        assert(ascii_lowered((p + s).take(p.len() + n)) =~= ascii_lowered(p) + ascii_lowered(
            s.take(n),
        ));
        assert(lowercased(p + s) =~= ascii_lowered(p) + lowercased(s));
    }
}

/// Texts that are the same but for the case of ASCII letters have the same lower case.
pub proof fn law_lower_case_ignores_ascii_case(s: Seq<char>, t: Seq<char>)
    requires
        same_but_for_ascii_case(s, t),
    ensures
        lowercased(s) == lowercased(t),
{
    lemma_ascii_len_lowered(s);
    lemma_ascii_len_lowered(t);
    lemma_ascii_len(s);
    lemma_ascii_len(t);
    assert(ascii_lowered(s).len() == s.len() && ascii_lowered(t).len() == t.len());
    let n = ascii_len(s) as int;
    let k = slash_len(s) as int;
    assert(ascii_lowered(s.take(n)) =~= ascii_lowered(s).take(n));
    assert(ascii_lowered(t.take(n)) =~= ascii_lowered(t).take(n));
    assert(ascii_lowered(s.skip(k)) =~= ascii_lowered(s).skip(k));
    assert(ascii_lowered(t.skip(k)) =~= ascii_lowered(t).skip(k));
}

/// Text begins in lower case with what its ASCII beginning is in lower case.
pub proof fn law_lower_case_of_ascii_beginning(p: Seq<char>, s: Seq<char>)
    requires
        is_ascii_chars(p),
    ensures
        ascii_lowered(p).is_prefix_of(lowercased(p + s)),
{
    lemma_ascii_len_concat(p, s);
    lemma_ascii_len(s);
    lemma_ascii_len(p + s);
    assert(lowercased(p + s).take(p.len() as int) =~= ascii_lowered(p));
}

/// The result of `f` on each item of `s`, one after the other.
pub open spec fn joined<A, B>(s: Seq<A>, f: spec_fn(A) -> Seq<B>) -> Seq<B>
    decreases s.len(),
{
    if s.len() == 0 {
        Seq::empty()
    } else {
        joined(s.drop_last(), f) + f(s.last())
    }
}

/// The joined text of two sequences put together is the two joined texts put together.
pub proof fn lemma_joined_concat<A, B>(s: Seq<A>, t: Seq<A>, f: spec_fn(A) -> Seq<B>)
    ensures
        joined(s + t, f) == joined(s, f) + joined(t, f),
    decreases t.len(),
{
    if t.len() == 0 {
        assert(s + t =~= s);
        assert(joined(s, f) + joined(t, f) =~= joined(s, f));
    } else {
        assert((s + t).drop_last() =~= s + t.drop_last());
        lemma_joined_concat(s, t.drop_last(), f);
        assert(joined(s, f) + joined(t, f) =~= joined(s, f) + joined(t.drop_last(), f) + f(
            t.last(),
        ));
    }
}

/// One more item appends its own text.
pub proof fn lemma_joined_push<A, B>(s: Seq<A>, a: A, f: spec_fn(A) -> Seq<B>)
    ensures
        joined(s.push(a), f) == joined(s, f) + f(a),
{
    assert(s.push(a).drop_last() =~= s);
}

/// Characters with the Unicode property `White_Space`.
pub open spec fn white_space(c: char) -> bool {
    ||| '\u{9}' <= c <= '\u{d}'
    ||| c == '\u{20}'
    ||| c == '\u{85}'
    ||| c == '\u{a0}'
    ||| c == '\u{1680}'
    ||| '\u{2000}' <= c <= '\u{200a}'
    ||| c == '\u{2028}'
    ||| c == '\u{2029}'
    ||| c == '\u{202f}'
    ||| c == '\u{205f}'
    ||| c == '\u{3000}'
}

/// `s` without the white space before its first other character.
pub open spec fn trim_start(s: Seq<char>) -> Seq<char>
    decreases s.len(),
{
    if s.len() > 0 && white_space(s.first()) {
        trim_start(s.drop_first())
    } else {
        s
    }
}

/// `s` without the white space after its last other character.
pub open spec fn trim_end(s: Seq<char>) -> Seq<char>
    decreases s.len(),
{
    if s.len() > 0 && white_space(s.last()) {
        trim_end(s.drop_last())
    } else {
        s
    }
}

/// `s` without the white space at both ends.
pub open spec fn trimmed(s: Seq<char>) -> Seq<char> {
    trim_end(trim_start(s))
}

/// Whether `p` stands in `s` at `i`.
pub open spec fn occurs_at(s: Seq<char>, p: Seq<char>, i: int) -> bool {
    0 <= i && i + p.len() <= s.len() && s.subrange(i, i + p.len()) == p
}

/// Whether `p` stands somewhere in `s`.
pub open spec fn occurs(s: Seq<char>, p: Seq<char>) -> bool {
    exists|i: int| occurs_at(s, p, i)
}

/// `s` without its occurrences of `p`, found from the left and not overlapping.
pub open spec fn without(s: Seq<char>, p: Seq<char>) -> Seq<char>
    decreases s.len(),
{
    if p.len() == 0 || s.len() < p.len() {
        s
    } else if p.is_prefix_of(s) {
        without(s.skip(p.len() as int), p)
    } else {
        seq![s.first()] + without(s.drop_first(), p)
    }
}

/// `s` without the occurrences of `p` that it begins with.
pub open spec fn without_leading(s: Seq<char>, p: Seq<char>) -> Seq<char>
    decreases s.len(),
{
    if p.len() > 0 && p.is_prefix_of(s) {
        without_leading(s.skip(p.len() as int), p)
    } else {
        s
    }
}

/// `s` without the `c`s that it ends with.
pub open spec fn without_trailing(s: Seq<char>, c: char) -> Seq<char>
    decreases s.len(),
{
    if s.len() > 0 && s.last() == c {
        without_trailing(s.drop_last(), c)
    } else {
        s
    }
}

/// `s` up to its first `c`, all of it where there is none.
pub open spec fn before_first(s: Seq<char>, c: char) -> Seq<char>
    decreases s.len(),
{
    if s.len() == 0 || s.first() == c {
        Seq::empty()
    } else {
        seq![s.first()] + before_first(s.drop_first(), c)
    }
}

/// The decimal digit of a number below ten.
pub open spec fn digit_char(d: int) -> char {
    ('0' as int + d) as char
}

/// A number in decimal, without leading zeros.
pub open spec fn decimal_text(n: int) -> Seq<char>
    decreases n,
{
    if n < 10 {
        seq![digit_char(n)]
    } else {
        decimal_text(n / 10).push(digit_char(n % 10))
    }
}

/// Whether `s` consists of decimal digits only.
pub open spec fn all_digits(s: Seq<char>) -> bool {
    forall|i: int| 0 <= i < s.len() ==> '0' <= #[trigger] s[i] <= '9'
}

/// The number that a row of decimal digits stands for.
pub open spec fn digits_value(s: Seq<char>) -> int
    decreases s.len(),
{
    if s.len() == 0 {
        0
    } else {
        digits_value(s.drop_last()) * 10 + (s.last() as int - '0' as int)
    }
}

/// The number that `s` writes: decimal digits after an optional plus sign, if it fits.
pub open spec fn parsed_usize(s: Seq<char>) -> Option<usize> {
    let digits = if s.len() > 0 && s.first() == '+' {
        s.drop_first()
    } else {
        s
    };
    if digits.len() > 0 && all_digits(digits) && digits_value(digits) <= usize::MAX {
        Some(digits_value(digits) as usize)
    } else {
        None
    }
}

/// A number written in decimal is read back.
pub proof fn law_decimal_round_trip(n: usize)
    ensures
        parsed_usize(decimal_text(n as int)) == Some(n),
{
    lemma_decimal_digits(n as int);
}

/// A decimal text is a non-empty row of digits with the number as its value.
pub proof fn lemma_decimal_digits(n: int)
    requires
        n >= 0,
    ensures
        decimal_text(n).len() > 0,
        all_digits(decimal_text(n)),
        digits_value(decimal_text(n)) == n,
    decreases n,
{
    if n < 10 {
        reveal_with_fuel(digits_value, 2);
        assert(decimal_text(n).drop_last() =~= Seq::<char>::empty());
    } else {
        lemma_decimal_digits(n / 10);
        assert(decimal_text(n).drop_last() =~= decimal_text(n / 10));
    }
}

/// A row of digits is worth at least as much as each row that it begins with.
proof fn lemma_digits_value_grows(s: Seq<char>, k: int)
    requires
        all_digits(s),
        0 <= k <= s.len(),
    ensures
        0 <= digits_value(s.take(k)) <= digits_value(s),
    decreases s.len(),
{
    if k == s.len() {
        assert(s.take(k) =~= s);
        if s.len() > 0 {
            lemma_digits_value_grows(s.drop_last(), k - 1);
        }
    } else {
        assert(s.take(k) =~= s.drop_last().take(k));
        lemma_digits_value_grows(s.drop_last(), k);
    }
}

/// The characters of a string.
pub fn chars_of(s: &str) -> (r: Vec<char>)
    ensures
        r@ == s@,
{
    let mut out: Vec<char> = Vec::new();
    for c in it: s.chars()
        invariant
            it.seq() == s@,
            out@ == s@.take(it.index() as int),
    {
        out.push(c);
        assert(s@.take(it.index() as int).push(c) =~= s@.take(it.index() + 1));
    }
    assert(s@.take(s@.len() as int) =~= s@);
    out
}

/// The string made of the characters of `v` from `from` up to, not including, `to`.
pub fn text_of(v: &Vec<char>, from: usize, to: usize) -> (r: String)
    requires
        from <= to <= v@.len(),
    ensures
        r@ == v@.subrange(from as int, to as int),
{
    let mut out: String = String::new();
    let mut i: usize = from;
    while i < to
        invariant
            from <= i <= to <= v@.len(),
            out@ == v@.subrange(from as int, i as int),
        decreases to - i,
    {
        out.push(v[i]);
        assert(v@.subrange(from as int, i as int).push(v@[i as int]) =~= v@.subrange(
            from as int,
            i + 1,
        ));
        i += 1;
    }
    out
}

/// A copy of a string slice.
pub fn copy_of(s: &str) -> (r: String)
    ensures
        r@ == s@,
{
    s.to_owned()
}

/// Whether the character is white space.
pub fn is_white_space(c: char) -> (r: bool)
    ensures
        r == white_space(c),
{
    ('\u{9}' <= c && c <= '\u{d}') || c == '\u{20}' || c == '\u{85}' || c == '\u{a0}' || c
        == '\u{1680}' || ('\u{2000}' <= c && c <= '\u{200a}') || c == '\u{2028}' || c == '\u{2029}'
        || c == '\u{202f}' || c == '\u{205f}' || c == '\u{3000}'
}

/// Whether `p` stands in `v` at `at`.
fn chars_occur_at(v: &Vec<char>, p: &Vec<char>, at: usize) -> (r: bool)
    ensures
        r == occurs_at(v@, p@, at as int),
{
    if at > v.len() || p.len() > v.len() - at {
        return false;
    }
    let n: usize = v.len();
    let mut i: usize = 0;
    while i < p.len()
        invariant
            n == v@.len(),
            at <= v@.len(),
            i <= p@.len() <= v@.len() - at,
            forall|j: int| 0 <= j < i ==> v@[at + j] == p@[j],
        decreases p.len() - i,
    {
        if v[at + i] != p[i] {
            assert(v@.subrange(at as int, at + p@.len())[i as int] != p@[i as int]);
            return false;
        }
        i += 1;
    }
    assert(v@.subrange(at as int, at + p@.len()) =~= p@);
    true
}

/// Whether two strings hold the same characters.
pub fn same(a: &str, b: &str) -> (r: bool)
    ensures
        r == (a@ == b@),
{
    let v: Vec<char> = chars_of(a);
    let p: Vec<char> = chars_of(b);
    if v.len() != p.len() {
        return false;
    }
    assert(v@.subrange(0, p@.len() as int) =~= v@);
    chars_occur_at(&v, &p, 0)
}

/// Whether `s` begins with `p`.
pub fn starts_with(s: &str, p: &str) -> (r: bool)
    ensures
        r == p@.is_prefix_of(s@),
{
    let v: Vec<char> = chars_of(s);
    let q: Vec<char> = chars_of(p);
    chars_occur_at(&v, &q, 0)
}

/// Whether `p` stands somewhere in `s`.
pub fn contains(s: &str, p: &str) -> (r: bool)
    ensures
        r == occurs(s@, p@),
{
    let v: Vec<char> = chars_of(s);
    let q: Vec<char> = chars_of(p);
    let mut i: usize = 0;
    while i < v.len()
        invariant
            v@ == s@,
            q@ == p@,
            i <= v@.len(),
            forall|j: int| 0 <= j < i ==> !occurs_at(s@, p@, j),
        decreases v.len() - i,
    {
        if chars_occur_at(&v, &q, i) {
            return true;
        }
        i += 1;
    }
    let last: bool = chars_occur_at(&v, &q, i);
    assert forall|j: int| occurs_at(s@, p@, j) implies j <= i by {}
    last
}

/// What follows `p` in a string that begins with it.
pub fn strip_prefix(s: &str, p: &str) -> (r: Option<String>)
    ensures
        r is Some <==> p@.is_prefix_of(s@),
        r matches Some(rest) ==> rest@ == s@.skip(p@.len() as int),
{
    let v: Vec<char> = chars_of(s);
    let q: Vec<char> = chars_of(p);
    if chars_occur_at(&v, &q, 0) {
        Some(text_of(&v, q.len(), v.len()))
    } else {
        None
    }
}

/// The string without the white space at both ends.
pub fn trim(s: &str) -> (r: String)
    ensures
        r@ == trimmed(s@),
{
    let v: Vec<char> = chars_of(s);
    let mut from: usize = 0;
    assert(v@.skip(0) =~= v@);
    while from < v.len() && is_white_space(v[from])
        invariant
            from <= v@.len(),
            trim_start(v@) == trim_start(v@.skip(from as int)),
        decreases v.len() - from,
    {
        assert(v@.skip(from as int).drop_first() =~= v@.skip(from + 1));
        from += 1;
    }
    let mut to: usize = v.len();
    assert(v@.subrange(from as int, to as int) =~= v@.skip(from as int));
    while from < to && is_white_space(v[to - 1])
        invariant
            from <= to <= v@.len(),
            trim_end(v@.skip(from as int)) == trim_end(v@.subrange(from as int, to as int)),
        decreases to,
    {
        assert(v@.subrange(from as int, to as int).drop_last() =~= v@.subrange(
            from as int,
            to - 1,
        ));
        to -= 1;
    }
    text_of(&v, from, to)
}

/// Whether the string holds white space.
pub fn has_white_space(s: &str) -> (r: bool)
    ensures
        r == exists|i: int| 0 <= i < s@.len() && white_space(#[trigger] s@[i]),
{
    let v: Vec<char> = chars_of(s);
    let mut i: usize = 0;
    while i < v.len()
        invariant
            v@ == s@,
            i <= v@.len(),
            forall|j: int| 0 <= j < i ==> !white_space(#[trigger] s@[j]),
        decreases v.len() - i,
    {
        if is_white_space(v[i]) {
            return true;
        }
        i += 1;
    }
    false
}

/// Whether the string holds the character.
pub fn has_char(s: &str, c: char) -> (r: bool)
    ensures
        r == s@.contains(c),
{
    let v: Vec<char> = chars_of(s);
    let mut i: usize = 0;
    while i < v.len()
        invariant
            v@ == s@,
            i <= v@.len(),
            forall|j: int| 0 <= j < i ==> s@[j] != c,
        decreases v.len() - i,
    {
        if v[i] == c {
            return true;
        }
        i += 1;
    }
    false
}

/// The string without its occurrences of `p`, found from the left and not overlapping.
pub fn remove_all(s: &str, p: &str) -> (r: String)
    requires
        p@.len() > 0,
    ensures
        r@ == without(s@, p@),
{
    let v: Vec<char> = chars_of(s);
    let q: Vec<char> = chars_of(p);
    let mut out: String = String::new();
    let mut i: usize = 0;
    assert(v@.skip(0) =~= v@);
    assert(Seq::<char>::empty() + without(v@, q@) =~= without(v@, q@));
    while i < v.len()
        invariant
            q@.len() > 0,
            i <= v@.len(),
            without(v@, q@) == out@ + without(v@.skip(i as int), q@),
        decreases v.len() - i,
    {
        let ghost rest = v@.skip(i as int);
        if chars_occur_at(&v, &q, i) {
            proof {
                assert(rest.subrange(0, q@.len() as int) =~= v@.subrange(i as int, i + q@.len()));
                assert(rest.skip(q@.len() as int) =~= v@.skip(i + q@.len()));
            }
            i += q.len();
        } else {
            proof {
                if rest.len() >= q@.len() {
                    assert(rest.subrange(0, q@.len() as int) =~= v@.subrange(
                        i as int,
                        i + q@.len(),
                    ));
                } else {
                    lemma_without_short(rest, q@);
                }
                assert(rest.drop_first() =~= v@.skip(i + 1));
                assert(out@ + (seq![v@[i as int]] + without(v@.skip(i + 1), q@)) =~= out@.push(
                    v@[i as int],
                ) + without(v@.skip(i + 1), q@));
            }
            out.push(v[i]);
            i += 1;
        }
    }
    assert(out@ + without(v@.skip(i as int), q@) =~= out@);
    out
}

/// Nothing is taken out of a text that is shorter than what is looked for.
proof fn lemma_without_short(s: Seq<char>, p: Seq<char>)
    requires
        0 < s.len() < p.len(),
    ensures
        without(s, p) == seq![s.first()] + without(s.drop_first(), p),
{
    assert(s =~= seq![s.first()] + s.drop_first());
}

/// The string without the occurrences of `p` that it begins with.
pub fn remove_leading(s: &str, p: &str) -> (r: String)
    requires
        p@.len() > 0,
    ensures
        r@ == without_leading(s@, p@),
{
    let v: Vec<char> = chars_of(s);
    let q: Vec<char> = chars_of(p);
    let mut i: usize = 0;
    assert(v@.skip(0) =~= v@);
    loop
        invariant
            q@.len() > 0,
            i <= v@.len(),
            without_leading(v@, q@) == without_leading(v@.skip(i as int), q@),
        ensures
            i <= v@.len(),
            without_leading(v@, q@) == v@.skip(i as int),
        decreases v.len() - i,
    {
        let ghost rest = v@.skip(i as int);
        if !chars_occur_at(&v, &q, i) {
            proof {
                if rest.len() >= q@.len() {
                    assert(rest.subrange(0, q@.len() as int) =~= v@.subrange(
                        i as int,
                        i + q@.len(),
                    ));
                }
            }
            break;
        }
        proof {
            assert(rest.subrange(0, q@.len() as int) =~= v@.subrange(i as int, i + q@.len()));
            assert(rest.skip(q@.len() as int) =~= v@.skip(i + q@.len()));
        }
        i += q.len();
    }
    assert(v@.subrange(i as int, v@.len() as int) =~= v@.skip(i as int));
    text_of(&v, i, v.len())
}

/// The string without the `c`s that it ends with.
pub fn remove_trailing(s: &str, c: char) -> (r: String)
    ensures
        r@ == without_trailing(s@, c),
{
    let v: Vec<char> = chars_of(s);
    let mut to: usize = v.len();
    assert(v@.subrange(0, to as int) =~= v@);
    while to > 0 && v[to - 1] == c
        invariant
            to <= v@.len(),
            without_trailing(v@, c) == without_trailing(v@.subrange(0, to as int), c),
        decreases to,
    {
        assert(v@.subrange(0, to as int).drop_last() =~= v@.subrange(0, to - 1));
        to -= 1;
    }
    text_of(&v, 0, to)
}

/// The string up to its first `c`.
pub fn head_before(s: &str, c: char) -> (r: String)
    ensures
        r@ == before_first(s@, c),
{
    let v: Vec<char> = chars_of(s);
    let mut i: usize = 0;
    assert(v@.skip(0) =~= v@);
    assert(v@.subrange(0, 0) + before_first(v@, c) =~= before_first(v@, c));
    while i < v.len() && v[i] != c
        invariant
            i <= v@.len(),
            before_first(v@, c) == v@.subrange(0, i as int) + before_first(v@.skip(i as int), c),
        decreases v.len() - i,
    {
        proof {
            let rest = v@.skip(i as int);
            assert(rest.drop_first() =~= v@.skip(i + 1));
            assert(v@.subrange(0, i as int) + (seq![rest.first()] + before_first(
                v@.skip(i + 1),
                c,
            )) =~= v@.subrange(0, i + 1) + before_first(v@.skip(i + 1), c));
        }
        i += 1;
    }
    assert(v@.subrange(0, i as int) + before_first(v@.skip(i as int), c) =~= v@.subrange(
        0,
        i as int,
    ));
    text_of(&v, 0, i)
}

/// A number in decimal.
pub fn decimal(n: usize) -> (r: String)
    ensures
        r@ == decimal_text(n as int),
    decreases n,
{
    let digit: char = (0x30u8 + (n % 10) as u8) as char;
    let mut out: String = if n < 10 {
        String::new()
    } else {
        decimal(n / 10)
    };
    out.push(digit);
    assert(n < 10 ==> Seq::<char>::empty().push(digit) =~= seq![digit]);
    out
}

/// The number that the string writes in decimal, an optional plus sign before it.
pub fn parse_usize(s: &str) -> (r: Option<usize>)
    ensures
        r == parsed_usize(s@),
{
    let v: Vec<char> = chars_of(s);
    let from: usize = if v.len() > 0 && v[0] == '+' {
        1
    } else {
        0
    };
    let ghost digits = if s@.len() > 0 && s@.first() == '+' {
        s@.drop_first()
    } else {
        s@
    };
    assert(digits =~= v@.skip(from as int));
    if from == v.len() {
        return None;
    }
    let mut value: usize = 0;
    let mut i: usize = from;
    while i < v.len()
        invariant
            from <= i <= v@.len(),
            digits == v@.skip(from as int),
            digits == (if s@.len() > 0 && s@.first() == '+' {
                s@.drop_first()
            } else {
                s@
            }),
            forall|j: int| 0 <= j < i - from ==> '0' <= #[trigger] digits[j] <= '9',
            value == digits_value(digits.take(i - from)),
        decreases v.len() - i,
    {
        let c: char = v[i];
        assert(digits[i - from] == c);
        if c < '0' || c > '9' {
            assert(!all_digits(digits));
            return None;
        }
        let d: usize = (c as u32 - '0' as u32) as usize;
        let ghost k: int = i - from;
        assert(digits.take(k + 1).drop_last() =~= digits.take(k));
        assert(digits_value(digits.take(k + 1)) == value * 10 + d);
        if value > usize::MAX / 10 || value * 10 > usize::MAX - d {
            proof {
                if all_digits(digits) {
                    lemma_digits_value_grows(digits, k + 1);
                }
            }
            return None;
        }
        value = value * 10 + d;
        i += 1;
    }
    assert(digits.take(digits.len() as int) =~= digits);
    Some(value)
}

} // verus!
