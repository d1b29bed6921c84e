//! What the operations on text are for.

use crate::text::{
    before_first, decimal_text, occurs, occurs_at, parsed_usize, trim_end, trim_start, trimmed,
    white_space, without, without_leading, without_trailing,
};
use vstd::prelude::*;

verus! {

/// Whether a text holds nothing but white space.
pub open spec fn blank(s: Seq<char>) -> bool {
    forall|i: int| 0 <= i < s.len() ==> white_space(#[trigger] s[i])
}

/// Whether a text holds something, and no white space at its ends.
pub open spec fn tight(u: Seq<char>) -> bool {
    u.len() > 0 && !white_space(u[0]) && !white_space(u[u.len() - 1])
}

/// White space is what Unicode calls so: the six such characters of ASCII, the next-line
/// and no-break space of Latin-1, and those of the later blocks. No other character is.
pub proof fn law_white_space(c: char)
    ensures
        c == '\t' || c == '\n' || c == '\u{b}' || c == '\u{c}' || c == '\r' || c == ' '
            ==> white_space(c),
        c == '\u{85}' || c == '\u{a0}' || c == '\u{1680}' || c == '\u{2028}' || c == '\u{2029}' || c
            == '\u{202f}' || c == '\u{205f}' || c == '\u{3000}' ==> white_space(c),
        0x2000 <= c as int <= 0x200a ==> white_space(c),
        c as int <= 0x8 || 0xe <= c as int <= 0x1f || 0x21 <= c as int <= 0x84 || 0x86 <= c as int
            <= 0x9f || 0xa1 <= c as int <= 0x167f || 0x1681 <= c as int <= 0x1fff || 0x200b
            <= c as int <= 0x2027 || 0x202a <= c as int <= 0x202e || 0x2030 <= c as int <= 0x205e
            || 0x2060 <= c as int <= 0x2fff || 0x3001 <= c as int ==> !white_space(c),
{
}

// ---- trimming ----

/// White space before a text is taken off.
proof fn lemma_trim_start(a: Seq<char>, s: Seq<char>)
    requires
        blank(a),
        s.len() > 0 ==> !white_space(s[0]),
    ensures
        trim_start(a + s) == s,
    decreases a.len(),
{
    if a.len() == 0 {
        assert(a + s =~= s);
    } else {
        assert((a + s).drop_first() =~= a.drop_first() + s);
        assert((a + s).first() == a[0]);
        assert forall|i: int| 0 <= i < a.drop_first().len() implies white_space(
            #[trigger] a.drop_first()[i],
        ) by {
            assert(white_space(a[i + 1]));
        }
        lemma_trim_start(a.drop_first(), s);
    }
}

/// White space after a text is taken off.
proof fn lemma_trim_end(s: Seq<char>, b: Seq<char>)
    requires
        blank(b),
        s.len() > 0 ==> !white_space(s[s.len() - 1]),
    ensures
        trim_end(s + b) == s,
    decreases b.len(),
{
    if b.len() == 0 {
        assert(s + b =~= s);
    } else {
        assert((s + b).drop_last() =~= s + b.drop_last());
        assert((s + b).last() == b[b.len() - 1]);
        lemma_trim_end(s, b.drop_last());
    }
}

/// Trimming takes the white space off both ends of a text, and nothing else.
pub proof fn law_trim(a: Seq<char>, u: Seq<char>, b: Seq<char>)
    requires
        blank(a),
        tight(u),
        blank(b),
    ensures
        trimmed(a + u + b) == u,
{
    assert(a + u + b =~= a + (u + b));
    lemma_trim_start(a, u + b);
    lemma_trim_end(u, b);
}

/// Trimming leaves nothing of white space, and something of every other text.
pub proof fn law_trim_blank(s: Seq<char>)
    ensures
        blank(s) <==> trimmed(s).len() == 0,
{
    if blank(s) {
        assert(s + Seq::<char>::empty() =~= s);
        lemma_trim_start(s, Seq::empty());
    } else {
        let i = choose|i: int| 0 <= i < s.len() && !white_space(#[trigger] s[i]);
        lemma_trim_start_keeps(s, i);
        let t = trim_start(s);
        let j = i - (s.len() - t.len());
        assert(t[j] == s[i]);
        lemma_trim_end_keeps(t, j);
    }
}

/// A character that is no white space stays when the start is trimmed.
proof fn lemma_trim_start_keeps(s: Seq<char>, i: int)
    requires
        0 <= i < s.len(),
        !white_space(s[i]),
    ensures
        trim_start(s).len() <= s.len(),
        s.len() - trim_start(s).len() <= i,
        trim_start(s) == s.skip(s.len() - trim_start(s).len()),
    decreases s.len(),
{
    if white_space(s.first()) {
        lemma_trim_start_keeps(s.drop_first(), i - 1);
        let n = s.drop_first().len() - trim_start(s).len();
        assert(s.drop_first().skip(n as int) =~= s.skip(n + 1));
    } else {
        assert(s.skip(0) =~= s);
    }
}

/// A character that is no white space stays when the end is trimmed.
proof fn lemma_trim_end_keeps(s: Seq<char>, i: int)
    requires
        0 <= i < s.len(),
        !white_space(s[i]),
    ensures
        trim_end(s).len() > i,
    decreases s.len(),
{
    if white_space(s.last()) {
        lemma_trim_end_keeps(s.drop_last(), i);
    }
}

// ---- searching and removing ----

/// A text occurs in another exactly where this is made of something, the text, and
/// something.
pub proof fn law_occurs(s: Seq<char>, p: Seq<char>)
    ensures
        occurs(s, p) <==> exists|a: Seq<char>, b: Seq<char>| s == #[trigger] (a + p + b),
{
    if occurs(s, p) {
        let i = choose|i: int| occurs_at(s, p, i);
        let a = s.take(i);
        let b = s.skip(i + p.len());
        assert(s =~= a + p + b);
    }
    if exists|a: Seq<char>, b: Seq<char>| s == #[trigger] (a + p + b) {
        let (a, b) = choose|a: Seq<char>, b: Seq<char>| s == #[trigger] (a + p + b);
        assert(s.subrange(a.len() as int, (a.len() + p.len()) as int) =~= p);
        assert(occurs_at(s, p, a.len() as int));
    }
}

/// A text in which another does not occur stays as it is when this is removed.
pub proof fn law_remove_absent(s: Seq<char>, p: Seq<char>)
    requires
        p.len() > 0,
        !occurs(s, p),
    ensures
        without(s, p) == s,
    decreases s.len(),
{
    if s.len() >= p.len() {
        if p.is_prefix_of(s) {
            assert(occurs_at(s, p, 0));
        } else {
            let t = s.drop_first();
            if occurs(t, p) {
                let i = choose|i: int| occurs_at(t, p, i);
                assert(s.subrange(i + 1, i + 1 + p.len()) =~= t.subrange(i, i + p.len()));
                assert(occurs_at(s, p, i + 1));
            }
            law_remove_absent(t, p);
            assert(seq![s.first()] + t =~= s);
        }
    }
}

/// The first occurrence of a text is removed, what stands before it stays, and the rest is
/// treated in the same way.
pub proof fn law_remove_first(a: Seq<char>, p: Seq<char>, b: Seq<char>)
    requires
        p.len() > 0,
        forall|i: int| 0 <= i < a.len() ==> !occurs_at(a + p + b, p, i),
    ensures
        without(a + p + b, p) == a + without(b, p),
    decreases a.len(),
{
    let s = a + p + b;
    if a.len() == 0 {
        assert(s.subrange(0, p.len() as int) =~= p);
        assert(s.skip(p.len() as int) =~= b);
        assert(a + without(b, p) =~= without(b, p));
    } else {
        let c = a.drop_first();
        assert(s.drop_first() =~= c + p + b);
        assert forall|i: int| 0 <= i < c.len() implies !occurs_at(c + p + b, p, i) by {
            if occurs_at(c + p + b, p, i) {
                assert(s.subrange(i + 1, i + 1 + p.len()) =~= (c + p + b).subrange(
                    i,
                    i + p.len(),
                ));
                assert(occurs_at(s, p, i + 1));
            }
        }
        assert(!occurs_at(s, p, 0));
        law_remove_first(c, p, b);
        assert(seq![s.first()] + (c + without(b, p)) =~= a + without(b, p));
    }
}

/// What a text begins with is removed as often as it begins with it.
pub proof fn law_remove_leading(p: Seq<char>, s: Seq<char>)
    requires
        p.len() > 0,
    ensures
        without_leading(p + s, p) == without_leading(s, p),
        !p.is_prefix_of(s) ==> without_leading(s, p) == s,
{
    assert(p.is_prefix_of(p + s));
    assert((p + s).skip(p.len() as int) =~= s);
}

/// What a text ends with is removed as often as it ends with it.
pub proof fn law_remove_trailing(s: Seq<char>, c: char)
    ensures
        without_trailing(s.push(c), c) == without_trailing(s, c),
        s.len() > 0 && s[s.len() - 1] != c ==> without_trailing(s, c) == s,
        without_trailing(Seq::empty(), c) == Seq::<char>::empty(),
{
    assert(s.push(c).drop_last() =~= s);
}

/// What stands before the first of a character is all up to there, or all of the text.
pub proof fn law_before_first(a: Seq<char>, c: char, b: Seq<char>)
    requires
        !a.contains(c),
    ensures
        before_first(a + seq![c] + b, c) == a,
        before_first(a, c) == a,
    decreases a.len(),
{
    let s = a + seq![c] + b;
    if a.len() == 0 {
        assert(s.first() == c);
        assert(a =~= Seq::<char>::empty());
    } else {
        let d = a.drop_first();
        assert(s.drop_first() =~= d + seq![c] + b);
        assert(s.first() == a[0]);
        assert(a.contains(a[0]));
        if d.contains(c) {
            let i = d.index_of(c);
            assert(a[i + 1] == c);
        }
        law_before_first(d, c, b);
        assert(seq![a[0]] + d =~= a);
    }
}

// ---- numbers ----

/// A number is written digit by digit: those of its tenth, then its last one.
pub proof fn law_decimal_digits(n: int, d: int)
    requires
        n >= 0,
        0 <= d < 10,
    ensures
        decimal_text(d) == seq![('0' as int + d) as char],
        n > 0 ==> decimal_text(n * 10 + d) == decimal_text(n).push(('0' as int + d) as char),
{
    assert((n * 10 + d) / 10 == n && (n * 10 + d) % 10 == d);
}

/// One more digit makes ten times the number and the digit of it, where that fits.
pub proof fn law_parse_digits(s: Seq<char>, d: char)
    requires
        '0' <= d <= '9',
        s.len() > 0,
        forall|i: int| 0 <= i < s.len() ==> '0' <= #[trigger] s[i] <= '9',
    ensures
        parsed_usize(seq![d]) == Some((d as int - '0' as int) as usize),
        parsed_usize(s.push(d)) == match parsed_usize(s) {
            Some(n) => if n * 10 + (d as int - '0' as int) <= usize::MAX {
                Some((n * 10 + (d as int - '0' as int)) as usize)
            } else {
                None
            },
            None => None,
        },
{
    reveal_with_fuel(crate::text::digits_value, 2);
    assert(seq![d].drop_last() =~= Seq::<char>::empty());
    assert(s.push(d).drop_last() =~= s);
    assert(s.push(d).first() == s[0]);
    let t = s.push(d);
    assert forall|i: int| 0 <= i < t.len() implies '0' <= #[trigger] t[i] <= '9' by {
        if i < s.len() {
            assert(t[i] == s[i]);
        }
    }
    assert(crate::text::all_digits(seq![d]));
    assert(crate::text::all_digits(t));
    assert(crate::text::all_digits(s));
    lemma_value_not_negative(s);
}

/// A row of digits stands for no negative number.
proof fn lemma_value_not_negative(s: Seq<char>)
    requires
        crate::text::all_digits(s),
    ensures
        crate::text::digits_value(s) >= 0,
    decreases s.len(),
{
    if s.len() > 0 {
        lemma_value_not_negative(s.drop_last());
        assert('0' <= s[s.len() - 1] <= '9');
    }
}

/// A plus sign before a number is of no account; any other character that is no digit makes
/// a text no number, and so does the lack of digits.
pub proof fn law_parse_signs(s: Seq<char>, i: int)
    ensures
        s.len() == 0 || s[0] != '+' ==> parsed_usize(seq!['+'] + s) == parsed_usize(s),
        0 <= i < s.len() && !('0' <= s[i] <= '9') && !(i == 0 && s[0] == '+') ==> parsed_usize(s)
            is None,
        s.len() == 0 ==> parsed_usize(s) is None,
{
    assert((seq!['+'] + s).drop_first() =~= s);
    if 0 <= i < s.len() && !('0' <= s[i] <= '9') && !(i == 0 && s[0] == '+') {
        if s[0] == '+' {
            assert(s.drop_first()[i - 1] == s[i]);
        }
    }
}

} // verus!
