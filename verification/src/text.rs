//! Character and string primitives of std that the rest of the library builds on.
//!
//! vstd gives no specification for these std functions, so each one is reached
//! through a small trusted wrapper whose contract says what std documents.
use vstd::prelude::*;

verus! {

/// Whether std counts `c` as alphanumeric: Unicode `Alphabetic` or `Numeric`.
/// The Unicode tables behind it are not restated here.
pub uninterp spec fn is_alnum(c: char) -> bool;

/// The lowercase form of a string as `str::to_lowercase` computes it
/// (Unicode `Lowercase_Mapping`, with the final-sigma rule).
pub uninterp spec fn lowercase_of(s: Seq<char>) -> Seq<char>;

/// Whether `c` has the Unicode `White_Space` property (what `char::is_whitespace`
/// and `str::trim` go by): tab, line feed, vertical tab, form feed, carriage
/// return, space, U+0085, U+00A0, U+1680, U+2000..=U+200A, U+2028, U+2029,
/// U+202F, U+205F and U+3000.
pub open spec fn is_ws(c: char) -> bool {
    let u = c as u32;
    ||| 0x09 <= u <= 0x0d
    ||| u == 0x20
    ||| u == 0x85
    ||| u == 0xa0
    ||| u == 0x1680
    ||| 0x2000 <= u <= 0x200a
    ||| u == 0x2028
    ||| u == 0x2029
    ||| u == 0x202f
    ||| u == 0x205f
    ||| u == 0x3000
}

/// Whether `c` is an ASCII letter or digit.
pub open spec fn ascii_alnum(c: char) -> bool {
    ('a' <= c && c <= 'z') || ('A' <= c && c <= 'Z') || ('0' <= c && c <= '9')
}

/// The ASCII lowercase of `c`: `A`..`Z` become `a`..`z`, other characters stay.
pub open spec fn ascii_lower(c: char) -> char {
    if 'A' <= c && c <= 'Z' {
        ((c as u32) + 32) as char
    } else {
        c
    }
}

/// The ASCII lowercase of a string.
pub open spec fn ascii_lowercase(s: Seq<char>) -> Seq<char> {
    s.map_values(|c: char| ascii_lower(c))
}

/// Trusted: `char::is_alphanumeric`; its result is the named `is_alnum`, and
/// on ASCII it holds exactly of letters and digits.
#[verifier::external_body]
pub(crate) fn char_is_alphanumeric(c: char) -> (b: bool)
    ensures
        b == is_alnum(c),
        (c as u32) < 128 ==> (b <==> ascii_alnum(c)),
{
    c.is_alphanumeric()
}

/// Trusted: `str::to_lowercase`; its result is the named `lowercase_of` of the
/// argument, and on ASCII text it maps `A`..`Z` to `a`..`z` and keeps the rest.
#[verifier::external_body]
pub(crate) fn str_to_lowercase(s: &str) -> (r: String)
    ensures
        r@ == lowercase_of(s@),
        vstd::utf8::is_ascii_chars(s@) ==> r@ == ascii_lowercase(s@),
{
    s.to_lowercase()
}

/// Trusted: `String::push`, which appends one character.
#[verifier::external_body]
pub(crate) fn push_char(s: &mut String, c: char)
    ensures
        final(s)@ == old(s)@.push(c),
{
    s.push(c)
}

/// The string without its leading and trailing whitespace.
pub open spec fn trimmed(s: Seq<char>) -> Seq<char> {
    s.subrange(leading_ws(s) as int, s.len() - trailing_ws(s))
}

/// How many characters at the front of `s` are whitespace.
pub open spec fn leading_ws(s: Seq<char>) -> nat
    decreases s.len(),
{
    if s.len() == 0 {
        0
    } else if is_ws(s[0]) {
        1 + leading_ws(s.drop_first())
    } else {
        0
    }
}

/// How many characters at the back of `s` are whitespace, not counting
/// those already counted at the front (so the two never overlap).
pub open spec fn trailing_ws(s: Seq<char>) -> nat
    decreases s.len(),
{
    if s.len() == 0 || leading_ws(s) == s.len() {
        0
    } else if is_ws(s.last()) {
        1 + trailing_ws(s.drop_last())
    } else {
        0
    }
}

/// The whitespace at the front of `s` is part of `s`.
pub proof fn lemma_leading_ws_len(s: Seq<char>)
    ensures
        leading_ws(s) <= s.len(),
        forall|i: int| 0 <= i < leading_ws(s) ==> is_ws(#[trigger] s[i]),
        leading_ws(s) < s.len() ==> !is_ws(s[leading_ws(s) as int]),
    decreases s.len(),
{
    if s.len() > 0 && is_ws(s[0]) {
        lemma_leading_ws_len(s.drop_first());
        assert forall|i: int| 0 <= i < leading_ws(s) implies is_ws(#[trigger] s[i]) by {
            if i > 0 {
                assert(s[i] == s.drop_first()[i - 1]);
            }
        }
    }
}

/// A text made only of whitespace is all leading whitespace.
pub proof fn lemma_all_ws(s: Seq<char>)
    requires
        forall|i: int| 0 <= i < s.len() ==> is_ws(#[trigger] s[i]),
    ensures
        leading_ws(s) == s.len(),
        trimmed(s).len() == 0,
    decreases s.len(),
{
    if s.len() > 0 {
        assert(is_ws(s[0]));
        assert forall|i: int| 0 <= i < s.drop_first().len() implies is_ws(#[trigger] s.drop_first()[i]) by {
            assert(s.drop_first()[i] == s[i + 1]);
        }
        lemma_all_ws(s.drop_first());
    }
}

/// Appending a character leaves the leading whitespace as it was, unless the
/// text was all whitespace.
proof fn lemma_leading_ws_push(s: Seq<char>, c: char)
    ensures
        leading_ws(s) < s.len() ==> leading_ws(s.push(c)) == leading_ws(s),
        leading_ws(s) == s.len() ==> leading_ws(s.push(c)) == s.len() + (if is_ws(c) {
            1int
        } else {
            0int
        }),
    decreases s.len(),
{
    lemma_leading_ws_len(s);
    if s.len() == 0 {
        assert(s.push(c).drop_first() =~= Seq::<char>::empty());
        assert(leading_ws(Seq::<char>::empty()) == 0);
        assert(s.push(c)[0] == c);
    } else {
        assert(s.push(c)[0] == s[0]);
        assert(s.push(c).drop_first() =~= s.drop_first().push(c));
        lemma_leading_ws_push(s.drop_first(), c);
    }
}

/// Trailing whitespace does not change what trimming leaves.
pub proof fn lemma_trimmed_push_ws(s: Seq<char>, c: char)
    requires
        is_ws(c),
    ensures
        trimmed(s.push(c)) == trimmed(s),
{
    lemma_leading_ws_len(s);
    lemma_leading_ws_push(s, c);
    let t = s.push(c);
    assert(t.drop_last() =~= s);
    if leading_ws(s) == s.len() {
        assert(trimmed(t) =~= Seq::<char>::empty());
        assert(trimmed(s) =~= Seq::<char>::empty());
    } else {
        assert(trailing_ws(t) == 1 + trailing_ws(s));
        lemma_trailing_ws_bound(s);
        assert(trimmed(t) =~= trimmed(s));
    }
}

/// The trailing whitespace counted never reaches into the leading whitespace.
proof fn lemma_trailing_ws_bound(s: Seq<char>)
    ensures
        leading_ws(s) + trailing_ws(s) <= s.len(),
    decreases s.len(),
{
    lemma_leading_ws_len(s);
    if s.len() > 0 && leading_ws(s) != s.len() && is_ws(s.last()) {
        let s1 = s.drop_last();
        lemma_trailing_ws_bound(s1);
        lemma_leading_ws_push(s1, s.last());
        assert(s1.push(s.last()) =~= s);
        lemma_leading_ws_len(s1);
    }
}

/// Trusted: `str::trim`, documented as removing leading and trailing
/// Unicode `White_Space`; that is what `trimmed` states over `is_ws`.
#[verifier::external_body]
pub(crate) fn str_trim(s: &str) -> (r: &str)
    ensures
        r@ == trimmed(s@),
{
    s.trim()
}

/// Whether two strings are equal, character by character.
pub(crate) fn str_eq(a: &str, b: &str) -> (r: bool)
    ensures
        r == (a@ == b@),
{
    let n = a.unicode_len();
    if n != b.unicode_len() {
        return false;
    }
    let mut i: usize = 0;
    while i < n
        invariant
            n == a@.len(),
            n == b@.len(),
            i <= n,
            a@.take(i as int) == b@.take(i as int),
        decreases n - i,
    {
        if a.get_char(i) != b.get_char(i) {
            assert(a@[i as int] != b@[i as int]);
            return false;
        }
        assert(a@.take(i + 1) =~= a@.take(i as int).push(a@[i as int]));
        assert(b@.take(i + 1) =~= b@.take(i as int).push(b@[i as int]));
        i = i + 1;
    }
    assert(a@.take(n as int) =~= a@);
    assert(b@.take(n as int) =~= b@);
    true
}

/// Words joined with single spaces.
pub open spec fn join_words(words: Seq<Seq<char>>) -> Seq<char>
    decreases words.len(),
{
    if words.len() == 0 {
        Seq::empty()
    } else if words.len() == 1 {
        words[0]
    } else {
        join_words(words.drop_last()) + " "@ + words.last()
    }
}

} // verus!
