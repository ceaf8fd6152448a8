//! Decimal text of whole numbers: writing them, zero-padded, and reading them back.
use vstd::prelude::*;
use crate::text::push_char;

verus! {

/// The character of a decimal digit.
pub open spec fn digit_char(d: int) -> char {
    ((d + 48) as u8) as char
}

/// Whether `c` is an ASCII decimal digit.
pub open spec fn is_digit(c: char) -> bool {
    '0' <= c && c <= '9'
}

/// The value of a decimal digit character.
pub open spec fn digit_value(c: char) -> int {
    c as int - 48
}

/// The shortest decimal text of `n` (no leading zeros; "0" for zero).
pub open spec fn decimal(n: nat) -> Seq<char>
    decreases n,
{
    if n < 10 {
        seq![digit_char(n as int)]
    } else {
        decimal(n / 10).push(digit_char((n % 10) as int))
    }
}

/// `k` zero characters.
pub open spec fn zeros(k: nat) -> Seq<char> {
    Seq::new(k, |i: int| '0')
}

/// `s` padded on the left with zeros up to `width` characters.
pub open spec fn zero_pad(s: Seq<char>, width: nat) -> Seq<char> {
    if s.len() >= width {
        s
    } else {
        zeros((width - s.len()) as nat) + s
    }
}

/// The value of a string of decimal digits.
pub open spec fn digits_value(s: Seq<char>) -> int
    decreases s.len(),
{
    if s.len() == 0 {
        0
    } else {
        digits_value(s.drop_last()) * 10 + digit_value(s.last())
    }
}

/// Whether every character of `s` is a decimal digit.
pub open spec fn all_digits(s: Seq<char>) -> bool {
    forall|i: int| 0 <= i < s.len() ==> is_digit(#[trigger] s[i])
}

/// The decimal text of `n`, as `format!("{n}")` writes it.
pub fn decimal_string(n: u128) -> (r: String)
    ensures
        r@ == decimal(n as nat),
    decreases n,
{
    if n < 10 {
        let mut s = String::new();
        push_char(&mut s, ((n as u8) + 48u8) as char);
        s
    } else {
        let mut s = decimal_string(n / 10);
        push_char(&mut s, (((n % 10) as u8) + 48u8) as char);
        s
    }
}

/// The decimal text of `n` padded with leading zeros to at least `width`
/// characters, as `format!("{n:0width$}")` writes it.
pub fn zero_padded(n: u128, width: usize) -> (r: String)
    ensures
        r@ == zero_pad(decimal(n as nat), width as nat),
{
    let digits = decimal_string(n);
    let len = digits.as_str().unicode_len();
    let mut r = String::new();
    if len < width {
        let mut k: usize = 0;
        while k < width - len
            invariant
                k <= width - len,
                r@ == zeros(k as nat),
            decreases width - len - k,
        {
            push_char(&mut r, '0');
            k = k + 1;
            assert(r@ =~= zeros(k as nat));
        }
        r.append(digits.as_str());
        r
    } else {
        digits
    }
}

/// Ten to the power `k`.
pub open spec fn pow10(k: nat) -> nat
    decreases k,
{
    if k == 0 {
        1
    } else {
        10 * pow10((k - 1) as nat)
    }
}

/// Strict lexicographic order on character strings (by code point).
pub open spec fn lex_lt(a: Seq<char>, b: Seq<char>) -> bool {
    exists|i: int|
        0 <= i < a.len() && i < b.len() && a.take(i) == b.take(i) && (a[i] as int) < (b[i] as int)
}

proof fn lemma_digit_char(d: int)
    requires
        0 <= d < 10,
    ensures
        digit_value(digit_char(d)) == d,
        is_digit(digit_char(d)),
{
    assert(((d + 48) as u8) as int == d + 48);
    assert((((d + 48) as u8) as char) as int == ((d + 48) as u8) as int);
}

/// The decimal text of `n` is made of digits and reads back as `n`.
pub proof fn lemma_decimal_value(n: nat)
    ensures
        all_digits(decimal(n)),
        digits_value(decimal(n)) == n,
        decimal(n).len() >= 1,
    decreases n,
{
    if n >= 10 {
        lemma_decimal_value(n / 10);
        lemma_digit_char((n % 10) as int);
        assert(decimal(n).drop_last() =~= decimal(n / 10));
        assert(decimal(n).last() == digit_char((n % 10) as int));
        assert(n == (n / 10) * 10 + n % 10);
        assert(digits_value(decimal(n)) == digits_value(decimal(n / 10)) * 10 + digit_value(digit_char((n % 10) as int)));
        assert(digits_value(decimal(n)) == n);
    } else {
        lemma_digit_char(n as int);
        let e = Seq::<char>::empty();
        assert(decimal(n).drop_last() =~= e);
        assert(digits_value(e) == 0);
        assert(decimal(n).last() == digit_char(n as int));
        assert(digits_value(decimal(n)) == digits_value(e) * 10 + digit_value(digit_char(n as int)));
    }
}

/// A number below `10^k` (with `k >= 1`) has at most `k` decimal digits.
pub proof fn lemma_decimal_len(n: nat, k: nat)
    requires
        k >= 1,
        n < pow10(k),
    ensures
        decimal(n).len() <= k,
    decreases k,
{
    if n >= 10 {
        assert(k >= 2) by {
            if k == 1 {
                assert(pow10(1) == 10 * pow10(0));
            }
        }
        assert(pow10(k) == 10 * pow10((k - 1) as nat));
        assert(n / 10 < pow10((k - 1) as nat));
        lemma_decimal_len(n / 10, (k - 1) as nat);
    }
}

/// Leading zeros change neither the value nor the digit-ness of a text.
pub proof fn lemma_zeros_prefix(k: nat, s: Seq<char>)
    requires
        all_digits(s),
    ensures
        digits_value(zeros(k) + s) == digits_value(s),
        all_digits(zeros(k) + s),
    decreases s.len(),
{
    if s.len() == 0 {
        assert(zeros(k) + s =~= zeros(k));
        lemma_zeros_value(k);
    } else {
        lemma_zeros_prefix(k, s.drop_last());
        assert((zeros(k) + s).drop_last() =~= zeros(k) + s.drop_last());
    }
    assert forall|i: int| 0 <= i < (zeros(k) + s).len() implies is_digit(
        #[trigger] (zeros(k) + s)[i],
    ) by {
        if i >= k {
            assert((zeros(k) + s)[i] == s[i - k]);
        }
    }
}

proof fn lemma_zeros_value(k: nat)
    ensures
        digits_value(zeros(k)) == 0,
    decreases k,
{
    if k > 0 {
        assert(zeros(k).drop_last() =~= zeros((k - 1) as nat));
        lemma_zeros_value((k - 1) as nat);
    }
}

/// Digit strings of one length with one value are the same string.
pub proof fn lemma_digits_injective(a: Seq<char>, b: Seq<char>)
    requires
        a.len() == b.len(),
        all_digits(a),
        all_digits(b),
        digits_value(a) == digits_value(b),
    ensures
        a == b,
    decreases a.len(),
{
    if a.len() > 0 {
        let a1 = a.drop_last();
        let b1 = b.drop_last();
        assert(is_digit(a[a.len() - 1]));
        assert(is_digit(b[b.len() - 1]));
        lemma_digits_nonneg(a1);
        lemma_digits_nonneg(b1);
        assert(digits_value(a1) == digits_value(b1));
        assert(all_digits(a1));
        assert(all_digits(b1));
        lemma_digits_injective(a1, b1);
        assert(a =~= a1.push(a.last()));
        assert(b =~= b1.push(b.last()));
    } else {
        assert(a =~= b);
    }
}

proof fn lemma_digits_nonneg(a: Seq<char>)
    requires
        all_digits(a),
    ensures
        digits_value(a) >= 0,
    decreases a.len(),
{
    if a.len() > 0 {
        assert(is_digit(a[a.len() - 1]));
        assert(all_digits(a.drop_last()));
        lemma_digits_nonneg(a.drop_last());
    }
}

/// For digit strings of one length, a smaller value comes first in
/// lexicographic order.
pub proof fn lemma_digits_lex(a: Seq<char>, b: Seq<char>)
    requires
        a.len() == b.len(),
        all_digits(a),
        all_digits(b),
        digits_value(a) < digits_value(b),
    ensures
        lex_lt(a, b),
    decreases a.len(),
{
    let n = a.len() as int;
    if n == 0 {
        assert(false);
    }
    let a1 = a.drop_last();
    let b1 = b.drop_last();
    assert(is_digit(a[n - 1]));
    assert(is_digit(b[n - 1]));
    assert(all_digits(a1));
    assert(all_digits(b1));
    if digits_value(a1) < digits_value(b1) {
        lemma_digits_lex(a1, b1);
        let i = choose|i: int|
            0 <= i < a1.len() && i < b1.len() && a1.take(i) == b1.take(i) && (a1[i] as int) < (
            b1[i] as int);
        assert(a.take(i) =~= a1.take(i));
        assert(b.take(i) =~= b1.take(i));
        assert(a[i] == a1[i] && b[i] == b1[i]);
    } else if digits_value(a1) == digits_value(b1) {
        lemma_digits_injective(a1, b1);
        assert(a.take(n - 1) =~= a1);
        assert(b.take(n - 1) =~= b1);
        assert((a[n - 1] as int) < (b[n - 1] as int));
    } else {
        assert(false);
    }
}

/// What `str::parse::<i64>` gives: an optional `+` or `-`, then one or more
/// ASCII digits whose signed value fits in an `i64`; anything else is refused.
pub open spec fn parse_i64_spec(s: Seq<char>) -> Option<i64> {
    let signed = s.len() > 0 && (s[0] == '-' || s[0] == '+');
    let body = if signed { s.drop_first() } else { s };
    let v = if s.len() > 0 && s[0] == '-' { -digits_value(body) } else { digits_value(body) };
    if body.len() == 0 || !all_digits(body) || v < i64::MIN || v > i64::MAX {
        None
    } else {
        Some(v as i64)
    }
}

/// A prefix of a digit string is worth no more than the whole string.
proof fn lemma_digits_prefix_le(s: Seq<char>, k: int)
    requires
        all_digits(s),
        0 <= k <= s.len(),
    ensures
        0 <= digits_value(s.take(k)) <= digits_value(s),
    decreases s.len(),
{
    lemma_digits_nonneg(s);
    if k < s.len() {
        let s1 = s.drop_last();
        assert(all_digits(s1));
        assert(is_digit(s[s.len() - 1]));
        lemma_digits_prefix_le(s1, k);
        assert(s1.take(k) =~= s.take(k));
        lemma_digits_nonneg(s1);
    } else {
        assert(s.take(k) =~= s);
        lemma_digits_nonneg(s);
    }
}

/// Parses a signed decimal `i64` the way `str::parse::<i64>` does.
pub fn parse_i64(s: &str) -> (r: Option<i64>)
    ensures
        r == parse_i64_spec(s@),
{
    let ghost chars = s@;
    let n = s.unicode_len();
    let mut i: usize = 0;
    let mut neg = false;
    if n > 0 {
        let c0 = s.get_char(0);
        if c0 == '-' || c0 == '+' {
            neg = c0 == '-';
            i = 1;
        }
    }
    let start = i;
    let ghost body = chars.skip(start as int);
    assert(body =~= (if n > 0 && (chars[0] == '-' || chars[0] == '+') { chars.drop_first() } else { chars }));
    if start == n {
        return None;
    }
    // The magnitude read so far; above 2^63 no signed value can fit.
    let mut acc: u64 = 0;
    while i < n
        invariant
            start <= i <= n,
            n == chars.len(),
            chars == s@,
            body == (if chars.len() > 0 && (chars[0] == '-' || chars[0] == '+') {
                chars.drop_first()
            } else {
                chars
            }),
            neg == (chars.len() > 0 && chars[0] == '-'),
            body == chars.skip(start as int),
            all_digits(body.take(i - start)),
            acc as int == digits_value(body.take(i - start)),
            acc <= 0x8000_0000_0000_0000,
        decreases n - i,
    {
        let c = s.get_char(i);
        assert(c == body[i - start]);
        if !('0' <= c && c <= '9') {
            assert(!all_digits(body));
            return None;
        }
        let d = (c as u32 - 48) as u64;
        let ghost pre = body.take(i - start);
        assert(body.take(i + 1 - start).drop_last() =~= pre);
        if acc > (0x8000_0000_0000_0000u64 - d) / 10 {
            // The magnitude already exceeds 2^63: it cannot fit, whatever follows.
            proof {
                let big = digits_value(body.take(i + 1 - start));
                assert(big > 0x8000_0000_0000_0000);
                if all_digits(body) {
                    lemma_digits_prefix_le(body, i + 1 - start);
                }
            }
            return None;
        }
        acc = acc * 10 + d;
        i = i + 1;
        assert(all_digits(body.take(i - start)));
    }
    assert(body.take(i - start) =~= body);
    if neg {
        if acc == 0x8000_0000_0000_0000 {
            Some(i64::MIN)
        } else {
            Some(-(acc as i64))
        }
    } else if acc <= 0x7fff_ffff_ffff_ffff {
        Some(acc as i64)
    } else {
        None
    }
}

/// A sign may stand before the digits: `+` keeps the number and `-` negates
/// it; an empty text, or a sign alone, is no number.
pub proof fn lemma_parse_signed(n: i64)
    requires
        n >= 0,
    ensures
        parse_i64_spec("+"@ + decimal(n as nat)) == Some(n),
        parse_i64_spec("-"@ + decimal(n as nat)) == Some((-n) as i64),
        parse_i64_spec(Seq::empty()) == None::<i64>,
        parse_i64_spec("-"@) == None::<i64>,
        parse_i64_spec("+"@) == None::<i64>,
{
    reveal_strlit("+");
    reveal_strlit("-");
    lemma_decimal_value(n as nat);
    let d = decimal(n as nat);
    assert(("+"@ + d).drop_first() =~= d);
    assert(("-"@ + d).drop_first() =~= d);
    assert("-"@.drop_first() =~= Seq::<char>::empty());
    assert("+"@.drop_first() =~= Seq::<char>::empty());
}

/// Reading back the decimal text of a non-negative `i64` gives the number.
pub proof fn lemma_parse_decimal(n: i64)
    requires
        n >= 0,
    ensures
        parse_i64_spec(decimal(n as nat)) == Some(n),
{
    lemma_decimal_value(n as nat);
    let d = decimal(n as nat);
    assert(is_digit(d[0]));
}

} // verus!
