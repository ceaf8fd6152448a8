//! The hashing-trick text embedder, in whole numbers.
//!
//! Every token is hashed with FNV-1a into one of `DIM` buckets and adds +1 or
//! -1 there, by the top bit of its hash. The library computes these bucket
//! counts exactly; the unit-length `f32` vector stored in HelixDB is the
//! counts divided by their Euclidean norm (zero counts stay zero).
use vstd::prelude::*;
use crate::text::{
    is_alnum, lowercase_of, ascii_alnum, ascii_lower, ascii_lowercase, join_words,
    char_is_alphanumeric, str_to_lowercase, push_char,
};
use vstd::utf8::is_ascii_chars;

verus! {

/// Embedding dimensionality: the width of every vector stored in HelixDB.
pub const DIM: usize = 256;

/// FNV-1a offset basis.
pub const FNV_OFFSET: u64 = 0xcbf29ce484222325;

/// FNV-1a prime.
pub const FNV_PRIME: u64 = 0x100000001b3;

/// FNV-1a 64 of a byte string: start from the offset basis, and for each byte
/// xor it in and multiply by the prime modulo 2^64.
pub open spec fn fnv1a_spec(bytes: Seq<u8>) -> u64
    decreases bytes.len(),
{
    if bytes.len() == 0 {
        FNV_OFFSET
    } else {
        let h = fnv1a_spec(bytes.drop_last()) ^ (bytes.last() as u64);
        ((h as int * FNV_PRIME as int) % 0x1_0000_0000_0000_0000) as u64
    }
}

/// Every byte enters the hash: the empty string hashes to the offset basis
/// `0xcbf29ce484222325`, and one more byte `b` at the end turns the hash `h`
/// into `(h ^ b) * 0x100000001b3` modulo 2^64.
pub proof fn lemma_fnv1a_step(s: Seq<u8>, b: u8)
    ensures
        fnv1a_spec(Seq::empty()) == 0xcbf29ce484222325u64,
        fnv1a_spec(s.push(b)) == (((fnv1a_spec(s) ^ (b as u64)) as int * 0x100000001b3int)
            % 0x1_0000_0000_0000_0000int) as u64,
{
    assert(s.push(b).drop_last() =~= s);
    assert(s.push(b).last() == b);
}

/// FNV-1a 64-bit hash.
pub fn fnv1a(bytes: &[u8]) -> (h: u64)
    ensures
        h == fnv1a_spec(bytes@),
{
    let mut hash: u64 = FNV_OFFSET;
    let mut i: usize = 0;
    while i < bytes.len()
        invariant
            i <= bytes@.len(),
            hash == fnv1a_spec(bytes@.take(i as int)),
        decreases bytes@.len() - i,
    {
        assert(bytes@.take(i + 1).drop_last() =~= bytes@.take(i as int));
        hash = hash ^ (bytes[i] as u64);
        hash = hash.wrapping_mul(FNV_PRIME);
        i = i + 1;
    }
    assert(bytes@.take(i as int) =~= bytes@);
    hash
}

/// The characters that words are made of: those std counts as alphanumeric.
pub open spec fn alnum_pred() -> spec_fn(char) -> bool {
    |c: char| is_alnum(c)
}

/// The characters that words are made of in ASCII text: letters and digits.
pub open spec fn ascii_alnum_pred() -> spec_fn(char) -> bool {
    |c: char| ascii_alnum(c)
}

/// Splitting state after reading `s`: the finished words, and the word being
/// read, words being made of the characters for which `p` holds.
pub open spec fn split_state(p: spec_fn(char) -> bool, s: Seq<char>) -> (Seq<Seq<char>>, Seq<char>)
    decreases s.len(),
{
    if s.len() == 0 {
        (Seq::empty(), Seq::empty())
    } else {
        let (done, cur) = split_state(p, s.drop_last());
        let c = s.last();
        if p(c) {
            (done, cur.push(c))
        } else if cur.len() > 0 {
            (done.push(cur), Seq::empty())
        } else {
            (done, Seq::empty())
        }
    }
}

/// The maximal non-empty runs of characters of `s` for which `p` holds, in order.
pub open spec fn words_by(p: spec_fn(char) -> bool, s: Seq<char>) -> Seq<Seq<char>> {
    let (done, cur) = split_state(p, s);
    if cur.len() > 0 {
        done.push(cur)
    } else {
        done
    }
}

/// The maximal non-empty runs of alphanumeric characters of `s`, in order.
pub open spec fn words(s: Seq<char>) -> Seq<Seq<char>> {
    words_by(alnum_pred(), s)
}

/// The tokens of a text: the words of its lowercase form.
pub open spec fn tokens(s: Seq<char>) -> Seq<Seq<char>> {
    words(lowercase_of(s))
}

/// The tokens of an ASCII text: the runs of letters and digits of its ASCII
/// lowercase form.
pub open spec fn ascii_tokens(s: Seq<char>) -> Seq<Seq<char>> {
    words_by(ascii_alnum_pred(), ascii_lowercase(s))
}

/// Splitting by two predicates that agree on every character of `s` is the same.
proof fn lemma_split_state_agree(p: spec_fn(char) -> bool, q: spec_fn(char) -> bool, s: Seq<char>)
    requires
        forall|i: int| 0 <= i < s.len() ==> p(#[trigger] s[i]) == q(s[i]),
    ensures
        split_state(p, s) == split_state(q, s),
    decreases s.len(),
{
    if s.len() > 0 {
        lemma_split_state_agree(p, q, s.drop_last());
        assert(p(s[s.len() - 1]) == q(s[s.len() - 1]));
    }
}

/// Every finished word and the word being read are made of characters of `s`
/// for which `p` holds (and so `q`, when `q` holds of every character of `s`),
/// and finished words are not empty.
proof fn lemma_split_state_chars(p: spec_fn(char) -> bool, q: spec_fn(char) -> bool, s: Seq<char>)
    requires
        forall|i: int| 0 <= i < s.len() ==> q(#[trigger] s[i]),
    ensures
        forall|i: int| 0 <= i < split_state(p, s).0.len() ==> #[trigger] split_state(p, s).0[i].len() > 0,
        forall|i: int, j: int|
            0 <= i < split_state(p, s).0.len() && 0 <= j < split_state(p, s).0[i].len() ==> p(
                #[trigger] split_state(p, s).0[i][j],
            ) && q(split_state(p, s).0[i][j]),
        forall|j: int| 0 <= j < split_state(p, s).1.len() ==> p(#[trigger] split_state(p, s).1[j]) && q(
            split_state(p, s).1[j],
        ),
    decreases s.len(),
{
    if s.len() > 0 {
        assert forall|i: int| 0 <= i < s.drop_last().len() implies q(#[trigger] s.drop_last()[i]) by {
            assert(s.drop_last()[i] == s[i]);
        }
        lemma_split_state_chars(p, q, s.drop_last());
        let (done, cur) = split_state(p, s.drop_last());
        let c = s.last();
        assert(q(s[s.len() - 1]));
        if p(c) {
            assert forall|j: int| 0 <= j < cur.push(c).len() implies p(#[trigger] cur.push(c)[j]) && q(
                cur.push(c)[j],
            ) by {
                if j < cur.len() {
                    assert(cur.push(c)[j] == cur[j]);
                }
            }
        } else if cur.len() > 0 {
            assert forall|i: int| 0 <= i < done.push(cur).len() implies #[trigger] done.push(cur)[i].len() > 0 by {
                if i < done.len() {
                    assert(done.push(cur)[i] == done[i]);
                }
            }
            assert forall|i: int, j: int|
                0 <= i < done.push(cur).len() && 0 <= j < done.push(cur)[i].len() implies p(
                #[trigger] done.push(cur)[i][j]) && q(done.push(cur)[i][j]) by {
                if i < done.len() {
                    assert(done.push(cur)[i] == done[i]);
                }
            }
        }
    }
}

/// The words of a text are non-empty runs of characters for which `p` holds,
/// each character also one of the text's (here: satisfying whatever `q` every
/// character of the text satisfies).
pub proof fn lemma_words_chars(p: spec_fn(char) -> bool, q: spec_fn(char) -> bool, s: Seq<char>)
    requires
        forall|i: int| 0 <= i < s.len() ==> q(#[trigger] s[i]),
    ensures
        forall|i: int| 0 <= i < words_by(p, s).len() ==> #[trigger] words_by(p, s)[i].len() > 0,
        forall|i: int, j: int|
            0 <= i < words_by(p, s).len() && 0 <= j < words_by(p, s)[i].len() ==> p(
                #[trigger] words_by(p, s)[i][j],
            ) && q(words_by(p, s)[i][j]),
{
    lemma_split_state_chars(p, q, s);
    let (done, cur) = split_state(p, s);
    if cur.len() > 0 {
        assert forall|i: int| 0 <= i < done.push(cur).len() implies #[trigger] done.push(cur)[i].len() > 0 by {
            if i < done.len() {
                assert(done.push(cur)[i] == done[i]);
            }
        }
        assert forall|i: int, j: int|
            0 <= i < done.push(cur).len() && 0 <= j < done.push(cur)[i].len() implies p(
            #[trigger] done.push(cur)[i][j]) && q(done.push(cur)[i][j]) by {
            if i < done.len() {
                assert(done.push(cur)[i] == done[i]);
            }
        }
    }
}

/// The views of a sequence of strings.
pub open spec fn views(v: Seq<String>) -> Seq<Seq<char>> {
    v.map_values(|s: String| s@)
}

proof fn lemma_ascii_lowercase_ascii(s: Seq<char>)
    requires
        is_ascii_chars(s),
    ensures
        is_ascii_chars(ascii_lowercase(s)),
        ascii_lowercase(s).len() == s.len(),
{
    assert forall|i: int| 0 <= i < ascii_lowercase(s).len() implies '\0' <= #[trigger] ascii_lowercase(
        s,
    )[i] <= '\u{7f}' by {
        let c = s[i];
        assert('\0' <= c <= '\u{7f}');
        if 'A' <= c && c <= 'Z' {
            assert(((c as u32) + 32) as char == ascii_lower(c));
        }
    }
}

/// Lowercase, then split on anything that isn't a letter or digit.
pub fn tokenize(text: &str) -> (r: Vec<String>)
    ensures
        views(r@) == tokens(text@),
        is_ascii_chars(text@) ==> views(r@) == ascii_tokens(text@),
{
    let lower = str_to_lowercase(text);
    let mut out: Vec<String> = Vec::new();
    let mut cur = String::new();
    let ghost chars = lower@;
    let ghost ascii = is_ascii_chars(text@);
    proof {
        if ascii {
            lemma_ascii_lowercase_ascii(text@);
        }
    }
    for c in it: lower.as_str().chars()
        invariant
            it.seq() == chars,
            chars == lowercase_of(text@),
            ascii == is_ascii_chars(text@),
            ascii ==> chars == ascii_lowercase(text@) && is_ascii_chars(chars),
            ascii ==> forall|j: int| 0 <= j < it.index() ==> is_alnum(#[trigger] chars[j]) == ascii_alnum(chars[j]),
            views(out@) == split_state(alnum_pred(), chars.take(it.index())).0,
            cur@ == split_state(alnum_pred(), chars.take(it.index())).1,
    {
        proof {
            assert(chars.take(it.index() + 1).drop_last() =~= chars.take(it.index()));
            assert(c == chars[it.index()]);
            if ascii {
                assert('\0' <= chars[it.index()] <= '\u{7f}');
            }
        }
        if char_is_alphanumeric(c) {
            push_char(&mut cur, c);
        } else {
            if !cur.as_str().is_empty() {
                let ghost before = out@;
                out.push(cur);
                assert(views(out@) =~= views(before).push(split_state(alnum_pred(), chars.take(it.index())).1));
            }
            cur = String::new();
        }
    }
    proof {
        assert(chars.take(chars.len() as int) =~= chars);
    }
    if !cur.as_str().is_empty() {
        let ghost before = out@;
        let ghost c0 = cur@;
        out.push(cur);
        assert(views(out@) =~= views(before).push(c0));
    }
    proof {
        if ascii {
            lemma_split_state_agree(alnum_pred(), ascii_alnum_pred(), chars);
        }
    }
    out
}

/// The hash of a token: FNV-1a of its UTF-8 bytes.
pub open spec fn token_hash(t: Seq<char>) -> u64 {
    fnv1a_spec(vstd::utf8::encode_utf8(t))
}

/// The bucket a hash falls into.
pub open spec fn bucket_of(h: u64) -> int {
    (h % (DIM as u64)) as int
}

/// The sign a hash contributes: +1 when its top bit is clear, -1 when set.
pub open spec fn sign_of(h: u64) -> int {
    if h < 0x8000_0000_0000_0000 { 1 } else { -1 }
}

/// The all-zero count vector.
pub open spec fn zero_counts() -> Seq<int> {
    Seq::new(DIM as nat, |i: int| 0)
}

/// Bucket counts of a token sequence: each token adds its sign at its bucket.
pub open spec fn bucket_counts(toks: Seq<Seq<char>>) -> Seq<int>
    decreases toks.len(),
{
    if toks.len() == 0 {
        zero_counts()
    } else {
        let c = bucket_counts(toks.drop_last());
        let h = token_hash(toks.last());
        c.update(bucket_of(h), c[bucket_of(h)] + sign_of(h))
    }
}

/// The bucket counts of a text: those of its tokens.
pub open spec fn text_counts(s: Seq<char>) -> Seq<int> {
    bucket_counts(tokens(s))
}

/// Integers of a count vector.
pub open spec fn ints(v: Seq<i128>) -> Seq<int> {
    v.map_values(|x: i128| x as int)
}

/// Pointwise sum of two count vectors.
pub open spec fn add_counts(a: Seq<int>, b: Seq<int>) -> Seq<int> {
    Seq::new(a.len(), |i: int| a[i] + b[i])
}

pub proof fn lemma_bucket_counts_len(toks: Seq<Seq<char>>)
    ensures
        bucket_counts(toks).len() == DIM,
        forall|i: int|
            0 <= i < DIM ==> -toks.len() <= #[trigger] bucket_counts(toks)[i] <= toks.len(),
    decreases toks.len(),
{
    if toks.len() > 0 {
        lemma_bucket_counts_len(toks.drop_last());
    }
}

/// The hashing trick: with no tokens all 256 counts are zero, and each token
/// adds its sign (+1 when the top bit of the FNV-1a hash of its UTF-8 bytes is
/// clear, -1 when it is set) at the bucket `hash % 256`, leaving every other
/// bucket as it was.
pub proof fn lemma_bucket_counts_push(toks: Seq<Seq<char>>, t: Seq<char>)
    ensures
        bucket_counts(Seq::empty()) == Seq::new(256, |i: int| 0int),
        token_hash(t) == fnv1a_spec(vstd::utf8::encode_utf8(t)),
        bucket_counts(toks.push(t)).len() == 256,
        forall|i: int|
            0 <= i < 256 ==> #[trigger] bucket_counts(toks.push(t))[i] == bucket_counts(toks)[i] + (
            if i == (token_hash(t) % 256) as int {
                if token_hash(t) < 0x8000_0000_0000_0000u64 {
                    1int
                } else {
                    -1int
                }
            } else {
                0int
            }),
{
    assert(bucket_counts(Seq::<Seq<char>>::empty()) =~= Seq::new(256, |i: int| 0int));
    assert(toks.push(t).drop_last() =~= toks);
    lemma_bucket_counts_len(toks);
    lemma_bucket_counts_len(toks.push(t));
}

/// The whole-number embedding of `text`: the bucket count of each of the
/// `DIM` buckets over the tokens of `text`.
pub fn embed_counts(text: &str) -> (r: Vec<i128>)
    ensures
        r@.len() == DIM,
        ints(r@) == text_counts(text@),
        is_ascii_chars(text@) ==> ints(r@) == bucket_counts(ascii_tokens(text@)),
{
    let toks = tokenize(text);
    let mut counts: Vec<i128> = Vec::new();
    let mut j: usize = 0;
    while j < DIM
        invariant
            j <= DIM,
            counts@.len() == j,
            forall|i: int| 0 <= i < j ==> counts@[i] == 0,
        decreases DIM - j,
    {
        counts.push(0);
        j = j + 1;
    }
    assert(ints(counts@) =~= bucket_counts(views(toks@).take(0)));
    let mut k: usize = 0;
    while k < toks.len()
        invariant
            k <= toks@.len(),
            counts@.len() == DIM,
            ints(counts@) == bucket_counts(views(toks@).take(k as int)),
        decreases toks@.len() - k,
    {
        let ghost done = views(toks@).take(k as int);
        proof {
            lemma_bucket_counts_len(done);
            assert(views(toks@).take(k + 1).drop_last() =~= done);
            assert(views(toks@).take(k + 1).last() == toks@[k as int]@);
        }
        let h = fnv1a(toks[k].as_str().as_bytes());
        let idx = (h % (DIM as u64)) as usize;
        let old_v = counts[idx];
        assert(old_v as int == bucket_counts(done)[idx as int]);
        let new_v = if h < 0x8000_0000_0000_0000 { old_v + 1 } else { old_v - 1 };
        counts.set(idx, new_v);
        assert(ints(counts@) =~= bucket_counts(views(toks@).take(k + 1)));
        k = k + 1;
    }
    assert(views(toks@).take(k as int) =~= views(toks@));
    counts
}

/// Bucket counts add up over concatenated token sequences: the embedding of
/// two token runs is the sum of their embeddings.
pub proof fn lemma_bucket_counts_concat(a: Seq<Seq<char>>, b: Seq<Seq<char>>)
    ensures
        bucket_counts(a + b) == add_counts(bucket_counts(a), bucket_counts(b)),
    decreases b.len(),
{
    lemma_bucket_counts_len(a);
    lemma_bucket_counts_len(b);
    lemma_bucket_counts_len(a + b);
    if b.len() == 0 {
        assert(a + b =~= a);
        assert(bucket_counts(a + b) =~= add_counts(bucket_counts(a), bucket_counts(b)));
    } else {
        let b1 = b.drop_last();
        lemma_bucket_counts_concat(a, b1);
        lemma_bucket_counts_len(b1);
        assert((a + b).drop_last() =~= a + b1);
        assert((a + b).last() == b.last());
        assert(bucket_counts(a + b) =~= add_counts(bucket_counts(a), bucket_counts(b)));
    }
}

/// Splitting `a`, a separator and `b` reads `a` to its words, then goes on as
/// if `b` stood alone.
proof fn lemma_split_state_sep(p: spec_fn(char) -> bool, a: Seq<char>, c: char, b: Seq<char>)
    requires
        !p(c),
    ensures
        split_state(p, a + seq![c] + b) == (words_by(p, a) + split_state(p, b).0, split_state(p, b).1),
    decreases b.len(),
{
    if b.len() == 0 {
        assert(a + seq![c] + b =~= a.push(c));
        assert(a.push(c).drop_last() =~= a);
        assert(words_by(p, a) + split_state(p, b).0 =~= words_by(p, a));
    } else {
        let b1 = b.drop_last();
        lemma_split_state_sep(p, a, c, b1);
        assert((a + seq![c] + b).drop_last() =~= a + seq![c] + b1);
        assert((a + seq![c] + b).last() == b.last());
        let (d1, c1) = split_state(p, b1);
        assert((words_by(p, a) + d1).push(c1) =~= words_by(p, a) + d1.push(c1));
    }
}

/// The words of two texts joined by a separator (a character that words are
/// not made of) are the words of the first followed by those of the second.
pub proof fn lemma_words_sep(p: spec_fn(char) -> bool, a: Seq<char>, c: char, b: Seq<char>)
    requires
        !p(c),
    ensures
        words_by(p, a + seq![c] + b) == words_by(p, a) + words_by(p, b),
{
    lemma_split_state_sep(p, a, c, b);
    let (d, cur) = split_state(p, b);
    if cur.len() > 0 {
        assert((words_by(p, a) + d).push(cur) =~= words_by(p, a) + d.push(cur));
    }
}

/// The bucket counts of the words of two (lowercase) texts joined by a
/// non-alphanumeric character are the sum of their bucket counts.
pub proof fn lemma_word_counts_sep(a: Seq<char>, c: char, b: Seq<char>)
    requires
        !is_alnum(c),
    ensures
        bucket_counts(words(a + seq![c] + b)) == add_counts(
            bucket_counts(words(a)),
            bucket_counts(words(b)),
        ),
{
    lemma_words_sep(alnum_pred(), a, c, b);
    lemma_bucket_counts_concat(words(a), words(b));
}

/// The ASCII tokens of two texts joined by a character that is not an ASCII
/// letter or digit are the tokens of the first followed by those of the second.
pub proof fn lemma_ascii_tokens_sep(a: Seq<char>, c: char, b: Seq<char>)
    requires
        !ascii_alnum(c),
    ensures
        ascii_tokens(a + seq![c] + b) == ascii_tokens(a) + ascii_tokens(b),
{
    assert(ascii_lowercase(a + seq![c] + b) =~= ascii_lowercase(a) + seq![ascii_lower(c)]
        + ascii_lowercase(b));
    assert(ascii_lower(c) == c);
    lemma_words_sep(ascii_alnum_pred(), ascii_lowercase(a), c, ascii_lowercase(b));
}

/// The embedding of two ASCII texts joined by a separator (any character that
/// is not an ASCII letter or digit) is the sum of their embeddings.
pub proof fn lemma_ascii_counts_sep(a: Seq<char>, c: char, b: Seq<char>)
    requires
        !ascii_alnum(c),
    ensures
        bucket_counts(ascii_tokens(a + seq![c] + b)) == add_counts(
            bucket_counts(ascii_tokens(a)),
            bucket_counts(ascii_tokens(b)),
        ),
{
    lemma_ascii_tokens_sep(a, c, b);
    lemma_bucket_counts_concat(ascii_tokens(a), ascii_tokens(b));
}

/// A non-empty run of word characters is one word.
proof fn lemma_words_single(p: spec_fn(char) -> bool, w: Seq<char>)
    requires
        w.len() > 0,
        forall|j: int| 0 <= j < w.len() ==> p(#[trigger] w[j]),
    ensures
        split_state(p, w) == (Seq::<Seq<char>>::empty(), w),
        words_by(p, w) == seq![w],
    decreases w.len(),
{
    if w.len() == 1 {
        assert(w.drop_last() =~= Seq::<char>::empty());
        assert(split_state(p, Seq::<char>::empty()) == (
            Seq::<Seq<char>>::empty(),
            Seq::<char>::empty(),
        ));
        assert(p(w[0]));
        assert(Seq::<char>::empty().push(w[0]) =~= w);
    } else {
        let w1 = w.drop_last();
        assert forall|j: int| 0 <= j < w1.len() implies p(#[trigger] w1[j]) by {
            assert(w1[j] == w[j]);
        }
        lemma_words_single(p, w1);
        assert(p(w[w.len() - 1]));
        assert(w1.push(w.last()) =~= w);
    }
    assert(Seq::<Seq<char>>::empty().push(w) =~= seq![w]);
}

/// ASCII tokens joined with spaces give back the same tokens, when every token
/// is a non-empty run of letters and digits with no uppercase letter.
proof fn lemma_ascii_tokens_join_words(ws: Seq<Seq<char>>)
    requires
        forall|i: int| 0 <= i < ws.len() ==> #[trigger] ws[i].len() > 0,
        forall|i: int, j: int|
            0 <= i < ws.len() && 0 <= j < ws[i].len() ==> ascii_alnum(#[trigger] ws[i][j]) && ascii_lower(
                ws[i][j],
            ) == ws[i][j],
    ensures
        ascii_tokens(join_words(ws)) == ws,
    decreases ws.len(),
{
    if ws.len() == 0 {
        assert(ascii_lowercase(Seq::<char>::empty()) =~= Seq::<char>::empty());
        assert(words_by(ascii_alnum_pred(), Seq::<char>::empty()) =~= Seq::<Seq<char>>::empty());
        assert(ws =~= Seq::<Seq<char>>::empty());
    } else {
        let last = ws.last();
        assert(ws[ws.len() - 1] == last);
        assert(ascii_lowercase(last) =~= last) by {
            assert forall|j: int| 0 <= j < last.len() implies #[trigger] ascii_lowercase(last)[j]
                == last[j] by {
                assert(ascii_lower(ws[ws.len() - 1][j]) == ws[ws.len() - 1][j]);
            }
        }
        assert forall|j: int| 0 <= j < last.len() implies #[trigger] ascii_alnum_pred()(last[j]) by {
            assert(ascii_alnum(ws[ws.len() - 1][j]));
        }
        lemma_words_single(ascii_alnum_pred(), last);
        if ws.len() == 1 {
            assert(ws =~= seq![last]);
        } else {
            let front = ws.drop_last();
            assert forall|i: int| 0 <= i < front.len() implies #[trigger] front[i].len() > 0 by {
                assert(front[i] == ws[i]);
            }
            assert forall|i: int, j: int|
                0 <= i < front.len() && 0 <= j < front[i].len() implies ascii_alnum(
                #[trigger] front[i][j]) && ascii_lower(front[i][j]) == front[i][j] by {
                assert(front[i] == ws[i]);
            }
            lemma_ascii_tokens_join_words(front);
            reveal_strlit(" ");
            assert(" "@ =~= seq![' ']);
            assert(!ascii_alnum(' '));
            lemma_ascii_tokens_sep(join_words(front), ' ', last);
            assert(front + seq![last] =~= ws);
        }
    }
}

/// Tokenising the tokens of a text joined with spaces gives back the same
/// tokens (for ASCII tokenisation).
pub proof fn lemma_ascii_tokens_rejoin(s: Seq<char>)
    ensures
        ascii_tokens(join_words(ascii_tokens(s))) == ascii_tokens(s),
{
    let low = ascii_lowercase(s);
    let q = |c: char| ascii_lower(c) == c;
    assert forall|i: int| 0 <= i < low.len() implies #[trigger] q(low[i]) by {
        assert(low[i] == ascii_lower(s[i]));
    }
    lemma_words_chars(ascii_alnum_pred(), q, low);
    let ws = ascii_tokens(s);
    assert forall|i: int, j: int| 0 <= i < ws.len() && 0 <= j < ws[i].len() implies ascii_alnum(
        #[trigger] ws[i][j]) && ascii_lower(ws[i][j]) == ws[i][j] by {
        assert(ascii_alnum_pred()(ws[i][j]) && q(ws[i][j]));
    }
    lemma_ascii_tokens_join_words(ws);
}

/// ASCII tokens are non-empty runs of ASCII letters and digits.
pub proof fn lemma_ascii_tokens_alnum(s: Seq<char>)
    ensures
        forall|i: int| 0 <= i < ascii_tokens(s).len() ==> #[trigger] ascii_tokens(s)[i].len() > 0,
        forall|i: int, j: int|
            0 <= i < ascii_tokens(s).len() && 0 <= j < ascii_tokens(s)[i].len() ==> ascii_alnum(
                #[trigger] ascii_tokens(s)[i][j],
            ),
{
    let low = ascii_lowercase(s);
    let q = |c: char| true;
    lemma_words_chars(ascii_alnum_pred(), q, low);
}

/// The tokens of any text are non-empty runs of alphanumeric characters.
pub proof fn lemma_tokens_alnum(s: Seq<char>)
    ensures
        forall|i: int| 0 <= i < tokens(s).len() ==> #[trigger] tokens(s)[i].len() > 0,
        forall|i: int, j: int|
            0 <= i < tokens(s).len() && 0 <= j < tokens(s)[i].len() ==> is_alnum(
                #[trigger] tokens(s)[i][j],
            ),
{
    let q = |c: char| true;
    lemma_words_chars(alnum_pred(), q, lowercase_of(s));
}

/// The embedding does not depend on the order of the tokens.
pub proof fn lemma_bucket_counts_swap(a: Seq<Seq<char>>, b: Seq<Seq<char>>)
    ensures
        bucket_counts(a + b) == bucket_counts(b + a),
{
    lemma_bucket_counts_concat(a, b);
    lemma_bucket_counts_concat(b, a);
    lemma_bucket_counts_len(a);
    lemma_bucket_counts_len(b);
    assert(add_counts(bucket_counts(a), bucket_counts(b)) =~= add_counts(
        bucket_counts(b),
        bucket_counts(a),
    ));
}

/// A token of `t2` occurs in `t1` when both hold the same tokens; taking it
/// out of both keeps them the same.
proof fn lemma_multiset_take_last(t1: Seq<Seq<char>>, t2: Seq<Seq<char>>) -> (k: int)
    requires
        t1.to_multiset() == t2.to_multiset(),
        t2.len() > 0,
    ensures
        0 <= k < t1.len(),
        t1[k] == t2.last(),
        t1.remove(k).to_multiset() == t2.drop_last().to_multiset(),
{
    broadcast use vstd::seq_lib::group_to_multiset_ensures, vstd::multiset::group_multiset_axioms;

    let x = t2.last();
    let t2a = t2.drop_last();
    assert(t2a.push(x) =~= t2);
    assert(t1.to_multiset().count(x) > 0);
    assert(t1.contains(x));
    let k = choose|k: int| 0 <= k < t1.len() && t1[k] == x;
    assert(t1.remove(k).to_multiset() =~= t2a.to_multiset());
    k
}

/// The bucket counts of a token sequence are those without its `k`-th token
/// plus those of that token alone.
proof fn lemma_bucket_counts_remove(t: Seq<Seq<char>>, k: int)
    requires
        0 <= k < t.len(),
    ensures
        bucket_counts(t) == add_counts(bucket_counts(t.remove(k)), bucket_counts(seq![t[k]])),
{
    let front = t.take(k);
    let back = t.skip(k + 1);
    assert(t =~= front + seq![t[k]] + back);
    assert(t.remove(k) =~= front + back);
    lemma_bucket_counts_concat(front + seq![t[k]], back);
    lemma_bucket_counts_concat(front, seq![t[k]]);
    lemma_bucket_counts_concat(front, back);
    lemma_bucket_counts_len(front);
    lemma_bucket_counts_len(back);
    lemma_bucket_counts_len(seq![t[k]]);
    assert(bucket_counts(t) =~= add_counts(bucket_counts(t.remove(k)), bucket_counts(seq![t[k]])));
}

/// The embedding does not depend on the order of the tokens at all: token
/// sequences that are permutations of each other have the same bucket counts.
pub proof fn lemma_bucket_counts_perm(t1: Seq<Seq<char>>, t2: Seq<Seq<char>>)
    requires
        t1.to_multiset() == t2.to_multiset(),
    ensures
        bucket_counts(t1) == bucket_counts(t2),
    decreases t2.len(),
{
    if t2.len() == 0 {
        assert(t1.to_multiset().len() == 0) by {
            broadcast use vstd::seq_lib::group_to_multiset_ensures, vstd::multiset::group_multiset_axioms;
            assert(t2 =~= Seq::<Seq<char>>::empty());
        }
        assert(t1.len() == 0) by {
            broadcast use vstd::seq_lib::group_to_multiset_ensures;
        }
        assert(t1 =~= t2);
    } else {
        let k = lemma_multiset_take_last(t1, t2);
        let t2a = t2.drop_last();
        lemma_bucket_counts_perm(t1.remove(k), t2a);
        lemma_bucket_counts_remove(t1, k);
        assert(t2 =~= t2a + seq![t2.last()]);
        lemma_bucket_counts_concat(t2a, seq![t2.last()]);
    }
}

/// Texts whose tokens are the same up to order have the same embedding.
pub proof fn lemma_text_counts_perm(s: Seq<char>, t: Seq<char>)
    requires
        tokens(s).to_multiset() == tokens(t).to_multiset(),
    ensures
        text_counts(s) == text_counts(t),
{
    lemma_bucket_counts_perm(tokens(s), tokens(t));
}

} // verus!
