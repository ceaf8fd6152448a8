use helix_agent::embed::{embed_counts, fnv1a, tokenize, DIM};

#[test]
fn fnv1a_known_values() {
    assert_eq!(fnv1a(b""), 0xcbf29ce484222325);
    assert_eq!(fnv1a(b"a"), 0xaf63dc4c8601ec8c);
    assert_eq!(fnv1a(b"foobar"), 0x85944171f73967e8);
}

#[test]
fn tokenize_splits_and_lowercases() {
    let toks = tokenize("Hello, World! 123abc  RUST-lang");
    assert_eq!(toks, vec!["hello", "world", "123abc", "rust", "lang"]);
}

#[test]
fn tokenize_empty_and_separators_only() {
    assert!(tokenize("").is_empty());
    assert!(tokenize(" ,.;!? ").is_empty());
}

#[test]
fn tokenize_unicode_letters() {
    assert_eq!(tokenize("Ünïcödé café"), vec!["ünïcödé", "café"]);
}

fn bucket(tok: &str) -> (usize, i128) {
    let h = fnv1a(tok.as_bytes());
    let idx = (h % DIM as u64) as usize;
    let sign = if (h >> 63) & 1 == 0 { 1 } else { -1 };
    (idx, sign)
}

#[test]
fn embed_counts_single_token() {
    let c = embed_counts("Rust");
    assert_eq!(c.len(), DIM);
    let (idx, sign) = bucket("rust");
    for (i, v) in c.iter().enumerate() {
        if i == idx {
            assert_eq!(*v, sign);
        } else {
            assert_eq!(*v, 0);
        }
    }
}

#[test]
fn embed_counts_is_case_insensitive_and_sums() {
    let a = embed_counts("rust is great");
    let b = embed_counts("RUST IS GREAT");
    assert_eq!(a, b);
    let joined = embed_counts("I like rust; rust is great");
    let x = embed_counts("I like rust");
    let y = embed_counts("rust is great");
    for i in 0..DIM {
        assert_eq!(joined[i], x[i] + y[i]);
    }
}

#[test]
fn embed_counts_order_does_not_matter() {
    assert_eq!(embed_counts("alpha beta gamma"), embed_counts("gamma alpha beta"));
}

#[test]
fn embed_counts_empty_text_is_zero() {
    assert!(embed_counts("...").iter().all(|v| *v == 0));
}

#[test]
fn embed_counts_repeated_token() {
    let c = embed_counts("tuna tuna tuna");
    let (idx, sign) = bucket("tuna");
    assert_eq!(c[idx], 3 * sign);
}

#[test]
fn tokenize_lowercases_before_splitting() {
    // 'İ' lowercases to "i" followed by a combining dot, which is not alphanumeric.
    assert_eq!(tokenize("\u{130}"), vec!["i"]);
    assert_eq!(tokenize("\u{130}stanbul"), vec!["i", "stanbul"]);
}

#[test]
fn tokenize_ascii_rejoin() {
    let toks = tokenize("Hello,   WORLD!! 42abc--x");
    assert_eq!(toks, vec!["hello", "world", "42abc", "x"]);
    assert_eq!(tokenize(&toks.join(" ")), toks);
    assert!(toks.iter().all(|t| !t.is_empty() && t.chars().all(|c| c.is_ascii_alphanumeric())));
}

#[test]
fn embed_counts_permuted_tokens() {
    assert_eq!(embed_counts("Rust, is: GREAT rust"), embed_counts("great rust IS rust"));
}
