use mcp_qdrant::keyword::{
    initial_search_limit, keep_nonempty, lowered_hit_passes, parse_keywords, select_keyword_hits,
    text_contains_keywords, PayloadTexts,
};
use mcp_qdrant::text::{
    chars_of, contains_chars, is_whitespace_char, same_text, split_words, starts_with_chars,
};

fn texts(text: Option<&str>, content: Option<&str>, body: Option<&str>, description: Option<&str>) -> PayloadTexts {
    PayloadTexts {
        text: text.map(|s| s.to_string()),
        content: content.map(|s| s.to_string()),
        body: body.map(|s| s.to_string()),
        description: description.map(|s| s.to_string()),
    }
}

#[test]
fn whitespace_agrees_with_std_on_every_char() {
    for u in 0u32..=0x10FFFF {
        if let Some(c) = char::from_u32(u) {
            assert_eq!(is_whitespace_char(c), c.is_whitespace(), "U+{:04X}", u);
        }
    }
}

#[test]
fn split_words_matches_split_whitespace() {
    let samples = [
        "",
        "   ",
        "one",
        "  postgresql   indexing ",
        "a\tb\nc\r\nd",
        "x\u{3000}y\u{00A0}z\u{2009}w",
        "trailing ",
        " leading",
    ];
    for s in samples {
        let expected: Vec<String> = s.split_whitespace().map(|w| w.to_string()).collect();
        assert_eq!(split_words(s), expected, "{:?}", s);
    }
}

#[test]
fn chars_round_trip() {
    let s = "héllo wörld ✓";
    let v = chars_of(s);
    assert_eq!(v, s.chars().collect::<Vec<_>>());
}

#[test]
fn contains_and_prefix() {
    let hay = chars_of("vector databases enable semantic search");
    assert!(contains_chars(&hay, &chars_of("semantic")));
    assert!(contains_chars(&hay, &chars_of("")));
    assert!(contains_chars(&hay, &chars_of("search")));
    assert!(!contains_chars(&hay, &chars_of("Semantic")));
    assert!(!contains_chars(&chars_of("ab"), &chars_of("abc")));
    assert!(starts_with_chars(&hay, &chars_of("vector ")));
    assert!(!starts_with_chars(&hay, &chars_of("databases")));
    assert!(same_text("qc1", "qc1"));
    assert!(!same_text("qc1", "qc2"));
}

#[test]
fn keywords_are_lowercased_words() {
    assert_eq!(parse_keywords("PostgreSQL  Indexing"), vec!["postgresql".to_string(), "indexing".to_string()]);
    assert_eq!(parse_keywords("tensorflow pytorch"), vec!["tensorflow".to_string(), "pytorch".to_string()]);
    assert!(parse_keywords("").is_empty());
    assert!(parse_keywords(" \t\n ").is_empty());
    assert_eq!(parse_keywords("ÄRGER Straße"), vec!["ärger".to_string(), "straße".to_string()]);
}

#[test]
fn initial_limit_widens_only_with_keywords() {
    assert_eq!(initial_search_limit(10, 0), 10);
    assert_eq!(initial_search_limit(10, 2), 50);
    assert_eq!(initial_search_limit(0, 3), 0);
}

#[test]
fn keyword_filter_keeps_matching_hits_in_order() {
    let hits = vec![
        texts(Some("Rust is a systems programming language"), None, None, None),
        texts(None, Some("Tokio powers async RUST code"), None, None),
        texts(None, None, None, None),
        texts(None, None, Some("Qdrant search"), Some("Async runtime for rust")),
        texts(Some("nothing relevant"), None, None, None),
    ];
    let kws = parse_keywords("rust async");
    assert_eq!(select_keyword_hits(&hits, &kws, 10), vec![1, 3]);
    assert_eq!(select_keyword_hits(&hits, &kws, 1), vec![1]);
    assert_eq!(select_keyword_hits(&hits, &kws, 0), Vec::<usize>::new());
    let one = parse_keywords("RUST");
    assert_eq!(select_keyword_hits(&hits, &one, 10), vec![0, 1, 3]);
}

#[test]
fn keyword_filter_needs_all_keywords_in_one_field() {
    // "rust" in text and "async" in content: no single field holds both.
    let hits = vec![texts(Some("rust"), Some("async"), None, None)];
    let kws = parse_keywords("rust async");
    assert!(select_keyword_hits(&hits, &kws, 5).is_empty());
}

#[test]
fn keywords_from_lowered_words() {
    let words = vec!["rust".to_string(), String::new(), "async".to_string(), String::new()];
    assert_eq!(keep_nonempty(&words), vec!["rust".to_string(), "async".to_string()]);
    assert!(keep_nonempty(&Vec::new()).is_empty());
}

#[test]
fn lowered_text_against_keywords() {
    let kws = vec!["rust".to_string(), "safety".to_string()];
    assert!(text_contains_keywords("rust focuses on safety", &kws));
    assert!(!text_contains_keywords("Rust focuses on safety", &kws));
    assert!(!text_contains_keywords("rust focuses on speed", &kws));
    assert!(text_contains_keywords("anything", &Vec::new()));
}

#[test]
fn lowered_hits_against_keywords() {
    let kws = vec!["rust".to_string(), "async".to_string()];
    assert!(lowered_hit_passes(&texts(None, None, Some("async rust"), None), &kws));
    assert!(!lowered_hit_passes(&texts(Some("rust"), Some("async"), None, None), &kws));
    assert!(!lowered_hit_passes(&texts(Some("ASYNC RUST"), None, None, None), &kws));
    assert!(!lowered_hit_passes(&texts(None, None, None, None), &Vec::new()));
    assert!(lowered_hit_passes(&texts(None, None, None, Some("")), &Vec::new()));
}

#[test]
fn spaced_example_keeps_two() {
    let hits = vec![
        texts(Some("Rust is about safety"), None, None, None),
        texts(Some("Go is fast"), None, None, None),
        texts(None, Some("SAFETY first in rust"), None, None),
        texts(None, None, None, Some("rust safety again")),
    ];
    let kws = parse_keywords(" RUST safety ");
    assert_eq!(kws, vec!["rust".to_string(), "safety".to_string()]);
    assert_eq!(select_keyword_hits(&hits, &kws, 2), vec![0, 2]);
}

#[test]
fn keyword_set_decides_the_hits() {
    let hits = vec![
        texts(Some("rust async safety"), None, None, None),
        texts(Some("rust only"), None, None, None),
        texts(Some("async rust"), None, None, None),
    ];
    // Same keywords in another order, repeated: same hits.
    let a = parse_keywords("rust async");
    let b = parse_keywords("async rust async");
    assert_eq!(select_keyword_hits(&hits, &a, 10), select_keyword_hits(&hits, &b, 10));
    // An added keyword never adds a hit.
    let fewer = select_keyword_hits(&hits, &parse_keywords("rust"), 10);
    let more = select_keyword_hits(&hits, &parse_keywords("rust async safety"), 10);
    assert_eq!(fewer, vec![0, 1, 2]);
    assert_eq!(more, vec![0]);
    assert!(more.iter().all(|i| fewer.contains(i)));
}
