use multi_tier_cache::{glob_match, select_matching};

#[test]
fn star_question_and_literal() {
    assert!(glob_match("u:*", "u:1"));
    assert!(glob_match("u:*", "u:"));
    assert!(!glob_match("u:*", "other"));
    assert!(glob_match("*", ""));
    assert!(glob_match("a?c", "abc"));
    assert!(!glob_match("a?c", "ac"));
    assert!(glob_match("user:pattern:*:", "user:pattern:7:"));
    assert!(glob_match("*key*", "xkeyy"));
    assert!(!glob_match("abc", "abcd"));
}

#[test]
fn bracket_classes_and_escapes() {
    assert!(glob_match("h[ae]llo", "hello"));
    assert!(!glob_match("h[ae]llo", "hillo"));
    assert!(glob_match("h[^e]llo", "hallo"));
    assert!(!glob_match("h[^e]llo", "hello"));
    assert!(glob_match("h[a-c]llo", "hbllo"));
    assert!(!glob_match("h[a-c]llo", "hdllo"));
    assert!(glob_match("h[c-a]llo", "hbllo"));
    assert!(glob_match("a\\*b", "a*b"));
    assert!(!glob_match("a\\*b", "axb"));
    assert!(glob_match("a[b", "a[b"));
}

#[test]
fn pattern_selection() {
    let keys: Vec<String> = ["u:1", "u:2", "u:3", "other"].iter().map(|s| s.to_string()).collect();
    assert_eq!(select_matching(&keys, "u:*"), vec!["u:1".to_string(), "u:2".to_string(), "u:3".to_string()]);
    assert!(select_matching(&keys, "x*").is_empty());
    assert_eq!(select_matching(&keys, "*").len(), 4);
}
