use phoenix_engine::strmap::StrMap;
use phoenix_engine::text::{equals_ascii_lower, replace_str, str_contains, str_equals};

#[test]
fn replacing() {
    assert_eq!(replace_str("aaa", "aa", "b"), "ba");
    assert_eq!(replace_str("{x}{x}", "{x}", "1"), "11");
    assert_eq!(replace_str("héllo wörld", "ö", "o"), "héllo world");
    assert_eq!(replace_str("", "x", "y"), "");
}

#[test]
fn comparing_and_searching() {
    assert!(str_equals("abc", "abc"));
    assert!(!str_equals("abc", "abd"));
    assert!(equals_ascii_lower("PnG", "png"));
    assert!(!equals_ascii_lower("png", "PNG"));
    assert!(str_contains("player one", "one"));
    assert!(str_contains("x", ""));
    assert!(!str_contains("one", "player one"));
}

#[test]
fn string_map_keeps_insertion_order() {
    let mut m: StrMap<u32> = StrMap::new();
    m.insert("b".to_string(), 1);
    m.insert("a".to_string(), 2);
    m.insert("b".to_string(), 3);
    assert_eq!(m.len(), 2);
    assert_eq!(m.keys(), vec!["b".to_string(), "a".to_string()]);
    assert_eq!(m.get("b"), Some(&3));
    assert_eq!(m.remove("b"), Some(3));
    assert_eq!(m.remove("b"), None);
    assert_eq!(m.entry_at(0), (&"a".to_string(), &2));
    m.clear();
    assert_eq!(m.len(), 0);
}
