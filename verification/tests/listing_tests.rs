use portablesource_core::listing::{str_lex_le, visible_folders};

fn names(items: &[&str]) -> Vec<String> {
    items.iter().map(|s| s.to_string()).collect()
}

#[test]
fn listing_hides_dot_folders_and_sorts_the_rest() {
    let got = visible_folders(&names(&["zeta", ".git", "alpha", ".cache", "midway"]));
    assert_eq!(got, ["alpha", "midway", "zeta"]);
}

#[test]
fn listing_of_only_hidden_folders_is_empty() {
    let got = visible_folders(&names(&[".a", ".b"]));
    assert!(got.is_empty());
}

#[test]
fn listing_keeps_duplicates() {
    let got = visible_folders(&names(&["b", "a", "b"]));
    assert_eq!(got, ["a", "b", "b"]);
}

#[test]
fn listing_of_nothing_is_empty() {
    let got = visible_folders(&names(&[]));
    assert!(got.is_empty());
}

#[test]
fn listing_sorts_by_character_code() {
    let got = visible_folders(&names(&["b2", "B1", "a10", "a2"]));
    assert_eq!(got, ["B1", "a10", "a2", "b2"]);
}

#[test]
fn string_order_is_lexicographic() {
    assert!(str_lex_le("abc", "abd"));
    assert!(str_lex_le("ab", "abc"));
    assert!(!str_lex_le("abd", "abc"));
    assert!(str_lex_le("", "a"));
    assert!(str_lex_le("same", "same"));
}
