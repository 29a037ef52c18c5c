use potoo::text::{find_first, join, matches_at, prefix_before, remove_all, text};

#[test]
fn join_puts_the_separator_between_parts() {
    assert_eq!(join(&vec![], ", "), "");
    assert_eq!(join(&vec!["a".to_string()], ", "), "a");
    assert_eq!(join(&vec!["a".to_string(), "b".to_string(), "".to_string()], "::"), "a::b::");
}

#[test]
fn matches_at_compares_characters() {
    assert!(matches_at("a::b", "::", 1));
    assert!(!matches_at("a::b", "::", 0));
    assert!(!matches_at("a::b", "::", 3));
    assert!(!matches_at("a::b", "::", 9));
    assert!(matches_at("é::b", "::", 1));
    assert!(matches_at("abc", "", 3));
}

#[test]
fn find_first_gives_the_leftmost_position_or_the_length() {
    assert_eq!(find_first("a::b::c", "::"), 1);
    assert_eq!(find_first("abc", "::"), 3);
    assert_eq!(find_first("", "::"), 0);
    assert_eq!(find_first("::", "::"), 0);
}

#[test]
fn prefix_before_keeps_what_stands_before_the_pattern() {
    assert_eq!(prefix_before("bevy::prelude::*", "::"), "bevy");
    assert_eq!(prefix_before("rand", "::"), "rand");
    assert_eq!(prefix_before("::x", "::"), "");
    assert_eq!(prefix_before("héllo::x", "::"), "héllo");
}

#[test]
fn remove_all_takes_every_occurrence_out() {
    assert_eq!(remove_all("utilities.rs", ".rs"), "utilities");
    assert_eq!(remove_all("a.rs.rs", ".rs"), "a");
    assert_eq!(remove_all(".rsa.rsb", ".rs"), "ab");
    assert_eq!(remove_all("..rsrs", ".rs"), ".rs");
    assert_eq!(remove_all("plain", ".rs"), "plain");
    assert_eq!(remove_all("plain", ""), "plain");
    assert_eq!(remove_all("utilities.rs", ".rs"), "utilities.rs".replace(".rs", ""));
}

#[test]
fn text_copies_a_string() {
    assert_eq!(text("héllo"), "héllo".to_string());
}
