use sbsrf_update::text::{sort_strings, str_ends_with, str_eq, str_le, str_starts_with};

#[test]
fn lexicographic_order_on_names() {
    assert!(str_le("20230101", "20230102"));
    assert!(!str_le("20230102", "20230101"));
    assert!(str_le("a", "a"));
    assert!(str_le("", "a"));
    assert!(!str_le("a", ""));
    assert!(str_le("abc", "abd"));
    assert!(str_le("ab", "abc"));
}

#[test]
fn sorting_is_ascending_and_keeps_every_name() {
    let input: Vec<String> =
        vec!["v3".to_string(), "v1".to_string(), "v2".to_string(), "v1".to_string()];
    let sorted = sort_strings(&input);
    assert_eq!(
        sorted,
        vec!["v1".to_string(), "v1".to_string(), "v2".to_string(), "v3".to_string()]
    );
}

#[test]
fn prefix_suffix_and_equality_checks() {
    assert!(str_starts_with("sbsrf-core", "sbsrf"));
    assert!(!str_starts_with("sb", "sbsrf"));
    assert!(str_ends_with("setup.exe", ".exe"));
    assert!(!str_ends_with("exe", ".exe"));
    assert!(str_eq("same", "same"));
    assert!(!str_eq("same", "other"));
}
