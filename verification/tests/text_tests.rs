use pasaka::text::{contains_substring, lowercase, str_eq};

#[test]
fn str_eq_compares_by_characters() {
    assert!(str_eq("Mungu", "Mungu"));
    assert!(!str_eq("Mungu", "mungu"));
    assert!(!str_eq("Mungu", "Mung"));
    assert!(str_eq("", ""));
}

#[test]
fn contains_substring_finds_inner_runs() {
    assert!(contains_substring("hapo mwanzo", "mwanzo"));
    assert!(contains_substring("hapo mwanzo", "hapo"));
    assert!(contains_substring("hapo mwanzo", "po mw"));
    assert!(!contains_substring("hapo mwanzo", "mbingu"));
}

#[test]
fn contains_substring_empty_pattern_always_matches() {
    assert!(contains_substring("hapo", ""));
    assert!(contains_substring("", ""));
}

#[test]
fn contains_substring_needs_the_whole_pattern() {
    assert!(!contains_substring("ab", "abc"));
    assert!(!contains_substring("", "a"));
}

#[test]
fn lowercase_folds_case() {
    assert_eq!(lowercase("MUNGU"), "mungu");
    assert_eq!(lowercase("Mwanzo"), "mwanzo");
    assert_eq!(lowercase(""), "");
}
