use shell::Levenshtein;

#[test]
fn test_distance_empty_strings() {
    // Both strings empty.
    assert_eq!(Levenshtein::distance("", ""), 0);
}

#[test]
fn test_distance_one_empty() {
    // One string is empty.
    assert_eq!(Levenshtein::distance("", "abc"), 3);
    assert_eq!(Levenshtein::distance("abc", ""), 3);
}

#[test]
fn test_distance_identical_strings() {
    // Identical strings should have zero distance.
    let s = "rust";
    assert_eq!(Levenshtein::distance(s, s), 0);
}

#[test]
fn test_distance_general() {
    // "kitten" -> "sitting" has a distance of 3.
    assert_eq!(Levenshtein::distance("kitten", "sitting"), 3);
    // "flaw" -> "lawn" has a distance of 2.
    assert_eq!(Levenshtein::distance("flaw", "lawn"), 2);
}

#[test]
fn test_distance_case_sensitive() {
    // The distance is case sensitive.
    assert_eq!(Levenshtein::distance("Rust", "rust"), 1);
}

#[test]
fn test_get_closest_empty_candidates() {
    // When the candidate list is empty, there is no closest one.
    let source = "hello";
    let candidates: Vec<String> = Vec::new();
    assert_eq!(Levenshtein::get_closest(source, &candidates), None);
}

#[test]
fn test_get_closest_single_candidate() {
    // A single candidate is returned.
    let source = "hello";
    let candidates = vec!["hallo".to_string()];
    assert_eq!(Levenshtein::get_closest(source, &candidates), Some("hallo"));
}

#[test]
fn test_get_closest_multiple_candidates() {
    // The candidate with the smallest distance is returned.
    let source = "kitten";
    let candidates = vec![
        "sitting".to_string(), // distance 3
        "bitten".to_string(),  // distance 1
        "kitchen".to_string(), // distance 2
    ];
    assert_eq!(
        Levenshtein::get_closest(source, &candidates),
        Some("bitten")
    );
}

#[test]
fn test_get_closest_tie_breaker() {
    // On a tie, the first candidate with the least distance is chosen.
    let source = "abc";
    let candidates = vec![
        "abd".to_string(), // distance 1
        "abx".to_string(), // distance 1
    ];
    assert_eq!(Levenshtein::get_closest(source, &candidates), Some("abd"));
}

#[test]
fn test_get_closest_with_threshold_success() {
    // A candidate within the threshold is found.
    let source = "kitten";
    let candidates = vec![
        "sitting".to_string(), // distance 3
        "bitten".to_string(),  // distance 1
        "kitchen".to_string(), // distance 2
    ];
    assert_eq!(
        Levenshtein::get_closest_with_threshold(source, &candidates, 2),
        Some("bitten")
    );
}

#[test]
fn test_get_closest_with_threshold_fail() {
    // No candidate is within the threshold.
    let source = "kitten";
    let candidates = vec![
        "sitting".to_string(), // distance 3
        "kitchen".to_string(), // distance 2
    ];
    assert_eq!(
        Levenshtein::get_closest_with_threshold(source, &candidates, 1),
        None
    );
}

#[test]
fn distance_is_symmetric_on_samples() {
    let pairs = [("kitten", "sitting"), ("flaw", "lawn"), ("", "xyz"), ("abc", "cab")];
    for (a, b) in pairs {
        assert_eq!(Levenshtein::distance(a, b), Levenshtein::distance(b, a));
    }
}

#[test]
fn distance_to_empty_is_length() {
    assert_eq!(Levenshtein::distance("héllo", ""), 5);
    assert_eq!(Levenshtein::distance("", "ab"), 2);
}

#[test]
fn distance_counts_characters_not_bytes() {
    assert_eq!(Levenshtein::distance("é", "e"), 1);
    assert_eq!(Levenshtein::distance("日本", "日本語"), 1);
}

#[test]
fn distance_insert_delete_substitute() {
    assert_eq!(Levenshtein::distance("abc", "abxc"), 1);
    assert_eq!(Levenshtein::distance("abxc", "abc"), 1);
    assert_eq!(Levenshtein::distance("abc", "axc"), 1);
    assert_eq!(Levenshtein::distance("sunday", "saturday"), 3);
}

#[test]
fn threshold_none_iff_all_exceed() {
    let candidates = vec!["abcd".to_string(), "wxyz".to_string()];
    assert_eq!(Levenshtein::get_closest_with_threshold("abce", &candidates, 0), None);
    assert_eq!(
        Levenshtein::get_closest_with_threshold("abce", &candidates, 1),
        Some("abcd")
    );
}

#[test]
fn threshold_tie_prefers_first() {
    let candidates = vec!["xbc".to_string(), "ayc".to_string(), "abc".to_string()];
    assert_eq!(
        Levenshtein::get_closest_with_threshold("abz", &candidates, 2),
        Some("abc")
    );
    assert_eq!(
        Levenshtein::get_closest_with_threshold("qqq", &candidates, 3),
        Some("xbc")
    );
}
