use shellpad::search::fuzzy_match;
use shellpad::search::find_matches_case_insensitive;

#[test]
fn search_test_find_matches_ascii() {
    let m = find_matches_case_insensitive("deploy backend", "deploy");
    assert_eq!(m, vec![(0, 6)]);
}

#[test]
fn search_test_find_matches_case_insensitive_ascii() {
    let m = find_matches_case_insensitive("Deploy Backend", "deploy");
    assert_eq!(m, vec![(0, 6)]);
}

#[test]
fn search_test_find_matches_no_match() {
    let m = find_matches_case_insensitive("hello world", "xyz");
    assert!(m.is_empty());
}

#[test]
fn search_test_find_matches_empty_query() {
    let m = find_matches_case_insensitive("hello", "");
    assert!(m.is_empty());
}

#[test]
fn search_test_find_matches_multiple() {
    let m = find_matches_case_insensitive("test test test", "test");
    assert_eq!(m.len(), 3);
    assert_eq!(m[0], (0, 4));
    assert_eq!(m[1], (5, 9));
    assert_eq!(m[2], (10, 14));
}

#[test]
fn search_test_find_matches_partial_word() {
    // "deployment" — "ploy" starts at char index 2 (byte 2)
    let m = find_matches_case_insensitive("deployment", "ploy");
    assert_eq!(m, vec![(2, 6)]);
}

#[test]
fn search_test_find_matches_unicode_safe() {
    // Use characters whose case-folding does NOT change byte length
    let m = find_matches_case_insensitive("Café", "café");
    assert_eq!(m, vec![(0, 5)]);
}

#[test]
fn search_test_find_matches_eszett_roundtrip() {
    // ẞ (U+1E9E, capital sharp S, 3 bytes in UTF-8) → ß (U+00DF, 2 bytes)
    // The match byte positions come from char_indices of the searched text
    let text = "STRAẞE";
    // Search for "E" at the end — should only match the last character
    let m = find_matches_case_insensitive(text, "e");
    assert_eq!(m.len(), 1);
    // The match should be the last character "E" (byte 6..7)
    assert_eq!(&text[m[0].0..m[0].1], "E");
}

#[test]
fn search_test_find_matches_eszett_inside() {
    // ẞ to ß changes byte length: 3 bytes → 2 bytes
    // This test verifies we don't panic on such strings
    let text = "STRAẞE";
    let m = find_matches_case_insensitive(text, "e");
    assert!(!m.is_empty());
    for (start, end) in &m {
        // Every slice should be valid UTF-8 (will not panic)
        let _ = &text[*start..*end];
    }
}

#[test]
fn main_screen_test_find_matches_ascii() {
    let m = find_matches_case_insensitive("deploy backend", "deploy");
    assert_eq!(m, vec![(0, 6)]);
}

#[test]
fn main_screen_test_find_matches_case_insensitive_ascii() {
    let m = find_matches_case_insensitive("Deploy Backend", "deploy");
    assert_eq!(m, vec![(0, 6)]);
}

#[test]
fn main_screen_test_find_matches_no_match() {
    let m = find_matches_case_insensitive("hello world", "xyz");
    assert!(m.is_empty());
}

#[test]
fn main_screen_test_find_matches_empty_query() {
    let m = find_matches_case_insensitive("hello", "");
    assert!(m.is_empty());
}

#[test]
fn main_screen_test_find_matches_multiple() {
    let m = find_matches_case_insensitive("test test test", "test");
    assert_eq!(m.len(), 3);
    assert_eq!(m[0], (0, 4));
    assert_eq!(m[1], (5, 9));
    assert_eq!(m[2], (10, 14));
}

#[test]
fn main_screen_test_find_matches_partial_word() {
    // "deployment" — "ploy" starts at char index 2 (byte 2)
    let m = find_matches_case_insensitive("deployment", "ploy");
    assert_eq!(m, vec![(2, 6)]);
}

#[test]
fn main_screen_test_find_matches_unicode_safe() {
    // Use characters whose case-folding does NOT change byte length
    let m = find_matches_case_insensitive("Café", "café");
    assert_eq!(m, vec![(0, 5)]);
}

#[test]
fn main_screen_test_find_matches_eszett_roundtrip() {
    // ẞ (U+1E9E, capital sharp S, 3 bytes in UTF-8) → ß (U+00DF, 2 bytes)
    // The match byte positions come from char_indices of the searched text
    let text = "STRAẞE";
    // Search for "E" at the end — should only match the last character
    let m = find_matches_case_insensitive(text, "e");
    assert_eq!(m.len(), 1);
    // The match should be the last character "E" (byte 6..7)
    assert_eq!(&text[m[0].0..m[0].1], "E");
}

#[test]
fn main_screen_test_find_matches_eszett_inside() {
    // ẞ to ß changes byte length: 3 bytes → 2 bytes
    // This test verifies we don't panic on such strings
    let text = "STRAẞE";
    let m = find_matches_case_insensitive(text, "e");
    assert!(!m.is_empty());
    for (start, end) in &m {
        // Every slice should be valid UTF-8 (will not panic)
        let _ = &text[*start..*end];
    }
}

#[test]
fn main_screen_reexports_find_matches() {
    let m = shellpad::ui::main_screen::find_matches_case_insensitive("ab AB", "b");
    assert_eq!(m, vec![(1, 2), (4, 5)]);
}

#[test]
fn fuzzy_match_picks_letters_in_order() {
    assert_eq!(fuzzy_match("Deploy", "dpy"), Some(vec![(0, 1), (2, 3), (5, 6)]));
    assert_eq!(fuzzy_match("Deploy", "yd"), None);
    assert_eq!(fuzzy_match("abc", ""), Some(vec![]));
}
