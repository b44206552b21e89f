use oncampus::text::{chars_of, contains_char, ends_with, matches_at, string_of, trim_bounds};

#[test]
fn chars_of_keeps_every_character() {
    assert_eq!(chars_of("a@b"), vec!['a', '@', 'b']);
}

#[test]
fn contains_char_finds_a_space() {
    assert!(contains_char("user name", ' '));
    assert!(!contains_char("username", ' '));
}

#[test]
fn ends_with_sees_the_domain() {
    assert!(ends_with("alice@dcrustm.org", "dcrustm.org"));
    assert!(!ends_with("alice@example.com", "dcrustm.org"));
    assert!(!ends_with("org", "dcrustm.org"));
}

#[test]
fn string_of_cuts_a_range() {
    let v: Vec<char> = "héllo".chars().collect();
    assert_eq!(string_of(&v, 1, 4), "éll");
    assert_eq!(string_of(&v, 0, 5), "héllo");
    assert_eq!(string_of(&v, 2, 2), "");
}

#[test]
fn matches_at_looks_for_a_prefix_at_a_place() {
    let v: Vec<char> = "abcabc".chars().collect();
    let bc: Vec<char> = "bc".chars().collect();
    assert!(matches_at(&v, 1, &bc));
    assert!(matches_at(&v, 4, &bc));
    assert!(!matches_at(&v, 0, &bc));
    assert!(!matches_at(&v, 5, &bc));
    assert!(matches_at(&v, 6, &vec![]));
}

#[test]
fn trim_bounds_skips_the_spaces_around() {
    let v: Vec<char> = "  a b  ".chars().collect();
    assert_eq!(trim_bounds(&v, 0, v.len()), (2, 5));
    assert_eq!(trim_bounds(&v, 3, v.len()), (4, 5));
    let blank: Vec<char> = "   ".chars().collect();
    assert_eq!(trim_bounds(&blank, 0, 3), (3, 3));
    assert_eq!(trim_bounds(&blank, 1, 1), (1, 1));
}
