use tunnelize::common::text::{get_random_letters, get_random_secret, is_constant_time_equals, letters_at};

const CHARACTER_SET: &[u8] = b"abcdefghijklmnopqrstuvwxyz";

#[test]
fn test_get_random_letters_length() {
    let result = get_random_letters(10);
    assert_eq!(result.len(), 10);
}

#[test]
fn test_get_random_letters_content() {
    let result = get_random_letters(10);
    for c in result.chars() {
        assert!(CHARACTER_SET.contains(&(c as u8)));
    }
}

#[test]
fn test_get_random_letters_zero_length() {
    let result = get_random_letters(0);
    assert_eq!(result.len(), 0);
}

#[test]
fn test_is_constant_time_equals_equal() {
    assert!(is_constant_time_equals("test", "test"));
}

#[test]
fn negative_letter_count_gives_nothing() {
    assert_eq!(get_random_letters(-3), "");
}

#[test]
fn random_secret_has_the_asked_length_and_alphabet() {
    let secret = get_random_secret(64);
    assert_eq!(secret.chars().count(), 64);
    assert!(secret.chars().all(|c| c.is_ascii_alphanumeric()));
    assert_eq!(get_random_secret(0), "");
}

#[test]
fn constant_time_comparison_tells_strings_apart() {
    assert!(!is_constant_time_equals("test", "tesT"));
    assert!(!is_constant_time_equals("test", "test "));
    assert!(!is_constant_time_equals("", "a"));
    assert!(is_constant_time_equals("", ""));
}

#[test]
fn letters_at_picks_the_drawn_positions() {
    let set: Vec<char> = "abcdefghijklmnopqrstuvwxyz".chars().collect();
    assert_eq!(letters_at(&set, &vec![7, 4, 11, 11, 14]), vec!['h', 'e', 'l', 'l', 'o']);
    assert_eq!(letters_at(&set, &vec![25, 0]), vec!['z', 'a']);
    assert!(letters_at(&set, &Vec::new()).is_empty());
}

#[test]
fn random_letters_are_not_all_the_same() {
    let samples: Vec<String> = (0..20).map(|_| get_random_letters(16)).collect();
    assert!(samples.iter().any(|s| s.chars().any(|c| c != 'a')));
    assert!(samples.iter().any(|s| s != &samples[0]));
}
