use finance_tracker::utils::text::chars_of;
use finance_tracker::utils::text::contains;
use finance_tracker::utils::text::same_text;
use finance_tracker::utils::text::strip_prefix;

#[test]
fn chars_come_in_order() {
    assert_eq!(chars_of("abc"), vec!['a', 'b', 'c']);
    assert_eq!(chars_of(""), Vec::<char>::new());
    assert_eq!(chars_of("é€"), vec!['é', '€']);
}

#[test]
fn contains_finds_a_needle_anywhere() {
    assert!(contains("users_username_key", "users_username_key"));
    assert!(contains("violates \"users_email_key\"", "users_email_key"));
    assert!(contains("abcabd", "abd"));
    assert!(contains("aab", "ab"));
    assert!(!contains("users_username_ke", "users_username_key"));
    assert!(!contains("abc", "abd"));
    assert!(!contains("", "a"));
}

#[test]
fn the_empty_needle_is_everywhere() {
    assert!(contains("abc", ""));
    assert!(contains("", ""));
}

#[test]
fn same_text_compares_every_character() {
    assert!(same_text("23505", "23505"));
    assert!(same_text("", ""));
    assert!(!same_text("23505", "23506"));
    assert!(!same_text("23505", "2350"));
    assert!(!same_text("2350", "23505"));
}

#[test]
fn strip_prefix_returns_what_follows() {
    assert_eq!(strip_prefix("Bearer abc", "Bearer "), Some("abc"));
    assert_eq!(strip_prefix("Bearer ", "Bearer "), Some(""));
    assert_eq!(strip_prefix("Bearer é€", "Bearer "), Some("é€"));
    assert_eq!(strip_prefix("abc", ""), Some("abc"));
}

#[test]
fn strip_prefix_refuses_another_start() {
    assert_eq!(strip_prefix("bearer abc", "Bearer "), None);
    assert_eq!(strip_prefix("Bearer", "Bearer "), None);
    assert_eq!(strip_prefix("Basic abc", "Bearer "), None);
    assert_eq!(strip_prefix("", "Bearer "), None);
    assert_eq!(strip_prefix(" Bearer abc", "Bearer "), None);
}
