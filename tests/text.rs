use evaltor::text::{decimal_text, join_path, split_ascii_words};

#[test]
fn decimal_of_small_numbers() {
    assert_eq!(decimal_text(0), "0");
    assert_eq!(decimal_text(7), "7");
    assert_eq!(decimal_text(512), "512");
    assert_eq!(decimal_text(-42), "-42");
}

#[test]
fn decimal_of_extremes() {
    assert_eq!(decimal_text(i64::MAX), "9223372036854775807");
    assert_eq!(decimal_text(i64::MIN), "-9223372036854775808");
}

#[test]
fn words_split_at_ascii_whitespace() {
    assert_eq!(
        split_ascii_words("  /usr/bin/python3\tmain.py \n"),
        vec!["/usr/bin/python3".to_string(), "main.py".to_string()]
    );
}

#[test]
fn no_words_in_blank_text() {
    assert!(split_ascii_words("").is_empty());
    assert!(split_ascii_words(" \t\r\n\x0c").is_empty());
}

#[test]
fn non_ascii_text_stays_whole() {
    assert_eq!(split_ascii_words("ž\u{a0}x y"), vec!["ž\u{a0}x".to_string(), "y".to_string()]);
}

#[test]
fn join_adds_one_separator() {
    assert_eq!(join_path("/srv/tests", "a"), "/srv/tests/a");
    assert_eq!(join_path("/srv/tests/", "a"), "/srv/tests/a");
    assert_eq!(join_path("", "a"), "a");
}

#[test]
fn join_absolute_part_replaces() {
    assert_eq!(join_path("/srv/tests", "/etc"), "/etc");
}
