use todo_api::text::{bytes_eq, contains_text, decimal_text, text_eq};

#[test]
fn decimal_text_renders_zero() {
    assert_eq!(decimal_text(0), "0");
}

#[test]
fn decimal_text_renders_single_digits() {
    assert_eq!(decimal_text(7), "7");
    assert_eq!(decimal_text(9), "9");
}

#[test]
fn decimal_text_renders_several_digits() {
    assert_eq!(decimal_text(10), "10");
    assert_eq!(decimal_text(42), "42");
    assert_eq!(decimal_text(1005), "1005");
}

#[test]
fn decimal_text_renders_negative_numbers() {
    assert_eq!(decimal_text(-1), "-1");
    assert_eq!(decimal_text(-320), "-320");
}

#[test]
fn decimal_text_renders_the_extremes() {
    assert_eq!(decimal_text(i32::MAX), "2147483647");
    assert_eq!(decimal_text(i32::MIN), "-2147483648");
}

#[test]
fn decimal_text_agrees_with_the_standard_rendering() {
    for value in [-100_000, -99, -10, -9, 0, 9, 10, 99, 100, 123_456_789] {
        assert_eq!(decimal_text(value), format!("{}", value));
    }
}

#[test]
fn bytes_eq_compares_content() {
    assert!(bytes_eq(b"", b""));
    assert!(bytes_eq(b"abc", b"abc"));
    assert!(!bytes_eq(b"abc", b"abd"));
    assert!(!bytes_eq(b"abc", b"ab"));
    assert!(!bytes_eq(b"", b"a"));
}

#[test]
fn text_eq_compares_characters() {
    assert!(text_eq("", ""));
    assert!(text_eq("RS256", "RS256"));
    assert!(!text_eq("RS256", "RS384"));
    assert!(!text_eq("RS256", "rs256"));
    assert!(!text_eq("key", "key-1"));
    assert!(text_eq("zoë", "zoë"));
    assert!(!text_eq("zoë", "zoe"));
}

#[test]
fn contains_text_finds_a_run_anywhere() {
    assert!(contains_text("duplicate key", "duplicate"));
    assert!(contains_text("a duplicate key", "duplicate"));
    assert!(contains_text("key duplicate", "duplicate"));
    assert!(contains_text("duplicate", "duplicate"));
}

#[test]
fn contains_text_rejects_what_is_not_there() {
    assert!(!contains_text("duplicat", "duplicate"));
    assert!(!contains_text("dupli cate", "duplicate"));
    assert!(!contains_text("", "duplicate"));
    assert!(!contains_text("DUPLICATE", "duplicate"));
}

#[test]
fn contains_text_finds_the_empty_text_everywhere() {
    assert!(contains_text("", ""));
    assert!(contains_text("abc", ""));
}

#[test]
fn contains_text_finds_a_run_after_a_false_start() {
    assert!(contains_text("aab", "ab"));
    assert!(contains_text("abababc", "ababc"));
    assert!(!contains_text("ababab", "ababc"));
}

#[test]
fn contains_text_agrees_with_the_standard_search() {
    let hays = ["", "a", "ab", "aab", "abcabc", "xyz", "error: duplicate key value"];
    let needles = ["", "a", "b", "ab", "bc", "abc", "cab", "duplicate key"];
    for hay in hays {
        for needle in needles {
            assert_eq!(contains_text(hay, needle), hay.contains(needle));
        }
    }
}
