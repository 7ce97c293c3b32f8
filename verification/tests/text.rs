//! The text utilities underneath the tool and store logic.

use chatto::text::{
    i64_to_dec, join_with, pad_left, split_lines, starts_with, str_eq, trim_ws, u64_to_dec,
    word_count,
};

#[test]
fn decimal_rendering_is_exact() {
    assert_eq!(u64_to_dec(0), "0");
    assert_eq!(u64_to_dec(7), "7");
    assert_eq!(u64_to_dec(12345), "12345");
    assert_eq!(u64_to_dec(u64::MAX), "18446744073709551615");
    assert_eq!(i64_to_dec(-42), "-42");
    assert_eq!(i64_to_dec(i64::MIN), "-9223372036854775808");
    assert_eq!(i64_to_dec(9), "9");
}

#[test]
fn padding_right_aligns() {
    assert_eq!(pad_left("7", 4), "   7");
    assert_eq!(pad_left("12345", 4), "12345");
}

#[test]
fn lines_split_like_a_text_file() {
    let lines = split_lines("a\nb\nc");
    assert_eq!(lines, vec!["a", "b", "c"]);
    // A final line ending adds no empty line.
    assert_eq!(split_lines("a\nb\n"), vec!["a", "b"]);
    // A carriage return before the newline is stripped.
    assert_eq!(split_lines("a\r\nb"), vec!["a", "b"]);
    // Empty interior lines survive.
    assert_eq!(split_lines("a\n\nb"), vec!["a", "", "b"]);
    let empty: Vec<String> = vec![];
    assert_eq!(split_lines(""), empty);
}

#[test]
fn joining_restores_separators() {
    let parts = vec!["a".to_string(), "b".to_string(), "c".to_string()];
    assert_eq!(join_with(&parts, "\n"), "a\nb\nc");
    assert_eq!(join_with(&vec!["x".to_string()], "\n"), "x");
    assert_eq!(join_with(&vec![], "\n"), "");
}

#[test]
fn comparisons_work_on_characters() {
    assert!(str_eq("abc", "abc"));
    assert!(!str_eq("abc", "abd"));
    assert!(starts_with("/save work", "/save"));
    assert!(!starts_with("/sa", "/save"));
}

#[test]
fn trimming_removes_blank_edges() {
    assert_eq!(trim_ws("  hello \t"), "hello");
    assert_eq!(trim_ws("\n\n"), "");
    assert_eq!(trim_ws("solid"), "solid");
}

#[test]
fn words_are_maximal_blank_free_runs() {
    assert_eq!(word_count("hello world"), 2);
    assert_eq!(word_count("  spaced   out  "), 2);
    assert_eq!(word_count(""), 0);
    assert_eq!(word_count("one"), 1);
    assert_eq!(word_count("a\tb\nc"), 3);
}
