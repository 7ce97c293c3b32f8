//! File excerpts, write application and the preview diff.

use chatto::filetools::{
    apply_write, parse_write_mode, render_file_excerpt, write_diff_lines, write_success_message,
    DiffKind, WriteMode,
};

fn five_lines() -> &'static str {
    "one\ntwo\nthree\nfour\nfive"
}

fn lines_of(text: &str) -> Vec<String> {
    text.lines().map(|l| l.to_string()).collect()
}

/// A start past the end of the file gives a descriptive text, never a
/// crash.
#[test]
fn excerpt_start_beyond_file_reports_it() {
    let out = render_file_excerpt(&lines_of(five_lines()), Some(10), None);
    assert_eq!(out, "Start line exceeds file length");
}

#[test]
fn excerpt_start_not_before_end_reports_it() {
    let out = render_file_excerpt(&lines_of(five_lines()), Some(3), Some(2));
    assert_eq!(out, "Start line must be less than or equal to end line");
}

#[test]
fn excerpt_renders_numbered_lines() {
    let out = render_file_excerpt(&lines_of(five_lines()), Some(2), Some(4));
    assert_eq!(out, "   2: two\n   3: three\n   4: four");
}

#[test]
fn excerpt_defaults_cover_the_whole_file() {
    let out = render_file_excerpt(&lines_of("alpha\nbeta"), None, None);
    assert_eq!(out, "   1: alpha\n   2: beta");
}

/// Replacing lines 2 to 3 of a five-line file changes only those lines.
#[test]
fn replace_changes_only_the_named_range() {
    let r = apply_write(Some(five_lines()), "TWO\nTHREE", WriteMode::Replace, Some(2), Some(3));
    assert_eq!(r, Ok("one\nTWO\nTHREE\nfour\nfive".to_string()));
}

#[test]
fn replace_default_end_is_the_start() {
    let r = apply_write(Some(five_lines()), "X", WriteMode::Replace, Some(2), None);
    assert_eq!(r, Ok("one\nX\nthree\nfour\nfive".to_string()));
}

#[test]
fn replace_beyond_the_file_reports_it() {
    let r = apply_write(Some(five_lines()), "X", WriteMode::Replace, Some(9), None);
    assert_eq!(r, Err("Replace line exceeds file length".to_string()));
}

#[test]
fn overwrite_keeps_the_content_verbatim() {
    let r = apply_write(Some(five_lines()), "fresh\ntext\n", WriteMode::Overwrite, None, None);
    assert_eq!(r, Ok("fresh\ntext\n".to_string()));
}

#[test]
fn append_adds_trailing_lines_creating_the_file() {
    let r = apply_write(Some("a\nb\n"), "c", WriteMode::Append, None, None);
    assert_eq!(r, Ok("a\nb\nc\n".to_string()));
    let created = apply_write(None, "first", WriteMode::Append, None, None);
    assert_eq!(created, Ok("first\n".to_string()));
}

#[test]
fn insert_splices_before_the_named_line() {
    let r = apply_write(Some("a\nb\nc"), "x\ny", WriteMode::Insert, Some(2), None);
    assert_eq!(r, Ok("a\nx\ny\nb\nc".to_string()));
    let at_end = apply_write(Some("a"), "z", WriteMode::Insert, Some(2), None);
    assert_eq!(at_end, Ok("a\nz".to_string()));
}

#[test]
fn insert_beyond_the_file_reports_it() {
    let r = apply_write(Some("a"), "z", WriteMode::Insert, Some(3), None);
    assert_eq!(r, Err("Insert line exceeds file length".to_string()));
}

#[test]
fn write_modes_parse_from_their_names() {
    assert_eq!(parse_write_mode(None), Some(WriteMode::Overwrite));
    assert_eq!(parse_write_mode(Some("overwrite")), Some(WriteMode::Overwrite));
    assert_eq!(parse_write_mode(Some("append")), Some(WriteMode::Append));
    assert_eq!(parse_write_mode(Some("insert")), Some(WriteMode::Insert));
    assert_eq!(parse_write_mode(Some("replace")), Some(WriteMode::Replace));
    assert_eq!(parse_write_mode(Some("mangle")), None);
}

#[test]
fn success_messages_follow_the_mode() {
    assert_eq!(write_success_message(WriteMode::Overwrite), "File written successfully");
    assert_eq!(write_success_message(WriteMode::Append), "Content appended successfully");
    assert_eq!(write_success_message(WriteMode::Insert), "Content inserted successfully");
    assert_eq!(write_success_message(WriteMode::Replace), "Content replaced successfully");
}

#[test]
fn replace_diff_shows_context_removed_and_added() {
    let rows = write_diff_lines(five_lines(), "TWO\nTHREE", WriteMode::Replace, Some(2), Some(3));
    let shape: Vec<(DiffKind, usize, &str)> =
        rows.iter().map(|r| (r.kind, r.line_no, r.text.as_str())).collect();
    assert_eq!(
        shape,
        vec![
            (DiffKind::Context, 1, "one"),
            (DiffKind::Removed, 2, "two"),
            (DiffKind::Removed, 3, "three"),
            (DiffKind::Added, 2, "TWO"),
            (DiffKind::Added, 3, "THREE"),
            (DiffKind::Context, 4, "four"),
            (DiffKind::Context, 5, "five"),
        ]
    );
}

#[test]
fn overwrite_diff_removes_everything_and_adds_the_new_text() {
    let rows = write_diff_lines("a\nb", "x", WriteMode::Overwrite, None, None);
    let shape: Vec<(DiffKind, usize, &str)> =
        rows.iter().map(|r| (r.kind, r.line_no, r.text.as_str())).collect();
    assert_eq!(
        shape,
        vec![
            (DiffKind::Removed, 1, "a"),
            (DiffKind::Removed, 2, "b"),
            (DiffKind::Added, 1, "x"),
        ]
    );
}

#[test]
fn append_diff_numbers_rows_past_the_file() {
    let rows = write_diff_lines("a\nb", "c\nd", WriteMode::Append, None, None);
    let shape: Vec<(DiffKind, usize, &str)> =
        rows.iter().map(|r| (r.kind, r.line_no, r.text.as_str())).collect();
    assert_eq!(shape, vec![(DiffKind::Added, 3, "c"), (DiffKind::Added, 3, "d")]);
}
