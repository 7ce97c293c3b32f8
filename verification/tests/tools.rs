//! Shell-output trimming and tool result texts.

use chatto::limits::{OutputLimit, TrimMethod};
use chatto::tools::{
    command_result_text, create_read_file_tool, create_shell_tool, create_write_file_tool,
    rejection_result_text, trim_output, unknown_tool_result_text,
};

fn ten_lines() -> String {
    // Ten lines of twenty characters each.
    let mut s = String::new();
    for i in 0..10 {
        s.push_str(&format!("line {:02} abcdefghijk\n", i));
    }
    s
}

/// A head limit of 160 keeps 160 / 80 = 2 lines and cites the original
/// count of 10 in the notice.
#[test]
fn head_limit_keeps_two_lines_and_cites_ten() {
    let limit = OutputLimit { max_size: 160, method: TrimMethod::Head };
    let out = trim_output(&ten_lines(), &limit);
    let expected = "line 00 abcdefghijk\nline 01 abcdefghijk\n\
                    ... [Output truncated: showing first 2 lines of 10]";
    assert_eq!(out, expected);
}

#[test]
fn tail_limit_keeps_the_last_lines_with_leading_notice() {
    let limit = OutputLimit { max_size: 160, method: TrimMethod::Tail };
    let out = trim_output(&ten_lines(), &limit);
    let expected = "... [Output truncated: showing last 2 lines of 10]\n\
                    line 08 abcdefghijk\nline 09 abcdefghijk";
    assert_eq!(out, expected);
}

#[test]
fn bytes_limit_cuts_at_the_offset() {
    let limit = OutputLimit { max_size: 4, method: TrimMethod::Bytes };
    let out = trim_output("abcdefgh", &limit);
    assert_eq!(out, "abcd\n... [Output truncated at 4 bytes]");
}

#[test]
fn zero_limit_disables_trimming() {
    let limit = OutputLimit { max_size: 0, method: TrimMethod::Bytes };
    let text = ten_lines();
    assert_eq!(trim_output(&text, &limit), text);
}

#[test]
fn output_within_the_limit_passes_unchanged() {
    let limit = OutputLimit { max_size: 800, method: TrimMethod::Head };
    let text = ten_lines();
    assert_eq!(trim_output(&text, &limit), text);
}

#[test]
fn failed_command_reports_exit_code_and_stderr() {
    let limit = OutputLimit::default();
    let out = command_result_text(false, Some(3), "", "boom", &limit);
    assert_eq!(out, "Command failed with exit code 3: boom");
}

#[test]
fn missing_exit_code_reports_minus_one() {
    let limit = OutputLimit::default();
    let out = command_result_text(false, None, "", "killed", &limit);
    assert_eq!(out, "Command failed with exit code -1: killed");
}

#[test]
fn successful_command_returns_trimmed_stdout() {
    let limit = OutputLimit { max_size: 160, method: TrimMethod::Head };
    let out = command_result_text(true, Some(0), "short output", "", &limit);
    assert_eq!(out, "short output");
}

#[test]
fn tool_schemas_are_well_formed_json_naming_their_tool() {
    for (schema, name) in [
        (create_shell_tool(), "execute_shell"),
        (create_read_file_tool(), "read_file"),
        (create_write_file_tool(), "write_file"),
    ] {
        let value: serde_json::Value = serde_json::from_str(&schema).expect("valid JSON");
        assert_eq!(value["type"], "function");
        assert_eq!(value["function"]["name"], name);
        assert!(value["function"]["parameters"]["properties"].is_object());
    }
}

#[test]
fn rejection_text_carries_the_feedback() {
    assert_eq!(
        rejection_result_text("too dangerous"),
        "TOOL CALL REJECTED. Feedback/Reason: too dangerous"
    );
}

#[test]
fn unknown_tool_text_names_the_tool() {
    assert_eq!(unknown_tool_result_text("browse_web"), "Unknown tool: browse_web");
}
