//! Tool-call planning: extracting typed arguments from JSON text.

use chatto::args::{plan_tool_call, ToolAction};
use chatto::msg::{ToolCall, ToolCallFunction};

fn call(name: &str, arguments: &str) -> ToolCall {
    ToolCall {
        id: Some("1".to_string()),
        function: ToolCallFunction {
            name: name.to_string(),
            description: None,
            arguments: arguments.to_string(),
        },
    }
}

#[test]
fn shell_call_extracts_command_and_reason() {
    let action = plan_tool_call(&call(
        "execute_shell",
        "{\"command\":\"ls -la\",\"reason\":\"list files\"}",
    ));
    match action {
        ToolAction::RunShell(args) => {
            assert_eq!(args.command, "ls -la");
            assert_eq!(args.reason, "list files");
        },
        other => panic!("expected a shell action, got {:?}", other),
    }
}

#[test]
fn shell_call_without_command_is_invalid() {
    let action = plan_tool_call(&call("execute_shell", "{\"reason\":\"no command\"}"));
    match action {
        ToolAction::InvalidArguments(e) => {
            assert_eq!(e, "Missing required argument: command");
        },
        other => panic!("expected invalid arguments, got {:?}", other),
    }
}

#[test]
fn shell_call_with_broken_json_is_invalid() {
    let action = plan_tool_call(&call("execute_shell", "not json"));
    assert!(matches!(action, ToolAction::InvalidArguments(_)));
}

#[test]
fn read_call_extracts_path_and_range() {
    let action = plan_tool_call(&call(
        "read_file",
        "{\"path\":\"src/main.rs\",\"start_line\":3,\"end_line\":9}",
    ));
    match action {
        ToolAction::ReadFile(args) => {
            assert_eq!(args.path, "src/main.rs");
            assert_eq!(args.start_line, Some(3));
            assert_eq!(args.end_line, Some(9));
        },
        other => panic!("expected a read action, got {:?}", other),
    }
}

#[test]
fn read_call_without_path_is_invalid() {
    let action = plan_tool_call(&call("read_file", "{\"start_line\":3}"));
    match action {
        ToolAction::InvalidArguments(e) => assert_eq!(e, "Missing required argument: path"),
        other => panic!("expected invalid arguments, got {:?}", other),
    }
}

#[test]
fn write_call_extracts_all_fields() {
    let action = plan_tool_call(&call(
        "write_file",
        "{\"path\":\"notes.txt\",\"content\":\"hi\",\"mode\":\"replace\",\"start_line\":2,\"end_line\":3}",
    ));
    match action {
        ToolAction::WriteFile(args) => {
            assert_eq!(args.path, "notes.txt");
            assert_eq!(args.content, "hi");
            assert_eq!(args.mode.as_deref(), Some("replace"));
            assert_eq!(args.start_line, Some(2));
            assert_eq!(args.end_line, Some(3));
        },
        other => panic!("expected a write action, got {:?}", other),
    }
}

#[test]
fn write_call_without_content_is_invalid() {
    let action = plan_tool_call(&call("write_file", "{\"path\":\"x\"}"));
    match action {
        ToolAction::InvalidArguments(e) => assert_eq!(e, "Missing required argument: content"),
        other => panic!("expected invalid arguments, got {:?}", other),
    }
}

#[test]
fn unknown_tool_keeps_its_name() {
    let action = plan_tool_call(&call("browse_web", "{}"));
    match action {
        ToolAction::Unknown(name) => assert_eq!(name, "browse_web"),
        other => panic!("expected an unknown tool, got {:?}", other),
    }
}

#[test]
fn non_string_field_does_not_pass_for_a_string() {
    // A numeric command is not a command.
    let action = plan_tool_call(&call("execute_shell", "{\"command\":5}"));
    assert!(matches!(action, ToolAction::InvalidArguments(_)));
}
