//! Session-command parsing, system-prompt assembly, session priming, and
//! the editor-message extraction.

use chatto::commands::{build_system_content, parse_session_command, SessionCommand};
use chatto::editor::extract_editor_message;
use chatto::msg::{OllamaChatMessage, Role};
use chatto::store::{ApplicationState, ModelConfig};

#[test]
fn quit_commands_are_recognised() {
    assert!(matches!(parse_session_command("/quit"), SessionCommand::Quit));
    assert!(matches!(parse_session_command("/exit"), SessionCommand::Quit));
    assert!(matches!(parse_session_command("/done"), SessionCommand::Quit));
    assert!(matches!(parse_session_command("  /quit  "), SessionCommand::Quit));
}

#[test]
fn save_carries_the_session_name() {
    match parse_session_command("/save work") {
        SessionCommand::Save(name) => assert_eq!(name, "work"),
        other => panic!("expected a save command, got {:?}", other),
    }
    match parse_session_command("/save") {
        SessionCommand::Save(name) => assert_eq!(name, ""),
        other => panic!("expected a save command, got {:?}", other),
    }
}

#[test]
fn remaining_commands_are_recognised() {
    assert!(matches!(parse_session_command("/edit"), SessionCommand::Editor));
    assert!(matches!(parse_session_command("/editor"), SessionCommand::Editor));
    assert!(matches!(parse_session_command("/tools"), SessionCommand::Tools));
    assert!(matches!(parse_session_command("/reset"), SessionCommand::Reset));
    assert!(matches!(parse_session_command("/trim"), SessionCommand::Trim));
    assert!(matches!(parse_session_command("/compact"), SessionCommand::Compact));
    assert!(matches!(parse_session_command("/send"), SessionCommand::Send));
}

#[test]
fn anything_else_is_a_message() {
    match parse_session_command("  hello there  ") {
        SessionCommand::Message(text) => assert_eq!(text, "hello there"),
        other => panic!("expected a message, got {:?}", other),
    }
}

#[test]
fn custom_prompt_replaces_the_default() {
    let config = ModelConfig {
        system_prompt: Some("You are terse.".to_string()),
        think: false,
        tools: false,
        num_ctx: None,
    };
    let content = build_system_content(&config, Some("project notes"));
    assert_eq!(content, "You are terse.\n\n## Project Context\nproject notes");
}

#[test]
fn default_prompt_and_tools_prompt_are_appended() {
    let config = ModelConfig {
        system_prompt: None,
        think: false,
        tools: true,
        num_ctx: None,
    };
    let content = build_system_content(&config, None);
    assert!(content.starts_with("You are working in the current directory"));
    assert!(content.contains("**PREFERRED FILE TOOLS:**"));
}

#[test]
fn priming_an_empty_session_sets_the_system_prompt() {
    let mut state = ApplicationState {
        session_id: String::new(),
        model: "m".to_string(),
        tools: vec![],
        messages: vec![],
    };
    state.prime_session("be helpful".to_string());
    assert_eq!(state.messages.len(), 1);
    assert_eq!(state.messages[0].role, Role::System);
    assert_eq!(state.messages[0].content, "be helpful");
}

#[test]
fn priming_a_resumed_session_inserts_a_reminder() {
    let mut state = ApplicationState {
        session_id: String::new(),
        model: "m".to_string(),
        tools: vec![],
        messages: vec![
            OllamaChatMessage::plain(Role::System, "s".to_string()),
            OllamaChatMessage::plain(Role::User, "u".to_string()),
        ],
    };
    state.prime_session("ignored".to_string());
    assert_eq!(state.messages.len(), 3);
    assert_eq!(state.messages[1].role, Role::System);
    assert!(state.messages[1].content.starts_with("REMINDER:"));
    assert_eq!(state.messages[2].content, "u");
}

#[test]
fn editor_message_comes_after_the_last_separator() {
    let content = "yaml: stuff\n---\nmore yaml\n\n---\n\n# Add your message below this line:\nDo the thing\nplease\n";
    let msg = extract_editor_message(content);
    assert_eq!(msg.as_deref(), Some("Do the thing\nplease"));
}

#[test]
fn editor_without_separator_or_message_gives_none() {
    assert!(extract_editor_message("no separator here").is_none());
    assert!(extract_editor_message("before\n---\n\n# only comments\n").is_none());
}
