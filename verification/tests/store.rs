//! The conversation store: prompting policy, trim, compaction and the
//! token estimate.

use chatto::msg::{OllamaChatMessage, Role, ToolCall, ToolCallFunction};
use chatto::response::{OllamaChatResponse, OllamaChatResponseMessage};
use chatto::store::{ApplicationConfig, ApplicationState, ModelConfig, ModelEntry};
use chatto::limits::OutputLimit;

fn msg(role: Role, content: &str) -> OllamaChatMessage {
    OllamaChatMessage::plain(role, content.to_string())
}

fn tool_msg(id: &str, name: &str, content: &str) -> OllamaChatMessage {
    OllamaChatMessage::tool_result(id.to_string(), name.to_string(), content.to_string())
}

fn state_with(messages: Vec<OllamaChatMessage>) -> ApplicationState {
    ApplicationState {
        session_id: String::new(),
        model: "m".to_string(),
        tools: Vec::new(),
        messages,
    }
}

fn response_with_content(content: &str) -> OllamaChatResponse {
    let mut resp = OllamaChatResponse::default();
    resp.message = Some(OllamaChatResponseMessage {
        role: Role::Assistant,
        content: content.to_string(),
        thinking: None,
        tool_calls: None,
    });
    resp
}

#[test]
fn prompts_on_empty_history() {
    let state = state_with(vec![]);
    assert!(!state.should_continue_without_prompt());
    assert!(state.should_prompt_user());
}

#[test]
fn prompts_when_only_system() {
    let state = state_with(vec![msg(Role::System, "s")]);
    assert!(!state.should_continue_without_prompt());
}

#[test]
fn prompts_when_last_is_assistant() {
    let state = state_with(vec![
        msg(Role::System, "s"),
        msg(Role::User, "u"),
        msg(Role::Assistant, "a"),
    ]);
    assert!(!state.should_continue_without_prompt());
}

#[test]
fn continues_when_last_is_tool_result() {
    let state = state_with(vec![
        msg(Role::System, "s"),
        msg(Role::User, "u"),
        msg(Role::Assistant, "a"),
        tool_msg("1", "read_file", "out"),
    ]);
    assert!(state.should_continue_without_prompt());
    assert!(!state.should_prompt_user());
}

#[test]
fn trim_keeps_system_last_user_last_assistant() {
    let mut state = state_with(vec![
        msg(Role::System, "system"),
        msg(Role::User, "user1"),
        msg(Role::Assistant, "assistant1"),
        msg(Role::User, "user2"),
        tool_msg("1", "execute_shell", "tool1"),
        msg(Role::Assistant, "assistant2"),
    ]);
    state.trim();
    assert_eq!(state.messages.len(), 3);
    assert_eq!(state.messages[0].role, Role::System);
    assert_eq!(state.messages[0].content, "system");
    assert_eq!(state.messages[1].role, Role::User);
    assert_eq!(state.messages[1].content, "user2");
    assert_eq!(state.messages[2].role, Role::Assistant);
    assert_eq!(state.messages[2].content, "assistant2");
}

#[test]
fn trim_on_empty_history_stays_empty() {
    let mut state = state_with(vec![]);
    state.trim();
    assert!(state.messages.is_empty());
}

#[test]
fn compact_failure_leaves_history_byte_identical() {
    let mut state = state_with(vec![
        msg(Role::System, "s"),
        msg(Role::User, "hello"),
        msg(Role::Assistant, "answer"),
    ]);
    let before: Vec<(Role, String)> =
        state.messages.iter().map(|m| (m.role, m.content.clone())).collect();
    let r = state.apply_compact(Err("connection refused".to_string()));
    assert_eq!(r, Err("connection refused".to_string()));
    let after: Vec<(Role, String)> =
        state.messages.iter().map(|m| (m.role, m.content.clone())).collect();
    assert_eq!(before, after);
}

#[test]
fn compact_success_keeps_first_message_and_summary() {
    let mut state = state_with(vec![
        msg(Role::System, "s"),
        msg(Role::User, "hello"),
        msg(Role::Assistant, "answer"),
    ]);
    let r = state.apply_compact(Ok(response_with_content("the summary")));
    assert!(r.is_ok());
    assert_eq!(state.messages.len(), 2);
    assert_eq!(state.messages[0].role, Role::System);
    assert_eq!(state.messages[0].content, "s");
    assert_eq!(state.messages[1].role, Role::User);
    assert_eq!(state.messages[1].content, "the summary");
}

#[test]
fn compact_request_serializes_the_transcript() {
    let call = ToolCall {
        id: Some("42".to_string()),
        function: ToolCallFunction {
            name: "execute_shell".to_string(),
            description: None,
            arguments: "{\"command\":\"ls\"}".to_string(),
        },
    };
    let mut assistant = msg(Role::Assistant, "running");
    assistant.tool_calls = Some(vec![call]);
    let state = state_with(vec![
        msg(Role::System, "ignored first message"),
        msg(Role::User, "list files"),
        assistant,
        tool_msg("42", "execute_shell", "a.txt"),
    ]);
    let side = state.build_compact_messages();
    assert_eq!(side.len(), 2);
    assert_eq!(side[0].role, Role::System);
    assert!(side[0].content.starts_with("Summarize the chat into a single paragraph"));
    assert_eq!(side[1].role, Role::User);
    let expected = "user:\n--- list files\n---\n\
                    assistant:\n--- running\n\
                    Tool Call 42:\n\tname: execute_shell\n\targuments: {\"command\":\"ls\"}\n\
                    ---\n\
                    tool, id: 42, name: execute_shell:\n--- a.txt\n---\n";
    assert_eq!(side[1].content, expected);
}

#[test]
fn compact_request_is_plain_and_non_streaming() {
    let state = state_with(vec![msg(Role::System, "s"), msg(Role::User, "u")]);
    let thinking_model = ModelConfig {
        system_prompt: None,
        think: true,
        tools: true,
        num_ctx: Some(2048),
    };
    let request = state.build_compact_request(&thinking_model);
    assert_eq!(request.model, "m");
    assert!(!request.stream);
    assert!(!request.think);
    assert!(request.tools.is_none());
    assert_eq!(request.num_ctx, Some(2048));
    assert_eq!(request.messages.len(), 2);
    assert!(request.messages[0].content.starts_with("Summarize the chat"));
}

#[test]
fn tool_probe_request_targets_the_probing_model() {
    let mut state = state_with(vec![msg(Role::Assistant, "run ls")]);
    state.tools = vec!["{}".to_string()];
    let probe_config = ModelConfig {
        system_prompt: None,
        think: false,
        tools: false,
        num_ctx: None,
    };
    let request = state.build_tool_probe_request(&probe_config);
    assert_eq!(request.model, "functiongemma");
    assert!(!request.stream);
    assert!(!request.think);
    assert_eq!(request.tools.as_ref().unwrap().len(), 1);
    assert_eq!(request.messages[1].content, "assistant: run ls\n");
}

#[test]
fn append_operations_validate_roles() {
    let mut state = state_with(vec![]);
    state.add_user_message("hi");
    state.add_assistant_message("hello");
    state.add_tool_result("7", "read_file", "lines");
    assert_eq!(state.messages.len(), 3);
    assert_eq!(state.messages[0].role, Role::User);
    assert_eq!(state.messages[1].role, Role::Assistant);
    assert_eq!(state.messages[2].role, Role::Tool);
    assert_eq!(state.messages[2].tool_call_id.as_deref(), Some("7"));
    assert_eq!(state.messages[2].tool_name.as_deref(), Some("read_file"));
}

#[test]
fn add_assistant_response_records_content_and_calls() {
    let mut state = state_with(vec![msg(Role::User, "u")]);
    let mut resp = response_with_content("done");
    resp.message.as_mut().unwrap().tool_calls = Some(vec![ToolCall {
        id: Some("9".to_string()),
        function: ToolCallFunction {
            name: "read_file".to_string(),
            description: None,
            arguments: "{}".to_string(),
        },
    }]);
    state.add_assistant_response(resp);
    assert_eq!(state.messages.len(), 2);
    let last = &state.messages[1];
    assert_eq!(last.role, Role::Assistant);
    assert_eq!(last.content, "done");
    assert_eq!(last.tool_calls.as_ref().unwrap().len(), 1);
}

#[test]
fn pending_tool_calls_come_from_the_last_message() {
    let mut assistant = msg(Role::Assistant, "");
    assistant.tool_calls = Some(vec![ToolCall {
        id: Some("1".to_string()),
        function: ToolCallFunction {
            name: "execute_shell".to_string(),
            description: None,
            arguments: "{}".to_string(),
        },
    }]);
    let state = state_with(vec![msg(Role::User, "u"), assistant]);
    let calls = state.pending_tool_calls().expect("calls");
    assert_eq!(calls.len(), 1);
    assert_eq!(calls[0].function.name, "execute_shell");
    let none = state_with(vec![msg(Role::User, "u")]).pending_tool_calls();
    assert!(none.is_none());
}

#[test]
fn chunk_extends_trailing_assistant_message() {
    let mut state = state_with(vec![msg(Role::User, "u"), msg(Role::Assistant, "par")]);
    state.process_assistant_message_chunk(&response_with_content("tial"));
    state.process_assistant_message_chunk(&response_with_content(" answer"));
    assert_eq!(state.messages[1].content, "partial answer");
    // A history ending in a user message is left alone.
    let mut untouched = state_with(vec![msg(Role::User, "u")]);
    untouched.process_assistant_message_chunk(&response_with_content("x"));
    assert_eq!(untouched.messages[0].content, "u");
}

#[test]
fn compact_on_an_empty_history_keeps_just_the_summary() {
    let mut state = state_with(vec![]);
    let r = state.apply_compact(Ok(response_with_content("summary")));
    assert!(r.is_ok());
    assert_eq!(state.messages.len(), 1);
    assert_eq!(state.messages[0].role, Role::User);
    assert_eq!(state.messages[0].content, "summary");
}

#[test]
fn compact_with_a_bodyless_reply_records_an_empty_summary() {
    let mut state = state_with(vec![msg(Role::System, "s")]);
    let bare = OllamaChatResponse::default();
    let r = state.apply_compact(Ok(bare));
    assert!(r.is_ok());
    assert_eq!(state.messages.len(), 2);
    assert_eq!(state.messages[1].content, "");
}

#[test]
fn trim_without_user_or_assistant_keeps_only_systems() {
    let mut state = state_with(vec![
        msg(Role::System, "a"),
        tool_msg("1", "execute_shell", "x"),
        msg(Role::System, "b"),
    ]);
    state.trim();
    assert_eq!(state.messages.len(), 2);
    assert_eq!(state.messages[0].content, "a");
    assert_eq!(state.messages[1].content, "b");
}

#[test]
fn reset_keeps_only_the_first_message() {
    let mut state = state_with(vec![msg(Role::System, "s"), msg(Role::User, "u")]);
    state.reset_to_first();
    assert_eq!(state.messages.len(), 1);
    assert_eq!(state.messages[0].content, "s");
}

/// The token estimate is a documented heuristic, not a tokenizer: per
/// message it averages one token per five bytes with 1.3 tokens per word,
/// computed as (2 * bytes + 13 * words) / 20 in integer arithmetic.
#[test]
fn token_estimate_matches_the_heuristic() {
    let state = state_with(vec![msg(Role::User, "hello world")]);
    // 11 bytes, 2 words: (22 + 26) / 20 = 2.
    assert_eq!(state.get_token_count_estimate(), 2);

    let mut with_tools = state_with(vec![]);
    with_tools.tools = vec!["{\"type\":\"function\"}".to_string()];
    // 19 bytes of schema: 19 / 4 = 4.
    assert_eq!(with_tools.get_token_count_estimate(), 4);
}

#[test]
fn message_token_estimate_counts_tool_calls() {
    let mut m = msg(Role::Assistant, "");
    m.tool_calls = Some(vec![ToolCall {
        id: Some("12".to_string()),
        function: ToolCallFunction {
            name: "read_file".to_string(),
            description: None,
            arguments: "{\"path\":\"x\"}".to_string(),
        },
    }]);
    // name 9 + arguments 12 + id 2 = 23 bytes: 23 / 4 = 5.
    assert_eq!(m.get_token_count_estimate(), 5);
}

#[test]
fn model_configuration_looks_the_model_up() {
    let config = ApplicationConfig {
        url: "http://localhost:11434".to_string(),
        model: "alpha".to_string(),
        stream: true,
        output_limit: OutputLimit::default(),
        models: vec![ModelEntry {
            name: "alpha".to_string(),
            config: ModelConfig {
                system_prompt: Some("custom".to_string()),
                think: true,
                tools: true,
                num_ctx: Some(8192),
            },
        }],
    };
    let state = ApplicationState::new_from_config(&config);
    let found = state.model_configuration(&config);
    assert!(found.think);
    assert_eq!(found.num_ctx, Some(8192));
    let mut other = state_with(vec![]);
    other.model = "beta".to_string();
    let fallback = other.model_configuration(&config);
    assert!(!fallback.think);
    assert!(!fallback.tools);
    assert_eq!(fallback.num_ctx, None);
}

#[test]
fn chat_request_honours_the_model_configuration() {
    let mut state = state_with(vec![msg(Role::User, "u")]);
    state.tools = vec!["{}".to_string()];
    let with_tools = ModelConfig {
        system_prompt: None,
        think: true,
        tools: true,
        num_ctx: Some(4096),
    };
    let request = state.build_chat_request(true, &with_tools);
    assert_eq!(request.model, "m");
    assert!(request.stream);
    assert!(request.think);
    assert_eq!(request.num_ctx, Some(4096));
    assert_eq!(request.tools.as_ref().unwrap().len(), 1);
    let without_tools = ModelConfig {
        system_prompt: None,
        think: false,
        tools: false,
        num_ctx: None,
    };
    let bare = state.build_chat_request(false, &without_tools);
    assert!(bare.tools.is_none());
    assert!(!bare.stream);
}

#[test]
fn compact_request_on_a_short_history_has_an_empty_transcript() {
    let state = state_with(vec![msg(Role::System, "only the first message")]);
    let side = state.build_compact_messages();
    assert_eq!(side.len(), 2);
    assert_eq!(side[1].content, "");
}

#[test]
fn tool_probe_without_an_assistant_sends_an_empty_snippet() {
    let state = state_with(vec![msg(Role::System, "s"), msg(Role::User, "u")]);
    let side = state.build_tool_probe_messages();
    assert_eq!(side[1].content, "");
}

#[test]
fn tool_probe_request_quotes_the_last_assistant_message() {
    let state = state_with(vec![
        msg(Role::System, "s"),
        msg(Role::User, "u"),
        msg(Role::Assistant, "first"),
        msg(Role::User, "u2"),
        msg(Role::Assistant, "run ls please"),
    ]);
    let side = state.build_tool_probe_messages();
    assert_eq!(side.len(), 2);
    assert_eq!(side[0].role, Role::System);
    assert!(side[0].content.starts_with("Review the given conversation snippet"));
    assert_eq!(side[1].content, "assistant: run ls please\n");
}
