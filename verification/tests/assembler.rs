//! Streamed-reply assembly: merging fragments and labelling their phases.

use chatto::msg::{Role, ToolCall, ToolCallFunction};
use chatto::response::{
    assemble_fragments, OllamaChatResponse, OllamaChatResponseMessage,
    OllamaChatResponseStreamingState,
};

fn fragment(
    thinking: Option<&str>,
    content: &str,
    tool_calls: Option<Vec<ToolCall>>,
    done: bool,
) -> OllamaChatResponse {
    let mut frag = OllamaChatResponse::default();
    frag.model = "m".to_string();
    frag.created_at = "t0".to_string();
    frag.message = Some(OllamaChatResponseMessage {
        role: Role::Assistant,
        content: content.to_string(),
        thinking: thinking.map(|t| t.to_string()),
        tool_calls,
    });
    frag.done = done;
    frag
}

fn call(id: &str, name: &str, arguments: &str) -> ToolCall {
    ToolCall {
        id: Some(id.to_string()),
        function: ToolCallFunction {
            name: name.to_string(),
            description: None,
            arguments: arguments.to_string(),
        },
    }
}

/// The assembled content is the ordered concatenation of the non-empty
/// content fragments, and the thinking text likewise.
#[test]
fn assembles_content_and_thinking_in_order() {
    let mut acc = OllamaChatResponse::default();
    let frags = vec![
        fragment(Some("let me "), "", None, false),
        fragment(Some("think"), "", None, false),
        fragment(None, "Hello", None, false),
        fragment(None, ", ", None, false),
        fragment(None, "world", None, false),
        fragment(None, "", None, true),
    ];
    for f in &frags {
        acc.merge(f);
    }
    let message = acc.message.expect("accumulated message");
    assert_eq!(message.content, "Hello, world");
    assert_eq!(message.thinking.as_deref(), Some("let me think"));
    assert!(acc.done);
}

#[test]
fn phase_labels_follow_fragment_contents() {
    let mut acc = OllamaChatResponse::default();
    let thinking = acc.merge(&fragment(Some("hm"), "", None, false));
    assert!(matches!(thinking, OllamaChatResponseStreamingState::Thinking));
    let responding = acc.merge(&fragment(None, "text", None, false));
    assert!(matches!(responding, OllamaChatResponseStreamingState::Responding));
    let calling = acc.merge(&fragment(None, "", Some(vec![call("1", "read_file", "{}")]), false));
    assert!(matches!(calling, OllamaChatResponseStreamingState::CallingTools));
    let mut bare = OllamaChatResponse::default();
    bare.model = "m".to_string();
    let receiving = acc.merge(&bare);
    assert!(matches!(receiving, OllamaChatResponseStreamingState::Receiving));
}

/// An empty thinking string is no thinking text: the label follows what
/// the fragment really carries.
#[test]
fn empty_thinking_text_does_not_label_thinking() {
    let mut acc = OllamaChatResponse::default();
    let with_content = acc.merge(&fragment(Some(""), "words", None, false));
    assert!(matches!(with_content, OllamaChatResponseStreamingState::Responding));
    let alone = acc.merge(&fragment(Some(""), "", None, false));
    assert!(matches!(alone, OllamaChatResponseStreamingState::Receiving));
}

/// The completion flag labels the fragment done whatever else it carries.
#[test]
fn done_label_wins_over_content() {
    let mut acc = OllamaChatResponse::default();
    let phase = acc.merge(&fragment(None, "tail", None, true));
    assert!(matches!(phase, OllamaChatResponseStreamingState::Done));
    assert_eq!(acc.message.as_ref().unwrap().content, "tail");
}

/// Tool-call pieces extend the accumulated list; they are not merged into
/// one call.
#[test]
fn tool_calls_extend_as_a_list() {
    let mut acc = OllamaChatResponse::default();
    acc.merge(&fragment(None, "", Some(vec![call("1", "read_file", "{\"path\":\"a\"}")]), false));
    acc.merge(&fragment(
        None,
        "",
        Some(vec![
            call("2", "write_file", "{}"),
            call("3", "execute_shell", "{}"),
        ]),
        false,
    ));
    let calls = acc.message.unwrap().tool_calls.unwrap();
    assert_eq!(calls.len(), 3);
    assert_eq!(calls[0].id.as_deref(), Some("1"));
    assert_eq!(calls[1].id.as_deref(), Some("2"));
    assert_eq!(calls[2].id.as_deref(), Some("3"));
    assert_eq!(calls[0].function.name, "read_file");
}

/// Whole-sequence assembly stops at the completion flag: fragments after
/// it are not consumed.
#[test]
fn assembly_stops_at_the_first_done_fragment() {
    let frags = vec![
        fragment(None, "kept ", None, false),
        fragment(None, "text", None, true),
        fragment(None, " ignored", None, false),
    ];
    let (acc, phases) = assemble_fragments(&frags);
    assert_eq!(acc.message.unwrap().content, "kept text");
    assert_eq!(phases.len(), 2);
    assert!(matches!(phases[0], OllamaChatResponseStreamingState::Responding));
    assert!(matches!(phases[1], OllamaChatResponseStreamingState::Done));
}

#[test]
fn assembly_of_an_unfinished_stream_consumes_everything() {
    let frags = vec![
        fragment(None, "a", None, false),
        fragment(None, "b", None, false),
    ];
    let (acc, phases) = assemble_fragments(&frags);
    assert_eq!(acc.message.unwrap().content, "ab");
    assert_eq!(phases.len(), 2);
    assert!(!acc.done);
}

/// Counters and status travel with the final fragment.
#[test]
fn final_fragment_carries_counters() {
    let mut acc = OllamaChatResponse::default();
    acc.merge(&fragment(None, "x", None, false));
    let mut last = fragment(None, "", None, true);
    last.prompt_eval_count = Some(12);
    last.eval_count = Some(34);
    last.total_duration = Some(5_000);
    last.done_reason = Some("stop".to_string());
    acc.merge(&last);
    assert_eq!(acc.prompt_eval_count, Some(12));
    assert_eq!(acc.eval_count, Some(34));
    assert_eq!(acc.total_duration, Some(5_000));
    assert_eq!(acc.done_reason.as_deref(), Some("stop"));
    assert_eq!(acc.message.unwrap().content, "x");
}
