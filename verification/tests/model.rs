//! Model metadata lookup and the session container.

use chatto::model::{ModelInfoEntry, OllamaModel};
use chatto::msg::{OllamaChatMessage, Role};
use chatto::session::ConversationContext;

fn model_with(info: Vec<ModelInfoEntry>) -> OllamaModel {
    OllamaModel {
        name: "m".to_string(),
        model: "m:latest".to_string(),
        modified_at: String::new(),
        size: 0,
        digest: String::new(),
        details: None,
        model_info: info,
        capabilities: vec![],
    }
}

fn entry(key: &str, numeric: bool, value: Option<u64>) -> ModelInfoEntry {
    ModelInfoEntry { key: key.to_string(), numeric, value }
}

#[test]
fn context_length_found_under_a_suffixed_key() {
    let model = model_with(vec![
        entry("general.architecture", false, None),
        entry("llama.context_length", true, Some(8192)),
    ]);
    assert_eq!(model.get_context_length(), Some(8192));
}

#[test]
fn context_length_absent_when_no_key_matches() {
    let model = model_with(vec![entry("llama.block_count", true, Some(32))]);
    assert_eq!(model.get_context_length(), None);
}

#[test]
fn non_numeric_context_entry_is_passed_over() {
    let model = model_with(vec![
        entry("llama.context_length", false, None),
        entry("qwen.context_length", true, Some(4096)),
    ]);
    // A string under the key is no number, so the search goes on.
    assert_eq!(model.get_context_length(), Some(4096));
}

#[test]
fn fractional_context_entry_ends_the_search_empty() {
    let model = model_with(vec![
        entry("llama.context_length", true, None),
        entry("qwen.context_length", true, Some(4096)),
    ]);
    // A number that is no unsigned integer matches the key but has no
    // usable value, as the lookup reports it.
    assert_eq!(model.get_context_length(), None);
}

#[test]
fn conversation_context_wraps_messages() {
    let empty = ConversationContext::new();
    assert!(empty.messages.is_empty());
    let ctx = ConversationContext::from(vec![OllamaChatMessage::plain(
        Role::User,
        "hi".to_string(),
    )]);
    assert_eq!(ctx.messages.len(), 1);
    assert_eq!(ctx.messages[0].content, "hi");
}
