//! A persisted conversation: the message sequence a named session stores.
//! Loading and saving the file itself happens outside; absence of the file
//! means a new empty context.

use vstd::prelude::*;

use crate::msg::{MessageView, OllamaChatMessage};

verus! {

/// The message sequence a named session persists.
#[derive(Debug)]
pub struct ConversationContext {
    /// The conversation history, oldest message first.
    pub messages: Vec<OllamaChatMessage>,
}

impl DeepView for ConversationContext {
    type V = Seq<MessageView>;

    open spec fn deep_view(&self) -> Seq<MessageView> {
        self.messages.deep_view()
    }
}

impl Default for ConversationContext {
    /// The empty context a fresh session starts from.
    fn default() -> (r: Self)
        ensures
            r.deep_view() == Seq::<MessageView>::empty(),
    {
        ConversationContext::new()
    }
}

impl ConversationContext {
    /// An empty context.
    pub fn new() -> (r: Self)
        ensures
            r.deep_view() == Seq::<MessageView>::empty(),
    {
        let r = ConversationContext { messages: Vec::new() };
        proof {
            assert(r.deep_view() =~= Seq::<MessageView>::empty());
        }
        r
    }

    /// A context over the given messages.
    pub fn from(messages: Vec<OllamaChatMessage>) -> (r: Self)
        ensures
            r.deep_view() == messages.deep_view(),
    {
        ConversationContext { messages }
    }
}

} // verus!
