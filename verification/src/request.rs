//! The chat request the orchestrator sends to the backend: the session's
//! history and tool catalog plus per-model generation options.

use vstd::prelude::*;

use crate::msg::{MessageView, OllamaChatMessage};
use crate::store::{ApplicationState, ModelConfig};

verus! {

/// Mathematical image of an [`OllamaChatRequest`].
pub ghost struct RequestView {
    pub model: Seq<char>,
    pub messages: Seq<MessageView>,
    pub tools: Option<Seq<Seq<char>>>,
    pub num_ctx: Option<u64>,
    pub stream: bool,
    pub think: bool,
}

/// One chat request: model, messages, optional tool catalog, the context
/// window to ask for, and the streaming and thinking flags.
#[derive(Debug)]
pub struct OllamaChatRequest {
    /// The model the request is addressed to.
    pub model: String,
    /// The messages sent, oldest first.
    pub messages: Vec<OllamaChatMessage>,
    /// The tool catalog, one JSON schema text per tool; absent when the
    /// model does not take tools.
    pub tools: Option<Vec<String>>,
    /// Context window size to request, when the model configuration names
    /// one.
    pub num_ctx: Option<u64>,
    /// Whether the reply should be streamed.
    pub stream: bool,
    /// Whether the model should produce thinking text.
    pub think: bool,
}

impl DeepView for OllamaChatRequest {
    type V = RequestView;

    open spec fn deep_view(&self) -> RequestView {
        RequestView {
            model: self.model@,
            messages: self.messages.deep_view(),
            tools: self.tools.deep_view(),
            num_ctx: self.num_ctx,
            stream: self.stream,
            think: self.think,
        }
    }
}

impl From<ApplicationState> for OllamaChatRequest {
    /// The plain request a session converts into: its model, messages and
    /// tools, no options, not streaming, not thinking.  The flags are
    /// adjusted afterwards as the model configuration asks.
    fn from(value: ApplicationState) -> (r: Self) {
        OllamaChatRequest {
            model: value.model,
            messages: value.messages,
            tools: Some(value.tools),
            num_ctx: None,
            stream: false,
            think: false,
        }
    }
}

impl vstd::std_specs::convert::FromSpecImpl<ApplicationState> for OllamaChatRequest {
    open spec fn obeys_from_spec() -> bool {
        true
    }

    open spec fn from_spec(t: ApplicationState) -> Self {
        OllamaChatRequest {
            model: t.model,
            messages: t.messages,
            tools: Some(t.tools),
            num_ctx: None,
            stream: false,
            think: false,
        }
    }
}

impl ApplicationState {
    /// Builds the request of one ordinary turn: the session's messages and
    /// model, streaming as configured; with the model's configuration
    /// applied, the thinking flag follows it, the tool catalog is dropped
    /// for a model without tools, and its context window size is requested.
    pub fn build_chat_request(&self, stream: bool, model_config: &ModelConfig) -> (r:
        OllamaChatRequest)
        ensures
            r.deep_view() == (RequestView {
                model: self.deep_view().model,
                messages: self.deep_view().messages,
                tools: if model_config.tools {
                    Some(self.deep_view().tools)
                } else {
                    None
                },
                num_ctx: model_config.num_ctx,
                stream: stream,
                think: model_config.think,
            }),
    {
        let tools = if model_config.tools {
            let mut copied: Vec<String> = Vec::new();
            let mut i: usize = 0;
            proof {
                assert(copied.deep_view() =~= self.deep_view().tools.take(0));
            }
            while i < self.tools.len()
                invariant
                    i <= self.tools.len(),
                    self.deep_view().tools.len() == self.tools.len(),
                    copied.deep_view() == self.deep_view().tools.take(i as int),
                decreases self.tools.len() - i,
            {
                let ghost before = copied.deep_view();
                copied.push(self.tools[i].clone());
                proof {
                    assert(copied.deep_view() =~= before.push(self.deep_view().tools[i as int]));
                    assert(copied.deep_view() =~= self.deep_view().tools.take(i + 1));
                }
                i += 1;
            }
            proof {
                assert(self.deep_view().tools.take(self.tools.len() as int)
                    =~= self.deep_view().tools);
            }
            Some(copied)
        } else {
            None
        };
        let mut messages: Vec<OllamaChatMessage> = Vec::new();
        let mut i: usize = 0;
        proof {
            assert(messages.deep_view() =~= self.deep_view().messages.take(0));
        }
        while i < self.messages.len()
            invariant
                i <= self.messages.len(),
                self.deep_view().messages.len() == self.messages.len(),
                messages.deep_view() == self.deep_view().messages.take(i as int),
            decreases self.messages.len() - i,
        {
            let ghost before = messages.deep_view();
            messages.push(self.messages[i].clone());
            proof {
                assert(messages.deep_view() =~= before.push(self.deep_view().messages[i as int]));
                assert(messages.deep_view() =~= self.deep_view().messages.take(i + 1));
            }
            i += 1;
        }
        proof {
            assert(self.deep_view().messages.take(self.messages.len() as int)
                =~= self.deep_view().messages);
        }
        OllamaChatRequest {
            model: self.model.clone(),
            messages,
            tools,
            num_ctx: model_config.num_ctx,
            stream,
            think: model_config.think,
        }
    }
}

} // verus!
