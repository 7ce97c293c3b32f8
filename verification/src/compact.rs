//! Backend-assisted history reduction: building the side request that asks
//! the model for a summary, and the transcript it serializes the history
//! into.  Applying the side request's outcome lives on the store itself.

use vstd::prelude::*;

use crate::msg::{MessageView, OllamaChatMessage, Role, ToolCall, ToolCallView};
use crate::request::{OllamaChatRequest, RequestView};
use crate::store::{spec_rposition, ApplicationState, ModelConfig};
use crate::text::clone_string_range;

verus! {

/// An optional text, or the empty text.
pub open spec fn spec_opt_text(s: Option<Seq<char>>) -> Seq<char> {
    match s {
        Some(x) => x,
        None => Seq::empty(),
    }
}

/// The fixed instruction of the compaction side request.
pub open spec fn spec_summarize_instruction() -> Seq<char> {
    "Summarize the chat into a single paragraph that will give the agent sufficient context to continue the conversation but reduce the context. Please summarize tool calls and tool results as well as the user and assistant messages. Include a header for your messages that clarifies it is a summary."@
}

/// The fixed instruction of the tool-probe side request.
pub open spec fn spec_tool_probe_instruction() -> Seq<char> {
    "Review the given conversation snippet and identify if there are any tool calls you can make based on the user message, or the assistant response. If the assistant gives a code snippet, try to write that to the file. If a shell command is included, try to run that. If the model needs to read contents of a file, do that. If a search is warranted, run grep or find."@
}

/// The transcript block of one requested tool call.
pub open spec fn spec_tool_call_block(tc: ToolCallView) -> Seq<char> {
    "Tool Call "@ + spec_opt_text(tc.id) + ":\n"@ + "\tname: "@ + tc.function.name
        + "\n\targuments: "@ + tc.function.arguments + "\n"@
}

/// The transcript blocks of a list of tool calls, in order.
pub open spec fn spec_tool_call_blocks(tcs: Seq<ToolCallView>) -> Seq<char>
    decreases tcs.len(),
{
    if tcs.len() == 0 {
        Seq::empty()
    } else {
        spec_tool_call_blocks(tcs.drop_last()) + spec_tool_call_block(tcs.last())
    }
}

/// The header of one transcript entry: role, and for a tool result also the
/// call id and tool name, followed by the message body.
pub open spec fn spec_entry_header(m: MessageView) -> Seq<char> {
    if m.role == Role::Tool {
        m.role.spec_label() + ", id: "@ + spec_opt_text(m.tool_call_id) + ", name: "@
            + spec_opt_text(m.tool_name) + ":\n--- "@ + m.content + "\n"@
    } else {
        m.role.spec_label() + ":\n--- "@ + m.content + "\n"@
    }
}

/// The transcript entry of one message: its header, the blocks of any tool
/// calls it requested, and a closing separator.
pub open spec fn spec_transcript_entry(m: MessageView) -> Seq<char> {
    spec_entry_header(m) + (match m.tool_calls {
        Some(tcs) => spec_tool_call_blocks(tcs),
        None => Seq::empty(),
    }) + "---\n"@
}

/// The transcript of a history: the entries of its messages, in order.
pub open spec fn spec_transcript(msgs: Seq<MessageView>) -> Seq<char>
    decreases msgs.len(),
{
    if msgs.len() == 0 {
        Seq::empty()
    } else {
        spec_transcript(msgs.drop_last()) + spec_transcript_entry(msgs.last())
    }
}

/// A history without its first message; the empty history stays empty.
pub open spec fn spec_history_tail(msgs: Seq<MessageView>) -> Seq<MessageView> {
    if msgs.len() == 0 {
        Seq::empty()
    } else {
        msgs.drop_first()
    }
}

fn append_tool_call_block(out: &mut String, tc: &ToolCall)
    ensures
        final(out)@ == old(out)@ + spec_tool_call_block(tc.deep_view()),
{
    out.append("Tool Call ");
    if let Some(id) = &tc.id {
        out.append(id.as_str());
    }
    out.append(":\n");
    out.append("\tname: ");
    out.append(tc.function.name.as_str());
    out.append("\n\targuments: ");
    out.append(tc.function.arguments.as_str());
    out.append("\n");
    proof {
        assert(out@ =~= old(out)@ + spec_tool_call_block(tc.deep_view()));
    }
}

fn append_transcript_entry(out: &mut String, m: &OllamaChatMessage)
    ensures
        final(out)@ == old(out)@ + spec_transcript_entry(m.deep_view()),
{
    out.append(m.role.label());
    if m.role == Role::Tool {
        out.append(", id: ");
        if let Some(id) = &m.tool_call_id {
            out.append(id.as_str());
        }
        out.append(", name: ");
        if let Some(name) = &m.tool_name {
            out.append(name.as_str());
        }
        out.append(":\n--- ");
    } else {
        out.append(":\n--- ");
    }
    out.append(m.content.as_str());
    out.append("\n");
    proof {
        assert(out@ =~= old(out)@ + spec_entry_header(m.deep_view()));
    }
    let ghost with_header = out@;
    if let Some(tcs) = &m.tool_calls {
        let ghost calls = tcs.deep_view();
        let mut k: usize = 0;
        proof {
            assert(out@ =~= with_header + spec_tool_call_blocks(calls.take(0)));
        }
        while k < tcs.len()
            invariant
                k <= tcs.len(),
                calls == tcs.deep_view(),
                calls.len() == tcs.len(),
                out@ == with_header + spec_tool_call_blocks(calls.take(k as int)),
            decreases tcs.len() - k,
        {
            append_tool_call_block(out, &tcs[k]);
            proof {
                assert(calls.take(k + 1).drop_last() =~= calls.take(k as int));
                assert(calls.take(k + 1).last() == calls[k as int]);
                assert(out@ =~= with_header + spec_tool_call_blocks(calls.take(k + 1)));
            }
            k += 1;
        }
        proof {
            assert(calls.take(tcs.len() as int) =~= calls);
        }
    }
    out.append("---\n");
    proof {
        assert(out@ =~= old(out)@ + spec_transcript_entry(m.deep_view()));
    }
}

impl ApplicationState {
    /// Builds the compaction side request's message list: the fixed summary
    /// instruction, then one user message serializing the history after its
    /// first message into a transcript.  The store itself is not touched.
    pub fn build_compact_messages(&self) -> (msgs: Vec<OllamaChatMessage>)
        ensures
            msgs.deep_view() == seq![
                MessageView {
                    role: Role::System,
                    content: spec_summarize_instruction(),
                    tool_calls: None,
                    tool_name: None,
                    tool_call_id: None,
                },
                MessageView {
                    role: Role::User,
                    content: spec_transcript(spec_history_tail(self.deep_view().messages)),
                    tool_calls: None,
                    tool_name: None,
                    tool_call_id: None,
                },
            ],
    {
        let ghost all = self.deep_view().messages;
        let ghost tail = spec_history_tail(all);
        let mut content = String::new();
        let mut i: usize = 1;
        proof {
            if all.len() > 0 {
                assert(tail.take(0) =~= Seq::<MessageView>::empty());
            }
            assert(content@ =~= spec_transcript(tail.take(0)));
        }
        while i < self.messages.len()
            invariant
                1 <= i,
                self.messages.len() > 0 ==> i <= self.messages.len(),
                all == self.deep_view().messages,
                all.len() == self.messages.len(),
                tail == spec_history_tail(all),
                all.len() > 0 ==> tail.len() == all.len() - 1,
                all.len() > 0 ==> content@ == spec_transcript(tail.take(i - 1)),
                all.len() == 0 ==> content@ == Seq::<char>::empty(),
            decreases self.messages.len() - i,
        {
            append_transcript_entry(&mut content, &self.messages[i]);
            proof {
                assert(tail[i - 1] == all[i as int]);
                assert(tail.take(i as int).drop_last() =~= tail.take(i - 1));
                assert(tail.take(i as int).last() == tail[i - 1]);
            }
            i += 1;
        }
        proof {
            if all.len() > 0 {
                assert(tail.take(all.len() - 1) =~= tail);
            } else {
                assert(spec_transcript(tail) =~= Seq::<char>::empty());
            }
        }
        let system = OllamaChatMessage::plain(
            Role::System,
            "Summarize the chat into a single paragraph that will give the agent sufficient context to continue the conversation but reduce the context. Please summarize tool calls and tool results as well as the user and assistant messages. Include a header for your messages that clarifies it is a summary.".to_owned(),
        );
        let user = OllamaChatMessage::plain(Role::User, content);
        let mut msgs: Vec<OllamaChatMessage> = Vec::new();
        msgs.push(system);
        msgs.push(user);
        proof {
            assert(msgs.deep_view() =~= seq![
                MessageView {
                    role: Role::System,
                    content: spec_summarize_instruction(),
                    tool_calls: None,
                    tool_name: None,
                    tool_call_id: None,
                },
                MessageView {
                    role: Role::User,
                    content: spec_transcript(tail),
                    tool_calls: None,
                    tool_name: None,
                    tool_call_id: None,
                },
            ]);
        }
        msgs
    }

    /// Builds the tool-probe side request's message list: the fixed probe
    /// instruction, then one user message quoting the last assistant
    /// message, empty when the assistant has not spoken.
    pub fn build_tool_probe_messages(&self) -> (msgs: Vec<OllamaChatMessage>)
        ensures
            msgs.deep_view() == seq![
                MessageView {
                    role: Role::System,
                    content: spec_tool_probe_instruction(),
                    tool_calls: None,
                    tool_name: None,
                    tool_call_id: None,
                },
                MessageView {
                    role: Role::User,
                    content: match spec_rposition(self.deep_view().messages, Role::Assistant) {
                        Some(i) => "assistant: "@ + self.deep_view().messages[i].content + "\n"@,
                        None => Seq::<char>::empty(),
                    },
                    tool_calls: None,
                    tool_name: None,
                    tool_call_id: None,
                },
            ],
    {
        let mut content = String::new();
        if let Some(i) = crate::store::rposition_role(&self.messages, Role::Assistant) {
            content.append("assistant: ");
            content.append(self.messages[i].content.as_str());
            content.append("\n");
            proof {
                assert(content@ =~= "assistant: "@ + self.deep_view().messages[i as int].content
                    + "\n"@);
            }
        }
        let system = OllamaChatMessage::plain(
            Role::System,
            "Review the given conversation snippet and identify if there are any tool calls you can make based on the user message, or the assistant response. If the assistant gives a code snippet, try to write that to the file. If a shell command is included, try to run that. If the model needs to read contents of a file, do that. If a search is warranted, run grep or find.".to_owned(),
        );
        let user = OllamaChatMessage::plain(Role::User, content);
        let mut msgs: Vec<OllamaChatMessage> = Vec::new();
        msgs.push(system);
        msgs.push(user);
        proof {
            assert(msgs.deep_view() =~= seq![msgs.deep_view()[0], msgs.deep_view()[1]]);
        }
        msgs
    }
}

impl ApplicationState {
    /// Builds the whole compaction side request: the two side-request
    /// messages against the session's own model, sent non-streaming,
    /// without thinking and without a tool catalog; only the model's
    /// configured context window is carried over.
    pub fn build_compact_request(&self, model_config: &ModelConfig) -> (r: OllamaChatRequest)
        ensures
            r.deep_view() == (RequestView {
                model: self.deep_view().model,
                messages: seq![
                    MessageView {
                        role: Role::System,
                        content: spec_summarize_instruction(),
                        tool_calls: None,
                        tool_name: None,
                        tool_call_id: None,
                    },
                    MessageView {
                        role: Role::User,
                        content: spec_transcript(spec_history_tail(self.deep_view().messages)),
                        tool_calls: None,
                        tool_name: None,
                        tool_call_id: None,
                    },
                ],
                tools: None,
                num_ctx: model_config.deep_view().num_ctx,
                stream: false,
                think: false,
            }),
    {
        OllamaChatRequest {
            model: self.model.clone(),
            messages: self.build_compact_messages(),
            tools: None,
            num_ctx: model_config.num_ctx,
            stream: false,
            think: false,
        }
    }

    /// Builds the whole tool-probe side request: the two probe messages
    /// against the fixed probing model, sent non-streaming, without
    /// thinking, with the session's tool catalog; only the probing model's
    /// configured context window is carried over.
    pub fn build_tool_probe_request(&self, model_config: &ModelConfig) -> (r: OllamaChatRequest)
        ensures
            r.deep_view() == (RequestView {
                model: "functiongemma"@,
                messages: seq![
                    MessageView {
                        role: Role::System,
                        content: spec_tool_probe_instruction(),
                        tool_calls: None,
                        tool_name: None,
                        tool_call_id: None,
                    },
                    MessageView {
                        role: Role::User,
                        content: match spec_rposition(
                            self.deep_view().messages,
                            Role::Assistant,
                        ) {
                            Some(i) => "assistant: "@ + self.deep_view().messages[i].content
                                + "\n"@,
                            None => Seq::<char>::empty(),
                        },
                        tool_calls: None,
                        tool_name: None,
                        tool_call_id: None,
                    },
                ],
                tools: Some(self.deep_view().tools),
                num_ctx: model_config.deep_view().num_ctx,
                stream: false,
                think: false,
            }),
    {
        let tools = clone_string_range(&self.tools, 0, self.tools.len());
        proof {
            assert(tools.deep_view() =~= self.deep_view().tools);
        }
        OllamaChatRequest {
            model: "functiongemma".to_owned(),
            messages: self.build_tool_probe_messages(),
            tools: Some(tools),
            num_ctx: model_config.num_ctx,
            stream: false,
            think: false,
        }
    }
}

} // verus!
