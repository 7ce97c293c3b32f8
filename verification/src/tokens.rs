//! The context-budget heuristic: an integer approximation of the token
//! count of a session.  It is a display aid, not a tokenizer: per message
//! it averages a bytes-per-token and a words-per-token estimate, and adds a
//! share for each tool call and each tool schema.

use vstd::prelude::*;
use vstd::utf8::encode_utf8;

use crate::msg::{MessageView, OllamaChatMessage, ToolCallView};
use crate::store::ApplicationState;
use crate::text::{spec_word_count, word_count};

verus! {

/// The UTF-8 byte length of a text.
pub open spec fn spec_byte_len(s: Seq<char>) -> nat {
    encode_utf8(s).len()
}

/// The byte length of an optional text, zero when absent.
pub open spec fn spec_opt_byte_len(s: Option<Seq<char>>) -> nat {
    match s {
        Some(x) => spec_byte_len(x),
        None => 0,
    }
}

/// A value capped at what a `usize` can hold.
pub open spec fn spec_cap_usize(n: nat) -> nat {
    if n > usize::MAX as nat {
        usize::MAX as nat
    } else {
        n
    }
}

/// Token estimate of a text: the average of one token per five bytes and
/// 1.3 tokens per word, in integer arithmetic as (2 bytes + 13 words) / 20.
pub open spec fn spec_content_tokens(s: Seq<char>) -> nat {
    (2 * spec_byte_len(s) + 13 * spec_word_count(s)) / 20
}

/// Token estimate of one tool call: one token per four bytes of its
/// textual payload, the id, name, arguments and description together.  The
/// payload stands in for the call's serialized JSON form, whose exact
/// length only the wire layer can compute: serializing is outside work on
/// a type of this library, so the estimate drops the serializer's framing
/// bytes.
pub open spec fn spec_call_tokens(tc: ToolCallView) -> nat {
    (spec_byte_len(tc.function.name) + spec_byte_len(tc.function.arguments) + spec_opt_byte_len(
        tc.id,
    ) + spec_opt_byte_len(tc.function.description)) / 4
}

/// Token estimate of a list of tool calls.
pub open spec fn spec_calls_tokens(tcs: Seq<ToolCallView>) -> nat
    decreases tcs.len(),
{
    if tcs.len() == 0 {
        0
    } else {
        spec_calls_tokens(tcs.drop_last()) + spec_call_tokens(tcs.last())
    }
}

/// Token estimate of one message: its content estimate plus its tool
/// calls'.
pub open spec fn spec_message_tokens(m: MessageView) -> nat {
    spec_content_tokens(m.content) + (match m.tool_calls {
        Some(tcs) => spec_calls_tokens(tcs),
        None => 0,
    })
}

/// Token estimate of a history.
pub open spec fn spec_messages_tokens(msgs: Seq<MessageView>) -> nat
    decreases msgs.len(),
{
    if msgs.len() == 0 {
        0
    } else {
        spec_messages_tokens(msgs.drop_last()) + spec_message_tokens(msgs.last())
    }
}

/// Token estimate of the tool catalog: one token per four bytes of each
/// schema text.
pub open spec fn spec_tools_tokens(tools: Seq<Seq<char>>) -> nat
    decreases tools.len(),
{
    if tools.len() == 0 {
        0
    } else {
        spec_tools_tokens(tools.drop_last()) + spec_byte_len(tools.last()) / 4
    }
}

/// Adds without overflowing: the sum, capped at what a `usize` can hold.
fn saturating_add_usize(a: usize, b: usize) -> (r: usize)
    ensures
        r as nat == spec_cap_usize(a as nat + b as nat),
{
    if a > usize::MAX - b {
        usize::MAX
    } else {
        a + b
    }
}

impl OllamaChatMessage {
    /// The token estimate of this message, capped at what a `usize` can
    /// hold.  A heuristic for context-budget display, not a tokenizer.
    pub fn get_token_count_estimate(&self) -> (t: usize)
        ensures
            t as nat == spec_cap_usize(spec_message_tokens(self.deep_view())),
    {
        let bytes = self.content.as_str().as_bytes().len();
        let words = word_count(self.content.as_str());
        let content128: u128 = (2 * (bytes as u128) + 13 * (words as u128)) / 20;
        proof {
            assert(content128 <= 15 * (usize::MAX as u128) / 20) by (nonlinear_arith)
                requires
                    bytes <= usize::MAX,
                    words <= usize::MAX,
                    content128 == (2 * (bytes as u128) + 13 * (words as u128)) / 20,
            ;
        }
        let content_tokens: usize = content128 as usize;
        let mut total = content_tokens;
        assert(total as nat == spec_cap_usize(spec_content_tokens(self.deep_view().content)));
        if let Some(tcs) = &self.tool_calls {
            let ghost calls = tcs.deep_view();
            let mut k: usize = 0;
            while k < tcs.len()
                invariant
                    k <= tcs.len(),
                    calls == tcs.deep_view(),
                    calls.len() == tcs.len(),
                    total as nat == spec_cap_usize(
                        spec_content_tokens(self.deep_view().content) + spec_calls_tokens(
                            calls.take(k as int),
                        ),
                    ),
                decreases tcs.len() - k,
            {
                let tc = &tcs[k];
                let id_len = match &tc.id {
                    Some(s) => s.as_str().as_bytes().len(),
                    None => 0,
                };
                let desc_len = match &tc.function.description {
                    Some(s) => s.as_str().as_bytes().len(),
                    None => 0,
                };
                let sum128: u128 = ((tc.function.name.as_str().as_bytes().len() as u128) + (
                tc.function.arguments.as_str().as_bytes().len() as u128) + (id_len as u128) + (
                desc_len as u128)) / 4;
                proof {
                    assert(sum128 <= usize::MAX as u128) by (nonlinear_arith)
                        requires
                            sum128 <= (4 * (usize::MAX as u128)) / 4,
                    ;
                }
                let call_tokens: usize = sum128 as usize;
                assert(call_tokens as nat == spec_call_tokens(calls[k as int]));
                total = saturating_add_usize(total, call_tokens);
                proof {
                    assert(calls.take(k + 1).drop_last() =~= calls.take(k as int));
                    assert(calls.take(k + 1).last() == calls[k as int]);
                }
                k += 1;
            }
            proof {
                assert(calls.take(tcs.len() as int) =~= calls);
            }
        }
        total
    }
}

impl ApplicationState {
    /// The token estimate of the whole session: every message plus the tool
    /// catalog, capped at what a `usize` can hold.  A heuristic for
    /// context-budget display, not a tokenizer.
    pub fn get_token_count_estimate(&self) -> (t: usize)
        ensures
            t as nat == spec_cap_usize(
                spec_messages_tokens(self.deep_view().messages) + spec_tools_tokens(
                    self.deep_view().tools,
                ),
            ),
    {
        let ghost msgs = self.deep_view().messages;
        let mut total: usize = 0;
        let mut i: usize = 0;
        while i < self.messages.len()
            invariant
                i <= self.messages.len(),
                msgs == self.deep_view().messages,
                msgs.len() == self.messages.len(),
                total as nat == spec_cap_usize(spec_messages_tokens(msgs.take(i as int))),
            decreases self.messages.len() - i,
        {
            let t = self.messages[i].get_token_count_estimate();
            total = saturating_add_usize(total, t);
            proof {
                assert(msgs.take(i + 1).drop_last() =~= msgs.take(i as int));
                assert(msgs.take(i + 1).last() == msgs[i as int]);
            }
            i += 1;
        }
        proof {
            assert(msgs.take(self.messages.len() as int) =~= msgs);
        }
        let ghost tools = self.deep_view().tools;
        let mut j: usize = 0;
        while j < self.tools.len()
            invariant
                j <= self.tools.len(),
                tools == self.deep_view().tools,
                tools.len() == self.tools.len(),
                msgs == self.deep_view().messages,
                total as nat == spec_cap_usize(
                    spec_messages_tokens(msgs) + spec_tools_tokens(tools.take(j as int)),
                ),
            decreases self.tools.len() - j,
        {
            let t = self.tools[j].as_str().as_bytes().len() / 4;
            total = saturating_add_usize(total, t);
            proof {
                assert(tools.take(j + 1).drop_last() =~= tools.take(j as int));
                assert(tools.take(j + 1).last() == tools[j as int]);
            }
            j += 1;
        }
        proof {
            assert(tools.take(self.tools.len() as int) =~= tools);
        }
        total
    }
}

} // verus!
