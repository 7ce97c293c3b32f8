//! Messages of a conversation: roles, tool calls and the chat message itself.

use vstd::prelude::*;

verus! {

/// The sender of a message.  The backend wire format carries the role as a
/// string; the closed set of variants makes the role-dependent invariants of
/// [`OllamaChatMessage`] checkable case by case.
#[derive(Clone, Copy, Debug, PartialEq, Eq, Structural)]
pub enum Role {
    System,
    User,
    Assistant,
    Tool,
}

impl Role {
    /// The wire label of the role, as the backend spells it.
    pub open spec fn spec_label(self) -> Seq<char> {
        match self {
            Role::System => "system"@,
            Role::User => "user"@,
            Role::Assistant => "assistant"@,
            Role::Tool => "tool"@,
        }
    }

    /// The wire label of the role.
    pub fn label(self) -> (r: &'static str)
        ensures
            r@ == self.spec_label(),
    {
        match self {
            Role::System => "system",
            Role::User => "user",
            Role::Assistant => "assistant",
            Role::Tool => "tool",
        }
    }
}

/// Mathematical image of a [`ToolCallFunction`].
pub ghost struct ToolCallFunctionView {
    pub name: Seq<char>,
    pub description: Option<Seq<char>>,
    pub arguments: Seq<char>,
}

/// Clones an optional string; the copy holds the same characters.
pub fn clone_opt_string(s: &Option<String>) -> (r: Option<String>)
    ensures
        r.deep_view() == s.deep_view(),
{
    match s {
        Some(x) => Some(x.clone()),
        None => None,
    }
}

/// The function part of a tool call: which tool to run and with what
/// arguments.  The arguments are kept as the raw JSON text the backend sent;
/// the dispatcher extracts typed values from it when the call is handled.
#[derive(Debug)]
pub struct ToolCallFunction {
    /// Name of the tool to call.
    pub name: String,
    /// Optional reason the backend gave for the call.
    pub description: Option<String>,
    /// The call's arguments as JSON text.
    pub arguments: String,
}

impl DeepView for ToolCallFunction {
    type V = ToolCallFunctionView;

    open spec fn deep_view(&self) -> ToolCallFunctionView {
        ToolCallFunctionView {
            name: self.name@,
            description: self.description.deep_view(),
            arguments: self.arguments@,
        }
    }
}

/// Mathematical image of a [`ToolCall`].
pub ghost struct ToolCallView {
    pub id: Option<Seq<char>>,
    pub function: ToolCallFunctionView,
}

impl Clone for ToolCallFunction {
    fn clone(&self) -> (r: Self)
        ensures
            r.deep_view() == self.deep_view(),
    {
        ToolCallFunction {
            name: self.name.clone(),
            description: clone_opt_string(&self.description),
            arguments: self.arguments.clone(),
        }
    }
}

/// A backend-issued request to invoke a named local action.
#[derive(Debug)]
pub struct ToolCall {
    /// Opaque identifier assigned by the backend; a tool-result message
    /// answers the call under this id.
    pub id: Option<String>,
    /// The function to call with its arguments.
    pub function: ToolCallFunction,
}

impl DeepView for ToolCall {
    type V = ToolCallView;

    open spec fn deep_view(&self) -> ToolCallView {
        ToolCallView { id: self.id.deep_view(), function: self.function.deep_view() }
    }
}

impl Clone for ToolCall {
    fn clone(&self) -> (r: Self)
        ensures
            r.deep_view() == self.deep_view(),
    {
        ToolCall { id: clone_opt_string(&self.id), function: self.function.clone() }
    }
}

/// Clones a list of tool calls; the copy has the same view.
pub fn clone_tool_calls(v: &Vec<ToolCall>) -> (r: Vec<ToolCall>)
    ensures
        r.deep_view() == v.deep_view(),
{
    let mut r: Vec<ToolCall> = Vec::new();
    let mut i: usize = 0;
    proof {
        assert(r.deep_view() =~= v.deep_view().take(0));
    }
    while i < v.len()
        invariant
            i <= v.len(),
            r.deep_view() == v.deep_view().take(i as int),
        decreases v.len() - i,
    {
        let ghost before = r.deep_view();
        let c = v[i].clone();
        let ghost cv = c.deep_view();
        r.push(c);
        proof {
            assert(r.deep_view() =~= before.push(cv));
            assert(r.deep_view() =~= v.deep_view().take(i + 1));
        }
        i += 1;
    }
    proof {
        assert(v.deep_view().take(v.len() as int) =~= v.deep_view());
    }
    r
}

/// Clones an optional list of tool calls; the copy has the same view.
pub fn clone_opt_tool_calls(v: &Option<Vec<ToolCall>>) -> (r: Option<Vec<ToolCall>>)
    ensures
        r.deep_view() == v.deep_view(),
{
    match v {
        Some(calls) => Some(clone_tool_calls(calls)),
        None => None,
    }
}

/// Mathematical image of an [`OllamaChatMessage`].
pub ghost struct MessageView {
    pub role: Role,
    pub content: Seq<char>,
    pub tool_calls: Option<Seq<ToolCallView>>,
    pub tool_name: Option<Seq<char>>,
    pub tool_call_id: Option<Seq<char>>,
}

impl MessageView {
    /// Role-dependent shape of a well-formed message: the tool fields are
    /// present exactly on tool-role messages, and only an assistant message
    /// carries tool calls.
    pub open spec fn wf(self) -> bool {
        &&& (self.tool_name is Some <==> self.role == Role::Tool)
        &&& (self.tool_call_id is Some <==> self.role == Role::Tool)
        &&& (self.tool_calls is Some ==> self.role == Role::Assistant)
    }
}

/// One message of the conversation.
#[derive(Debug)]
pub struct OllamaChatMessage {
    /// Who sent the message.
    pub role: Role,
    /// The text content of the message.
    pub content: String,
    /// Tool calls requested by the assistant; present only on assistant
    /// messages.
    pub tool_calls: Option<Vec<ToolCall>>,
    /// Name of the executed tool; present exactly on tool messages.
    pub tool_name: Option<String>,
    /// Id of the tool call this message answers; present exactly on tool
    /// messages.
    pub tool_call_id: Option<String>,
}

impl DeepView for OllamaChatMessage {
    type V = MessageView;

    open spec fn deep_view(&self) -> MessageView {
        MessageView {
            role: self.role,
            content: self.content@,
            tool_calls: self.tool_calls.deep_view(),
            tool_name: self.tool_name.deep_view(),
            tool_call_id: self.tool_call_id.deep_view(),
        }
    }
}

impl Clone for OllamaChatMessage {
    fn clone(&self) -> (r: Self)
        ensures
            r.deep_view() == self.deep_view(),
    {
        OllamaChatMessage {
            role: self.role,
            content: self.content.clone(),
            tool_calls: clone_opt_tool_calls(&self.tool_calls),
            tool_name: clone_opt_string(&self.tool_name),
            tool_call_id: clone_opt_string(&self.tool_call_id),
        }
    }
}

impl OllamaChatMessage {
    /// A message of the given role with plain text content and no tool
    /// fields.  Well-formed for every role but [`Role::Tool`].
    pub fn plain(role: Role, content: String) -> (m: OllamaChatMessage)
        ensures
            m.deep_view() == (MessageView {
                role,
                content: content@,
                tool_calls: None,
                tool_name: None,
                tool_call_id: None,
            }),
    {
        OllamaChatMessage { role, content, tool_calls: None, tool_name: None, tool_call_id: None }
    }

    /// A tool-result message answering the call with the given id.
    pub fn tool_result(tool_call_id: String, tool_name: String, content: String) -> (m:
        OllamaChatMessage)
        ensures
            m.deep_view() == (MessageView {
                role: Role::Tool,
                content: content@,
                tool_calls: None,
                tool_name: Some(tool_name@),
                tool_call_id: Some(tool_call_id@),
            }),
            m.deep_view().wf(),
    {
        OllamaChatMessage {
            role: Role::Tool,
            content,
            tool_calls: None,
            tool_name: Some(tool_name),
            tool_call_id: Some(tool_call_id),
        }
    }
}

/// Every message of a history is well-formed.
pub open spec fn all_wf(msgs: Seq<MessageView>) -> bool {
    forall|i: int| 0 <= i < msgs.len() ==> (#[trigger] msgs[i]).wf()
}

} // verus!
