//! The conversation store: the session state that owns the message history,
//! the prompting policy, and the local history-reduction operation.

use vstd::prelude::*;

use crate::limits::OutputLimit;
use crate::msg::{all_wf, MessageView, OllamaChatMessage, Role};
use crate::response::{spec_content_text, OllamaChatResponse, ResponseView};
use crate::text::str_eq;

verus! {

/// Mathematical image of a [`ModelConfig`].
pub ghost struct ModelConfigView {
    pub system_prompt: Option<Seq<char>>,
    pub think: bool,
    pub tools: bool,
    pub num_ctx: Option<u64>,
}

/// Per-model settings obtained from the configuration lookup.
#[derive(Debug)]
pub struct ModelConfig {
    /// A custom system prompt for the model, replacing the default one.
    pub system_prompt: Option<String>,
    /// Whether requests to the model ask for thinking text.
    pub think: bool,
    /// Whether the model accepts a tool catalog.
    pub tools: bool,
    /// Context window size to request, in tokens.
    pub num_ctx: Option<u64>,
}

impl DeepView for ModelConfig {
    type V = ModelConfigView;

    open spec fn deep_view(&self) -> ModelConfigView {
        ModelConfigView {
            system_prompt: self.system_prompt.deep_view(),
            think: self.think,
            tools: self.tools,
            num_ctx: self.num_ctx,
        }
    }
}

/// The settings assumed for a model the configuration does not name.
pub open spec fn spec_default_model_config() -> ModelConfigView {
    ModelConfigView { system_prompt: None, think: false, tools: false, num_ctx: None }
}

impl Default for ModelConfig {
    /// The settings assumed for a model the configuration does not name.
    fn default() -> (r: Self)
        ensures
            r.deep_view() == spec_default_model_config(),
    {
        ModelConfig { system_prompt: None, think: false, tools: false, num_ctx: None }
    }
}

impl Clone for ModelConfig {
    fn clone(&self) -> (r: Self)
        ensures
            r.deep_view() == self.deep_view(),
    {
        ModelConfig {
            system_prompt: crate::msg::clone_opt_string(&self.system_prompt),
            think: self.think,
            tools: self.tools,
            num_ctx: self.num_ctx,
        }
    }
}

/// Mathematical image of a [`ModelEntry`].
pub ghost struct ModelEntryView {
    pub name: Seq<char>,
    pub config: ModelConfigView,
}

/// One named model in the configuration's model table.
#[derive(Debug)]
pub struct ModelEntry {
    /// The model name the entry applies to.
    pub name: String,
    /// The settings for that model.
    pub config: ModelConfig,
}

impl DeepView for ModelEntry {
    type V = ModelEntryView;

    open spec fn deep_view(&self) -> ModelEntryView {
        ModelEntryView { name: self.name@, config: self.config.deep_view() }
    }
}

/// Mathematical image of an [`ApplicationConfig`].
pub ghost struct ApplicationConfigView {
    pub url: Seq<char>,
    pub model: Seq<char>,
    pub stream: bool,
    pub output_limit: OutputLimit,
    pub models: Seq<ModelEntryView>,
}

/// The application configuration the core consumes: backend address,
/// default model, streaming preference, output limit and the model table.
#[derive(Debug)]
pub struct ApplicationConfig {
    /// Base address of the backend.
    pub url: String,
    /// The model a new session starts with.
    pub model: String,
    /// Whether chat requests ask for a streamed reply.
    pub stream: bool,
    /// Truncation policy for shell-tool output.
    pub output_limit: OutputLimit,
    /// Per-model settings, keyed by model name.
    pub models: Vec<ModelEntry>,
}

impl DeepView for ApplicationConfig {
    type V = ApplicationConfigView;

    open spec fn deep_view(&self) -> ApplicationConfigView {
        ApplicationConfigView {
            url: self.url@,
            model: self.model@,
            stream: self.stream,
            output_limit: self.output_limit,
            models: self.models.deep_view(),
        }
    }
}

/// The configuration of the first entry with the given name, or the default
/// settings when no entry has it.
pub open spec fn spec_model_lookup(models: Seq<ModelEntryView>, name: Seq<char>) -> ModelConfigView
    decreases models.len(),
{
    if models.len() == 0 {
        spec_default_model_config()
    } else if models[0].name == name {
        models[0].config
    } else {
        spec_model_lookup(models.drop_first(), name)
    }
}

proof fn lemma_model_lookup_step(models: Seq<ModelEntryView>, name: Seq<char>, i: int)
    requires
        0 <= i < models.len(),
        forall|j: int| 0 <= j < i ==> (#[trigger] models[j]).name != name,
    ensures
        models[i].name == name ==> spec_model_lookup(models, name) == models[i].config,
        models[i].name != name ==> spec_model_lookup(models, name) == spec_model_lookup(
            models.skip(i + 1),
            name,
        ),
    decreases i,
{
    if i == 0 {
        assert(models.drop_first() =~= models.skip(1));
    } else {
        lemma_model_lookup_step(models.drop_first(), name, i - 1);
        assert(models.drop_first() =~= models.skip(1));
        assert(models.skip(1).drop_first() =~= models.skip(2));
        assert(models.skip(1)[i - 1] == models[i]);
        assert(forall|j: int|
            0 <= j < i - 1 ==> (#[trigger] models.skip(1)[j]).name == models[j + 1].name);
        assert(models.skip(1).skip(i) =~= models.skip(i + 1));
    }
}

impl ApplicationConfig {
    /// The settings of the named model: the first entry bearing its name,
    /// or the defaults when none does.
    pub fn model_config_for(&self, name: &str) -> (r: ModelConfig)
        ensures
            r.deep_view() == spec_model_lookup(self.deep_view().models, name@),
    {
        let ghost models = self.deep_view().models;
        let mut i: usize = 0;
        while i < self.models.len()
            invariant
                i <= self.models.len(),
                models == self.deep_view().models,
                models.len() == self.models.len(),
                forall|j: int| 0 <= j < i ==> (#[trigger] models[j]).name != name@,
            decreases self.models.len() - i,
        {
            if str_eq(self.models[i].name.as_str(), name) {
                proof {
                    lemma_model_lookup_step(models, name@, i as int);
                }
                return self.models[i].config.clone();
            }
            proof {
                lemma_model_lookup_step(models, name@, i as int);
                assert(models.skip(i + 1).len() == models.len() - i - 1);
            }
            i += 1;
        }
        proof {
            if models.len() > 0 {
                lemma_model_lookup_step(models, name@, models.len() - 1);
                assert(models.skip(models.len() as int).len() == 0);
            }
        }
        ModelConfig::default()
    }
}

/// Mathematical image of an [`ApplicationState`].
pub ghost struct StateView {
    pub session_id: Seq<char>,
    pub model: Seq<char>,
    pub tools: Seq<Seq<char>>,
    pub messages: Seq<MessageView>,
}

/// The state of one chat session: its identity, the active model, the tool
/// catalog handed to the backend, and the conversation history.
#[derive(Debug)]
pub struct ApplicationState {
    /// Identifier of the session.
    pub session_id: String,
    /// Name of the model the session talks to.
    pub model: String,
    /// Tool catalog, one JSON schema text per tool.
    pub tools: Vec<String>,
    /// The conversation history, oldest message first.
    pub messages: Vec<OllamaChatMessage>,
}

impl DeepView for ApplicationState {
    type V = StateView;

    open spec fn deep_view(&self) -> StateView {
        StateView {
            session_id: self.session_id@,
            model: self.model@,
            tools: self.tools.deep_view(),
            messages: self.messages.deep_view(),
        }
    }
}

/// The system-role messages of a history, in their original order.
pub open spec fn spec_systems(msgs: Seq<MessageView>) -> Seq<MessageView>
    decreases msgs.len(),
{
    if msgs.len() == 0 {
        Seq::empty()
    } else {
        spec_systems(msgs.drop_last()) + (if msgs.last().role == Role::System {
            seq![msgs.last()]
        } else {
            Seq::empty()
        })
    }
}

/// The index of the last message with the given role, if any has it.
pub open spec fn spec_rposition(msgs: Seq<MessageView>, role: Role) -> Option<int>
    decreases msgs.len(),
{
    if msgs.len() == 0 {
        None
    } else if msgs.last().role == role {
        Some(msgs.len() - 1)
    } else {
        spec_rposition(msgs.drop_last(), role)
    }
}

/// The last message with the given role, as a one-element sequence, or the
/// empty sequence when no message has it.
pub open spec fn spec_last_of_role(msgs: Seq<MessageView>, role: Role) -> Seq<MessageView> {
    match spec_rposition(msgs, role) {
        Some(i) => seq![msgs[i]],
        None => Seq::empty(),
    }
}

/// The trimmed history: every system message, then the last user message if
/// any, then the last assistant message if any.  Everything else is gone.
pub open spec fn spec_trimmed(msgs: Seq<MessageView>) -> Seq<MessageView> {
    spec_systems(msgs) + spec_last_of_role(msgs, Role::User) + spec_last_of_role(
        msgs,
        Role::Assistant,
    )
}

proof fn lemma_rposition_take(msgs: Seq<MessageView>, role: Role, i: int)
    requires
        0 <= i <= msgs.len(),
        forall|j: int| i <= j < msgs.len() ==> (#[trigger] msgs[j]).role != role,
    ensures
        spec_rposition(msgs, role) == spec_rposition(msgs.take(i), role),
    decreases msgs.len(),
{
    if i < msgs.len() {
        assert(msgs.last().role != role);
        assert(msgs.drop_last() =~= msgs.take(msgs.len() - 1));
        lemma_rposition_take(msgs.take(msgs.len() - 1), role, i);
        assert(msgs.take(msgs.len() - 1).take(i) =~= msgs.take(i));
    } else {
        assert(msgs.take(msgs.len() as int) =~= msgs);
    }
}

/// The index of the last message of the given role, or none.
pub(crate) fn rposition_role(msgs: &Vec<OllamaChatMessage>, role: Role) -> (r: Option<usize>)
    ensures
        match r {
            Some(i) => i < msgs.deep_view().len() && spec_rposition(msgs.deep_view(), role)
                == Some(i as int),
            None => spec_rposition(msgs.deep_view(), role) is None,
        },
{
    let ghost view = msgs.deep_view();
    let mut i: usize = msgs.len();
    while i > 0
        invariant
            i <= msgs.len(),
            view == msgs.deep_view(),
            view.len() == msgs.len(),
            forall|j: int| i <= j < view.len() ==> (#[trigger] view[j]).role != role,
        decreases i,
    {
        i -= 1;
        if msgs[i].role == role {
            proof {
                lemma_rposition_take(view, role, i + 1);
                assert(view.take(i + 1).last() == view[i as int]);
                assert(view.take(i + 1).len() == i + 1);
            }
            return Some(i);
        }
    }
    proof {
        lemma_rposition_take(view, role, 0);
        assert(view.take(0) =~= Seq::<MessageView>::empty());
    }
    None
}

/// Whether some message of the history has the given role.
pub open spec fn spec_has_role(msgs: Seq<MessageView>, role: Role) -> bool {
    exists|i: int| 0 <= i < msgs.len() && (#[trigger] msgs[i]).role == role
}

/// Whether a human turn is required before the next backend request: true
/// for an empty history, a history the assistant has never answered in, and
/// whenever the last message is not a tool result.
pub open spec fn spec_should_prompt(msgs: Seq<MessageView>) -> bool {
    msgs.len() == 0 || !spec_has_role(msgs, Role::Assistant) || msgs.last().role != Role::Tool
}

/// Where a message with the role exists, the last one's index lies in the
/// history and bears the role; where none exists, the search is empty.
pub proof fn lemma_rposition_characterises(msgs: Seq<MessageView>, role: Role)
    ensures
        match spec_rposition(msgs, role) {
            Some(i) => 0 <= i < msgs.len() && msgs[i].role == role,
            None => !spec_has_role(msgs, role),
        },
    decreases msgs.len(),
{
    if msgs.len() > 0 && msgs.last().role != role {
        lemma_rposition_characterises(msgs.drop_last(), role);
        if spec_rposition(msgs.drop_last(), role) is None {
            assert forall|i: int| 0 <= i < msgs.len() implies (#[trigger] msgs[i]).role
                != role by {
                if i < msgs.len() - 1 {
                    assert(msgs.drop_last()[i] == msgs[i]);
                }
            }
        }
    }
}

proof fn lemma_systems_wf(msgs: Seq<MessageView>)
    requires
        all_wf(msgs),
    ensures
        all_wf(spec_systems(msgs)),
    decreases msgs.len(),
{
    if msgs.len() > 0 {
        assert(all_wf(msgs.drop_last()));
        lemma_systems_wf(msgs.drop_last());
        let sys = spec_systems(msgs);
        assert forall|i: int| 0 <= i < sys.len() implies (#[trigger] sys[i]).wf() by {
            if i < spec_systems(msgs.drop_last()).len() {
                assert(sys[i] == spec_systems(msgs.drop_last())[i]);
            } else {
                assert(sys[i] == msgs.last());
            }
        }
    }
}

/// Trimming a history of well-formed messages leaves only well-formed
/// messages: every kept message is one of the original's.
pub proof fn lemma_trim_preserves_wf(msgs: Seq<MessageView>)
    requires
        all_wf(msgs),
    ensures
        all_wf(spec_trimmed(msgs)),
{
    lemma_systems_wf(msgs);
    lemma_rposition_characterises(msgs, Role::User);
    lemma_rposition_characterises(msgs, Role::Assistant);
    let t = spec_trimmed(msgs);
    let sys = spec_systems(msgs);
    let u = spec_last_of_role(msgs, Role::User);
    let a = spec_last_of_role(msgs, Role::Assistant);
    assert forall|i: int| 0 <= i < t.len() implies (#[trigger] t[i]).wf() by {
        if i < sys.len() {
            assert(t[i] == sys[i]);
        } else if i < sys.len() + u.len() {
            assert(t[i] == u[i - sys.len()]);
        } else {
            assert(t[i] == a[i - sys.len() - u.len()]);
        }
    }
}

/// Folding a streamed fragment into the trailing assistant message keeps
/// every message well-formed: only an assistant message grows, and only in
/// its content and tool calls.
pub proof fn lemma_extend_trailing_preserves_wf(msgs: Seq<MessageView>, chunk: ResponseView)
    requires
        all_wf(msgs),
    ensures
        all_wf(spec_extend_trailing(msgs, chunk)),
{
    let e = spec_extend_trailing(msgs, chunk);
    assert forall|i: int| 0 <= i < e.len() implies (#[trigger] e[i]).wf() by {
        if e != msgs {
            if i < msgs.len() - 1 {
                assert(e[i] == msgs.drop_last()[i]);
                assert(msgs.drop_last()[i] == msgs[i]);
            } else {
                assert(msgs.last().wf());
            }
        }
    }
}

/// A history after one streamed fragment is folded into its trailing
/// assistant message: that message's content grows by the fragment's
/// content and its tool calls by the fragment's tool-call pieces.  Any
/// other history is unchanged.
pub open spec fn spec_extend_trailing(msgs: Seq<MessageView>, chunk: ResponseView) -> Seq<
    MessageView,
> {
    match chunk.message {
        None => msgs,
        Some(m) => {
            if msgs.len() > 0 && msgs.last().role == Role::Assistant {
                let last = msgs.last();
                msgs.drop_last().push(
                    MessageView {
                        role: last.role,
                        content: last.content + m.content,
                        tool_calls: match m.tool_calls {
                            None => last.tool_calls,
                            Some(tc) => Some(
                                (match last.tool_calls {
                                    Some(c) => c,
                                    None => Seq::empty(),
                                }) + tc,
                            ),
                        },
                        tool_name: last.tool_name,
                        tool_call_id: last.tool_call_id,
                    },
                )
            } else {
                msgs
            }
        },
    }
}

impl ApplicationState {
    /// A fresh session for the configured model, with no history and no
    /// tools.
    pub fn new_from_config(app_config: &ApplicationConfig) -> (r: Self)
        ensures
            r.deep_view() == (StateView {
                session_id: Seq::<char>::empty(),
                model: app_config.model@,
                tools: Seq::<Seq<char>>::empty(),
                messages: Seq::<MessageView>::empty(),
            }),
    {
        let r = ApplicationState {
            session_id: String::new(),
            model: app_config.model.clone(),
            tools: Vec::new(),
            messages: Vec::new(),
        };
        proof {
            assert(r.tools.deep_view() =~= Seq::<Seq<char>>::empty());
            assert(r.messages.deep_view() =~= Seq::<MessageView>::empty());
        }
        r
    }

    /// The settings of the session's model: the first configuration entry
    /// bearing its name, or the defaults when none does.
    pub fn model_configuration(&self, app_config: &ApplicationConfig) -> (r: ModelConfig)
        ensures
            r.deep_view() == spec_model_lookup(app_config.deep_view().models, self.model@),
    {
        app_config.model_config_for(self.model.as_str())
    }

    /// Appends a user message with the given text.
    pub fn add_user_message(&mut self, content: &str)
        ensures
            final(self).deep_view() == (StateView {
                messages: old(self).deep_view().messages.push(
                    MessageView {
                        role: Role::User,
                        content: content@,
                        tool_calls: None,
                        tool_name: None,
                        tool_call_id: None,
                    },
                ),
                ..old(self).deep_view()
            }),
    {
        let ghost before = self.messages.deep_view();
        self.messages.push(OllamaChatMessage::plain(Role::User, content.to_owned()));
        proof {
            assert(self.messages.deep_view() =~= before.push(
                self.messages.deep_view().last(),
            ));
        }
    }

    /// Appends an assistant message with the given text and no tool calls.
    pub fn add_assistant_message(&mut self, content: &str)
        ensures
            final(self).deep_view() == (StateView {
                messages: old(self).deep_view().messages.push(
                    MessageView {
                        role: Role::Assistant,
                        content: content@,
                        tool_calls: None,
                        tool_name: None,
                        tool_call_id: None,
                    },
                ),
                ..old(self).deep_view()
            }),
    {
        let ghost before = self.messages.deep_view();
        self.messages.push(OllamaChatMessage::plain(Role::Assistant, content.to_owned()));
        proof {
            assert(self.messages.deep_view() =~= before.push(
                self.messages.deep_view().last(),
            ));
        }
    }

    /// Records a completed backend reply: when it carries a message, an
    /// assistant message with its content and tool calls is appended; a
    /// reply without a message leaves the history unchanged.
    pub fn add_assistant_response(&mut self, resp: OllamaChatResponse)
        ensures
            final(self).deep_view() == (StateView {
                messages: match resp.deep_view().message {
                    Some(m) => old(self).deep_view().messages.push(
                        MessageView {
                            role: Role::Assistant,
                            content: m.content,
                            tool_calls: m.tool_calls,
                            tool_name: None,
                            tool_call_id: None,
                        },
                    ),
                    None => old(self).deep_view().messages,
                },
                ..old(self).deep_view()
            }),
    {
        if let Some(message) = resp.message {
            let ghost before = self.messages.deep_view();
            self.messages.push(
                OllamaChatMessage {
                    role: Role::Assistant,
                    content: message.content,
                    tool_calls: message.tool_calls,
                    tool_name: None,
                    tool_call_id: None,
                },
            );
            proof {
                assert(self.messages.deep_view() =~= before.push(
                    self.messages.deep_view().last(),
                ));
            }
        }
    }

    /// Appends a tool-result message answering the call with the given id.
    pub fn add_tool_result(&mut self, tool_call_id: &str, tool_name: &str, result: &str)
        ensures
            final(self).deep_view() == (StateView {
                messages: old(self).deep_view().messages.push(
                    MessageView {
                        role: Role::Tool,
                        content: result@,
                        tool_calls: None,
                        tool_name: Some(tool_name@),
                        tool_call_id: Some(tool_call_id@),
                    },
                ),
                ..old(self).deep_view()
            }),
    {
        let ghost before = self.messages.deep_view();
        self.messages.push(
            OllamaChatMessage::tool_result(
                tool_call_id.to_owned(),
                tool_name.to_owned(),
                result.to_owned(),
            ),
        );
        proof {
            assert(self.messages.deep_view() =~= before.push(
                self.messages.deep_view().last(),
            ));
        }
    }

    /// Whether a human turn is required before the next backend request.
    pub fn should_prompt_user(&self) -> (r: bool)
        ensures
            r == spec_should_prompt(self.deep_view().messages),
    {
        let ghost msgs = self.deep_view().messages;
        if self.messages.len() == 0 {
            return true;
        }
        let mut found = false;
        let mut i: usize = 0;
        while i < self.messages.len() && !found
            invariant
                i <= self.messages.len(),
                msgs == self.deep_view().messages,
                msgs.len() == self.messages.len(),
                found ==> i > 0 && 0 <= i - 1 < msgs.len() && msgs[i - 1].role == Role::Assistant,
                !found ==> forall|j: int| 0 <= j < i ==> (#[trigger] msgs[j]).role
                    != Role::Assistant,
            decreases self.messages.len() - i,
        {
            if self.messages[i].role == Role::Assistant {
                found = true;
            }
            i += 1;
        }
        if !found {
            assert(!spec_has_role(msgs, Role::Assistant));
            return true;
        }
        assert(spec_has_role(msgs, Role::Assistant));
        let last = &self.messages[self.messages.len() - 1];
        if last.role == Role::Tool {
            assert(msgs.last().role == Role::Tool);
            false
        } else {
            assert(msgs.last().role != Role::Tool);
            true
        }
    }

    /// Whether the turn loop may send the history to the backend without a
    /// human turn: true exactly when the history is non-empty, the assistant
    /// has answered at least once, and the last message is a tool result.
    pub fn should_continue_without_prompt(&self) -> (r: bool)
        ensures
            r == !spec_should_prompt(self.deep_view().messages),
    {
        !self.should_prompt_user()
    }

    /// Trims the history: keeps every system message, the last user message
    /// and the last assistant message, and discards everything else.
    pub fn trim(&mut self)
        ensures
            final(self).deep_view() == (StateView {
                messages: spec_trimmed(old(self).deep_view().messages),
                ..old(self).deep_view()
            }),
    {
        let ghost msgs = self.deep_view().messages;
        let mut kept: Vec<OllamaChatMessage> = Vec::new();
        proof {
            assert(kept.deep_view() =~= spec_systems(msgs.take(0)));
        }
        let mut i: usize = 0;
        while i < self.messages.len()
            invariant
                i <= self.messages.len(),
                msgs == self.deep_view().messages,
                msgs.len() == self.messages.len(),
                kept.deep_view() == spec_systems(msgs.take(i as int)),
            decreases self.messages.len() - i,
        {
            let ghost before = kept.deep_view();
            if self.messages[i].role == Role::System {
                kept.push(self.messages[i].clone());
                proof {
                    assert(kept.deep_view() =~= before.push(msgs[i as int]));
                }
            }
            proof {
                assert(msgs.take(i + 1).drop_last() =~= msgs.take(i as int));
                assert(msgs.take(i + 1).last() == msgs[i as int]);
                if msgs[i as int].role == Role::System {
                    assert(kept.deep_view() =~= spec_systems(msgs.take(i as int)) + seq![
                        msgs[i as int],
                    ]);
                } else {
                    assert(kept.deep_view() =~= spec_systems(msgs.take(i as int))
                        + Seq::<MessageView>::empty());
                }
            }
            i += 1;
        }
        proof {
            assert(msgs.take(msgs.len() as int) =~= msgs);
        }
        if let Some(j) = rposition_role(&self.messages, Role::User) {
            let ghost before = kept.deep_view();
            kept.push(self.messages[j].clone());
            proof {
                assert(kept.deep_view() =~= before + seq![msgs[j as int]]);
            }
        } else {
            proof {
                assert(kept.deep_view() =~= kept.deep_view() + Seq::<MessageView>::empty());
            }
        }
        if let Some(j) = rposition_role(&self.messages, Role::Assistant) {
            let ghost before = kept.deep_view();
            kept.push(self.messages[j].clone());
            proof {
                assert(kept.deep_view() =~= before + seq![msgs[j as int]]);
            }
        }
        proof {
            assert(spec_systems(msgs) + spec_last_of_role(msgs, Role::User) + spec_last_of_role(
                msgs,
                Role::Assistant,
            ) =~= spec_trimmed(msgs));
        }
        self.messages = kept;
        proof {
            assert(self.deep_view().messages =~= spec_trimmed(msgs));
        }
    }

    /// Resets the history to its first message alone; an empty history stays
    /// empty.
    pub fn reset_to_first(&mut self)
        ensures
            final(self).deep_view() == (StateView {
                messages: old(self).deep_view().messages.take(
                    if old(self).deep_view().messages.len() == 0 {
                        0
                    } else {
                        1
                    },
                ),
                ..old(self).deep_view()
            }),
    {
        let ghost msgs = self.deep_view().messages;
        self.messages.truncate(1);
        proof {
            if msgs.len() == 0 {
                assert(self.messages.deep_view() =~= msgs.take(0));
            } else {
                assert(self.messages.deep_view() =~= msgs.take(1));
            }
        }
    }

    /// Replaces the whole history at once, as the explicit reduction
    /// operations do.
    pub fn replace_messages(&mut self, messages: Vec<OllamaChatMessage>)
        ensures
            final(self).deep_view() == (StateView {
                messages: messages.deep_view(),
                ..old(self).deep_view()
            }),
    {
        self.messages = messages;
    }

    /// The tool calls waiting on the last message, if it carries any.
    pub fn pending_tool_calls(&self) -> (r: Option<Vec<crate::msg::ToolCall>>)
        ensures
            r.deep_view() == (if self.deep_view().messages.len() == 0 {
                None
            } else {
                self.deep_view().messages.last().tool_calls
            }),
    {
        if self.messages.len() == 0 {
            None
        } else {
            crate::msg::clone_opt_tool_calls(&self.messages[self.messages.len() - 1].tool_calls)
        }
    }

    /// Folds one streamed fragment into the trailing assistant message:
    /// its content grows by the fragment's content and its tool calls by
    /// the fragment's tool-call pieces.  A history whose last message is
    /// not an assistant message is left unchanged.  Returns the fragment's
    /// phase label.
    pub fn process_assistant_message_chunk(&mut self, chunk: &OllamaChatResponse) -> (phase:
        crate::response::OllamaChatResponseStreamingState)
        ensures
            phase == crate::response::spec_fragment_phase(chunk.deep_view()),
            final(self).deep_view() == (StateView {
                messages: spec_extend_trailing(
                    old(self).deep_view().messages,
                    chunk.deep_view(),
                ),
                ..old(self).deep_view()
            }),
    {
        let ghost msgs = self.deep_view().messages;
        let phase = crate::response::fragment_phase(chunk);
        if let Some(m) = &chunk.message {
            if self.messages.len() > 0 {
                let idx = self.messages.len() - 1;
                let mut last = match self.messages.pop() {
                    Some(x) => x,
                    None => OllamaChatMessage::plain(Role::User, String::new()),
                };
                if last.role == Role::Assistant {
                    last.content.append(m.content.as_str());
                    if let Some(tc) = &m.tool_calls {
                        let mut cur = match last.tool_calls.take() {
                            Some(x) => x,
                            None => Vec::new(),
                        };
                        let mut fresh = crate::msg::clone_tool_calls(tc);
                        let ghost before = cur.deep_view();
                        cur.append(&mut fresh);
                        proof {
                            assert(cur.deep_view() =~= before + tc.deep_view());
                        }
                        last.tool_calls = Some(cur);
                    }
                }
                self.messages.push(last);
                proof {
                    assert(self.messages.deep_view() =~= msgs.drop_last().push(
                        self.messages.deep_view().last(),
                    ));
                    assert(self.messages.deep_view() =~= spec_extend_trailing(
                        msgs,
                        chunk.deep_view(),
                    ));
                }
            }
        }
        phase
    }

    /// Applies the outcome of the backend-assisted compaction request.  Only
    /// a successful reply mutates the store: the history shrinks to its
    /// first message plus one user message holding the summary text.  On a
    /// failed side request the state is left exactly as it was.
    pub fn apply_compact(&mut self, outcome: Result<OllamaChatResponse, String>) -> (r: Result<
        (),
        String,
    >)
        ensures
            match outcome {
                Ok(resp) => r is Ok && final(self).deep_view() == (StateView {
                    messages: old(self).deep_view().messages.take(
                        if old(self).deep_view().messages.len() == 0 {
                            0
                        } else {
                            1
                        },
                    ).push(
                        MessageView {
                            role: Role::User,
                            content: spec_content_text(resp.deep_view()),
                            tool_calls: None,
                            tool_name: None,
                            tool_call_id: None,
                        },
                    ),
                    ..old(self).deep_view()
                }),
                Err(e) => r == Err::<(), String>(e) && final(self).deep_view() == old(
                    self,
                ).deep_view(),
            },
    {
        match outcome {
            Ok(resp) => {
                let summary = match resp.message {
                    Some(m) => m.content,
                    None => String::new(),
                };
                let ghost msgs = self.deep_view().messages;
                self.messages.truncate(1);
                let ghost after_trunc = self.messages.deep_view();
                proof {
                    if msgs.len() == 0 {
                        assert(after_trunc =~= msgs.take(0));
                    } else {
                        assert(after_trunc =~= msgs.take(1));
                    }
                }
                self.messages.push(OllamaChatMessage::plain(Role::User, summary));
                proof {
                    assert(self.messages.deep_view() =~= after_trunc.push(
                        self.messages.deep_view().last(),
                    ));
                }
                Ok(())
            },
            Err(e) => Err(e),
        }
    }
}

} // verus!
