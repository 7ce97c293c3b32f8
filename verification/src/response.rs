//! The streaming-response assembler: one backend reply arrives as a sequence
//! of fragments, each merged into an accumulated response and labelled with
//! the phase of the stream it belongs to.

use vstd::prelude::*;

use crate::msg::{clone_opt_string, clone_tool_calls, Role, ToolCall, ToolCallView};

verus! {

/// The phase of a streamed reply a fragment belongs to.
#[derive(Clone, Copy, Debug, PartialEq, Eq, Structural)]
pub enum OllamaChatResponseStreamingState {
    /// The reply came whole, not as a stream.
    NoStream,
    /// Data is arriving but the fragment carried nothing visible yet.
    Receiving,
    /// The model is producing thinking text.
    Thinking,
    /// The model is producing response content.
    Responding,
    /// The model is requesting tool execution.
    CallingTools,
    /// The stream has completed.
    Done,
}

/// Mathematical image of an [`OllamaChatResponseMessage`].
pub ghost struct ResponseMessageView {
    pub role: Role,
    pub content: Seq<char>,
    pub thinking: Option<Seq<char>>,
    pub tool_calls: Option<Seq<ToolCallView>>,
}

/// The message portion of a backend reply: content, optional thinking text
/// and optional tool calls.
#[derive(Debug)]
pub struct OllamaChatResponseMessage {
    /// The sender; a backend reply speaks as the assistant.
    pub role: Role,
    /// The response content.
    pub content: String,
    /// Reasoning text, for models that produce it.
    pub thinking: Option<String>,
    /// Tool calls requested by the assistant.
    pub tool_calls: Option<Vec<ToolCall>>,
}

impl DeepView for OllamaChatResponseMessage {
    type V = ResponseMessageView;

    open spec fn deep_view(&self) -> ResponseMessageView {
        ResponseMessageView {
            role: self.role,
            content: self.content@,
            thinking: self.thinking.deep_view(),
            tool_calls: self.tool_calls.deep_view(),
        }
    }
}

/// Mathematical image of an [`OllamaChatResponse`].
pub ghost struct ResponseView {
    pub model: Seq<char>,
    pub created_at: Seq<char>,
    pub message: Option<ResponseMessageView>,
    pub done: bool,
    pub done_reason: Option<Seq<char>>,
    pub total_duration: Option<u64>,
    pub load_duration: Option<u64>,
    pub prompt_eval_count: Option<u64>,
    pub prompt_eval_duration: Option<u64>,
    pub eval_count: Option<u64>,
    pub eval_duration: Option<u64>,
}

/// One backend reply, or one fragment of a streamed reply.  The same shape
/// serves as the accumulator the fragments are merged into.
#[derive(Debug)]
pub struct OllamaChatResponse {
    /// The model that produced the reply.
    pub model: String,
    /// Creation timestamp as the backend sent it.
    pub created_at: String,
    /// The message portion, absent on fragments that carry only status.
    pub message: Option<OllamaChatResponseMessage>,
    /// The completion flag: set on the final fragment of a stream.
    pub done: bool,
    /// Why the reply ended, when the backend says.
    pub done_reason: Option<String>,
    /// Aggregate counter: total duration in nanoseconds.
    pub total_duration: Option<u64>,
    /// Aggregate counter: model load duration.
    pub load_duration: Option<u64>,
    /// Aggregate counter: prompt token count.
    pub prompt_eval_count: Option<u64>,
    /// Aggregate counter: prompt evaluation duration.
    pub prompt_eval_duration: Option<u64>,
    /// Aggregate counter: reply token count.
    pub eval_count: Option<u64>,
    /// Aggregate counter: reply evaluation duration.
    pub eval_duration: Option<u64>,
}

impl DeepView for OllamaChatResponse {
    type V = ResponseView;

    open spec fn deep_view(&self) -> ResponseView {
        ResponseView {
            model: self.model@,
            created_at: self.created_at@,
            message: self.message.deep_view(),
            done: self.done,
            done_reason: self.done_reason.deep_view(),
            total_duration: self.total_duration,
            load_duration: self.load_duration,
            prompt_eval_count: self.prompt_eval_count,
            prompt_eval_duration: self.prompt_eval_duration,
            eval_count: self.eval_count,
            eval_duration: self.eval_duration,
        }
    }
}

/// The empty accumulator a stream is merged into.
pub open spec fn spec_empty_response() -> ResponseView {
    ResponseView {
        model: Seq::empty(),
        created_at: Seq::empty(),
        message: None,
        done: false,
        done_reason: None,
        total_duration: None,
        load_duration: None,
        prompt_eval_count: None,
        prompt_eval_duration: None,
        eval_count: None,
        eval_duration: None,
    }
}

impl Default for OllamaChatResponse {
    /// The empty response that accumulation starts from.
    fn default() -> (r: Self)
        ensures
            r.deep_view() == spec_empty_response(),
    {
        OllamaChatResponse {
            model: String::new(),
            created_at: String::new(),
            message: None,
            done: false,
            done_reason: None,
            total_duration: None,
            load_duration: None,
            prompt_eval_count: None,
            prompt_eval_duration: None,
            eval_count: None,
            eval_duration: None,
        }
    }
}

/// The message accumulation starts from when a fragment first carries one.
pub open spec fn spec_empty_message() -> ResponseMessageView {
    ResponseMessageView {
        role: Role::Assistant,
        content: Seq::empty(),
        thinking: None,
        tool_calls: None,
    }
}

/// The accumulated message after one fragment's message is merged in:
/// content, thinking and tool calls each appended to what was there.
pub open spec fn spec_merge_message(
    acc: Option<ResponseMessageView>,
    inc: Option<ResponseMessageView>,
) -> Option<ResponseMessageView> {
    match inc {
        None => acc,
        Some(im) => {
            let base = match acc {
                Some(b) => b,
                None => spec_empty_message(),
            };
            Some(
                ResponseMessageView {
                    role: base.role,
                    content: base.content + im.content,
                    thinking: match im.thinking {
                        None => base.thinking,
                        Some(t) => Some(
                            (match base.thinking {
                                Some(bt) => bt,
                                None => Seq::empty(),
                            }) + t,
                        ),
                    },
                    tool_calls: match im.tool_calls {
                        None => base.tool_calls,
                        Some(tc) => Some(
                            (match base.tool_calls {
                                Some(bc) => bc,
                                None => Seq::empty(),
                            }) + tc,
                        ),
                    },
                },
            )
        },
    }
}

/// The accumulated response after one fragment is merged in: the message
/// grows, status and counters are taken from the fragment.
pub open spec fn spec_merge(acc: ResponseView, inc: ResponseView) -> ResponseView {
    ResponseView {
        model: inc.model,
        created_at: inc.created_at,
        message: spec_merge_message(acc.message, inc.message),
        done: inc.done,
        done_reason: inc.done_reason,
        total_duration: inc.total_duration,
        load_duration: inc.load_duration,
        prompt_eval_count: inc.prompt_eval_count,
        prompt_eval_duration: inc.prompt_eval_duration,
        eval_count: inc.eval_count,
        eval_duration: inc.eval_duration,
    }
}

/// The phase label of one fragment: completion wins, then thinking text,
/// then content, then tool-call pieces; a fragment carrying none of these is
/// only being received.
pub open spec fn spec_fragment_phase(inc: ResponseView) -> OllamaChatResponseStreamingState {
    if inc.done {
        OllamaChatResponseStreamingState::Done
    } else {
        match inc.message {
            None => OllamaChatResponseStreamingState::Receiving,
            Some(m) => {
                if m.thinking matches Some(t) && t.len() > 0 {
                    OllamaChatResponseStreamingState::Thinking
                } else if m.content.len() > 0 {
                    OllamaChatResponseStreamingState::Responding
                } else if m.tool_calls is Some {
                    OllamaChatResponseStreamingState::CallingTools
                } else {
                    OllamaChatResponseStreamingState::Receiving
                }
            },
        }
    }
}

fn has_nonempty_thinking(m: &OllamaChatResponseMessage) -> (r: bool)
    ensures
        r == (m.deep_view().thinking matches Some(t) && t.len() > 0),
{
    match &m.thinking {
        Some(t) => t.as_str().unicode_len() > 0,
        None => false,
    }
}

/// Labels one fragment with its phase, without merging it anywhere.
pub fn fragment_phase(chunk: &OllamaChatResponse) -> (phase: OllamaChatResponseStreamingState)
    ensures
        phase == spec_fragment_phase(chunk.deep_view()),
{
    if chunk.done {
        OllamaChatResponseStreamingState::Done
    } else {
        match &chunk.message {
            None => OllamaChatResponseStreamingState::Receiving,
            Some(m) => if has_nonempty_thinking(m) {
                OllamaChatResponseStreamingState::Thinking
            } else if m.content.unicode_len() > 0 {
                OllamaChatResponseStreamingState::Responding
            } else if m.tool_calls.is_some() {
                OllamaChatResponseStreamingState::CallingTools
            } else {
                OllamaChatResponseStreamingState::Receiving
            },
        }
    }
}

impl OllamaChatResponse {
    /// Merges one streamed fragment into the accumulated response and labels
    /// the fragment with its phase.
    pub fn merge(&mut self, incoming: &OllamaChatResponse) -> (phase:
        OllamaChatResponseStreamingState)
        ensures
            final(self).deep_view() == spec_merge(old(self).deep_view(), incoming.deep_view()),
            phase == spec_fragment_phase(incoming.deep_view()),
    {
        let phase = fragment_phase(incoming);
        self.model = incoming.model.clone();
        self.created_at = incoming.created_at.clone();
        if let Some(im) = &incoming.message {
            let mut base = match self.message.take() {
                Some(b) => b,
                None => OllamaChatResponseMessage {
                    role: Role::Assistant,
                    content: String::new(),
                    thinking: None,
                    tool_calls: None,
                },
            };
            if let Some(t) = &im.thinking {
                let mut acc_thinking = match base.thinking.take() {
                    Some(x) => x,
                    None => String::new(),
                };
                acc_thinking.append(t.as_str());
                base.thinking = Some(acc_thinking);
            }
            base.content.append(im.content.as_str());
            if let Some(tc) = &im.tool_calls {
                let mut acc_calls = match base.tool_calls.take() {
                    Some(x) => x,
                    None => Vec::new(),
                };
                let mut fresh = clone_tool_calls(tc);
                let ghost before = acc_calls.deep_view();
                acc_calls.append(&mut fresh);
                proof {
                    assert(acc_calls.deep_view() =~= before + tc.deep_view());
                }
                base.tool_calls = Some(acc_calls);
            }
            self.message = Some(base);
        }
        self.done = incoming.done;
        self.done_reason = clone_opt_string(&incoming.done_reason);
        self.total_duration = incoming.total_duration;
        self.load_duration = incoming.load_duration;
        self.prompt_eval_count = incoming.prompt_eval_count;
        self.prompt_eval_duration = incoming.prompt_eval_duration;
        self.eval_count = incoming.eval_count;
        self.eval_duration = incoming.eval_duration;
        phase
    }
}

/// The accumulated response after a whole fragment sequence is merged in.
pub open spec fn spec_assemble(acc: ResponseView, frags: Seq<ResponseView>) -> ResponseView
    decreases frags.len(),
{
    if frags.len() == 0 {
        acc
    } else {
        spec_assemble(spec_merge(acc, frags[0]), frags.drop_first())
    }
}

/// The fragments assembly consumes: everything up to and including the
/// first one that carries the completion flag; nothing after it is read.
pub open spec fn spec_consumed(frags: Seq<ResponseView>) -> Seq<ResponseView>
    decreases frags.len(),
{
    if frags.len() == 0 {
        Seq::empty()
    } else if frags[0].done {
        seq![frags[0]]
    } else {
        seq![frags[0]] + spec_consumed(frags.drop_first())
    }
}

proof fn lemma_consumed_prefix(frags: Seq<ResponseView>, i: int)
    requires
        0 <= i <= frags.len(),
        forall|j: int| 0 <= j < i ==> !(#[trigger] frags[j]).done,
    ensures
        spec_consumed(frags) == frags.take(i) + spec_consumed(frags.skip(i)),
    decreases i,
{
    if i == 0 {
        assert(frags.skip(0) =~= frags);
        assert(frags.take(0) + spec_consumed(frags) =~= spec_consumed(frags));
    } else {
        lemma_consumed_prefix(frags.drop_first(), i - 1);
        assert(frags.drop_first() =~= frags.skip(1));
        assert(frags.skip(1).take(i - 1) =~= frags.take(i).drop_first());
        assert(frags.skip(1).skip(i - 1) =~= frags.skip(i));
        assert(seq![frags[0]] + (frags.take(i).drop_first() + spec_consumed(frags.skip(i)))
            =~= frags.take(i) + spec_consumed(frags.skip(i)));
    }
}

proof fn lemma_assemble_push(acc: ResponseView, frags: Seq<ResponseView>, last: ResponseView)
    ensures
        spec_assemble(acc, frags.push(last)) == spec_merge(spec_assemble(acc, frags), last),
    decreases frags.len(),
{
    let p = frags.push(last);
    if frags.len() == 0 {
        assert(p[0] == last);
        assert(p.drop_first() =~= Seq::<ResponseView>::empty());
        assert(spec_assemble(acc, p) == spec_assemble(spec_merge(acc, last), p.drop_first()));
        assert(spec_assemble(spec_merge(acc, last), p.drop_first()) == spec_merge(acc, last));
        assert(spec_assemble(acc, frags) == acc);
    } else {
        assert(p[0] == frags[0]);
        assert(p.drop_first() =~= frags.drop_first().push(last));
        assert(spec_assemble(acc, p) == spec_assemble(spec_merge(acc, p[0]), p.drop_first()));
        assert(spec_assemble(acc, frags) == spec_assemble(
            spec_merge(acc, frags[0]),
            frags.drop_first(),
        ));
        lemma_assemble_push(spec_merge(acc, frags[0]), frags.drop_first(), last);
    }
}

/// Assembles a whole fragment sequence: each fragment up to and including
/// the first completed one is merged into the accumulated response and
/// labelled with its phase; fragments after the completion flag are not
/// consumed.
pub fn assemble_fragments(frags: &Vec<OllamaChatResponse>) -> (out: (
    OllamaChatResponse,
    Vec<OllamaChatResponseStreamingState>,
))
    ensures
        out.0.deep_view() == spec_assemble(spec_empty_response(), spec_consumed(frags.deep_view())),
        out.1@ == Seq::new(
            spec_consumed(frags.deep_view()).len(),
            |i: int| spec_fragment_phase(spec_consumed(frags.deep_view())[i]),
        ),
{
    let ghost views = frags.deep_view();
    let mut acc = OllamaChatResponse::default();
    let mut phases: Vec<OllamaChatResponseStreamingState> = Vec::new();
    let mut i: usize = 0;
    let mut done_seen = false;
    proof {
        assert(views.take(0) =~= Seq::<ResponseView>::empty());
        assert(phases@ =~= Seq::new(0, |k: int| spec_fragment_phase(views.take(0)[k])));
    }
    while i < frags.len() && !done_seen
        invariant
            i <= frags.len(),
            views == frags.deep_view(),
            views.len() == frags.len(),
            !done_seen ==> forall|j: int| 0 <= j < i ==> !(#[trigger] views[j]).done,
            done_seen ==> i >= 1 && views[i - 1].done && (forall|j: int|
                0 <= j < i - 1 ==> !(#[trigger] views[j]).done),
            acc.deep_view() == spec_assemble(spec_empty_response(), views.take(i as int)),
            phases@ == Seq::new(
                i as nat,
                |k: int| spec_fragment_phase(views.take(i as int)[k]),
            ),
        decreases frags.len() - i,
    {
        let phase = acc.merge(&frags[i]);
        phases.push(phase);
        done_seen = frags[i].done;
        proof {
            lemma_assemble_push(spec_empty_response(), views.take(i as int), views[i as int]);
            assert(views.take(i as int).push(views[i as int]) =~= views.take(i + 1));
            assert(phases@ =~= Seq::new(
                (i + 1) as nat,
                |k: int| spec_fragment_phase(views.take(i + 1)[k]),
            ));
        }
        i += 1;
    }
    proof {
        let consumed = spec_consumed(views);
        if done_seen {
            lemma_consumed_prefix(views, i - 1);
            assert(views.skip(i - 1)[0] == views[i - 1]);
            assert(spec_consumed(views.skip(i - 1)) == seq![views[i - 1]]);
            assert(consumed =~= views.take(i as int));
        } else {
            lemma_consumed_prefix(views, views.len() as int);
            assert(views.skip(views.len() as int) =~= Seq::<ResponseView>::empty());
            assert(consumed =~= views.take(i as int));
        }
        assert(phases@ =~= Seq::new(
            consumed.len(),
            |k: int| spec_fragment_phase(consumed[k]),
        ));
    }
    (acc, phases)
}

/// The content text a response carries, empty when it has no message.
pub open spec fn spec_content_text(r: ResponseView) -> Seq<char> {
    match r.message {
        None => Seq::empty(),
        Some(m) => m.content,
    }
}

/// The thinking text a response carries, empty when it has none.
pub open spec fn spec_thinking_text(r: ResponseView) -> Seq<char> {
    match r.message {
        None => Seq::empty(),
        Some(m) => match m.thinking {
            None => Seq::empty(),
            Some(t) => t,
        },
    }
}

/// The ordered concatenation of the content text of every fragment.
pub open spec fn spec_concat_contents(frags: Seq<ResponseView>) -> Seq<char>
    decreases frags.len(),
{
    if frags.len() == 0 {
        Seq::empty()
    } else {
        spec_content_text(frags[0]) + spec_concat_contents(frags.drop_first())
    }
}

/// The ordered concatenation of the thinking text of every fragment.
pub open spec fn spec_concat_thinkings(frags: Seq<ResponseView>) -> Seq<char>
    decreases frags.len(),
{
    if frags.len() == 0 {
        Seq::empty()
    } else {
        spec_thinking_text(frags[0]) + spec_concat_thinkings(frags.drop_first())
    }
}

proof fn lemma_assemble_texts(acc: ResponseView, frags: Seq<ResponseView>)
    ensures
        spec_content_text(spec_assemble(acc, frags)) =~= spec_content_text(acc)
            + spec_concat_contents(frags),
        spec_thinking_text(spec_assemble(acc, frags)) =~= spec_thinking_text(acc)
            + spec_concat_thinkings(frags),
    decreases frags.len(),
{
    if frags.len() == 0 {
        assert(spec_content_text(acc) + Seq::<char>::empty() =~= spec_content_text(acc));
        assert(spec_thinking_text(acc) + Seq::<char>::empty() =~= spec_thinking_text(acc));
    } else {
        let next = spec_merge(acc, frags[0]);
        lemma_assemble_texts(next, frags.drop_first());
        assert(spec_content_text(next) =~= spec_content_text(acc) + spec_content_text(frags[0]));
        assert(spec_thinking_text(next) =~= spec_thinking_text(acc) + spec_thinking_text(
            frags[0],
        ));
    }
}

/// For a fragment sequence that ends in the completion flag, the assembled
/// content is the ordered concatenation of the fragments' content text, and
/// the assembled thinking text is the ordered concatenation of the
/// fragments' thinking text.
pub proof fn lemma_assembled_stream(frags: Seq<ResponseView>)
    requires
        frags.len() > 0,
        frags.last().done,
        forall|i: int| 0 <= i < frags.len() - 1 ==> !(#[trigger] frags[i]).done,
    ensures
        spec_content_text(spec_assemble(spec_empty_response(), frags)) == spec_concat_contents(
            frags,
        ),
        spec_thinking_text(spec_assemble(spec_empty_response(), frags)) == spec_concat_thinkings(
            frags,
        ),
{
    lemma_assemble_texts(spec_empty_response(), frags);
    assert(Seq::<char>::empty() + spec_concat_contents(frags) =~= spec_concat_contents(frags));
    assert(Seq::<char>::empty() + spec_concat_thinkings(frags) =~= spec_concat_thinkings(frags));
}

} // verus!
