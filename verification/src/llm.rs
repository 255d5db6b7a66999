//! What the language-model commands decide around the network: where to
//! send a request, whether a key is missing, and what a streamed answer
//! adds up to.

use crate::chars::{
    chars_of, find_char, pattern_at, position_of, stands_at, string_of, trim, trim_end_matches,
    trimmed, without_trailing,
};
use crate::config::{
    names_local_host, names_local_server, normalize_base_url_for_openai_api, normalized_base_url,
};
use crate::text::{copy_opt_text, str_eq};
use crate::trusted::{lowercase, to_lowercase};
use vstd::prelude::*;

verus! {

/// Whether the model could be reached.
#[derive(Debug, Clone)]
pub struct LlmConnectionResult {
    pub connected: bool,
    pub model: String,
    pub provider: String,
    pub message: Option<String>,
}

/// The function that a tool call names, with its arguments as JSON text.
#[derive(Debug, Clone)]
pub struct ToolFunction {
    pub name: String,
    pub arguments: String,
}

/// A call of a tool that the model asks for.
#[derive(Debug, Clone)]
pub struct ToolCall {
    pub id: String,
    pub call_type: String,
    pub function: ToolFunction,
}

/// The mathematical form of a `ToolCall`.
pub ghost struct ToolCallView {
    pub id: Seq<char>,
    pub call_type: Seq<char>,
    pub name: Seq<char>,
    pub arguments: Seq<char>,
}

impl View for ToolCall {
    type V = ToolCallView;

    open spec fn view(&self) -> ToolCallView {
        ToolCallView {
            id: self.id@,
            call_type: self.call_type@,
            name: self.function.name@,
            arguments: self.function.arguments@,
        }
    }
}

/// The views of a vector of tool calls.
pub open spec fn call_views(calls: Seq<ToolCall>) -> Seq<ToolCallView> {
    Seq::new(calls.len(), |i: int| calls[i]@)
}

/// How many tokens a completion used.
#[derive(Debug, Clone, Copy, PartialEq, Eq, Structural)]
pub struct TokenUsage {
    pub prompt_tokens: u32,
    pub completion_tokens: u32,
    pub total_tokens: u32,
}

/// The answer of the model.
#[derive(Debug, Clone)]
pub struct ChatCompletionResult {
    pub id: String,
    pub model: String,
    pub content: Option<String>,
    pub finish_reason: String,
    pub usage: Option<TokenUsage>,
    pub tool_calls: Option<Vec<ToolCall>>,
}

/// The images that the model made, as URLs.
#[derive(Debug, Clone)]
pub struct ImageGenerationResult {
    pub images: Vec<String>,
    pub model: String,
}

/// What one streamed event says of one tool call.
#[derive(Debug, Clone)]
pub struct ToolCallDelta {
    pub index: usize,
    pub id: Option<String>,
    pub name: Option<String>,
    pub arguments: Option<String>,
}

/// What one streamed event says: each part may be absent.
#[derive(Debug, Clone)]
pub struct StreamChunk {
    pub content: Option<String>,
    pub tool_calls: Vec<ToolCallDelta>,
    pub id: Option<String>,
    pub model: Option<String>,
    pub finish_reason: Option<String>,
    pub usage: Option<TokenUsage>,
}

/// What has been received of a streamed answer so far.
#[derive(Debug, Clone)]
pub struct StreamState {
    pub full_content: String,
    pub response_id: String,
    pub response_model: String,
    pub finish_reason: String,
    pub usage: Option<TokenUsage>,
    pub tool_calls: Vec<ToolCall>,
}

/// The mathematical form of a `StreamState`.
pub ghost struct StreamStateView {
    pub full_content: Seq<char>,
    pub response_id: Seq<char>,
    pub response_model: Seq<char>,
    pub finish_reason: Seq<char>,
    pub usage: Option<TokenUsage>,
    pub tool_calls: Seq<ToolCallView>,
}

impl View for StreamState {
    type V = StreamStateView;

    open spec fn view(&self) -> StreamStateView {
        StreamStateView {
            full_content: self.full_content@,
            response_id: self.response_id@,
            response_model: self.response_model@,
            finish_reason: self.finish_reason@,
            usage: self.usage,
            tool_calls: call_views(self.tool_calls@),
        }
    }
}

/// What a line of the stream is: the end of the stream, a piece of data, or
/// something to pass over.
#[derive(Debug, Clone)]
pub enum StreamLine {
    Done,
    Data(String),
    Other,
}

/// What the interface is to be told while the answer streams in.
#[derive(Debug, Clone)]
pub enum StreamEvent {
    /// More content: the piece and the whole so far.
    Content { delta: String, full: String },
    /// The model began a tool call.
    ToolStarted { index: usize, name: String },
    /// The model is done asking for tools.
    ToolsCompleted,
}

/// The mathematical form of a `StreamEvent`.
pub ghost enum StreamEventView {
    Content { delta: Seq<char>, full: Seq<char> },
    ToolStarted { index: usize, name: Seq<char> },
    ToolsCompleted,
}

impl View for StreamEvent {
    type V = StreamEventView;

    open spec fn view(&self) -> StreamEventView {
        match self {
            StreamEvent::Content { delta, full } => StreamEventView::Content {
                delta: delta@,
                full: full@,
            },
            StreamEvent::ToolStarted { index, name } => StreamEventView::ToolStarted {
                index: *index,
                name: name@,
            },
            StreamEvent::ToolsCompleted => StreamEventView::ToolsCompleted,
        }
    }
}

/// The views of a vector of events.
pub open spec fn event_views(events: Seq<StreamEvent>) -> Seq<StreamEventView> {
    Seq::new(events.len(), |i: int| events[i]@)
}

/// The text, or the empty text where there is none.
pub open spec fn text_or_empty(o: Option<String>) -> Seq<char> {
    match o {
        Some(s) => s@,
        None => Seq::empty(),
    }
}

/// The calls after one event for a tool call: an index at or past the end
/// opens a new call, with the id and name given and no arguments yet; the
/// arguments given are appended to the call at the index, if there is one.
pub open spec fn calls_after(calls: Seq<ToolCallView>, delta: ToolCallDelta) -> Seq<ToolCallView> {
    let opened = if delta.index >= calls.len() {
        calls.push(
            ToolCallView {
                id: text_or_empty(delta.id),
                call_type: "function"@,
                name: text_or_empty(delta.name),
                arguments: Seq::empty(),
            },
        )
    } else {
        calls
    };
    match delta.arguments {
        Some(more) => if delta.index < opened.len() {
            opened.update(
                delta.index as int,
                ToolCallView {
                    arguments: opened[delta.index as int].arguments + more@,
                    ..opened[delta.index as int]
                },
            )
        } else {
            opened
        },
        None => opened,
    }
}

/// The calls after the first `n` events for tool calls.
pub open spec fn calls_after_all(calls: Seq<ToolCallView>, deltas: Seq<ToolCallDelta>, n: nat) -> Seq<
    ToolCallView,
>
    decreases n,
{
    if n == 0 {
        calls
    } else {
        calls_after(calls_after_all(calls, deltas, (n - 1) as nat), deltas[n - 1])
    }
}

/// The events that the first `n` events for tool calls give rise to: one for
/// each call that is opened.
pub open spec fn tool_events(calls: Seq<ToolCallView>, deltas: Seq<ToolCallDelta>, n: nat) -> Seq<
    StreamEventView,
>
    decreases n,
{
    if n == 0 {
        Seq::empty()
    } else {
        let before = tool_events(calls, deltas, (n - 1) as nat);
        let delta = deltas[n - 1];
        if delta.index >= calls_after_all(calls, deltas, (n - 1) as nat).len() {
            before.push(
                StreamEventView::ToolStarted { index: delta.index, name: text_or_empty(delta.name) },
            )
        } else {
            before
        }
    }
}

/// The value, where it is present and not empty; the old one otherwise.
pub open spec fn replaced_by(old: Seq<char>, new: Option<String>) -> Seq<char> {
    match new {
        Some(s) => if s@.len() > 0 {
            s@
        } else {
            old
        },
        None => old,
    }
}

/// The state after a streamed event.
pub open spec fn state_after(state: StreamStateView, chunk: StreamChunk) -> StreamStateView {
    StreamStateView {
        full_content: state.full_content + text_or_empty(chunk.content),
        response_id: replaced_by(state.response_id, chunk.id),
        response_model: replaced_by(state.response_model, chunk.model),
        finish_reason: replaced_by(state.finish_reason, chunk.finish_reason),
        usage: match chunk.usage {
            Some(u) => Some(u),
            None => state.usage,
        },
        tool_calls: calls_after_all(state.tool_calls, chunk.tool_calls@, chunk.tool_calls@.len()),
    }
}

/// What the interface is told of a streamed event: the content, where the
/// event brings any; each tool call that it opens; and that the model is
/// done asking for tools, where it gives that as its reason to stop.
pub open spec fn events_after(state: StreamStateView, chunk: StreamChunk) -> Seq<StreamEventView> {
    let content = if text_or_empty(chunk.content).len() > 0 {
        seq![
            StreamEventView::Content {
                delta: text_or_empty(chunk.content),
                full: state.full_content + text_or_empty(chunk.content),
            },
        ]
    } else {
        Seq::empty()
    };
    let tools = tool_events(state.tool_calls, chunk.tool_calls@, chunk.tool_calls@.len());
    let completed = if chunk.finish_reason.deep_view() == Some("tool_calls"@) {
        seq![StreamEventView::ToolsCompleted]
    } else {
        Seq::empty()
    };
    content + tools + completed
}

impl LlmConnectionResult {
    /// The result of a test that reached the model.
    pub fn connected(model: String, provider: String) -> (r: LlmConnectionResult)
        ensures
            r.connected,
            r.model == model,
            r.provider == provider,
            r.message is None,
    {
        LlmConnectionResult { connected: true, model, provider, message: None }
    }

    /// The result of a test that did not reach the model, with the reason.
    pub fn failed(model: String, provider: String, message: String) -> (r: LlmConnectionResult)
        ensures
            !r.connected,
            r.model == model,
            r.provider == provider,
            r.message == Some(message),
    {
        LlmConnectionResult { connected: false, model, provider, message: Some(message) }
    }

    /// The result of a test that could not be made for want of a key.
    pub fn unconfigured(model: String, provider: String) -> (r: LlmConnectionResult)
        ensures
            !r.connected,
            r.model == model,
            r.provider == provider,
            r.message.deep_view() == Some(
                "No API key configured. Add your API key in Settings > AI & Models, or use a local model."@,
            ),
    {
        LlmConnectionResult {
            connected: false,
            model,
            provider,
            message: Some(
                String::from_str(
                    "No API key configured. Add your API key in Settings > AI & Models, or use a local model.",
                ),
            ),
        }
    }
}

/// Whether no request can be made for want of a key, given the base URL in
/// lower case: there is no proxy, no key, and the URL is not on this machine.
pub fn lacks_api_key_for(use_proxy: bool, api_key: &Option<String>, lower: &str) -> (r: bool)
    ensures
        r == (!use_proxy && api_key is None && !names_local_host(lower@)),
{
    !use_proxy && api_key.is_none() && !names_local_server(lower)
}

/// Whether no request can be made for want of a key: there is no proxy, no
/// key, and the base URL is not on this machine.
pub fn lacks_api_key(use_proxy: bool, api_key: &Option<String>, base_url: &str) -> (r: bool)
    ensures
        r == (!use_proxy && api_key is None && !names_local_host(lowercase(base_url@))),
{
    let lower = to_lowercase(base_url);
    lacks_api_key_for(use_proxy, api_key, lower.as_str())
}

/// The base of every request: the normalised base URL without trailing
/// slashes.
pub open spec fn request_base(base_url: Seq<char>) -> Seq<char> {
    without_trailing(normalized_base_url(base_url), '/')
}

fn base_of(base_url: &str) -> (r: String)
    ensures
        r@ == request_base(base_url@),
{
    let normalized = normalize_base_url_for_openai_api(base_url);
    trim_end_matches(normalized.as_str(), '/')
}

/// The URL that chat completions are asked of.
pub fn chat_completions_url(base_url: &str) -> (r: String)
    ensures
        r@ == request_base(base_url@) + "/chat/completions"@,
{
    base_of(base_url).concat("/chat/completions")
}

/// The URL that embeddings are asked of.
pub fn embeddings_url(base_url: &str) -> (r: String)
    ensures
        r@ == request_base(base_url@) + "/embeddings"@,
{
    base_of(base_url).concat("/embeddings")
}

/// The model that embeds where none is named.
pub fn embedding_model(model: &Option<String>) -> (r: String)
    ensures
        r@ == match model {
            Some(name) => name@,
            None => "openai/text-embedding-3-small"@,
        },
{
    match model {
        Some(name) => name.clone(),
        None => String::from_str("openai/text-embedding-3-small"),
    }
}

/// The URL that images are asked of: under the proxy where there is one, at
/// OpenRouter otherwise.
pub fn image_generations_url(use_proxy: bool, base_url: &str) -> (r: String)
    ensures
        use_proxy ==> r@ == without_trailing(base_url@, '/') + "/images/generations"@,
        !use_proxy ==> r@ == "https://openrouter.ai/api/v1/images/generations"@,
{
    if use_proxy {
        trim_end_matches(base_url, '/').concat("/images/generations")
    } else {
        String::from_str("https://openrouter.ai/api/v1/images/generations")
    }
}

/// The text without one `/v1` at its end.
pub open spec fn without_v1(base: Seq<char>) -> Seq<char> {
    if stands_at(base, "/v1"@, base.len() - 3) {
        base.subrange(0, base.len() - 3)
    } else {
        base
    }
}

/// The two places where a local server lists its models: the tags of Ollama
/// under the root, and the models of an OpenAI-style server under the base.
/// None where the base URL is empty.
pub fn local_model_urls(base_url: &str) -> (r: Option<(String, String)>)
    ensures
        r is Some == (request_base(base_url@).len() > 0),
        r matches Some(urls) ==> urls.0@ == without_v1(request_base(base_url@)) + "/api/tags"@
            && urls.1@ == request_base(base_url@) + "/models"@,
{
    let base = base_of(base_url);
    let chars = chars_of(base.as_str());
    if chars.len() == 0 {
        return None;
    }
    let suffix = chars_of("/v1");
    proof {
        reveal_strlit("/v1");
    }
    let root = if chars.len() >= 3 && pattern_at(&chars, &suffix, chars.len() - 3) {
        string_of(&chars, 0, chars.len() - 3)
    } else {
        assert(chars@.subrange(0, chars@.len() as int) =~= base@);
        string_of(&chars, 0, chars.len())
    };
    Some((root.concat("/api/tags"), base.concat("/models")))
}

/// Whether the buffer holds a whole line: a line feed.
pub open spec fn holds_line(buffer: Seq<char>) -> bool {
    position_of(buffer, '\n', 0) < buffer.len()
}

/// Takes the first line off the buffer: the text before the first line
/// feed, trimmed, and what follows the line feed. None where the buffer holds
/// no line feed yet.
pub fn take_line(buffer: &str) -> (r: Option<(String, String)>)
    ensures
        r is Some == holds_line(buffer@),
        r matches Some(parts) ==> parts.0@ == trimmed(
            buffer@.subrange(0, position_of(buffer@, '\n', 0)),
        ) && parts.1@ == buffer@.subrange(
            position_of(buffer@, '\n', 0) + 1,
            buffer@.len() as int,
        ),
{
    let chars = chars_of(buffer);
    let at = find_char(&chars, '\n', 0);
    if at >= chars.len() {
        return None;
    }
    let raw = string_of(&chars, 0, at);
    Some((trim(raw.as_str()), string_of(&chars, at + 1, chars.len())))
}

/// Whether a line carries data: it starts with `data: `.
pub open spec fn carries_data(line: Seq<char>) -> bool {
    stands_at(line, "data: "@, 0)
}

/// The data that a line carries.
pub open spec fn data_of(line: Seq<char>) -> Seq<char> {
    line.subrange(6, line.len() as int)
}

/// Tells what a line of the stream is: data after `data: `, the end of the
/// stream where that data is `[DONE]`, and nothing of interest otherwise.
pub fn classify_line(line: &str) -> (r: StreamLine)
    ensures
        !carries_data(line@) ==> r is Other,
        carries_data(line@) && data_of(line@) == "[DONE]"@ ==> r is Done,
        carries_data(line@) && data_of(line@) != "[DONE]"@ ==> (r matches StreamLine::Data(data)
            && data@ == data_of(line@)),
{
    let chars = chars_of(line);
    let prefix = chars_of("data: ");
    proof {
        reveal_strlit("data: ");
    }
    if !pattern_at(&chars, &prefix, 0) {
        return StreamLine::Other;
    }
    let data = string_of(&chars, 6, chars.len());
    if str_eq(data.as_str(), "[DONE]") {
        StreamLine::Done
    } else {
        StreamLine::Data(data)
    }
}

fn or_empty(o: &Option<String>) -> (r: String)
    ensures
        r@ == text_or_empty(*o),
{
    match o {
        Some(s) => s.clone(),
        None => String::new(),
    }
}

fn replace_if_given(value: &mut String, new: &Option<String>)
    ensures
        final(value)@ == replaced_by(old(value)@, *new),
{
    match new {
        Some(s) => if s.as_str().unicode_len() > 0 {
            *value = s.clone();
        },
        None => {},
    }
}

impl StreamState {
    /// The state before anything is received: no content, the model that
    /// was asked for, and `stop` as the reason to finish.
    pub fn new(model: &str) -> (r: StreamState)
        ensures
            r@ == (StreamStateView {
                full_content: Seq::empty(),
                response_id: Seq::empty(),
                response_model: model@,
                finish_reason: "stop"@,
                usage: None,
                tool_calls: Seq::empty(),
            }),
    {
        let r = StreamState {
            full_content: String::new(),
            response_id: String::new(),
            response_model: String::from_str(model),
            finish_reason: String::from_str("stop"),
            usage: None,
            tool_calls: Vec::new(),
        };
        assert(call_views(r.tool_calls@) =~= Seq::empty());
        r
    }

    fn apply_tool_delta(&mut self, delta: &ToolCallDelta) -> (opened: bool)
        ensures
            call_views(final(self).tool_calls@) == calls_after(call_views(old(self).tool_calls@), *delta),
            opened == (delta.index >= old(self).tool_calls@.len()),
            final(self).full_content == old(self).full_content,
            final(self).response_id == old(self).response_id,
            final(self).response_model == old(self).response_model,
            final(self).finish_reason == old(self).finish_reason,
            final(self).usage == old(self).usage,
    {
        let ghost before = call_views(self.tool_calls@);
        let opened = delta.index >= self.tool_calls.len();
        if opened {
            let call = ToolCall {
                id: or_empty(&delta.id),
                call_type: String::from_str("function"),
                function: ToolFunction { name: or_empty(&delta.name), arguments: String::new() },
            };
            self.tool_calls.push(call);
            assert(call_views(self.tool_calls@) =~= before.push(
                ToolCallView {
                    id: text_or_empty(delta.id),
                    call_type: "function"@,
                    name: text_or_empty(delta.name),
                    arguments: Seq::empty(),
                },
            ));
        }
        let ghost mid = call_views(self.tool_calls@);
        match &delta.arguments {
            Some(more) => {
                if delta.index < self.tool_calls.len() {
                    let current = &self.tool_calls[delta.index];
                    let mut arguments = current.function.arguments.clone();
                    arguments.append(more.as_str());
                    let call = ToolCall {
                        id: current.id.clone(),
                        call_type: current.call_type.clone(),
                        function: ToolFunction { name: current.function.name.clone(), arguments },
                    };
                    self.tool_calls.set(delta.index, call);
                    assert(call_views(self.tool_calls@) =~= mid.update(
                        delta.index as int,
                        ToolCallView {
                            arguments: mid[delta.index as int].arguments + more@,
                            ..mid[delta.index as int]
                        },
                    ));
                }
            },
            None => {},
        }
        opened
    }

    /// Takes in one streamed event and says what the interface is to be
    /// told of it.
    pub fn apply(&mut self, chunk: &StreamChunk) -> (events: Vec<StreamEvent>)
        ensures
            final(self)@ == state_after(old(self)@, *chunk),
            event_views(events@) == events_after(old(self)@, *chunk),
    {
        let mut events: Vec<StreamEvent> = Vec::new();
        let ghost start = self@;
        match &chunk.content {
            Some(delta) => {
                if delta.as_str().unicode_len() > 0 {
                    self.full_content.append(delta.as_str());
                    events.push(
                        StreamEvent::Content { delta: delta.clone(), full: self.full_content.clone() },
                    );
                } else {
                    assert(self.full_content@ + delta@ =~= self.full_content@);
                }
            },
            None => {
                assert(self.full_content@ + Seq::<char>::empty() =~= self.full_content@);
            },
        }
        let ghost content_events = event_views(events@);
        assert(content_events =~= if text_or_empty(chunk.content).len() > 0 {
            seq![
                StreamEventView::Content {
                    delta: text_or_empty(chunk.content),
                    full: start.full_content + text_or_empty(chunk.content),
                },
            ]
        } else {
            Seq::empty()
        });
        let mut i: usize = 0;
        while i < chunk.tool_calls.len()
            invariant
                i <= chunk.tool_calls@.len(),
                call_views(self.tool_calls@) == calls_after_all(
                    start.tool_calls,
                    chunk.tool_calls@,
                    i as nat,
                ),
                event_views(events@) == content_events + tool_events(
                    start.tool_calls,
                    chunk.tool_calls@,
                    i as nat,
                ),
                self.full_content@ == start.full_content + text_or_empty(chunk.content),
                self.response_id@ == start.response_id,
                self.response_model@ == start.response_model,
                self.finish_reason@ == start.finish_reason,
                self.usage == start.usage,
            decreases chunk.tool_calls.len() - i,
        {
            let delta = &chunk.tool_calls[i];
            let ghost before = event_views(events@);
            let opened = self.apply_tool_delta(delta);
            if opened {
                events.push(StreamEvent::ToolStarted { index: delta.index, name: or_empty(&delta.name) });
                assert(event_views(events@) =~= before.push(
                    StreamEventView::ToolStarted {
                        index: delta.index,
                        name: text_or_empty(delta.name),
                    },
                ));
            }
            assert(event_views(events@) =~= content_events + tool_events(
                start.tool_calls,
                chunk.tool_calls@,
                (i + 1) as nat,
            ));
            i = i + 1;
        }
        replace_if_given(&mut self.response_id, &chunk.id);
        replace_if_given(&mut self.response_model, &chunk.model);
        replace_if_given(&mut self.finish_reason, &chunk.finish_reason);
        let ghost before = event_views(events@);
        let completed = match &chunk.finish_reason {
            Some(reason) => str_eq(reason.as_str(), "tool_calls"),
            None => false,
        };
        if completed {
            events.push(StreamEvent::ToolsCompleted);
            assert(event_views(events@) =~= before + seq![StreamEventView::ToolsCompleted]);
        } else {
            assert(event_views(events@) =~= before + Seq::<StreamEventView>::empty());
        }
        match chunk.usage {
            Some(u) => {
                self.usage = Some(u);
            },
            None => {},
        }
        events
    }

    /// The answer once the stream has ended. With tools, content that is
    /// empty counts as none and the calls are given where there are any;
    /// without tools the content is given even where it is empty.
    pub fn finish(self, with_tools: bool) -> (r: ChatCompletionResult)
        ensures
            r.id@ == self@.response_id,
            r.model@ == self@.response_model,
            r.finish_reason@ == self@.finish_reason,
            r.usage == self@.usage,
            with_tools && self@.full_content.len() == 0 ==> r.content is None,
            !with_tools || self@.full_content.len() > 0 ==> r.content.deep_view() == Some(
                self@.full_content,
            ),
            with_tools && self@.tool_calls.len() > 0 ==> (r.tool_calls matches Some(calls)
                && call_views(calls@) == self@.tool_calls),
            !with_tools || self@.tool_calls.len() == 0 ==> r.tool_calls is None,
    {
        let content = if with_tools && self.full_content.as_str().unicode_len() == 0 {
            None
        } else {
            Some(self.full_content)
        };
        let tool_calls = if with_tools && self.tool_calls.len() > 0 {
            Some(self.tool_calls)
        } else {
            None
        };
        ChatCompletionResult {
            id: self.response_id,
            model: self.response_model,
            content,
            finish_reason: self.finish_reason,
            usage: self.usage,
            tool_calls,
        }
    }
}

/// What a server says of one tool call in an answer that is not streamed.
#[derive(Debug, Clone)]
pub struct ToolCallReply {
    pub id: Option<String>,
    pub call_type: Option<String>,
    pub name: Option<String>,
    pub arguments: Option<String>,
}

/// What a server answers to a request that is not streamed: each part may be
/// absent.
#[derive(Debug, Clone)]
pub struct CompletionReply {
    pub id: Option<String>,
    pub model: Option<String>,
    pub content: Option<String>,
    pub finish_reason: Option<String>,
    pub usage: Option<TokenUsage>,
    pub tool_calls: Option<Vec<ToolCallReply>>,
}

/// The text, or a default where there is none.
pub open spec fn text_or(o: Option<String>, default: Seq<char>) -> Seq<char> {
    match o {
        Some(s) => s@,
        None => default,
    }
}

/// The calls among the first `n` replies that name both an id and a
/// function: the type defaults to `function`, the arguments to `{}`.
pub open spec fn calls_of(replies: Seq<ToolCallReply>, n: nat) -> Seq<ToolCallView>
    decreases n,
{
    if n == 0 {
        Seq::empty()
    } else {
        let before = calls_of(replies, (n - 1) as nat);
        let reply = replies[n - 1];
        if reply.id is Some && reply.name is Some {
            before.push(
                ToolCallView {
                    id: reply.id->0@,
                    call_type: text_or(reply.call_type, "function"@),
                    name: reply.name->0@,
                    arguments: text_or(reply.arguments, "{}"@),
                },
            )
        } else {
            before
        }
    }
}

fn or_default(o: &Option<String>, default: &str) -> (r: String)
    ensures
        r@ == text_or(*o, default@),
{
    match o {
        Some(s) => s.clone(),
        None => String::from_str(default),
    }
}

/// The answer that a reply stands for: no id reads as empty, no model as the
/// model asked for, no reason to finish as `stop`. Tool calls are read only
/// where tools were offered, and count as none where none is complete.
pub fn completion_result(reply: &CompletionReply, requested_model: &str, with_tools: bool) -> (r:
    ChatCompletionResult)
    ensures
        r.id@ == text_or_empty(reply.id),
        r.model@ == text_or(reply.model, requested_model@),
        r.content.deep_view() == reply.content.deep_view(),
        r.finish_reason@ == text_or(reply.finish_reason, "stop"@),
        r.usage == reply.usage,
        !with_tools || reply.tool_calls is None ==> r.tool_calls is None,
        with_tools && reply.tool_calls is Some ==> {
            let calls = calls_of(reply.tool_calls->0@, reply.tool_calls->0@.len());
            if calls.len() == 0 {
                r.tool_calls is None
            } else {
                r.tool_calls matches Some(read) && call_views(read@) == calls
            }
        },
{
    let tool_calls = match &reply.tool_calls {
        Some(replies) => {
            if with_tools {
                let mut calls: Vec<ToolCall> = Vec::new();
                let mut i: usize = 0;
                assert(call_views(calls@) =~= calls_of(replies@, 0));
                while i < replies.len()
                    invariant
                        i <= replies@.len(),
                        call_views(calls@) == calls_of(replies@, i as nat),
                    decreases replies.len() - i,
                {
                    let ghost before = call_views(calls@);
                    let one = &replies[i];
                    match (&one.id, &one.name) {
                        (Some(id), Some(name)) => {
                            let call = ToolCall {
                                id: id.clone(),
                                call_type: or_default(&one.call_type, "function"),
                                function: ToolFunction {
                                    name: name.clone(),
                                    arguments: or_default(&one.arguments, "{}"),
                                },
                            };
                            calls.push(call);
                            assert(call_views(calls@) =~= before.push(call@));
                        },
                        _ => {},
                    }
                    i = i + 1;
                }
                if calls.len() == 0 {
                    None
                } else {
                    Some(calls)
                }
            } else {
                None
            }
        },
        None => None,
    };
    ChatCompletionResult {
        id: or_empty(&reply.id),
        model: or_default(&reply.model, requested_model),
        content: copy_opt_text(&reply.content),
        finish_reason: or_default(&reply.finish_reason, "stop"),
        usage: reply.usage,
        tool_calls,
    }
}

/// How many images one request may ask for.
pub const MAX_IMAGES: u32 = 4;

/// How many images a request asks the server for: no more than four.
pub fn image_count(num_images: u32) -> (r: u32)
    ensures
        r == if num_images < MAX_IMAGES {
            num_images
        } else {
            MAX_IMAGES
        },
{
    if num_images < MAX_IMAGES {
        num_images
    } else {
        MAX_IMAGES
    }
}

/// What a server says of one image: a URL, or the picture itself in base 64.
#[derive(Debug, Clone)]
pub struct ImageReply {
    pub url: Option<String>,
    pub b64_json: Option<String>,
}

/// The address under which an image can be shown: its URL, or a data URL
/// made of its base-64 text; none where the server gave neither.
pub open spec fn image_address(reply: ImageReply) -> Option<Seq<char>> {
    match reply.url {
        Some(url) => Some(url@),
        None => match reply.b64_json {
            Some(b64) => Some("data:image/png;base64,"@ + b64@),
            None => None,
        },
    }
}

/// The addresses of the first `n` images, leaving out those without one.
pub open spec fn image_addresses(replies: Seq<ImageReply>, n: nat) -> Seq<Seq<char>>
    decreases n,
{
    if n == 0 {
        Seq::empty()
    } else {
        match image_address(replies[n - 1]) {
            Some(address) => image_addresses(replies, (n - 1) as nat).push(address),
            None => image_addresses(replies, (n - 1) as nat),
        }
    }
}

/// The images that a server returned, for the model that made them; none
/// where no image has an address.
pub fn image_result(replies: &Vec<ImageReply>, model: String) -> (r: Option<ImageGenerationResult>)
    ensures
        r is Some == (image_addresses(replies@, replies@.len()).len() > 0),
        r matches Some(result) ==> result.model == model && result.images.deep_view()
            == image_addresses(replies@, replies@.len()),
{
    let mut images: Vec<String> = Vec::new();
    let mut i: usize = 0;
    assert(images.deep_view() =~= image_addresses(replies@, 0));
    while i < replies.len()
        invariant
            i <= replies@.len(),
            images.deep_view() == image_addresses(replies@, i as nat),
        decreases replies.len() - i,
    {
        let ghost before = images.deep_view();
        let one = &replies[i];
        match &one.url {
            Some(url) => {
                images.push(url.clone());
                assert(images.deep_view() =~= before.push(url@));
            },
            None => match &one.b64_json {
                Some(b64) => {
                    let address = String::from_str("data:image/png;base64,").concat(b64.as_str());
                    images.push(address);
                    assert(images.deep_view() =~= before.push("data:image/png;base64,"@ + b64@));
                },
                None => {},
            },
        }
        i = i + 1;
    }
    if images.len() == 0 {
        None
    } else {
        Some(ImageGenerationResult { images, model })
    }
}

} // verus!
