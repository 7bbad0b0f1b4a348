//! Talking to OpenAI-compatible backends: how chat requests are offered to them, and how their
//! answers, streamed or whole, become the engine's chat events and responses. The JSON documents
//! that carry these values are read and written outside this crate; the JSON texts inside a
//! request (the schemas of tools and answers) are read here, with `serde_json`.
use vstd::prelude::*;

use crate::inference::{
    validate_chat_event, AssistantMessage, ChatEvent, ChatParams, ChatRequest, ChatResponse,
    FinishReason, Function, InferenceError, JsonSchema, Logprobs, Message, ReasoningEffort,
    ResponseFormat, TokenUsage, ToolCall, ToolCallChunk, ToolChoice,
};
use crate::reasoning::ChatResponseReasoningContent;
use crate::text::chars_of;

verus! {

/// The role of the author of a streamed message, as OpenAI names it.
#[derive(Debug, Clone, Copy, PartialEq, Eq, Structural)]
pub enum OpenAiRole {
    System,
    User,
    Assistant,
    Tool,
    Function,
}

/// The name of a role.
pub open spec fn spec_role_name(r: OpenAiRole) -> Seq<char> {
    match r {
        OpenAiRole::System => "system"@,
        OpenAiRole::User => "user"@,
        OpenAiRole::Assistant => "assistant"@,
        OpenAiRole::Tool => "tool"@,
        OpenAiRole::Function => "function"@,
    }
}

impl OpenAiRole {
    /// The name of the role, in lower case.
    pub fn as_str(&self) -> (s: &'static str)
        ensures
            s@ == spec_role_name(*self),
    {
        match self {
            OpenAiRole::System => "system",
            OpenAiRole::User => "user",
            OpenAiRole::Assistant => "assistant",
            OpenAiRole::Tool => "tool",
            OpenAiRole::Function => "function",
        }
    }
}

/// Why an OpenAI-compatible backend stopped generating.
#[derive(Debug, Clone, Copy, PartialEq, Eq, Structural)]
pub enum OpenAiFinishReason {
    Stop,
    Length,
    ToolCalls,
    ContentFilter,
    /// The deprecated form of a tool call.
    FunctionCall,
}

/// The engine's finish reason for that of the backend: function calls count as tool calls.
pub open spec fn spec_finish_reason_of(f: OpenAiFinishReason) -> FinishReason {
    match f {
        OpenAiFinishReason::Stop => FinishReason::Stop,
        OpenAiFinishReason::Length => FinishReason::Length,
        OpenAiFinishReason::ContentFilter => FinishReason::ContentFilter,
        OpenAiFinishReason::ToolCalls => FinishReason::ToolCalls,
        OpenAiFinishReason::FunctionCall => FinishReason::ToolCalls,
    }
}

impl OpenAiFinishReason {
    /// The engine's finish reason for this one.
    pub fn into_inference(self) -> (f: FinishReason)
        ensures
            f == spec_finish_reason_of(self),
    {
        match self {
            OpenAiFinishReason::Stop => FinishReason::Stop,
            OpenAiFinishReason::Length => FinishReason::Length,
            OpenAiFinishReason::ContentFilter => FinishReason::ContentFilter,
            OpenAiFinishReason::ToolCalls | OpenAiFinishReason::FunctionCall => FinishReason::ToolCalls,
        }
    }
}

/// The function part of a streamed piece of a tool call.
#[derive(Debug, Clone, PartialEq, Eq)]
pub struct FunctionCallStream {
    pub name: Option<String>,
    pub arguments: Option<String>,
}

/// A streamed piece of a tool call.
#[derive(Debug, Clone, PartialEq, Eq)]
pub struct ToolCallChunkDelta {
    pub index: u32,
    pub id: Option<String>,
    pub function: Option<FunctionCallStream>,
}

/// The engine's piece of a tool call for that of the backend.
pub open spec fn spec_tool_call_chunk(d: ToolCallChunkDelta) -> ToolCallChunk {
    match d.function {
        Some(f) => ToolCallChunk { index: d.index, id: d.id, name: f.name, arguments: f.arguments },
        None => ToolCallChunk { index: d.index, id: d.id, name: None, arguments: None },
    }
}

impl ToolCallChunkDelta {
    /// The engine's piece of a tool call for this one.
    pub fn into_inference(self) -> (c: ToolCallChunk)
        ensures
            c == spec_tool_call_chunk(self),
    {
        match self.function {
            Some(f) => ToolCallChunk { index: self.index, id: self.id, name: f.name, arguments: f.arguments },
            None => ToolCallChunk { index: self.index, id: self.id, name: None, arguments: None },
        }
    }
}

/// The engine's pieces of tool calls for those of the backend, in order.
pub open spec fn spec_tool_call_chunks(ds: Seq<ToolCallChunkDelta>) -> Seq<ToolCallChunk> {
    ds.map_values(|d: ToolCallChunkDelta| spec_tool_call_chunk(d))
}

fn tool_call_chunks(deltas: Vec<ToolCallChunkDelta>) -> (chunks: Vec<ToolCallChunk>)
    ensures
        chunks@ == spec_tool_call_chunks(deltas@),
{
    let ghost initial = deltas@;
    let mut pending = deltas;
    let mut chunks: Vec<ToolCallChunk> = Vec::new();
    let mut i: usize = 0;
    let n = pending.len();
    while i < n
        invariant
            n == initial.len(),
            i <= n,
            pending@ == initial.subrange(i as int, n as int),
            chunks@ == spec_tool_call_chunks(initial.subrange(0, i as int)),
        decreases n - i,
    {
        let d = pending.remove(0);
        chunks.push(d.into_inference());
        assert(initial.subrange(0, i + 1) =~= initial.subrange(0, i as int).push(initial[i as int]));
        assert(spec_tool_call_chunks(initial.subrange(0, i + 1)) =~= spec_tool_call_chunks(
            initial.subrange(0, i as int),
        ).push(spec_tool_call_chunk(initial[i as int])));
        i = i + 1;
    }
    assert(initial.subrange(0, n as int) =~= initial);
    chunks
}

/// The change that a streamed piece brings to the message.
#[derive(Debug, Clone, PartialEq, Eq)]
pub struct ChatCompletionStreamResponseDelta {
    pub content: Option<String>,
    pub tool_calls: Option<Vec<ToolCallChunkDelta>>,
    pub role: Option<OpenAiRole>,
}

/// One choice of a streamed piece.
#[derive(Debug, Clone, PartialEq, Eq)]
pub struct ChatChoiceStream {
    pub delta: ChatCompletionStreamResponseDelta,
    pub finish_reason: Option<OpenAiFinishReason>,
}

/// A streamed piece of a chat completion; the last one of a stream may carry the usage instead
/// of choices.
#[derive(Debug, Clone, PartialEq, Eq)]
pub struct ChatStreamWithReasoning {
    pub choices: Vec<ChatChoiceStream>,
    pub usage: Option<TokenUsage>,
}

/// The kind of event a streamed piece turns into, for the contracts: one of the events the
/// engine emits, each given by the values it carries.
pub enum StreamEventView {
    MessageBegin(Seq<char>),
    MessageAppend(Seq<char>),
    MessageEnd(FinishReason),
    Usage(TokenUsage),
    ToolCall(Seq<ToolCallChunk>),
}

/// The value of a chat event, as far as the stream conversion fills it.
pub open spec fn event_view(e: ChatEvent) -> StreamEventView {
    match e {
        ChatEvent::MessageBegin { role } => StreamEventView::MessageBegin(role@),
        ChatEvent::MessageAppend { content } => StreamEventView::MessageAppend(content@),
        ChatEvent::MessageEnd { finish_reason } => StreamEventView::MessageEnd(finish_reason),
        ChatEvent::Usage { usage } => StreamEventView::Usage(usage),
        ChatEvent::ToolCall(chunks) => StreamEventView::ToolCall(chunks@),
    }
}

/// The values of a sequence of chat events.
pub open spec fn events_view(events: Seq<ChatEvent>) -> Seq<StreamEventView> {
    events.map_values(|e: ChatEvent| event_view(e))
}

/// The events for a streamed piece, by their values.
pub open spec fn stream_events(event: ChatStreamWithReasoning) -> Seq<StreamEventView> {
    match event.usage {
        Some(usage) => seq![StreamEventView::Usage(usage)],
        None => if event.choices.len() == 0 {
            Seq::empty()
        } else {
            let choice = event.choices@[0];
            let begin: Seq<StreamEventView> = match choice.delta.role {
                Some(r) => seq![StreamEventView::MessageBegin(spec_role_name(r))],
                None => Seq::empty(),
            };
            let main: Seq<StreamEventView> = match choice.delta.content {
                Some(c) if c@.len() > 0 => seq![StreamEventView::MessageAppend(c@)],
                _ => match choice.delta.tool_calls {
                    Some(calls) => seq![StreamEventView::ToolCall(spec_tool_call_chunks(calls@))],
                    None => Seq::empty(),
                },
            };
            let end: Seq<StreamEventView> = match choice.finish_reason {
                Some(f) => seq![StreamEventView::MessageEnd(spec_finish_reason_of(f))],
                None => Seq::empty(),
            };
            begin + main + end
        },
    }
}

impl ChatEvent {
    /// The events of the engine for a streamed piece. A backend event that names the role and
    /// brings content turns into several events of the engine, as the engine keeps the beginning
    /// of a message apart from its content.
    pub fn from_stream(event: ChatStreamWithReasoning) -> (events: Vec<ChatEvent>)
        ensures
            events_view(events@) == stream_events(event),
    {
        let ghost initial = event;
        match event.usage {
            Some(usage) => {
                let events = vec![ChatEvent::Usage { usage }];
                assert(events_view(events@) =~= stream_events(initial));
                events
            },
            None => {
                let mut choices = event.choices;
                if choices.len() == 0 {
                    let events: Vec<ChatEvent> = Vec::new();
                    assert(events_view(events@) =~= stream_events(initial));
                    return events;
                }
                let choice = choices.remove(0);
                let ghost c = choice;
                let mut events: Vec<ChatEvent> = Vec::new();
                if let Some(role) = choice.delta.role {
                    events.push(ChatEvent::MessageBegin { role: role.as_str().to_owned() });
                }
                let ghost begin = events_view(events@);
                let has_content = match &choice.delta.content {
                    Some(content) => content.as_str().unicode_len() > 0,
                    None => false,
                };
                if has_content {
                    let content = choice.delta.content.unwrap();
                    events.push(ChatEvent::MessageAppend { content });
                } else if let Some(calls) = choice.delta.tool_calls {
                    events.push(ChatEvent::ToolCall(tool_call_chunks(calls)));
                }
                let ghost main_len = events.len();
                if let Some(f) = choice.finish_reason {
                    events.push(ChatEvent::MessageEnd { finish_reason: f.into_inference() });
                }
                proof {
                    let main: Seq<StreamEventView> = match c.delta.content {
                        Some(x) if x@.len() > 0 => seq![StreamEventView::MessageAppend(x@)],
                        _ => match c.delta.tool_calls {
                            Some(calls) => seq![StreamEventView::ToolCall(spec_tool_call_chunks(calls@))],
                            None => Seq::empty(),
                        },
                    };
                    let end: Seq<StreamEventView> = match c.finish_reason {
                        Some(f) => seq![StreamEventView::MessageEnd(spec_finish_reason_of(f))],
                        None => Seq::empty(),
                    };
                    assert(initial.choices@[0] == c);
                    assert(events_view(events@) =~= begin + main + end);
                }
                events
            },
        }
    }
}

/// The events to pass on for a streamed piece, and the error that ends the stream: where no tools
/// were specified in the request, the events up to the first that calls a tool are passed on and
/// the stream ends with [`InferenceError::UnexpectedToolCall`].
pub fn stream_piece_events(tools_specified: bool, piece: ChatStreamWithReasoning) -> (r: (
    Vec<ChatEvent>,
    Option<InferenceError>,
))
    ensures
        ({
            let all = stream_events(piece);
            let (passed, error) = r;
            &&& events_view(passed@) == all.subrange(0, passed.len() as int)
            &&& passed.len() <= all.len()
            &&& forall|i: int| 0 <= i < passed.len() ==> validate_chat_event_view(tools_specified, all[i])
            &&& match error {
                None => passed.len() == all.len(),
                Some(e) => e == InferenceError::UnexpectedToolCall && passed.len() < all.len()
                    && !validate_chat_event_view(tools_specified, all[passed.len() as int]),
            }
        }),
{
    let events = ChatEvent::from_stream(piece);
    let ghost initial = events@;
    let ghost all = events_view(initial);
    let mut pending = events;
    let mut passed: Vec<ChatEvent> = Vec::new();
    let mut i: usize = 0;
    let n = pending.len();
    while i < n
        invariant
            n == initial.len(),
            all == events_view(initial),
            all == stream_events(piece),
            i <= n,
            pending@ == initial.subrange(i as int, n as int),
            passed@ == initial.subrange(0, i as int),
            forall|k: int| 0 <= k < i ==> validate_chat_event_view(tools_specified, all[k]),
        decreases n - i,
    {
        let e = pending.remove(0);
        assert(e == initial[i as int]);
        match validate_chat_event(tools_specified, &e) {
            Ok(()) => {},
            Err(err) => {
                assert(all[i as int] == event_view(e));
                assert(!validate_chat_event_view(tools_specified, all[i as int]));
                assert(events_view(passed@) =~= all.subrange(0, i as int));
                return (passed, Some(err));
            },
        }
        assert(all[i as int] == event_view(e));
        passed.push(e);
        assert(initial.subrange(0, i + 1) =~= initial.subrange(0, i as int).push(initial[i as int]));
        i = i + 1;
    }
    assert(initial.subrange(0, n as int) =~= initial);
    assert(events_view(passed@) =~= all.subrange(0, n as int));
    (passed, None)
}

/// Whether an event may pass where tools are, or are not, specified in the request.
pub open spec fn validate_chat_event_view(tools_specified: bool, e: StreamEventView) -> bool {
    tools_specified || !(e is ToolCall || e matches StreamEventView::MessageEnd(
        FinishReason::ToolCalls,
    ))
}

/// How a chat request asks an OpenAI compatible backend for log probabilities: whether to return
/// them at all, and how many of the most likely tokens to return for each position.
pub fn openai_logprobs(logprobs: &Logprobs) -> (r: (Option<bool>, Option<u8>))
    ensures
        r == (match *logprobs {
            Logprobs::No => (None, None),
            Logprobs::Sampled => (Some(true), Some(1u8)),
            Logprobs::Top(k) => (Some(true), Some(k)),
        }),
{
    match logprobs {
        Logprobs::No => (None, None),
        Logprobs::Sampled => (Some(true), Some(1)),
        Logprobs::Top(k) => (Some(true), Some(*k)),
    }
}

/// `s` spells `lower` up to the case of ASCII letters, where `lower` is in lower case.
pub open spec fn lower_matches(s: Seq<char>, lower: Seq<char>) -> bool {
    &&& s.len() == lower.len()
    &&& forall|i: int| 0 <= i < s.len() ==> #[trigger] lowers_to(s[i], lower[i])
}

/// `c` is `l`, or the ASCII upper case letter of `l`.
pub open spec fn lowers_to(c: char, l: char) -> bool {
    if 'A' <= c && c <= 'Z' {
        (c as u32) + 32 == (l as u32)
    } else {
        c == l
    }
}

/// Does `s` spell `lower` up to the case of ASCII letters?
fn lowercase_equals(s: &str, lower: &str) -> (r: bool)
    ensures
        r == lower_matches(s@, lower@),
{
    let a = chars_of(s);
    let b = chars_of(lower);
    if a.len() != b.len() {
        return false;
    }
    let mut i: usize = 0;
    while i < a.len()
        invariant
            a@ == s@,
            b@ == lower@,
            a.len() == b.len(),
            i <= a.len(),
            forall|k: int| 0 <= k < i ==> #[trigger] lowers_to(s@[k], lower@[k]),
        decreases a.len() - i,
    {
        let c = a[i];
        let l = b[i];
        let same = if 'A' <= c && c <= 'Z' {
            (c as u32) + 32 == (l as u32)
        } else {
            c == l
        };
        if !same {
            assert(!lowers_to(s@[i as int], lower@[i as int]));
            return false;
        }
        i = i + 1;
    }
    true
}

/// A chat message as an OpenAI-compatible backend takes it.
#[derive(Debug, Clone, PartialEq, Eq)]
pub enum OpenAiRequestMessage {
    System(String),
    Developer(String),
    User(String),
    Assistant { content: Option<String>, tool_calls: Option<Vec<ToolCall>> },
    Tool { content: String, tool_call_id: String },
}

/// The message an OpenAI-compatible backend takes for a message of the engine, or why there is
/// none.
pub open spec fn spec_request_message(message: Message) -> Result<OpenAiRequestMessage, InferenceError> {
    match message {
        Message::Assistant(a) => Ok(
            OpenAiRequestMessage::Assistant { content: a.content, tool_calls: a.tool_calls },
        ),
        Message::Tool(t) => Ok(
            OpenAiRequestMessage::Tool { content: t.content, tool_call_id: t.tool_call_id },
        ),
        Message::Other { role, content } => if lower_matches(role@, "system"@) {
            Ok(OpenAiRequestMessage::System(content))
        } else if lower_matches(role@, "developer"@) {
            Ok(OpenAiRequestMessage::Developer(content))
        } else if lower_matches(role@, "user"@) {
            Ok(OpenAiRequestMessage::User(content))
        } else {
            Err(InferenceError::RoleNotSupported(role))
        },
    }
}

/// A message of the engine as an OpenAI-compatible backend takes it. Roles other than the
/// assistant's and the tool's are matched without regard to the case of ASCII letters, as older
/// skills spelled them in upper case: `system`, `developer` and `user` are known, others are not
/// supported. (Matching on the Unicode lower case of the role gives the same
/// answers: no other character lowers to a letter of these names.)
pub fn request_message(message: Message) -> (r: Result<OpenAiRequestMessage, InferenceError>)
    ensures
        r == spec_request_message(message),
{
    match message {
        Message::Assistant(a) => Ok(
            OpenAiRequestMessage::Assistant { content: a.content, tool_calls: a.tool_calls },
        ),
        Message::Tool(t) => Ok(OpenAiRequestMessage::Tool { content: t.content, tool_call_id: t.tool_call_id }),
        Message::Other { role, content } => {
            if lowercase_equals(role.as_str(), "system") {
                Ok(OpenAiRequestMessage::System(content))
            } else if lowercase_equals(role.as_str(), "developer") {
                Ok(OpenAiRequestMessage::Developer(content))
            } else if lowercase_equals(role.as_str(), "user") {
                Ok(OpenAiRequestMessage::User(content))
            } else {
                Err(InferenceError::RoleNotSupported(role))
            }
        },
    }
}

/// The inference error for an error of an OpenAI-compatible backend, given the code of the API
/// error where it is one, and the error rendered as text: an invalid API key is unauthorized, an
/// unknown model is reported as such, everything else with its text.
pub fn inference_error_from_openai(code: Option<String>, rendered: &str) -> (e: InferenceError)
    ensures
        match code {
            Some(c) if c@ == "invalid_api_key"@ => e == InferenceError::Unauthorized,
            Some(c) if c@ == "model_not_found"@ => e == InferenceError::ModelNotFound,
            _ => e matches InferenceError::Other(m) && m@
                == "Error while calling OpenAI chat completion API: "@ + rendered@,
        },
{
    let known = match &code {
        Some(c) => {
            if crate::text::str_eq(c.as_str(), "invalid_api_key") {
                Some(InferenceError::Unauthorized)
            } else if crate::text::str_eq(c.as_str(), "model_not_found") {
                Some(InferenceError::ModelNotFound)
            } else {
                None
            }
        },
        None => None,
    };
    match known {
        Some(e) => e,
        None => {
            let mut m = String::from_str("Error while calling OpenAI chat completion API: ");
            m.append(rendered);
            InferenceError::Other(m)
        },
    }
}

/// The chat response for a whole answer of an OpenAI-compatible backend: the message and the
/// finish reason of its first choice, with its usage. Each of the three is required.
pub fn chat_response_from(response: ChatResponseReasoningContent) -> (r: Result<ChatResponse, InferenceError>)
    ensures
        if response.choices.len() == 0 {
            r matches Err(InferenceError::Other(m)) && m@
                == "Expected at least one choice in the chat completion response."@
        } else if response.choices@[0].finish_reason is None {
            r matches Err(InferenceError::Other(m)) && m@
                == "Expected chat completion response to have a finish reason."@
        } else if response.usage is None {
            r matches Err(InferenceError::Other(m)) && m@
                == "Expected chat completion response to have a usage."@
        } else {
            let choice = response.choices@[0];
            r == Ok::<ChatResponse, InferenceError>(
                ChatResponse {
                    message: AssistantMessage {
                        content: choice.message.content,
                        reasoning_content: choice.message.reasoning_content,
                        tool_calls: choice.message.tool_calls,
                    },
                    finish_reason: choice.finish_reason.unwrap(),
                    usage: response.usage.unwrap(),
                },
            )
        },
{
    let mut choices = response.choices;
    if choices.len() == 0 {
        return Err(
            InferenceError::Other(
                String::from_str("Expected at least one choice in the chat completion response."),
            ),
        );
    }
    let choice = choices.remove(0);
    let finish_reason = match choice.finish_reason {
        Some(f) => f,
        None => {
            return Err(
                InferenceError::Other(
                    String::from_str("Expected chat completion response to have a finish reason."),
                ),
            );
        },
    };
    let usage = match response.usage {
        Some(u) => u,
        None => {
            return Err(
                InferenceError::Other(
                    String::from_str("Expected chat completion response to have a usage."),
                ),
            );
        },
    };
    Ok(
        ChatResponse {
            message: AssistantMessage {
                content: choice.message.content,
                reasoning_content: choice.message.reasoning_content,
                tool_calls: choice.message.tool_calls,
            },
            finish_reason,
            usage,
        },
    )
}

/// The text of the error that `serde_json` meets reading `bytes` as a JSON document, or `None`
/// where they are one.
pub uninterp spec fn spec_json_error(bytes: Seq<u8>) -> Option<Seq<char>>;

/// Reads `bytes` as a JSON document with `serde_json::from_slice` into a `serde_json::Value`, and
/// tells the error rendered as text where they are not one. The contract claims only that the
/// outcome depends on the bytes alone; which documents `serde_json` accepts is not stated.
#[verifier::external_body]
fn json_error(bytes: &Vec<u8>) -> (r: Option<String>)
    ensures
        match r {
            Some(e) => spec_json_error(bytes@) == Some(e@),
            None => spec_json_error(bytes@) is None,
        },
{
    match serde_json::from_slice::<serde_json::Value>(bytes.as_slice()) {
        Ok(_) => None,
        Err(e) => Some(e.to_string()),
    }
}

/// The error met reading an optional JSON text, where there is one.
pub open spec fn json_text_error(json: Option<Vec<u8>>) -> Option<Seq<char>> {
    match json {
        Some(b) => spec_json_error(b@),
        None => None,
    }
}

/// The error, if any, of reading an optional JSON text: it is the error of the inference request
/// that carries it.
fn check_json_text(json: &Option<Vec<u8>>) -> (r: Option<String>)
    ensures
        match r {
            Some(e) => json_text_error(*json) == Some(e@),
            None => json_text_error(*json) is None,
        },
{
    match json {
        Some(b) => json_error(b),
        None => None,
    }
}

/// A function offered to an OpenAI-compatible backend as a tool.
#[derive(Debug, Clone, PartialEq, Eq)]
pub struct OpenAiTool {
    pub name: String,
    pub description: Option<String>,
    /// The JSON schema of the arguments, as JSON text that has been read as JSON.
    pub parameters: Option<Vec<u8>>,
    pub strict: Option<bool>,
}

/// The tool an OpenAI-compatible backend is offered for a function.
pub open spec fn spec_openai_tool(f: Function) -> OpenAiTool {
    OpenAiTool { name: f.name, description: f.description, parameters: f.parameters, strict: f.strict }
}

/// A function as a tool for an OpenAI-compatible backend; its parameters must be JSON.
pub fn openai_tool(f: Function) -> (r: Result<OpenAiTool, InferenceError>)
    ensures
        match json_text_error(f.parameters) {
            Some(e) => r matches Err(InferenceError::Other(m)) && m@ == e,
            None => r == Ok::<OpenAiTool, InferenceError>(spec_openai_tool(f)),
        },
{
    match check_json_text(&f.parameters) {
        Some(e) => Err(InferenceError::Other(e)),
        None => Ok(
            OpenAiTool {
                name: f.name,
                description: f.description,
                parameters: f.parameters,
                strict: f.strict,
            },
        ),
    }
}

/// The functions at `tools[j]` and after it are not yet known to fail, and the one at `j` does.
pub open spec fn first_tool_error_at(tools: Seq<Function>, j: int) -> bool {
    &&& 0 <= j < tools.len()
    &&& json_text_error(tools[j].parameters) is Some
    &&& forall|k: int| 0 <= k < j ==> (#[trigger] json_text_error(tools[k].parameters)) is None
}

/// Each of the functions has JSON parameters, or none.
pub open spec fn tools_read(tools: Seq<Function>) -> bool {
    forall|k: int| 0 <= k < tools.len() ==> (#[trigger] json_text_error(tools[k].parameters)) is None
}

/// The tools for a list of functions, in order; the error of the first that fails, if any.
pub fn openai_tools(tools: Vec<Function>) -> (r: Result<Vec<OpenAiTool>, InferenceError>)
    ensures
        match r {
            Ok(ts) => tools_read(tools@) && ts.len() == tools.len() && forall|i: int|
                0 <= i < tools.len() ==> ts@[i] == spec_openai_tool(#[trigger] tools@[i]),
            Err(e) => exists|j: int|
                first_tool_error_at(tools@, j) && (e matches InferenceError::Other(m) && Some(m@)
                    == json_text_error(#[trigger] tools@[j].parameters)),
        },
{
    let ghost initial = tools@;
    let mut pending = tools;
    let mut done: Vec<OpenAiTool> = Vec::new();
    let n = pending.len();
    let mut i: usize = 0;
    while i < n
        invariant
            n == initial.len(),
            initial == tools@,
            i <= n,
            pending@ == initial.subrange(i as int, n as int),
            done.len() == i,
            forall|k: int| 0 <= k < i ==> (#[trigger] json_text_error(initial[k].parameters)) is None,
            forall|k: int| 0 <= k < i ==> done@[k] == spec_openai_tool(#[trigger] initial[k]),
        decreases n - i,
    {
        let f = pending.remove(0);
        assert(f == initial[i as int]);
        match openai_tool(f) {
            Ok(t) => done.push(t),
            Err(e) => {
                assert(first_tool_error_at(initial, i as int));
                return Err(e);
            },
        }
        i = i + 1;
    }
    Ok(done)
}

/// The messages up to `ms[i]` are taken by an OpenAI-compatible backend, and the one at `i` is
/// not.
pub open spec fn first_message_error_at(ms: Seq<Message>, i: int) -> bool {
    &&& 0 <= i < ms.len()
    &&& spec_request_message(ms[i]) is Err
    &&& forall|k: int| 0 <= k < i ==> (#[trigger] spec_request_message(ms[k])) is Ok
}

/// An OpenAI-compatible backend takes each of the messages.
pub open spec fn messages_taken(ms: Seq<Message>) -> bool {
    forall|k: int| 0 <= k < ms.len() ==> (#[trigger] spec_request_message(ms[k])) is Ok
}

/// The messages an OpenAI-compatible backend takes for those of the engine, in order; the error
/// of the first that it does not take, if any.
pub fn request_messages(messages: Vec<Message>) -> (r: Result<Vec<OpenAiRequestMessage>, InferenceError>)
    ensures
        match r {
            Ok(ms) => ms.len() == messages.len() && forall|i: int|
                0 <= i < messages.len() ==> spec_request_message(#[trigger] messages@[i])
                    == Ok::<OpenAiRequestMessage, InferenceError>(ms@[i]),
            Err(e) => exists|i: int|
                first_message_error_at(messages@, i) && spec_request_message(#[trigger] messages@[i])
                    == Err::<OpenAiRequestMessage, InferenceError>(e),
        },
{
    let ghost initial = messages@;
    let mut pending = messages;
    let mut done: Vec<OpenAiRequestMessage> = Vec::new();
    let n = pending.len();
    let mut i: usize = 0;
    while i < n
        invariant
            n == initial.len(),
            initial == messages@,
            i <= n,
            pending@ == initial.subrange(i as int, n as int),
            done.len() == i,
            forall|k: int| 0 <= k < i ==> spec_request_message(#[trigger] initial[k])
                == Ok::<OpenAiRequestMessage, InferenceError>(done@[k]),
        decreases n - i,
    {
        let m = pending.remove(0);
        assert(m == initial[i as int]);
        match request_message(m) {
            Ok(x) => done.push(x),
            Err(e) => {
                assert(first_message_error_at(initial, i as int));
                return Err(e);
            },
        }
        i = i + 1;
    }
    Ok(done)
}

/// Whether and which tool an OpenAI-compatible backend must call.
#[derive(Debug, Clone, PartialEq, Eq)]
pub enum OpenAiToolChoice {
    /// `none`: the model must not call a tool.
    NoTool,
    Auto,
    Required,
    /// A named function of type `function`.
    Named(String),
}

/// The tool choice of the engine as an OpenAI-compatible backend takes it.
pub fn openai_tool_choice(choice: ToolChoice) -> (r: OpenAiToolChoice)
    ensures
        r == (match choice {
            ToolChoice::NoTool => OpenAiToolChoice::NoTool,
            ToolChoice::Auto => OpenAiToolChoice::Auto,
            ToolChoice::Required => OpenAiToolChoice::Required,
            ToolChoice::Named(name) => OpenAiToolChoice::Named(name),
        }),
{
    match choice {
        ToolChoice::NoTool => OpenAiToolChoice::NoTool,
        ToolChoice::Auto => OpenAiToolChoice::Auto,
        ToolChoice::Required => OpenAiToolChoice::Required,
        ToolChoice::Named(name) => OpenAiToolChoice::Named(name),
    }
}

/// How much effort an OpenAI-compatible reasoning model spends on thinking.
#[derive(Debug, Clone, Copy, PartialEq, Eq, Structural)]
pub enum OpenAiReasoningEffort {
    Minimal,
    Low,
    Medium,
    High,
}

/// The reasoning effort of the engine as an OpenAI-compatible backend takes it.
pub fn openai_reasoning_effort(effort: ReasoningEffort) -> (r: OpenAiReasoningEffort)
    ensures
        r == (match effort {
            ReasoningEffort::Minimal => OpenAiReasoningEffort::Minimal,
            ReasoningEffort::Low => OpenAiReasoningEffort::Low,
            ReasoningEffort::Medium => OpenAiReasoningEffort::Medium,
            ReasoningEffort::High => OpenAiReasoningEffort::High,
        }),
{
    match effort {
        ReasoningEffort::Minimal => OpenAiReasoningEffort::Minimal,
        ReasoningEffort::Low => OpenAiReasoningEffort::Low,
        ReasoningEffort::Medium => OpenAiReasoningEffort::Medium,
        ReasoningEffort::High => OpenAiReasoningEffort::High,
    }
}

/// The form the answer of an OpenAI-compatible backend must take.
#[derive(Debug, Clone, PartialEq, Eq)]
pub enum OpenAiResponseFormat {
    Text,
    JsonObject,
    /// A JSON schema, whose schema is JSON text that has been read as JSON.
    JsonSchema {
        name: String,
        description: Option<String>,
        schema: Option<Vec<u8>>,
        strict: Option<bool>,
    },
}

/// The error met reading the schema of a response format, if any.
pub open spec fn response_format_error(format: ResponseFormat) -> Option<Seq<char>> {
    match format {
        ResponseFormat::JsonSchema(s) => json_text_error(s.schema),
        _ => None,
    }
}

/// The response format an OpenAI-compatible backend is asked for, where its schema is JSON.
pub open spec fn spec_openai_response_format(format: ResponseFormat) -> OpenAiResponseFormat {
    match format {
        ResponseFormat::Text => OpenAiResponseFormat::Text,
        ResponseFormat::JsonObject => OpenAiResponseFormat::JsonObject,
        ResponseFormat::JsonSchema(s) => OpenAiResponseFormat::JsonSchema {
            name: s.name,
            description: s.description,
            schema: s.schema,
            strict: s.strict,
        },
    }
}

/// The response format of the engine as an OpenAI-compatible backend takes it; a JSON schema
/// must be JSON.
pub fn openai_response_format(format: ResponseFormat) -> (r: Result<OpenAiResponseFormat, InferenceError>)
    ensures
        match response_format_error(format) {
            Some(e) => r matches Err(InferenceError::Other(m)) && m@ == e,
            None => r == Ok::<OpenAiResponseFormat, InferenceError>(spec_openai_response_format(format)),
        },
{
    match format {
        ResponseFormat::Text => Ok(OpenAiResponseFormat::Text),
        ResponseFormat::JsonObject => Ok(OpenAiResponseFormat::JsonObject),
        ResponseFormat::JsonSchema(s) => {
            let JsonSchema { name, description, schema, strict } = s;
            match check_json_text(&schema) {
                Some(e) => Err(InferenceError::Other(e)),
                None => Ok(OpenAiResponseFormat::JsonSchema { name, description, schema, strict }),
            }
        },
    }
}

/// A chat completion request as an OpenAI-compatible backend takes it, but for the sampling
/// parameters given as floating point numbers, which travel beside it.
#[derive(Debug, Clone, PartialEq, Eq)]
pub struct OpenAiChatRequest {
    pub model: String,
    pub messages: Vec<OpenAiRequestMessage>,
    pub logprobs: Option<bool>,
    pub top_logprobs: Option<u8>,
    pub max_tokens: Option<u32>,
    pub max_completion_tokens: Option<u32>,
    pub tools: Option<Vec<OpenAiTool>>,
    pub tool_choice: Option<OpenAiToolChoice>,
    pub parallel_tool_calls: Option<bool>,
    pub response_format: Option<OpenAiResponseFormat>,
    pub reasoning_effort: Option<OpenAiReasoningEffort>,
    /// Whether the answer is streamed.
    pub stream: Option<bool>,
    /// Whether a streamed answer ends with the usage, where that is asked at all.
    pub stream_include_usage: Option<bool>,
}

/// The pair of `logprobs` and `top_logprobs` an OpenAI-compatible backend is asked for.
pub open spec fn spec_openai_logprobs(logprobs: Logprobs) -> (Option<bool>, Option<u8>) {
    match logprobs {
        Logprobs::No => (None, None),
        Logprobs::Sampled => (Some(true), Some(1u8)),
        Logprobs::Top(k) => (Some(true), Some(k)),
    }
}

/// The functions of a request, where there are any, all have JSON parameters.
pub open spec fn request_tools_read(tools: Option<Vec<Function>>) -> bool {
    match tools {
        Some(ts) => tools_read(ts@),
        None => true,
    }
}

/// The request carries no tools where the engine's request has none, and otherwise the tools of
/// its functions, in order.
pub open spec fn tools_offered(tools: Option<Vec<Function>>, offered: Option<Vec<OpenAiTool>>) -> bool {
    match tools {
        None => offered is None,
        Some(fs) => offered matches Some(ts) && ts.len() == fs.len() && forall|i: int|
            0 <= i < fs.len() ==> ts@[i] == spec_openai_tool(#[trigger] fs@[i]),
    }
}

/// Why a chat request cannot be offered to an OpenAI-compatible backend, as `e` says: the first
/// message it does not take; else the first function whose parameters are not JSON; else a
/// response format whose schema is not JSON.
pub open spec fn request_error(request: ChatRequest, e: InferenceError) -> bool {
    let ms = request.messages@;
    let params = request.params;
    ||| exists|i: int|
        first_message_error_at(ms, i) && spec_request_message(#[trigger] ms[i])
            == Err::<OpenAiRequestMessage, InferenceError>(e)
    ||| messages_taken(ms) && (params.tools matches Some(fs) && exists|j: int|
        first_tool_error_at(fs@, j) && (e matches InferenceError::Other(m) && Some(m@)
            == json_text_error(#[trigger] fs@[j].parameters)))
    ||| messages_taken(ms) && request_tools_read(params.tools) && (params.response_format matches Some(f)
        && (response_format_error(f) matches Some(t) && (e matches InferenceError::Other(m) && m@ == t)))
}

/// The chat request `q` is what an OpenAI-compatible backend is offered for `request`, not
/// streamed: every part converted, and every part but the messages, the tools and the response
/// format carried over as it is.
pub open spec fn request_offered(request: ChatRequest, q: OpenAiChatRequest) -> bool {
    let ms = request.messages@;
    let params = request.params;
    &&& q.model == request.model
    &&& q.messages.len() == ms.len()
    &&& forall|i: int| 0 <= i < ms.len() ==> spec_request_message(#[trigger] ms[i])
        == Ok::<OpenAiRequestMessage, InferenceError>(q.messages@[i])
    &&& (q.logprobs, q.top_logprobs) == spec_openai_logprobs(params.logprobs)
    &&& q.max_tokens == params.max_tokens
    &&& q.max_completion_tokens == params.max_completion_tokens
    &&& request_tools_read(params.tools)
    &&& tools_offered(params.tools, q.tools)
    &&& q.tool_choice == (match params.tool_choice {
        Some(ToolChoice::NoTool) => Some(OpenAiToolChoice::NoTool),
        Some(ToolChoice::Auto) => Some(OpenAiToolChoice::Auto),
        Some(ToolChoice::Required) => Some(OpenAiToolChoice::Required),
        Some(ToolChoice::Named(n)) => Some(OpenAiToolChoice::Named(n)),
        None => None,
    })
    &&& q.parallel_tool_calls == params.parallel_tool_calls
    &&& match params.response_format {
        Some(f) => response_format_error(f) is None && q.response_format == Some(
            spec_openai_response_format(f),
        ),
        None => q.response_format is None,
    }
    &&& q.reasoning_effort == (match params.reasoning_effort {
        Some(ReasoningEffort::Minimal) => Some(OpenAiReasoningEffort::Minimal),
        Some(ReasoningEffort::Low) => Some(OpenAiReasoningEffort::Low),
        Some(ReasoningEffort::Medium) => Some(OpenAiReasoningEffort::Medium),
        Some(ReasoningEffort::High) => Some(OpenAiReasoningEffort::High),
        None => None,
    })
}

impl ChatRequest {
    /// The request an OpenAI-compatible backend is offered for this chat request. Both
    /// `max_tokens` and `max_completion_tokens` are passed on as they are: reasoning models refuse
    /// the first, and backends that do not know the second ignore it. The request fails with the
    /// first message whose role the backend does not take, else with the error of the first
    /// function whose parameters are not JSON, else with that of a response format whose schema
    /// is not JSON.
    pub fn as_openai_request(self) -> (r: Result<OpenAiChatRequest, InferenceError>)
        ensures
            match r {
                Ok(q) => request_offered(self, q) && q.stream is None && q.stream_include_usage is None,
                Err(e) => request_error(self, e),
            },
    {
        let ChatRequest { model, messages, params } = self;
        let ChatParams {
            max_tokens,
            max_completion_tokens,
            logprobs,
            tools,
            tool_choice,
            parallel_tool_calls,
            response_format,
            reasoning_effort,
        } = params;
        let messages = match request_messages(messages) {
            Ok(ms) => ms,
            Err(e) => return Err(e),
        };
        let tools = match tools {
            Some(fs) => match openai_tools(fs) {
                Ok(ts) => Some(ts),
                Err(e) => return Err(e),
            },
            None => None,
        };
        let response_format = match response_format {
            Some(f) => match openai_response_format(f) {
                Ok(g) => Some(g),
                Err(e) => return Err(e),
            },
            None => None,
        };
        let (logprobs, top_logprobs) = openai_logprobs(&logprobs);
        let tool_choice = match tool_choice {
            Some(c) => Some(openai_tool_choice(c)),
            None => None,
        };
        let reasoning_effort = match reasoning_effort {
            Some(e) => Some(openai_reasoning_effort(e)),
            None => None,
        };
        Ok(
            OpenAiChatRequest {
                model,
                messages,
                logprobs,
                top_logprobs,
                max_tokens,
                max_completion_tokens,
                tools,
                tool_choice,
                parallel_tool_calls,
                response_format,
                reasoning_effort,
                stream: None,
                stream_include_usage: None,
            },
        )
    }

    /// The streamed request an OpenAI-compatible backend is offered for this chat request: the
    /// request of [`ChatRequest::as_openai_request`], streamed, with the usage at the end of the
    /// stream. It fails where that request does.
    pub fn as_openai_stream_request(self) -> (r: Result<OpenAiChatRequest, InferenceError>)
        ensures
            match r {
                Ok(q) => request_offered(self, q) && q.stream == Some(true) && q.stream_include_usage
                    == Some(true),
                Err(e) => request_error(self, e),
            },
    {
        match self.as_openai_request() {
            Ok(q) => {
                let mut q = q;
                q.stream = Some(true);
                q.stream_include_usage = Some(true);
                Ok(q)
            },
            Err(e) => Err(e),
        }
    }
}

/// A finish reason of an OpenAI-compatible backend keeps its meaning in the engine: `stop` is a
/// natural stop, `length` the token limit, `content_filter` the content filter, and both
/// `tool_calls` and the older `function_call` mean that the model called a tool.
pub proof fn law_finish_reasons_keep_their_meaning()
    ensures
        spec_finish_reason_of(OpenAiFinishReason::Stop) == FinishReason::Stop,
        spec_finish_reason_of(OpenAiFinishReason::Length) == FinishReason::Length,
        spec_finish_reason_of(OpenAiFinishReason::ContentFilter) == FinishReason::ContentFilter,
        spec_finish_reason_of(OpenAiFinishReason::ToolCalls) == FinishReason::ToolCalls,
        spec_finish_reason_of(OpenAiFinishReason::FunctionCall) == FinishReason::ToolCalls,
{
}

/// A JSON schema that a request asks the answer to follow reaches the backend unchanged: the
/// offered format is a JSON schema with the same name, description, schema and strictness.
pub proof fn law_json_schema_is_offered_unchanged(s: JsonSchema)
    ensures
        spec_openai_response_format(ResponseFormat::JsonSchema(s)) matches OpenAiResponseFormat::JsonSchema {
            name,
            description,
            schema,
            strict,
        } && name == s.name && description == s.description && schema == s.schema && strict
            == s.strict,
{
}

/// The plain response formats reach the backend as the same plain formats.
pub proof fn law_plain_response_formats_are_offered_as_such()
    ensures
        spec_openai_response_format(ResponseFormat::Text) == OpenAiResponseFormat::Text,
        spec_openai_response_format(ResponseFormat::JsonObject) == OpenAiResponseFormat::JsonObject,
{
}

} // verus!
