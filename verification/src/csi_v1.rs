//! Version 1 of the CSI over HTTP: the chat messages as its clients send and receive them. One
//! shape serves all roles; which fields a role needs is checked when a message is taken in.
use vstd::prelude::*;

use crate::inference::{self, AssistantMessage, ToolCall, ToolMessage};
use crate::text::str_eq;

verus! {

/// A chat message as clients of the shell write it.
#[derive(Debug, Clone, PartialEq, Eq)]
pub struct Message {
    pub role: String,
    pub content: Option<String>,
    pub tool_call_id: Option<String>,
    pub tool_calls: Option<Vec<ToolCall>>,
}

/// Why a message of a client cannot be taken in.
#[derive(Debug, Clone, PartialEq, Eq)]
pub enum MessageError {
    /// A tool message without content.
    ToolMessageWithoutContent,
    /// A message of another role than the assistant's without content.
    MessageWithoutContent,
}

/// The text of a message error.
pub open spec fn spec_message_error_text(e: MessageError) -> Seq<char> {
    match e {
        MessageError::ToolMessageWithoutContent => "Tool message must have content"@,
        MessageError::MessageWithoutContent => "Non-assistant message must have content"@,
    }
}

impl MessageError {
    /// The text of the error.
    pub fn message(&self) -> (m: &'static str)
        ensures
            m@ == spec_message_error_text(*self),
    {
        match self {
            MessageError::ToolMessageWithoutContent => "Tool message must have content",
            MessageError::MessageWithoutContent => "Non-assistant message must have content",
        }
    }
}

/// Why the message of a client cannot be taken in, if it cannot: every role but the assistant's
/// needs content.
pub open spec fn spec_message_error(m: Message) -> Option<MessageError> {
    if m.role@ == "assistant"@ || m.content is Some {
        None
    } else if m.role@ == "tool"@ {
        Some(MessageError::ToolMessageWithoutContent)
    } else {
        Some(MessageError::MessageWithoutContent)
    }
}

/// `r` is the outcome of taking in the message `m` of a client: `assistant` messages take
/// content and tool calls as they are; `tool` messages need content and take a missing tool call
/// id as empty, as older clients sent none; every other role needs content.
pub open spec fn taken_in(m: Message, r: Result<inference::Message, MessageError>) -> bool {
    match spec_message_error(m) {
        Some(e) => r == Err::<inference::Message, MessageError>(e),
        None => if m.role@ == "assistant"@ {
            r == Ok::<inference::Message, MessageError>(
                inference::Message::Assistant(
                    AssistantMessage {
                        content: m.content,
                        reasoning_content: None,
                        tool_calls: m.tool_calls,
                    },
                ),
            )
        } else if m.role@ == "tool"@ {
            r matches Ok(inference::Message::Tool(t)) && Some(t.content) == m.content && t.tool_call_id@
                == (match m.tool_call_id {
                Some(id) => id@,
                None => Seq::<char>::empty(),
            })
        } else {
            r == Ok::<inference::Message, MessageError>(
                inference::Message::Other { role: m.role, content: m.content.unwrap() },
            )
        },
    }
}

impl Message {
    /// The engine's message for this one.
    pub fn into_inference(self) -> (r: Result<inference::Message, MessageError>)
        ensures
            taken_in(self, r),
    {
        if str_eq(self.role.as_str(), "assistant") {
            Ok(
                inference::Message::Assistant(
                    AssistantMessage {
                        content: self.content,
                        reasoning_content: None,
                        tool_calls: self.tool_calls,
                    },
                ),
            )
        } else if str_eq(self.role.as_str(), "tool") {
            match self.content {
                Some(content) => {
                    let tool_call_id = match self.tool_call_id {
                        Some(id) => id,
                        None => String::new(),
                    };
                    Ok(inference::Message::Tool(ToolMessage { content, tool_call_id }))
                },
                None => Err(MessageError::ToolMessageWithoutContent),
            }
        } else {
            match self.content {
                Some(content) => Ok(inference::Message::Other { role: self.role, content }),
                None => Err(MessageError::MessageWithoutContent),
            }
        }
    }

    /// The message of a client for an answer of the model.
    pub fn from_assistant(message: AssistantMessage) -> (m: Message)
        ensures
            m.role@ == "assistant"@,
            m.content == message.content,
            m.tool_call_id is None,
            m.tool_calls == message.tool_calls,
    {
        Message {
            role: AssistantMessage::role().to_owned(),
            content: message.content,
            tool_call_id: None,
            tool_calls: message.tool_calls,
        }
    }
}

/// The engine's messages for those of a client, in order; the error of the first message that
/// cannot be taken in, if any.
pub fn messages_into_inference(messages: Vec<Message>) -> (r: Result<Vec<inference::Message>, MessageError>)
    ensures
        match r {
            Ok(ms) => ms.len() == messages.len() && forall|i: int|
                0 <= i < messages.len() ==> #[trigger] taken_in(
                    messages@[i],
                    Ok::<inference::Message, MessageError>(ms@[i]),
                ),
            Err(e) => exists|i: int|
                0 <= i < messages.len() && spec_message_error(#[trigger] messages@[i]) == Some(e)
                    && forall|j: int| 0 <= j < i ==> (#[trigger] spec_message_error(messages@[j])) is None,
        },
{
    let ghost initial = messages@;
    let mut pending = messages;
    let mut done: Vec<inference::Message> = Vec::new();
    let n = pending.len();
    let mut i: usize = 0;
    while i < n
        invariant
            n == initial.len(),
            initial == messages@,
            i <= n,
            pending@ == initial.subrange(i as int, n as int),
            done.len() == i,
            forall|k: int| 0 <= k < i ==> (#[trigger] spec_message_error(initial[k])) is None,
            forall|k: int| 0 <= k < i ==> #[trigger] taken_in(
                initial[k],
                Ok::<inference::Message, MessageError>(done@[k]),
            ),
        decreases n - i,
    {
        let m = pending.remove(0);
        assert(m == initial[i as int]);
        match m.into_inference() {
            Ok(x) => done.push(x),
            Err(e) => {
                assert(spec_message_error(initial[i as int]) == Some(e));
                assert(initial == messages@);
                return Err(e);
            },
        }
        i = i + 1;
    }
    Ok(done)
}

/// Which log probabilities a client asks for along with the generated tokens.
#[derive(Debug, Clone, Copy, PartialEq, Eq, Structural)]
pub enum Logprobs {
    No,
    Sampled,
    Top(u8),
}

impl Logprobs {
    /// The engine's choice of log probabilities for this one.
    pub fn into_inference(self) -> (l: inference::Logprobs)
        ensures
            l == (match self {
                Logprobs::No => inference::Logprobs::No,
                Logprobs::Sampled => inference::Logprobs::Sampled,
                Logprobs::Top(n) => inference::Logprobs::Top(n),
            }),
    {
        match self {
            Logprobs::No => inference::Logprobs::No,
            Logprobs::Sampled => inference::Logprobs::Sampled,
            Logprobs::Top(n) => inference::Logprobs::Top(n),
        }
    }
}

/// A function that a client offers the model as a tool.
#[derive(Debug, Clone, PartialEq, Eq)]
pub struct Function {
    pub name: String,
    pub description: Option<String>,
    /// The JSON schema of the arguments, written back as JSON text after the request was read.
    pub parameters: Option<Vec<u8>>,
    pub strict: Option<bool>,
}

impl Function {
    /// The engine's function for this one.
    pub fn into_inference(self) -> (f: inference::Function)
        ensures
            f == (inference::Function {
                name: self.name,
                description: self.description,
                parameters: self.parameters,
                strict: self.strict,
            }),
    {
        inference::Function {
            name: self.name,
            description: self.description,
            parameters: self.parameters,
            strict: self.strict,
        }
    }
}

/// Whether and which tool a client wants the model to call.
#[derive(Debug, Clone, PartialEq, Eq)]
pub enum ToolChoice {
    Auto,
    Required,
    /// `none`: the model must not call a tool.
    NoTool,
    Named(String),
}

/// The engine's tool choice for the tool choice of a client.
pub open spec fn spec_tool_choice(c: ToolChoice) -> inference::ToolChoice {
    match c {
        ToolChoice::Auto => inference::ToolChoice::Auto,
        ToolChoice::Required => inference::ToolChoice::Required,
        ToolChoice::NoTool => inference::ToolChoice::NoTool,
        ToolChoice::Named(name) => inference::ToolChoice::Named(name),
    }
}

impl ToolChoice {
    /// The engine's tool choice for this one.
    pub fn into_inference(self) -> (c: inference::ToolChoice)
        ensures
            c == spec_tool_choice(self),
    {
        match self {
            ToolChoice::Auto => inference::ToolChoice::Auto,
            ToolChoice::Required => inference::ToolChoice::Required,
            ToolChoice::NoTool => inference::ToolChoice::NoTool,
            ToolChoice::Named(name) => inference::ToolChoice::Named(name),
        }
    }
}

/// A JSON schema that a client wants the answer to follow.
#[derive(Debug, Clone, PartialEq, Eq)]
pub struct JsonSchema {
    pub name: String,
    pub description: Option<String>,
    /// The schema, written back as JSON text after the request was read.
    pub schema: Option<Vec<u8>>,
    pub strict: Option<bool>,
}

/// The form a client wants the answer to take.
#[derive(Debug, Clone, PartialEq, Eq)]
pub enum ResponseFormat {
    Text,
    JsonObject,
    JsonSchema(JsonSchema),
}

/// The engine's response format for the response format of a client.
pub open spec fn spec_response_format(f: ResponseFormat) -> inference::ResponseFormat {
    match f {
        ResponseFormat::Text => inference::ResponseFormat::Text,
        ResponseFormat::JsonObject => inference::ResponseFormat::JsonObject,
        ResponseFormat::JsonSchema(s) => inference::ResponseFormat::JsonSchema(
            inference::JsonSchema {
                name: s.name,
                description: s.description,
                schema: s.schema,
                strict: s.strict,
            },
        ),
    }
}

impl ResponseFormat {
    /// The engine's response format for this one.
    pub fn into_inference(self) -> (f: inference::ResponseFormat)
        ensures
            f == spec_response_format(self),
    {
        match self {
            ResponseFormat::Text => inference::ResponseFormat::Text,
            ResponseFormat::JsonObject => inference::ResponseFormat::JsonObject,
            ResponseFormat::JsonSchema(s) => inference::ResponseFormat::JsonSchema(
                inference::JsonSchema {
                    name: s.name,
                    description: s.description,
                    schema: s.schema,
                    strict: s.strict,
                },
            ),
        }
    }
}

/// How much effort a client wants a reasoning model to spend on thinking.
#[derive(Debug, Clone, Copy, PartialEq, Eq, Structural)]
pub enum ReasoningEffort {
    Low,
    Medium,
    High,
}

/// The engine's reasoning effort for that of a client.
pub open spec fn spec_reasoning_effort(e: ReasoningEffort) -> inference::ReasoningEffort {
    match e {
        ReasoningEffort::Low => inference::ReasoningEffort::Low,
        ReasoningEffort::Medium => inference::ReasoningEffort::Medium,
        ReasoningEffort::High => inference::ReasoningEffort::High,
    }
}

impl ReasoningEffort {
    /// The engine's reasoning effort for this one.
    pub fn into_inference(self) -> (e: inference::ReasoningEffort)
        ensures
            e == spec_reasoning_effort(self),
    {
        match self {
            ReasoningEffort::Low => inference::ReasoningEffort::Low,
            ReasoningEffort::Medium => inference::ReasoningEffort::Medium,
            ReasoningEffort::High => inference::ReasoningEffort::High,
        }
    }
}

/// The parameters of a chat request as a client writes them, but for the sampling parameters
/// given as floating point numbers, which travel beside them.
#[derive(Debug, Clone, PartialEq, Eq)]
pub struct ChatParams {
    pub max_tokens: Option<u32>,
    pub max_completion_tokens: Option<u32>,
    pub logprobs: Logprobs,
    pub tools: Option<Vec<Function>>,
    pub tool_choice: Option<ToolChoice>,
    pub parallel_tool_calls: Option<bool>,
    pub response_format: Option<ResponseFormat>,
    pub reasoning_effort: Option<ReasoningEffort>,
}

/// `p` holds the parameters `params` of a client: each of them carried over, converted to the
/// engine's types.
pub open spec fn params_taken_in(params: ChatParams, p: inference::ChatParams) -> bool {
    &&& p.max_tokens == params.max_tokens
    &&& p.max_completion_tokens == params.max_completion_tokens
    &&& p.logprobs == (match params.logprobs {
        Logprobs::No => inference::Logprobs::No,
        Logprobs::Sampled => inference::Logprobs::Sampled,
        Logprobs::Top(n) => inference::Logprobs::Top(n),
    })
    &&& match params.tools {
        None => p.tools is None,
        Some(fs) => p.tools matches Some(gs) && gs.len() == fs.len() && forall|i: int|
            0 <= i < fs.len() ==> gs@[i] == (inference::Function {
                name: (#[trigger] fs@[i]).name,
                description: fs@[i].description,
                parameters: fs@[i].parameters,
                strict: fs@[i].strict,
            }),
    }
    &&& p.tool_choice == (match params.tool_choice {
        Some(c) => Some(spec_tool_choice(c)),
        None => None,
    })
    &&& p.parallel_tool_calls == params.parallel_tool_calls
    &&& p.response_format == (match params.response_format {
        Some(f) => Some(spec_response_format(f)),
        None => None,
    })
    &&& p.reasoning_effort == (match params.reasoning_effort {
        Some(e) => Some(spec_reasoning_effort(e)),
        None => None,
    })
}

/// The engine's functions for those of a client, in order.
fn functions_into_inference(functions: Vec<Function>) -> (r: Vec<inference::Function>)
    ensures
        r.len() == functions.len(),
        forall|i: int| 0 <= i < functions.len() ==> r@[i] == (inference::Function {
            name: (#[trigger] functions@[i]).name,
            description: functions@[i].description,
            parameters: functions@[i].parameters,
            strict: functions@[i].strict,
        }),
{
    let ghost initial = functions@;
    let mut pending = functions;
    let mut done: Vec<inference::Function> = Vec::new();
    let n = pending.len();
    let mut i: usize = 0;
    while i < n
        invariant
            n == initial.len(),
            initial == functions@,
            i <= n,
            pending@ == initial.subrange(i as int, n as int),
            done.len() == i,
            forall|k: int| 0 <= k < i ==> done@[k] == (inference::Function {
                name: (#[trigger] initial[k]).name,
                description: initial[k].description,
                parameters: initial[k].parameters,
                strict: initial[k].strict,
            }),
        decreases n - i,
    {
        let f = pending.remove(0);
        assert(f == initial[i as int]);
        done.push(f.into_inference());
        i = i + 1;
    }
    done
}

impl ChatParams {
    /// The engine's parameters for these.
    pub fn into_inference(self) -> (p: inference::ChatParams)
        ensures
            params_taken_in(self, p),
    {
        let ChatParams {
            max_tokens,
            max_completion_tokens,
            logprobs,
            tools,
            tool_choice,
            parallel_tool_calls,
            response_format,
            reasoning_effort,
        } = self;
        inference::ChatParams {
            max_tokens,
            max_completion_tokens,
            logprobs: logprobs.into_inference(),
            tools: match tools {
                Some(fs) => Some(functions_into_inference(fs)),
                None => None,
            },
            tool_choice: match tool_choice {
                Some(c) => Some(c.into_inference()),
                None => None,
            },
            parallel_tool_calls,
            response_format: match response_format {
                Some(f) => Some(f.into_inference()),
                None => None,
            },
            reasoning_effort: match reasoning_effort {
                Some(e) => Some(e.into_inference()),
                None => None,
            },
        }
    }
}

/// A chat request as a client writes it.
#[derive(Debug, Clone, PartialEq, Eq)]
pub struct ChatRequest {
    pub model: String,
    pub messages: Vec<Message>,
    pub params: ChatParams,
}

impl ChatRequest {
    /// The engine's chat request for this one; the error of the first message that cannot be
    /// taken in, if any.
    pub fn into_inference(self) -> (r: Result<inference::ChatRequest, MessageError>)
        ensures
            match r {
                Ok(q) => {
                    &&& q.model == self.model
                    &&& q.messages.len() == self.messages.len()
                    &&& forall|i: int| 0 <= i < self.messages.len() ==> #[trigger] taken_in(
                        self.messages@[i],
                        Ok::<inference::Message, MessageError>(q.messages@[i]),
                    )
                    &&& params_taken_in(self.params, q.params)
                },
                Err(e) => exists|i: int|
                    0 <= i < self.messages.len() && spec_message_error(#[trigger] self.messages@[i])
                        == Some(e) && forall|j: int|
                        0 <= j < i ==> (#[trigger] spec_message_error(self.messages@[j])) is None,
            },
    {
        let ChatRequest { model, messages, params } = self;
        match messages_into_inference(messages) {
            Ok(ms) => Ok(inference::ChatRequest { model, messages: ms, params: params.into_inference() }),
            Err(e) => Err(e),
        }
    }
}

/// The parameters of a completion request of version 1, but for the sampling parameters given as
/// floating point numbers, which travel beside them.
#[derive(Debug, Clone, PartialEq, Eq)]
pub struct CompletionParams {
    pub return_special_tokens: bool,
    pub max_tokens: Option<u32>,
    pub top_k: Option<u32>,
    pub stop: Vec<String>,
    pub logprobs: Logprobs,
    pub echo: bool,
}

impl CompletionParams {
    /// The engine's parameters for these: each of them carried over.
    pub fn into_inference(self) -> (p: inference::CompletionParams)
        ensures
            p.return_special_tokens == self.return_special_tokens,
            p.max_tokens == self.max_tokens,
            p.top_k == self.top_k,
            p.stop == self.stop,
            p.logprobs == (match self.logprobs {
                Logprobs::No => inference::Logprobs::No,
                Logprobs::Sampled => inference::Logprobs::Sampled,
                Logprobs::Top(n) => inference::Logprobs::Top(n),
            }),
            p.echo == self.echo,
    {
        inference::CompletionParams {
            return_special_tokens: self.return_special_tokens,
            max_tokens: self.max_tokens,
            top_k: self.top_k,
            stop: self.stop,
            logprobs: self.logprobs.into_inference(),
            echo: self.echo,
        }
    }
}

/// A completion request of version 1.
#[derive(Debug, Clone, PartialEq, Eq)]
pub struct CompletionRequest {
    pub prompt: String,
    pub model: String,
    pub params: CompletionParams,
}

impl CompletionRequest {
    /// The engine's completion request for this one.
    pub fn into_inference(self) -> (r: inference::CompletionRequest)
        ensures
            r.prompt == self.prompt,
            r.model == self.model,
            r.params.return_special_tokens == self.params.return_special_tokens,
            r.params.max_tokens == self.params.max_tokens,
            r.params.top_k == self.params.top_k,
            r.params.stop == self.params.stop,
            r.params.logprobs == (match self.params.logprobs {
                Logprobs::No => inference::Logprobs::No,
                Logprobs::Sampled => inference::Logprobs::Sampled,
                Logprobs::Top(n) => inference::Logprobs::Top(n),
            }),
            r.params.echo == self.params.echo,
    {
        inference::CompletionRequest {
            prompt: self.prompt,
            model: self.model,
            params: self.params.into_inference(),
        }
    }
}

/// A tool message with content is taken in as the answer to the tool call it names: the
/// engine's tool message has the same content and the same tool call id; a message without an id
/// answers the call with the empty id.
pub proof fn law_tool_messages_keep_their_call(m: Message, r: Result<inference::Message, MessageError>)
    requires
        m.role@ == "tool"@,
        m.content is Some,
        taken_in(m, r),
    ensures
        r matches Ok(inference::Message::Tool(t)) && t.content@ == m.content.unwrap()@
            && t.tool_call_id@ == (match m.tool_call_id {
            Some(id) => id@,
            None => Seq::<char>::empty(),
        }),
{
    reveal_strlit("tool");
    reveal_strlit("assistant");
    assert("tool"@[0] != "assistant"@[0]);
}

} // verus!
