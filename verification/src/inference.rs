//! Vocabulary of the inference backends: messages, finish reasons, events, errors, and the small
//! rules that the engine applies to requests and responses.
use vstd::prelude::*;

use crate::text::str_eq;

verus! {

/// The characters of the opening reasoning tag `<think>`.
pub open spec fn think_open() -> Seq<char> {
    seq!['<', 't', 'h', 'i', 'n', 'k', '>']
}

/// The characters of the closing reasoning tag `</think>`.
pub open spec fn think_close() -> Seq<char> {
    seq!['<', '/', 't', 'h', 'i', 'n', 'k', '>']
}

/// The opening reasoning tag as a string.
pub fn think_open_tag() -> (s: &'static str)
    ensures
        s@ == think_open(),
{
    let s = "<think>";
    proof {
        reveal_strlit("<think>");
    }
    assert(s@ =~= think_open());
    s
}

/// The closing reasoning tag as a string.
pub fn think_close_tag() -> (s: &'static str)
    ensures
        s@ == think_close(),
{
    let s = "</think>";
    proof {
        reveal_strlit("</think>");
    }
    assert(s@ =~= think_close());
    s
}

/// Why the model stopped generating tokens.
#[derive(Debug, Clone, Copy, PartialEq, Eq, Structural)]
pub enum FinishReason {
    Stop,
    Length,
    ContentFilter,
    ToolCalls,
}

/// A finish reason that could not be parsed.
#[derive(Debug, Clone, PartialEq, Eq)]
pub struct UnknownFinishReason(pub String);

/// The finish reason that a completion response spells as `s`, if any.
///
/// Only the spellings used by completion responses are known; tool calls never end a completion.
pub open spec fn spec_finish_reason(s: Seq<char>) -> Option<FinishReason> {
    if s == "length"@ || s == "maximum_tokens"@ {
        Some(FinishReason::Length)
    } else if s == "stop"@ || s == "end_of_text"@ || s == "stop_sequence_reached"@ {
        Some(FinishReason::Stop)
    } else if s == "content_filter"@ {
        Some(FinishReason::ContentFilter)
    } else {
        None
    }
}

impl FinishReason {
    /// Parse the finish reason of a completion response.
    pub fn from_str(s: &str) -> (r: Result<FinishReason, UnknownFinishReason>)
        ensures
            r matches Ok(f) ==> spec_finish_reason(s@) == Some(f),
            r matches Err(e) ==> spec_finish_reason(s@) is None && e.0@ == s@,
    {
        if str_eq(s, "length") || str_eq(s, "maximum_tokens") {
            Ok(FinishReason::Length)
        } else if str_eq(s, "stop") || str_eq(s, "end_of_text") || str_eq(s, "stop_sequence_reached") {
            Ok(FinishReason::Stop)
        } else if str_eq(s, "content_filter") {
            Ok(FinishReason::ContentFilter)
        } else {
            Err(UnknownFinishReason(s.to_owned()))
        }
    }
}

/// Token counts of a request and its answer.
#[derive(Debug, Clone, Copy, PartialEq, Eq, Structural)]
pub struct TokenUsage {
    pub prompt: u32,
    pub completion: u32,
}

/// Which log probabilities to return along with the generated tokens.
#[derive(Debug, Clone, Copy, PartialEq, Eq, Structural)]
pub enum Logprobs {
    /// Do not return any logprobs
    No,
    /// Return only the logprob of the tokens which have actually been sampled into the completion.
    Sampled,
    /// Request between 0 and 20 tokens
    Top(u8),
}

impl Default for Logprobs {
    fn default() -> (r: Logprobs)
        ensures
            r == Logprobs::No,
    {
        Logprobs::No
    }
}

/// At which granularity should the target be explained in terms of the prompt.
#[derive(Debug, Clone, Copy, PartialEq, Eq, Structural)]
pub enum Granularity {
    /// Let the system decide which granularity is most suitable for the given input.
    Auto,
    Word,
    Sentence,
    Paragraph,
}

/// A request to explain which parts of the prompt led to the target.
#[derive(Debug, Clone)]
pub struct ExplanationRequest {
    /// The prompt that typically was the input of a previous completion request
    pub prompt: String,
    /// The target string that should be explained.
    pub target: String,
    pub model: String,
    /// The granularity of the parts of the prompt for which a single score is computed.
    pub granularity: Granularity,
}

/// How much effort a reasoning model spends on thinking.
#[derive(Debug, Clone, Copy, PartialEq, Eq, Structural)]
pub enum ReasoningEffort {
    Minimal,
    Low,
    Medium,
    High,
}

/// Whether and which tool the model must call.
#[derive(Debug, Clone, PartialEq, Eq)]
pub enum ToolChoice {
    /// The model must not call any tool.
    NoTool,
    Auto,
    Required,
    Named(String),
}

/// A function that the model may call.
#[derive(Debug, Clone, PartialEq, Eq)]
pub struct Function {
    pub name: String,
    pub description: Option<String>,
    /// The JSON schema of the arguments, as JSON text. Nothing checks that it is JSON before the
    /// request is offered to a backend.
    pub parameters: Option<Vec<u8>>,
    pub strict: Option<bool>,
}

/// A JSON schema that the answer of the model must follow.
#[derive(Debug, Clone, PartialEq, Eq)]
pub struct JsonSchema {
    pub name: String,
    pub description: Option<String>,
    /// The schema itself, as JSON text.
    pub schema: Option<Vec<u8>>,
    pub strict: Option<bool>,
}

/// The form the answer of the model must take.
#[derive(Debug, Clone, PartialEq, Eq)]
pub enum ResponseFormat {
    Text,
    JsonObject,
    JsonSchema(JsonSchema),
}

/// The parameters of a chat request that decide what the backend is asked for. The sampling
/// parameters (temperature, top p and the frequency and presence penalties) are floating point
/// numbers; they travel beside this value, from the skill to the HTTP client, and are not held
/// here.
#[derive(Debug, PartialEq, Eq)]
pub struct ChatParams {
    pub max_tokens: Option<u32>,
    pub max_completion_tokens: Option<u32>,
    pub logprobs: Logprobs,
    pub tools: Option<Vec<Function>>,
    pub tool_choice: Option<ToolChoice>,
    pub parallel_tool_calls: Option<bool>,
    pub response_format: Option<ResponseFormat>,
    pub reasoning_effort: Option<ReasoningEffort>,
}

impl Default for ChatParams {
    fn default() -> (p: ChatParams)
        ensures
            p.max_tokens is None,
            p.max_completion_tokens is None,
            p.logprobs == Logprobs::No,
            p.tools is None,
            p.tool_choice is None,
            p.parallel_tool_calls is None,
            p.response_format is None,
            p.reasoning_effort is None,
    {
        ChatParams {
            max_tokens: None,
            max_completion_tokens: None,
            logprobs: Logprobs::No,
            tools: None,
            tool_choice: None,
            parallel_tool_calls: None,
            response_format: None,
            reasoning_effort: None,
        }
    }
}

/// The parameters of a completion request that decide what the backend is asked for. The
/// sampling parameters (temperature, top p and the frequency and presence penalties) are floating
/// point numbers; they travel beside this value and are not held here.
#[derive(Debug, Clone, PartialEq, Eq)]
pub struct CompletionParams {
    pub return_special_tokens: bool,
    pub max_tokens: Option<u32>,
    pub top_k: Option<u32>,
    pub stop: Vec<String>,
    pub logprobs: Logprobs,
    pub echo: bool,
}

impl Default for CompletionParams {
    fn default() -> (p: CompletionParams)
        ensures
            !p.return_special_tokens,
            p.max_tokens is None,
            p.top_k is None,
            p.stop@ == Seq::<String>::empty(),
            p.logprobs == Logprobs::No,
            !p.echo,
    {
        CompletionParams {
            return_special_tokens: false,
            max_tokens: None,
            top_k: None,
            stop: Vec::new(),
            logprobs: Logprobs::No,
            echo: false,
        }
    }
}

/// A completion request: the prompt, the model and the parameters.
#[derive(Debug, Clone, PartialEq, Eq)]
pub struct CompletionRequest {
    pub prompt: String,
    pub model: String,
    pub params: CompletionParams,
}

impl CompletionRequest {
    /// A request to complete `prompt` with `model`, with the default parameters.
    pub fn new(prompt: String, model: String) -> (r: CompletionRequest)
        ensures
            r.prompt == prompt,
            r.model == model,
            !r.params.return_special_tokens,
            r.params.max_tokens is None,
            r.params.top_k is None,
            r.params.stop@ == Seq::<String>::empty(),
            r.params.logprobs == Logprobs::No,
            !r.params.echo,
    {
        CompletionRequest { prompt, model, params: CompletionParams::default() }
    }

    /// The same request with other parameters.
    pub fn with_params(self, params: CompletionParams) -> (r: CompletionRequest)
        ensures
            r.prompt == self.prompt,
            r.model == self.model,
            r.params == params,
    {
        CompletionRequest { params, ..self }
    }
}

/// A chat request: the model, the conversation so far and the parameters.
#[derive(Debug, PartialEq, Eq)]
pub struct ChatRequest {
    pub model: String,
    pub messages: Vec<Message>,
    pub params: ChatParams,
}

/// A tool call as requested by the model.
#[derive(Debug, Clone, PartialEq, Eq)]
pub struct ToolCall {
    pub id: String,
    /// The name of the function to call.
    pub name: String,
    /// The arguments to call the function with, as generated by the model in JSON format.
    pub arguments: String,
}

/// A piece of a tool call, as it arrives in a stream.
#[derive(Debug, Clone, PartialEq, Eq)]
pub struct ToolCallChunk {
    /// The index of the tool call in the list of tool calls.
    pub index: u32,
    /// The ID of the tool call.
    pub id: Option<String>,
    /// The name of the tool to call.
    pub name: Option<String>,
    /// The arguments to call the function with, as generated by the model in JSON format.
    pub arguments: Option<String>,
}

/// A message written by the model.
#[derive(Debug, Clone, PartialEq, Eq)]
pub struct AssistantMessage {
    pub content: Option<String>,
    pub reasoning_content: Option<String>,
    pub tool_calls: Option<Vec<ToolCall>>,
}

/// The answer of a tool, handed back to the model.
#[derive(Debug, Clone, PartialEq, Eq)]
pub struct ToolMessage {
    pub content: String,
    pub tool_call_id: String,
}

/// A message of a chat conversation.
#[derive(Debug, Clone, PartialEq, Eq)]
pub enum Message {
    Assistant(AssistantMessage),
    Tool(ToolMessage),
    /// A system, developer or user message.
    Other { role: String, content: String },
}

/// Message format expected by the `OTel GenAI` semantic convention.
#[derive(Debug, Clone, PartialEq, Eq)]
pub struct OTelMessage {
    pub role: String,
    pub content: String,
}

/// The content of an optional string, the empty sequence where there is none.
pub open spec fn content_or_empty(s: Option<String>) -> Seq<char> {
    match s {
        Some(c) => c@,
        None => Seq::empty(),
    }
}

fn clone_or_empty(s: &Option<String>) -> (r: String)
    ensures
        r@ == content_or_empty(*s),
{
    match s {
        Some(c) => c.clone(),
        None => String::new(),
    }
}

impl AssistantMessage {
    /// The role that messages written by the model carry.
    pub fn role() -> (r: &'static str)
        ensures
            r@ == "assistant"@,
    {
        "assistant"
    }

    /// This message in the form recorded in traces: its content, empty where there is none.
    pub fn as_otel_message(&self) -> (m: OTelMessage)
        ensures
            m.role@ == "assistant"@,
            m.content@ == content_or_empty(self.content),
    {
        OTelMessage { role: "assistant".to_owned(), content: clone_or_empty(&self.content) }
    }
}

impl Message {
    /// A system message with the given content.
    pub fn system(content: String) -> (m: Message)
        ensures
            m matches Message::Other { role, content: c } && role@ == "system"@ && c == content,
    {
        Message::Other { role: "system".to_owned(), content }
    }

    /// A user message with the given content.
    pub fn user(content: String) -> (m: Message)
        ensures
            m matches Message::Other { role, content: c } && role@ == "user"@ && c == content,
    {
        Message::Other { role: "user".to_owned(), content }
    }

    /// This message in the form recorded in traces.
    pub fn as_otel_message(&self) -> (m: OTelMessage)
        ensures
            match self {
                Message::Assistant(a) => m.role@ == "assistant"@ && m.content@ == content_or_empty(
                    a.content,
                ),
                Message::Tool(t) => m.role@ == "tool"@ && m.content@ == t.content@,
                Message::Other { role, content } => m.role@ == role@ && m.content@ == content@,
            },
    {
        match self {
            Message::Assistant(message) => OTelMessage {
                role: "assistant".to_owned(),
                content: clone_or_empty(&message.content),
            },
            Message::Tool(message) => OTelMessage {
                role: "tool".to_owned(),
                content: message.content.clone(),
            },
            Message::Other { role, content } => OTelMessage {
                role: role.clone(),
                content: content.clone(),
            },
        }
    }
}

/// Reasoning content merged in front of the content, delimited by the reasoning tags.
pub open spec fn spec_prepend_reasoning(content: Seq<char>, reasoning: Option<Seq<char>>) -> Seq<
    char,
> {
    match reasoning {
        Some(r) => think_open() + r + think_close() + content,
        None => content,
    }
}

/// Merge reasoning content with the assistant message content, for consumers that do not know
/// about reasoning.
pub fn prepend_reasoning_content(content: String, reasoning_content: Option<String>) -> (r: String)
    ensures
        r@ == spec_prepend_reasoning(
            content@,
            match reasoning_content {
                Some(x) => Some(x@),
                None => None,
            },
        ),
{
    match reasoning_content {
        Some(reasoning) => {
            let mut merged = String::new();
            merged.append(think_open_tag());
            merged.append(reasoning.as_str());
            merged.append(think_close_tag());
            merged.append(content.as_str());
            merged
        },
        None => content,
    }
}

/// An event of a chat stream.
#[derive(Debug, Clone, PartialEq, Eq)]
pub enum ChatEvent {
    MessageBegin { role: String },
    /// A piece of the message, generated by the model.
    MessageAppend { content: String },
    /// The last chunk of a chat completion stream.
    MessageEnd { finish_reason: FinishReason },
    /// Summary of the chat completion stream.
    Usage { usage: TokenUsage },
    ToolCall(Vec<ToolCallChunk>),
}

/// Errors of inference requests.
#[derive(Debug, Clone, PartialEq, Eq)]
pub enum InferenceError {
    Unauthorized,
    /// The skill asked for a model that the backend does not know.
    ModelNotFound,
    /// No inference backend is configured.
    NotConfigured,
    /// The Aleph Alpha inference needs a token, and the request carried none.
    AlephAlphaTokenRequired,
    /// The backend answered without content although no tools were specified.
    EmptyContent,
    /// The backend does not support this role.
    RoleNotSupported(String),
    /// The backend called a tool although no tools were specified.
    UnexpectedToolCall,
    /// Any other error, with its message.
    Other(String),
}

/// The text of an inference error, as skills and users see it.
pub open spec fn spec_inference_error_message(e: InferenceError) -> Seq<char> {
    match e {
        InferenceError::Unauthorized => "Unauthorized"@,
        InferenceError::ModelNotFound => "The Skill tried to access a model that was not found. Please check the provided model name. You can query the list of available models at the `models` endpoint of the inference API. If you believe the model should be available, contact the operator of your PhariaAI instance."@,
        InferenceError::NotConfigured => "No inference backend configured. The Kernel is running without inference capabilities. To enable inference capabilities, please ask your operator to configure the Inference URL in the Kernel configuration."@,
        InferenceError::AlephAlphaTokenRequired => "Doing an inference request against the Aleph Alpha inference API requires a PhariaAI token. Please provide a valid token in the Authorization header."@,
        InferenceError::EmptyContent => "The inference backend returned a message with an empty content while no tools were specified in the request. For such responses, we expect a content and no tool calls. This seems to be a bug with the configured inference backend."@,
        InferenceError::UnexpectedToolCall => "The inference backend returned a tool call, even though no tools were specified in the chat request. This is likely a bug with the inference backend. Please report this issue to the operator of your PhariaAI instance."@,
        InferenceError::RoleNotSupported(role) => "The role "@ + role@
            + " is not supported by the inference backend. Currently, supported roles are `user`, `assistant`, `system` and `tool`."@,
        InferenceError::Other(m) => m@,
    }
}

impl InferenceError {
    /// The text of this error, as skills and users see it.
    pub fn message(&self) -> (m: String)
        ensures
            m@ == spec_inference_error_message(*self),
    {
        match self {
            InferenceError::Unauthorized => String::from_str(
                "Unauthorized",
            ),
            InferenceError::ModelNotFound => String::from_str(
                "The Skill tried to access a model that was not found. Please check the provided model name. You can query the list of available models at the `models` endpoint of the inference API. If you believe the model should be available, contact the operator of your PhariaAI instance.",
            ),
            InferenceError::NotConfigured => String::from_str(
                "No inference backend configured. The Kernel is running without inference capabilities. To enable inference capabilities, please ask your operator to configure the Inference URL in the Kernel configuration.",
            ),
            InferenceError::AlephAlphaTokenRequired => String::from_str(
                "Doing an inference request against the Aleph Alpha inference API requires a PhariaAI token. Please provide a valid token in the Authorization header.",
            ),
            InferenceError::EmptyContent => String::from_str(
                "The inference backend returned a message with an empty content while no tools were specified in the request. For such responses, we expect a content and no tool calls. This seems to be a bug with the configured inference backend.",
            ),
            InferenceError::UnexpectedToolCall => String::from_str(
                "The inference backend returned a tool call, even though no tools were specified in the chat request. This is likely a bug with the inference backend. Please report this issue to the operator of your PhariaAI instance.",
            ),
            InferenceError::RoleNotSupported(role) => {
                let mut m = String::from_str("The role ");
                m.append(role.as_str());
                m.append(
                    " is not supported by the inference backend. Currently, supported roles are `user`, `assistant`, `system` and `tool`.",
                );
                m
            },
            InferenceError::Other(m) => m.clone(),
        }
    }
}

/// The answer of a chat request.
#[derive(Debug, Clone, PartialEq, Eq)]
pub struct ChatResponse {
    pub message: AssistantMessage,
    pub finish_reason: FinishReason,
    pub usage: TokenUsage,
}

/// Where no tools were specified in the request, a chat response must have content and must not
/// end in a tool call.
pub fn validate_chat_response(tools_specified: bool, response: &ChatResponse) -> (r: Result<(), InferenceError>)
    ensures
        r == (if !tools_specified && response.message.content is None {
            Err(InferenceError::EmptyContent)
        } else if !tools_specified && response.finish_reason == FinishReason::ToolCalls {
            Err(InferenceError::UnexpectedToolCall)
        } else {
            Ok(())
        }),
{
    if !tools_specified {
        if response.message.content.is_none() {
            return Err(InferenceError::EmptyContent);
        }
        if response.finish_reason == FinishReason::ToolCalls {
            return Err(InferenceError::UnexpectedToolCall);
        }
    }
    Ok(())
}

/// Where no tools were specified in the request, a chat stream must neither call a tool nor end
/// for a tool call.
pub fn validate_chat_event(tools_specified: bool, event: &ChatEvent) -> (r: Result<(), InferenceError>)
    ensures
        r == (if !tools_specified && (event is ToolCall || event matches ChatEvent::MessageEnd {
            finish_reason: FinishReason::ToolCalls,
        }) {
            Err(InferenceError::UnexpectedToolCall)
        } else {
            Ok(())
        }),
{
    if !tools_specified {
        match event {
            ChatEvent::ToolCall(_) => {
                return Err(InferenceError::UnexpectedToolCall);
            },
            ChatEvent::MessageEnd { finish_reason: FinishReason::ToolCalls } => {
                return Err(InferenceError::UnexpectedToolCall);
            },
            _ => {},
        }
    }
    Ok(())
}

/// The token that requests to the Aleph Alpha inference are made with: that of the request's
/// authentication, which the Aleph Alpha inference requires.
pub fn aleph_alpha_api_token(auth: crate::authorization::Authentication) -> (r: Result<String, InferenceError>)
    ensures
        match auth.0 {
            Some(t) => r == Ok::<String, InferenceError>(t),
            None => r == Err::<String, InferenceError>(InferenceError::AlephAlphaTokenRequired),
        },
{
    match auth.into_maybe_string() {
        Some(t) => Ok(t),
        None => Err(InferenceError::AlephAlphaTokenRequired),
    }
}

/// The kinds of failure of the Aleph Alpha client.
#[derive(Debug, Clone, PartialEq, Eq)]
pub enum ClientFailure {
    Busy,
    Unavailable,
    TooManyRequests,
    /// An HTTP error with its status code and message.
    Http { status: u16, message: String },
    ModelNotFound,
    /// Any other failure, with its message.
    Other(String),
}

/// The most retries of a request that failed for a passing reason.
pub open spec fn max_retries() -> u32 {
    5
}

/// Is it worth retrying a request that failed this way, after `past_retries` retries? Only a
/// busy or unavailable backend, or too many requests, pass; each request is retried at most five
/// times.
pub open spec fn spec_should_retry(failure: ClientFailure, past_retries: u32) -> bool {
    (failure is Busy || failure is Unavailable || failure is TooManyRequests) && past_retries < max_retries()
}

/// Is it worth retrying a request that failed this way, after `past_retries` retries? The wait
/// before the retry grows exponentially and is measured outside this crate.
pub fn should_retry(failure: &ClientFailure, past_retries: u32) -> (r: bool)
    ensures
        r == spec_should_retry(*failure, past_retries),
{
    let passing = match failure {
        ClientFailure::Busy | ClientFailure::Unavailable | ClientFailure::TooManyRequests => true,
        _ => false,
    };
    passing && past_retries < 5
}

/// The inference error for a failure of the Aleph Alpha client, given the failure rendered as
/// text by the client: status 401 is unauthorized, an unknown model is reported as such, and
/// every other failure is passed on with the client's own text.
pub fn inference_error_from_client(failure: ClientFailure, rendered: &str) -> (e: InferenceError)
    ensures
        match failure {
            ClientFailure::Http { status, .. } if status == 401 => e == InferenceError::Unauthorized,
            ClientFailure::ModelNotFound => e == InferenceError::ModelNotFound,
            _ => e matches InferenceError::Other(m) && m@ == rendered@,
        },
{
    match failure {
        ClientFailure::Http { status, .. } if status == 401 => InferenceError::Unauthorized,
        ClientFailure::ModelNotFound => InferenceError::ModelNotFound,
        _ => InferenceError::Other(rendered.to_owned()),
    }
}

/// Provider configuration for the inference backend.
#[derive(Debug, Clone, PartialEq, Eq)]
pub enum InferenceProvider {
    /// Use the Aleph Alpha inference API.
    AlephAlpha { url: String },
    /// Use any OpenAI-compatible inference. Only chat requests are supported.
    OpenAi { url: String, token: String },
    /// No inference backend; inference requests fail.
    NotConfigured,
}

/// Configuration for the inference backend that is used.
#[derive(Debug, Clone, PartialEq, Eq)]
pub struct InferenceConfig {
    /// The inference provider to use
    pub provider: InferenceProvider,
    /// Whether to capture prompts and completions in traces
    pub gen_ai_content_capture: bool,
}

/// The inference client of an installation without inference backend: every request fails.
pub struct InferenceNotConfigured;

impl InferenceNotConfigured {
    /// Completion requests fail.
    pub fn complete(&self) -> (r: Result<String, InferenceError>)
        ensures
            r == Err::<String, InferenceError>(InferenceError::NotConfigured),
    {
        Err(InferenceError::NotConfigured)
    }

    /// Chat requests fail.
    pub fn chat(&self) -> (r: Result<ChatResponse, InferenceError>)
        ensures
            r == Err::<ChatResponse, InferenceError>(InferenceError::NotConfigured),
    {
        Err(InferenceError::NotConfigured)
    }

    /// Explanation requests fail.
    pub fn explain(&self) -> (r: Result<Vec<u32>, InferenceError>)
        ensures
            r == Err::<Vec<u32>, InferenceError>(InferenceError::NotConfigured),
    {
        Err(InferenceError::NotConfigured)
    }
}

/// The configuration of requests to the Aleph Alpha inference: its base URL and the token.
#[derive(Debug, Clone, PartialEq, Eq)]
pub struct AlephAlphaConfig {
    pub api_base: String,
    pub token: String,
}

impl AlephAlphaConfig {
    /// The configuration for `api_base` and `token`.
    pub fn new(api_base: String, token: String) -> (c: AlephAlphaConfig)
        ensures
            c.api_base == api_base,
            c.token == token,
    {
        AlephAlphaConfig { api_base, token }
    }

    /// The URL of the endpoint at `path`.
    pub fn url(&self, path: &str) -> (u: String)
        ensures
            u@ == self.api_base@ + path@,
    {
        let mut u = self.api_base.clone();
        u.append(path);
        u
    }

    /// The value of the authorization header.
    pub fn authorization_header(&self) -> (h: String)
        ensures
            h@ == "Bearer "@ + self.token@,
    {
        let mut h = "Bearer ".to_owned();
        h.append(self.token.as_str());
        h
    }

    /// The query parameters of every request: none.
    pub fn query(&self) -> (q: Vec<(String, String)>)
        ensures
            q.len() == 0,
    {
        Vec::new()
    }
}

} // verus!
