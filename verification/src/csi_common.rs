//! Values that the HTTP shells of the CSI send back, shared by all versions, and the names of
//! the server-sent events of completion streams.
use vstd::prelude::*;

use crate::inference;

verus! {

/// Why the model stopped generating tokens, as the shell reports it.
#[derive(Debug, Clone, Copy, PartialEq, Eq, Structural)]
pub enum FinishReason {
    Stop,
    Length,
    ContentFilter,
    ToolCalls,
}

impl FinishReason {
    /// The shell's finish reason of the same name.
    pub fn from_inference(value: inference::FinishReason) -> (r: FinishReason)
        ensures
            match value {
                inference::FinishReason::Stop => r == FinishReason::Stop,
                inference::FinishReason::Length => r == FinishReason::Length,
                inference::FinishReason::ContentFilter => r == FinishReason::ContentFilter,
                inference::FinishReason::ToolCalls => r == FinishReason::ToolCalls,
            },
    {
        match value {
            inference::FinishReason::Stop => FinishReason::Stop,
            inference::FinishReason::Length => FinishReason::Length,
            inference::FinishReason::ContentFilter => FinishReason::ContentFilter,
            inference::FinishReason::ToolCalls => FinishReason::ToolCalls,
        }
    }

    /// The name of the finish reason in JSON.
    pub fn as_str(&self) -> (s: &'static str)
        ensures
            s@ == match self {
                FinishReason::Stop => "stop"@,
                FinishReason::Length => "length"@,
                FinishReason::ContentFilter => "content_filter"@,
                FinishReason::ToolCalls => "tool_calls"@,
            },
    {
        match self {
            FinishReason::Stop => "stop",
            FinishReason::Length => "length",
            FinishReason::ContentFilter => "content_filter",
            FinishReason::ToolCalls => "tool_calls",
        }
    }
}

/// Token counts, as the shell reports them.
#[derive(Debug, Clone, Copy, PartialEq, Eq, Structural)]
pub struct TokenUsage {
    pub prompt: u32,
    pub completion: u32,
}

impl TokenUsage {
    /// The shell's token counts of the engine's.
    pub fn from_inference(value: inference::TokenUsage) -> (r: TokenUsage)
        ensures
            r.prompt == value.prompt,
            r.completion == value.completion,
    {
        TokenUsage { prompt: value.prompt, completion: value.completion }
    }
}

/// An error reported in a stream of server-sent events.
#[derive(Debug, Clone, PartialEq, Eq)]
pub struct SseErrorEvent {
    pub message: String,
}

/// An event of a completion stream.
#[derive(Debug, Clone, PartialEq, Eq)]
pub enum CompletionEvent {
    /// A piece of the completion.
    Append { text: String },
    /// The end of the completion.
    End { finish_reason: inference::FinishReason },
    /// The token counts of the completion.
    Usage { usage: inference::TokenUsage },
}

/// The name of the server-sent event for an event of a completion stream: `append`, `end` or
/// `usage`.
pub fn completion_event_name(event: &CompletionEvent) -> (name: &'static str)
    ensures
        name@ == match event {
            CompletionEvent::Append { .. } => "append"@,
            CompletionEvent::End { .. } => "end"@,
            CompletionEvent::Usage { .. } => "usage"@,
        },
{
    match event {
        CompletionEvent::Append { .. } => "append",
        CompletionEvent::End { .. } => "end",
        CompletionEvent::Usage { .. } => "usage",
    }
}

/// The name of the server-sent event for an event of a chat stream: `message_begin`,
/// `message_append`, `message_end`, `usage` or `tool_call`.
pub fn chat_event_name(event: &inference::ChatEvent) -> (name: &'static str)
    ensures
        name@ == match event {
            inference::ChatEvent::MessageBegin { .. } => "message_begin"@,
            inference::ChatEvent::MessageAppend { .. } => "message_append"@,
            inference::ChatEvent::MessageEnd { .. } => "message_end"@,
            inference::ChatEvent::Usage { .. } => "usage"@,
            inference::ChatEvent::ToolCall(..) => "tool_call"@,
        },
{
    match event {
        inference::ChatEvent::MessageBegin { .. } => "message_begin",
        inference::ChatEvent::MessageAppend { .. } => "message_append",
        inference::ChatEvent::MessageEnd { .. } => "message_end",
        inference::ChatEvent::Usage { .. } => "usage",
        inference::ChatEvent::ToolCall(..) => "tool_call",
    }
}

} // verus!
