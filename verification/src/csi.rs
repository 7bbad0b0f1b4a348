//! Identifiers of the streams a skill opens through the CSI, and the context that binds a skill
//! invocation's namespace and token to every CSI call it makes.
use vstd::prelude::*;

use crate::logging::TracingContext;
use crate::namespace::Namespace;

verus! {

/// Identifies a completion stream that a skill opened.
#[derive(Debug, Clone, Copy, PartialEq, Eq, Hash, Structural)]
pub struct CompletionStreamId(pub usize);

impl CompletionStreamId {
    /// The stream with the given number.
    pub fn new(id: usize) -> (s: CompletionStreamId)
        ensures
            s.0 == id,
    {
        CompletionStreamId(id)
    }
}

impl From<usize> for CompletionStreamId {
    fn from(id: usize) -> (s: CompletionStreamId) {
        CompletionStreamId(id)
    }
}

impl vstd::std_specs::convert::FromSpecImpl<usize> for CompletionStreamId {
    open spec fn obeys_from_spec() -> bool {
        true
    }

    open spec fn from_spec(id: usize) -> CompletionStreamId {
        CompletionStreamId(id)
    }
}

/// Identifies a chat stream that a skill opened.
#[derive(Debug, Clone, Copy, PartialEq, Eq, Hash, Structural)]
pub struct ChatStreamId(pub usize);

impl ChatStreamId {
    /// The stream with the given number.
    pub fn new(id: usize) -> (s: ChatStreamId)
        ensures
            s.0 == id,
    {
        ChatStreamId(id)
    }
}

impl From<usize> for ChatStreamId {
    fn from(id: usize) -> (s: ChatStreamId) {
        ChatStreamId(id)
    }
}

impl vstd::std_specs::convert::FromSpecImpl<usize> for ChatStreamId {
    open spec fn obeys_from_spec() -> bool {
        true
    }

    open spec fn from_spec(id: usize) -> ChatStreamId {
        ChatStreamId(id)
    }
}

/// Binds the namespace of the invoked skill, the token of the invocation and its tracing context
/// to the CSI drivers `R`, so that every call the skill makes carries them.
pub struct InvocationContext<R> {
    pub raw_csi: R,
    pub namespace: Namespace,
    pub api_token: String,
    pub tracing_context: TracingContext,
}

impl<R> InvocationContext<R> {
    /// The context of one invocation.
    pub fn new(raw_csi: R, namespace: Namespace, api_token: String, tracing_context: TracingContext) -> (c:
        InvocationContext<R>)
        ensures
            c.raw_csi == raw_csi,
            c.namespace == namespace,
            c.api_token == api_token,
            c.tracing_context == tracing_context,
    {
        InvocationContext { raw_csi, namespace, api_token, tracing_context }
    }
}

} // verus!
