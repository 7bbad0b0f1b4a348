//! Requests of the CSI over HTTP in version 0.3, and their conversion to the engine's own types.
use vstd::prelude::*;

use crate::chunking;
use crate::inference;
use crate::language;
use crate::search;

verus! {

/// At which granularity the target is explained in terms of the prompt.
#[derive(Debug, Clone, Copy, PartialEq, Eq, Structural)]
pub enum Granularity {
    Auto,
    Word,
    Sentence,
    Paragraph,
}

/// The engine's granularity of the same name.
pub open spec fn spec_granularity(g: Granularity) -> inference::Granularity {
    match g {
        Granularity::Auto => inference::Granularity::Auto,
        Granularity::Word => inference::Granularity::Word,
        Granularity::Sentence => inference::Granularity::Sentence,
        Granularity::Paragraph => inference::Granularity::Paragraph,
    }
}

impl Granularity {
    /// The engine's granularity of the same name.
    pub fn into_inference(self) -> (g: inference::Granularity)
        ensures
            g == spec_granularity(self),
    {
        match self {
            Granularity::Auto => inference::Granularity::Auto,
            Granularity::Word => inference::Granularity::Word,
            Granularity::Sentence => inference::Granularity::Sentence,
            Granularity::Paragraph => inference::Granularity::Paragraph,
        }
    }
}

/// A request to explain a target in terms of a prompt.
#[derive(Debug, Clone, PartialEq, Eq)]
pub struct ExplainRequest {
    pub prompt: String,
    pub target: String,
    pub model: String,
    pub granularity: Granularity,
}

impl ExplainRequest {
    /// The engine's explanation request.
    pub fn into_inference(self) -> (r: inference::ExplanationRequest)
        ensures
            r == (inference::ExplanationRequest {
                prompt: self.prompt,
                target: self.target,
                model: self.model,
                granularity: spec_granularity(self.granularity),
            }),
    {
        inference::ExplanationRequest {
            prompt: self.prompt,
            target: self.target,
            model: self.model,
            granularity: self.granularity.into_inference(),
        }
    }
}

/// The address of a document.
#[derive(Debug, Clone, PartialEq, Eq)]
pub struct DocumentPath {
    pub namespace: String,
    pub collection: String,
    pub name: String,
}

impl DocumentPath {
    /// The engine's address of the same document.
    pub fn into_search(self) -> (p: search::DocumentPath)
        ensures
            p == (search::DocumentPath { namespace: self.namespace, collection: self.collection, name: self.name }),
    {
        search::DocumentPath { namespace: self.namespace, collection: self.collection, name: self.name }
    }

    /// The shell's address of an engine document.
    pub fn from_search(p: search::DocumentPath) -> (r: DocumentPath)
        ensures
            r == (DocumentPath { namespace: p.namespace, collection: p.collection, name: p.name }),
    {
        DocumentPath { namespace: p.namespace, collection: p.collection, name: p.name }
    }
}

/// A chat message: a role and a content.
#[derive(Debug, Clone, PartialEq, Eq)]
pub struct Message {
    pub role: String,
    pub content: String,
}

impl Message {
    /// The engine's message with the same role and content.
    pub fn into_inference(self) -> (m: inference::Message)
        ensures
            m == (inference::Message::Other { role: self.role, content: self.content }),
    {
        inference::Message::Other { role: self.role, content: self.content }
    }
}

/// The address of a search index.
#[derive(Debug, Clone, PartialEq, Eq)]
pub struct IndexPath {
    pub namespace: String,
    pub collection: String,
    pub index: String,
}

impl IndexPath {
    /// The engine's address of the same index.
    pub fn into_search(self) -> (p: search::IndexPath)
        ensures
            p == (search::IndexPath { namespace: self.namespace, collection: self.collection, index: self.index }),
    {
        search::IndexPath { namespace: self.namespace, collection: self.collection, index: self.index }
    }
}

/// A value of a metadata field that search results can be filtered by.
#[derive(Debug, Clone, PartialEq, Eq)]
pub enum MetadataFieldValue {
    String(String),
    Integer(i64),
    Boolean(bool),
}

impl MetadataFieldValue {
    /// The engine's value of the same kind and content.
    pub fn into_search(self) -> (v: search::MetadataFieldValue)
        ensures
            match self {
                MetadataFieldValue::String(s) => v == search::MetadataFieldValue::String(s),
                MetadataFieldValue::Integer(i) => v == search::MetadataFieldValue::Integer(i),
                MetadataFieldValue::Boolean(b) => v == search::MetadataFieldValue::Boolean(b),
            },
    {
        match self {
            MetadataFieldValue::String(s) => search::MetadataFieldValue::String(s),
            MetadataFieldValue::Integer(i) => search::MetadataFieldValue::Integer(i),
            MetadataFieldValue::Boolean(b) => search::MetadataFieldValue::Boolean(b),
        }
    }
}

/// How to split a text.
#[derive(Debug, Clone, PartialEq, Eq)]
pub struct ChunkParams {
    pub model: String,
    pub max_tokens: u32,
    pub overlap: u32,
}

impl ChunkParams {
    /// The engine's chunking parameters.
    pub fn into_chunking(self) -> (p: chunking::ChunkParams)
        ensures
            p == (chunking::ChunkParams { model: self.model, max_tokens: self.max_tokens, overlap: self.overlap }),
    {
        chunking::ChunkParams { model: self.model, max_tokens: self.max_tokens, overlap: self.overlap }
    }
}

/// A request to split a text.
#[derive(Debug, Clone, PartialEq, Eq)]
pub struct ChunkRequest {
    pub text: String,
    pub params: ChunkParams,
}

impl ChunkRequest {
    /// The engine's chunking request, without character offsets.
    pub fn into_chunking(self) -> (r: chunking::ChunkRequest)
        ensures
            r == (chunking::ChunkRequest {
                text: self.text,
                params: chunking::ChunkParams {
                    model: self.params.model,
                    max_tokens: self.params.max_tokens,
                    overlap: self.params.overlap,
                },
                character_offsets: false,
            }),
    {
        chunking::ChunkRequest { text: self.text, params: self.params.into_chunking(), character_offsets: false }
    }
}

/// A request to split a text that may ask for character offsets.
#[derive(Debug, Clone, PartialEq, Eq)]
pub struct ChunkWithOffsetRequest {
    pub text: String,
    pub params: ChunkParams,
    pub character_offsets: bool,
}

impl ChunkWithOffsetRequest {
    /// The engine's chunking request.
    pub fn into_chunking(self) -> (r: chunking::ChunkRequest)
        ensures
            r == (chunking::ChunkRequest {
                text: self.text,
                params: chunking::ChunkParams {
                    model: self.params.model,
                    max_tokens: self.params.max_tokens,
                    overlap: self.params.overlap,
                },
                character_offsets: self.character_offsets,
            }),
    {
        chunking::ChunkRequest {
            text: self.text,
            params: self.params.into_chunking(),
            character_offsets: self.character_offsets,
        }
    }
}

/// A language, by its ISO 639-3 code.
#[derive(Debug, Clone, PartialEq, Eq)]
pub struct Language(pub String);

impl Language {
    /// The engine's language of the same code.
    pub fn into_language(self) -> (l: language::Language)
        ensures
            l.0 == self.0,
    {
        language::Language(self.0)
    }

    /// The shell's language of the same code.
    pub fn from_language(l: language::Language) -> (r: Language)
        ensures
            r.0 == l.0,
    {
        Language(l.0)
    }
}

/// A request to select the language of a text.
#[derive(Debug, Clone, PartialEq, Eq)]
pub struct SelectLanguageRequest {
    pub text: String,
    pub languages: Vec<Language>,
}

impl SelectLanguageRequest {
    /// The engine's request with the same text and languages, in order.
    pub fn into_language(self) -> (r: language::SelectLanguageRequest)
        ensures
            r.text == self.text,
            r.languages.len() == self.languages.len(),
            forall|i: int| 0 <= i < self.languages.len() ==> #[trigger] r.languages@[i].0 == self.languages@[i].0,
    {
        let SelectLanguageRequest { text, languages } = self;
        let ghost initial = languages@;
        let mut pending = languages;
        let mut result: Vec<language::Language> = Vec::new();
        let n = pending.len();
        let mut i: usize = 0;
        while i < n
            invariant
                n == initial.len(),
                i <= n,
                pending@ == initial.subrange(i as int, n as int),
                result.len() == i,
                forall|k: int| 0 <= k < i ==> #[trigger] result@[k].0 == initial[k].0,
            decreases n - i,
        {
            let l = pending.remove(0);
            result.push(l.into_language());
            i = i + 1;
        }
        language::SelectLanguageRequest { text, languages: result }
    }
}

/// Which log probabilities to return.
#[derive(Debug, Clone, Copy, PartialEq, Eq, Structural)]
pub enum Logprobs {
    No,
    Sampled,
    Top(u8),
}

impl Logprobs {
    /// The engine's choice of the same kind.
    pub fn into_inference(self) -> (l: inference::Logprobs)
        ensures
            match self {
                Logprobs::No => l == inference::Logprobs::No,
                Logprobs::Sampled => l == inference::Logprobs::Sampled,
                Logprobs::Top(n) => l == inference::Logprobs::Top(n),
            },
    {
        match self {
            Logprobs::No => inference::Logprobs::No,
            Logprobs::Sampled => inference::Logprobs::Sampled,
            Logprobs::Top(n) => inference::Logprobs::Top(n),
        }
    }
}

/// The parameters of a chat request of version 0.3, but for the sampling parameters given as
/// floating point numbers, which travel beside them.
#[derive(Debug, Clone, PartialEq, Eq)]
pub struct ChatParams {
    pub max_tokens: Option<u32>,
    pub logprobs: Logprobs,
}

impl ChatParams {
    /// The engine's parameters for these: the maximum number of tokens and the log probabilities;
    /// none of the parameters that later versions added.
    pub fn into_inference(self) -> (p: inference::ChatParams)
        ensures
            p.max_tokens == self.max_tokens,
            p.logprobs == (match self.logprobs {
                Logprobs::No => inference::Logprobs::No,
                Logprobs::Sampled => inference::Logprobs::Sampled,
                Logprobs::Top(n) => inference::Logprobs::Top(n),
            }),
            p.max_completion_tokens is None,
            p.tools is None,
            p.tool_choice is None,
            p.parallel_tool_calls is None,
            p.response_format is None,
            p.reasoning_effort is None,
    {
        inference::ChatParams {
            max_tokens: self.max_tokens,
            logprobs: self.logprobs.into_inference(),
            max_completion_tokens: None,
            tools: None,
            tool_choice: None,
            parallel_tool_calls: None,
            response_format: None,
            reasoning_effort: None,
        }
    }
}

/// A chat request of version 0.3.
#[derive(Debug, Clone, PartialEq, Eq)]
pub struct ChatRequest {
    pub model: String,
    pub messages: Vec<Message>,
    pub params: ChatParams,
}

impl ChatRequest {
    /// The engine's chat request for this one: every message keeps its role and content.
    pub fn into_inference(self) -> (r: inference::ChatRequest)
        ensures
            r.model == self.model,
            r.messages.len() == self.messages.len(),
            forall|i: int|
                0 <= i < self.messages.len() ==> r.messages@[i] == (inference::Message::Other {
                    role: (#[trigger] self.messages@[i]).role,
                    content: self.messages@[i].content,
                }),
            r.params.max_tokens == self.params.max_tokens,
            r.params.logprobs == (match self.params.logprobs {
                Logprobs::No => inference::Logprobs::No,
                Logprobs::Sampled => inference::Logprobs::Sampled,
                Logprobs::Top(n) => inference::Logprobs::Top(n),
            }),
            r.params.max_completion_tokens is None,
            r.params.tools is None,
            r.params.tool_choice is None,
            r.params.parallel_tool_calls is None,
            r.params.response_format is None,
            r.params.reasoning_effort is None,
    {
        let ChatRequest { model, messages, params } = self;
        let ghost initial = messages@;
        let mut pending = messages;
        let mut done: Vec<inference::Message> = Vec::new();
        let n = pending.len();
        let mut i: usize = 0;
        while i < n
            invariant
                n == initial.len(),
                i <= n,
                pending@ == initial.subrange(i as int, n as int),
                done.len() == i,
                forall|k: int| 0 <= k < i ==> done@[k] == (inference::Message::Other {
                    role: (#[trigger] initial[k]).role,
                    content: initial[k].content,
                }),
            decreases n - i,
        {
            let m = pending.remove(0);
            assert(m == initial[i as int]);
            done.push(m.into_inference());
            i = i + 1;
        }
        inference::ChatRequest { model, messages: done, params: params.into_inference() }
    }
}

/// The parameters of a completion request of version 0.3, but for the sampling parameters given as
/// floating point numbers, which travel beside them.
#[derive(Debug, Clone, PartialEq, Eq)]
pub struct CompletionParams {
    pub return_special_tokens: bool,
    pub max_tokens: Option<u32>,
    pub top_k: Option<u32>,
    pub stop: Vec<String>,
    pub logprobs: Logprobs,
}

impl CompletionParams {
    /// The engine's parameters for these: the prompt is not echoed, which version 1
    /// added.
    pub fn into_inference(self) -> (p: inference::CompletionParams)
        ensures
            p.return_special_tokens == self.return_special_tokens,
            p.max_tokens == self.max_tokens,
            p.top_k == self.top_k,
            p.stop == self.stop,
            p.logprobs == (match self.logprobs {
                Logprobs::No => inference::Logprobs::No,
                Logprobs::Sampled => inference::Logprobs::Sampled,
                Logprobs::Top(n) => inference::Logprobs::Top(n),
            }),
            p.echo == false,
    {
        inference::CompletionParams {
            return_special_tokens: self.return_special_tokens,
            max_tokens: self.max_tokens,
            top_k: self.top_k,
            stop: self.stop,
            logprobs: self.logprobs.into_inference(),
            echo: false,
        }
    }
}

/// A completion request of version 0.3.
#[derive(Debug, Clone, PartialEq, Eq)]
pub struct CompletionRequest {
    pub prompt: String,
    pub model: String,
    pub params: CompletionParams,
}

impl CompletionRequest {
    /// The engine's completion request for this one.
    pub fn into_inference(self) -> (r: inference::CompletionRequest)
        ensures
            r.prompt == self.prompt,
            r.model == self.model,
            r.params.return_special_tokens == self.params.return_special_tokens,
            r.params.max_tokens == self.params.max_tokens,
            r.params.top_k == self.params.top_k,
            r.params.stop == self.params.stop,
            r.params.logprobs == (match self.params.logprobs {
                Logprobs::No => inference::Logprobs::No,
                Logprobs::Sampled => inference::Logprobs::Sampled,
                Logprobs::Top(n) => inference::Logprobs::Top(n),
            }),
            r.params.echo == false,
    {
        inference::CompletionRequest {
            prompt: self.prompt,
            model: self.model,
            params: self.params.into_inference(),
        }
    }
}

} // verus!
