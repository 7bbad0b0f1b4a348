//! Requests and responses of the CSI over HTTP in version 0.2, and their conversion to the
//! engine's own types.
use vstd::prelude::*;

use crate::chunking;
use crate::inference::{self, prepend_reasoning_content, spec_prepend_reasoning};
use crate::language;
use crate::search;
use crate::text::str_eq;

verus! {

/// The address of a document.
#[derive(Debug, Clone, PartialEq, Eq)]
pub struct DocumentPath {
    pub namespace: String,
    pub collection: String,
    pub name: String,
}

impl DocumentPath {
    /// The engine's address of the same document.
    pub fn into_search(self) -> (p: search::DocumentPath)
        ensures
            p == (search::DocumentPath { namespace: self.namespace, collection: self.collection, name: self.name }),
    {
        search::DocumentPath { namespace: self.namespace, collection: self.collection, name: self.name }
    }

    /// The shell's address of an engine document.
    pub fn from_search(p: search::DocumentPath) -> (r: DocumentPath)
        ensures
            r == (DocumentPath { namespace: p.namespace, collection: p.collection, name: p.name }),
    {
        DocumentPath { namespace: p.namespace, collection: p.collection, name: p.name }
    }
}

/// The address of a search index.
#[derive(Debug, Clone, PartialEq, Eq)]
pub struct IndexPath {
    pub namespace: String,
    pub collection: String,
    pub index: String,
}

impl IndexPath {
    /// The engine's address of the same index.
    pub fn into_search(self) -> (p: search::IndexPath)
        ensures
            p == (search::IndexPath { namespace: self.namespace, collection: self.collection, index: self.index }),
    {
        search::IndexPath { namespace: self.namespace, collection: self.collection, index: self.index }
    }
}

/// How to split a text; version 0.2 knows no overlap.
#[derive(Debug, Clone, PartialEq, Eq)]
pub struct ChunkParams {
    pub model: String,
    pub max_tokens: u32,
}

impl ChunkParams {
    /// The engine's chunking parameters: chunks do not overlap.
    pub fn into_chunking(self) -> (p: chunking::ChunkParams)
        ensures
            p == (chunking::ChunkParams { model: self.model, max_tokens: self.max_tokens, overlap: 0 }),
    {
        chunking::ChunkParams { model: self.model, max_tokens: self.max_tokens, overlap: 0 }
    }
}

/// A request to split a text.
#[derive(Debug, Clone, PartialEq, Eq)]
pub struct ChunkRequest {
    pub text: String,
    pub params: ChunkParams,
}

impl ChunkRequest {
    /// The engine's chunking request: no overlap and no character offsets.
    pub fn into_chunking(self) -> (r: chunking::ChunkRequest)
        ensures
            r == (chunking::ChunkRequest {
                text: self.text,
                params: chunking::ChunkParams { model: self.params.model, max_tokens: self.params.max_tokens, overlap: 0 },
                character_offsets: false,
            }),
    {
        chunking::ChunkRequest { text: self.text, params: self.params.into_chunking(), character_offsets: false }
    }
}

/// The languages that version 0.2 can select among.
#[derive(Debug, Clone, Copy, PartialEq, Eq, Structural)]
pub enum Language {
    /// English
    Eng,
    /// German
    Deu,
}

/// The ISO 639-3 code of a language of version 0.2.
pub open spec fn language_code(l: Language) -> Seq<char> {
    match l {
        Language::Eng => "eng"@,
        Language::Deu => "deu"@,
    }
}

impl Language {
    /// The engine's language of the same code.
    pub fn into_language(self) -> (l: language::Language)
        ensures
            l.0@ == language_code(self),
    {
        match self {
            Language::Eng => language::Language("eng".to_owned()),
            Language::Deu => language::Language("deu".to_owned()),
        }
    }

    /// The language of version 0.2 with the code of an engine language, where there is one.
    pub fn try_from(value: &language::Language) -> (r: Option<Language>)
        ensures
            match r {
                Some(l) => language_code(l) == value.0@,
                None => value.0@ != "eng"@ && value.0@ != "deu"@,
            },
    {
        if str_eq(value.0.as_str(), "eng") {
            Some(Language::Eng)
        } else if str_eq(value.0.as_str(), "deu") {
            Some(Language::Deu)
        } else {
            None
        }
    }
}

/// A request to select the language of a text.
#[derive(Debug, Clone, PartialEq, Eq)]
pub struct SelectLanguageRequest {
    pub text: String,
    pub languages: Vec<Language>,
}

impl SelectLanguageRequest {
    /// The engine's request with the same text and the codes of the same languages, in order.
    pub fn into_language(self) -> (r: language::SelectLanguageRequest)
        ensures
            r.text == self.text,
            r.languages.len() == self.languages.len(),
            forall|i: int|
                0 <= i < self.languages.len() ==> #[trigger] r.languages@[i].0@ == language_code(
                    self.languages@[i],
                ),
    {
        let mut languages: Vec<language::Language> = Vec::new();
        let mut i: usize = 0;
        while i < self.languages.len()
            invariant
                i <= self.languages.len(),
                languages.len() == i,
                forall|k: int| 0 <= k < i ==> #[trigger] languages@[k].0@ == language_code(self.languages@[k]),
            decreases self.languages.len() - i,
        {
            languages.push(self.languages[i].into_language());
            i = i + 1;
        }
        language::SelectLanguageRequest { text: self.text, languages }
    }
}

/// A chat message of version 0.2: a role and a content.
#[derive(Debug, Clone, PartialEq, Eq)]
pub struct Message {
    pub role: String,
    pub content: String,
}

impl Message {
    /// The engine's message with the same role and content.
    pub fn into_inference(self) -> (m: inference::Message)
        ensures
            m == (inference::Message::Other { role: self.role, content: self.content }),
    {
        inference::Message::Other { role: self.role, content: self.content }
    }

    /// The message of version 0.2 for a message of the model. Version 0.2 knows no reasoning, so
    /// the reasoning is merged in front of the content. Without tools a message of the model
    /// always has content.
    pub fn from_assistant(value: inference::AssistantMessage) -> (m: Message)
        requires
            value.content is Some,
        ensures
            m.role@ == "assistant"@,
            m.content@ == spec_prepend_reasoning(
                value.content.unwrap()@,
                match value.reasoning_content {
                    Some(r) => Some(r@),
                    None => None,
                },
            ),
    {
        let content = match value.content {
            Some(c) => c,
            None => String::new(),
        };
        let content = prepend_reasoning_content(content, value.reasoning_content);
        Message { role: inference::AssistantMessage::role().to_owned(), content }
    }
}

/// The parameters of a chat request of version 0.2, but for the sampling parameters given as
/// floating point numbers, which travel beside them.
#[derive(Debug, Clone, PartialEq, Eq)]
pub struct ChatParams {
    pub max_tokens: Option<u32>,
}

impl ChatParams {
    /// The engine's parameters for these: the maximum number of tokens; no log probabilities and
    /// none of the parameters that later versions added.
    pub fn into_inference(self) -> (p: inference::ChatParams)
        ensures
            p.max_tokens == self.max_tokens,
            p.logprobs == inference::Logprobs::No,
            p.max_completion_tokens is None,
            p.tools is None,
            p.tool_choice is None,
            p.parallel_tool_calls is None,
            p.response_format is None,
            p.reasoning_effort is None,
    {
        inference::ChatParams {
            max_tokens: self.max_tokens,
            logprobs: inference::Logprobs::No,
            max_completion_tokens: None,
            tools: None,
            tool_choice: None,
            parallel_tool_calls: None,
            response_format: None,
            reasoning_effort: None,
        }
    }
}

/// A chat request of version 0.2.
#[derive(Debug, Clone, PartialEq, Eq)]
pub struct ChatRequest {
    pub model: String,
    pub messages: Vec<Message>,
    pub params: ChatParams,
}

impl ChatRequest {
    /// The engine's chat request for this one: every message keeps its role and content.
    pub fn into_inference(self) -> (r: inference::ChatRequest)
        ensures
            r.model == self.model,
            r.messages.len() == self.messages.len(),
            forall|i: int|
                0 <= i < self.messages.len() ==> r.messages@[i] == (inference::Message::Other {
                    role: (#[trigger] self.messages@[i]).role,
                    content: self.messages@[i].content,
                }),
            r.params.max_tokens == self.params.max_tokens,
            r.params.logprobs == inference::Logprobs::No,
            r.params.max_completion_tokens is None,
            r.params.tools is None,
            r.params.tool_choice is None,
            r.params.parallel_tool_calls is None,
            r.params.response_format is None,
            r.params.reasoning_effort is None,
    {
        let ChatRequest { model, messages, params } = self;
        let ghost initial = messages@;
        let mut pending = messages;
        let mut done: Vec<inference::Message> = Vec::new();
        let n = pending.len();
        let mut i: usize = 0;
        while i < n
            invariant
                n == initial.len(),
                i <= n,
                pending@ == initial.subrange(i as int, n as int),
                done.len() == i,
                forall|k: int| 0 <= k < i ==> done@[k] == (inference::Message::Other {
                    role: (#[trigger] initial[k]).role,
                    content: initial[k].content,
                }),
            decreases n - i,
        {
            let m = pending.remove(0);
            assert(m == initial[i as int]);
            done.push(m.into_inference());
            i = i + 1;
        }
        inference::ChatRequest { model, messages: done, params: params.into_inference() }
    }
}

/// The parameters of a completion request of version 0.2, but for the sampling parameters given as
/// floating point numbers, which travel beside them.
#[derive(Debug, Clone, PartialEq, Eq)]
pub struct CompletionParams {
    pub return_special_tokens: bool,
    pub max_tokens: Option<u32>,
    pub top_k: Option<u32>,
    pub stop: Vec<String>,
}

impl CompletionParams {
    /// The engine's parameters for these: no log probabilities and no echo of the
    /// prompt, which later versions added.
    pub fn into_inference(self) -> (p: inference::CompletionParams)
        ensures
            p.return_special_tokens == self.return_special_tokens,
            p.max_tokens == self.max_tokens,
            p.top_k == self.top_k,
            p.stop == self.stop,
            p.logprobs == inference::Logprobs::No,
            p.echo == false,
    {
        inference::CompletionParams {
            return_special_tokens: self.return_special_tokens,
            max_tokens: self.max_tokens,
            top_k: self.top_k,
            stop: self.stop,
            logprobs: inference::Logprobs::No,
            echo: false,
        }
    }
}

/// A completion request of version 0.2.
#[derive(Debug, Clone, PartialEq, Eq)]
pub struct CompletionRequest {
    pub prompt: String,
    pub model: String,
    pub params: CompletionParams,
}

impl CompletionRequest {
    /// The engine's completion request for this one.
    pub fn into_inference(self) -> (r: inference::CompletionRequest)
        ensures
            r.prompt == self.prompt,
            r.model == self.model,
            r.params.return_special_tokens == self.params.return_special_tokens,
            r.params.max_tokens == self.params.max_tokens,
            r.params.top_k == self.params.top_k,
            r.params.stop == self.params.stop,
            r.params.logprobs == inference::Logprobs::No,
            r.params.echo == false,
    {
        inference::CompletionRequest {
            prompt: self.prompt,
            model: self.model,
            params: self.params.into_inference(),
        }
    }
}

} // verus!
