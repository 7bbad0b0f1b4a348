//! Skills with defined behaviour that beta installations provide for testing.
use vstd::prelude::*;

use crate::inference::{ChatEvent, ChatParams, ChatRequest, FinishReason, Logprobs, Message};
use crate::observer::SkillPath;
use crate::text::str_eq;

verus! {

/// An event that a skill emits while it streams a message. The payload of the end of a message
/// is JSON text.
#[derive(Debug, Clone, PartialEq, Eq)]
pub enum SkillEvent {
    MessageBegin,
    MessageAppend { text: String },
    MessageEnd { payload: String },
}

/// Why a skill failed.
#[derive(Debug, Clone, PartialEq, Eq)]
pub enum SkillError {
    /// The code of the skill failed, with its message.
    UserCode(String),
    /// The skill streams messages and cannot run as a function.
    IsMessageStream,
}

/// What a skill describes of itself.
#[derive(Debug, Clone, PartialEq, Eq)]
pub enum SkillManifest {
    /// A skill of the first generation, which describes nothing.
    V0,
    /// A message stream skill that describes itself and the JSON schema of its input.
    MessageStream { description: String, input_schema: String },
}

/// A skill that greets by streaming `Hello` one character at a time.
pub struct SkillHello;

/// A skill that always fails.
pub struct SkillSaboteur;

/// A skill that streams a joke of a chat model.
pub struct SkillTellMeAJoke;

/// A message stream skill that invokes a tool.
pub struct SkillToolCaller;

/// The hardcoded skills.
pub enum HardcodedSkill {
    Hello(SkillHello),
    Saboteur(SkillSaboteur),
    TellMeAJoke(SkillTellMeAJoke),
    ToolCaller(SkillToolCaller),
}

/// Which hardcoded skill the path designates, if any: the skills `hello`, `saboteur`,
/// `tell_me_a_joke` and `tool_caller` of the namespace `test-beta`.
pub open spec fn spec_hardcoded_skill(namespace: Seq<char>, name: Seq<char>) -> Option<int> {
    if namespace == "test-beta"@ {
        if name == "hello"@ {
            Some(0)
        } else if name == "saboteur"@ {
            Some(1)
        } else if name == "tell_me_a_joke"@ {
            Some(2)
        } else if name == "tool_caller"@ {
            Some(3)
        } else {
            None
        }
    } else {
        None
    }
}

/// The index of a hardcoded skill, in the order hello, saboteur, joke, tool caller.
pub open spec fn skill_index(s: HardcodedSkill) -> int {
    match s {
        HardcodedSkill::Hello(_) => 0,
        HardcodedSkill::Saboteur(_) => 1,
        HardcodedSkill::TellMeAJoke(_) => 2,
        HardcodedSkill::ToolCaller(_) => 3,
    }
}

/// The hardcoded skill that `path` designates, if any.
pub fn hardcoded_skill(path: &SkillPath) -> (r: Option<HardcodedSkill>)
    ensures
        match r {
            Some(s) => spec_hardcoded_skill(path.namespace@, path.name@) == Some(skill_index(s)),
            None => spec_hardcoded_skill(path.namespace@, path.name@) is None,
        },
{
    if !str_eq(path.namespace.as_str(), "test-beta") {
        return None;
    }
    let name = path.name.as_str();
    if str_eq(name, "hello") {
        Some(HardcodedSkill::Hello(SkillHello))
    } else if str_eq(name, "saboteur") {
        Some(HardcodedSkill::Saboteur(SkillSaboteur))
    } else if str_eq(name, "tell_me_a_joke") {
        Some(HardcodedSkill::TellMeAJoke(SkillTellMeAJoke))
    } else if str_eq(name, "tool_caller") {
        Some(HardcodedSkill::ToolCaller(SkillToolCaller))
    } else {
        None
    }
}

/// The text of a message piece event, if it is one.
pub open spec fn append_text(e: SkillEvent) -> Option<Seq<char>> {
    match e {
        SkillEvent::MessageAppend { text } => Some(text@),
        _ => None,
    }
}

impl SkillHello {
    /// The description of the skill: none.
    pub fn manifest(&self) -> (m: Result<SkillManifest, SkillError>)
        ensures
            m == Ok::<SkillManifest, SkillError>(SkillManifest::V0),
    {
        Ok(SkillManifest::V0)
    }

    /// Running the skill as a function fails: it is a dummy.
    pub fn run_as_function(&self) -> (r: Result<String, SkillError>)
        ensures
            r matches Err(SkillError::UserCode(m)) && m@ == "I am a dummy Skill"@,
    {
        Err(SkillError::UserCode("I am a dummy Skill".to_owned()))
    }

    /// The events of the message stream: the beginning of a message, one piece for each
    /// character of `Hello`, and the end of the message with a `null` payload.
    pub fn run_as_message_stream(&self) -> (events: Vec<SkillEvent>)
        ensures
            events.len() == 7,
            events@[0] == SkillEvent::MessageBegin,
            forall|i: int| 1 <= i <= 5 ==> append_text(#[trigger] events@[i]) == Some(seq!["Hello"@[i - 1]]),
            events@[6] matches SkillEvent::MessageEnd { payload } && payload@ == "null"@,
    {
        let hello = "Hello";
        proof {
            reveal_strlit("Hello");
        }
        let mut events: Vec<SkillEvent> = vec![SkillEvent::MessageBegin];
        let n = hello.unicode_len();
        let mut i: usize = 0;
        while i < n
            invariant
                n == 5,
                n == hello@.len(),
                hello@ == "Hello"@,
                i <= n,
                events.len() == i + 1,
                events@[0] == SkillEvent::MessageBegin,
                forall|k: int| 1 <= k <= i ==> append_text(#[trigger] events@[k]) == Some(seq![hello@[k - 1]]),
            decreases n - i,
        {
            let piece = hello.substring_char(i, i + 1).to_owned();
            assert(piece@ =~= seq![hello@[i as int]]);
            events.push(SkillEvent::MessageAppend { text: piece });
            i = i + 1;
        }
        events.push(SkillEvent::MessageEnd { payload: "null".to_owned() });
        events
    }
}

impl SkillSaboteur {
    /// The description of the skill: none.
    pub fn manifest(&self) -> (m: Result<SkillManifest, SkillError>)
        ensures
            m == Ok::<SkillManifest, SkillError>(SkillManifest::V0),
    {
        Ok(SkillManifest::V0)
    }

    /// Running the skill as a function fails: it streams messages.
    pub fn run_as_function(&self) -> (r: Result<String, SkillError>)
        ensures
            r == Err::<String, SkillError>(SkillError::IsMessageStream),
    {
        Err(SkillError::IsMessageStream)
    }

    /// Running the message stream fails.
    pub fn run_as_message_stream(&self) -> (r: Result<Vec<SkillEvent>, SkillError>)
        ensures
            r matches Err(SkillError::UserCode(m)) && m@ == "Skill is a saboteur"@,
    {
        Err(SkillError::UserCode("Skill is a saboteur".to_owned()))
    }
}

/// The JSON text of a string holding the name of a finish reason.
pub open spec fn finish_reason_payload(f: FinishReason) -> Seq<char> {
    match f {
        FinishReason::Stop => "\"Stop\""@,
        FinishReason::Length => "\"Length\""@,
        FinishReason::ContentFilter => "\"ContentFilter\""@,
        FinishReason::ToolCalls => "\"ToolCalls\""@,
    }
}

/// The event a chat skill emits for an event of the chat stream: the beginning, pieces and end
/// of the message, where the end carries the name of the finish reason. Usage reports and tool
/// calls emit nothing.
pub fn chat_skill_event(e: ChatEvent) -> (r: Option<SkillEvent>)
    ensures
        match e {
            ChatEvent::MessageBegin { .. } => r == Some(SkillEvent::MessageBegin),
            ChatEvent::MessageAppend { content } => r == Some(SkillEvent::MessageAppend { text: content }),
            ChatEvent::MessageEnd { finish_reason } => r matches Some(SkillEvent::MessageEnd { payload })
                && payload@ == finish_reason_payload(finish_reason),
            _ => r is None,
        },
{
    match e {
        ChatEvent::MessageBegin { .. } => Some(SkillEvent::MessageBegin),
        ChatEvent::MessageAppend { content } => Some(SkillEvent::MessageAppend { text: content }),
        ChatEvent::MessageEnd { finish_reason } => {
            let payload = match finish_reason {
                FinishReason::Stop => "\"Stop\"",
                FinishReason::Length => "\"Length\"",
                FinishReason::ContentFilter => "\"ContentFilter\"",
                FinishReason::ToolCalls => "\"ToolCalls\"",
            };
            Some(SkillEvent::MessageEnd { payload: payload.to_owned() })
        },
        _ => None,
    }
}

impl SkillTellMeAJoke {
    /// Describing the skill fails: it is a dummy.
    pub fn manifest(&self) -> (m: Result<SkillManifest, SkillError>)
        ensures
            m matches Err(SkillError::UserCode(msg)) && msg@ == "I am a dummy Skill"@,
    {
        Err(SkillError::UserCode("I am a dummy Skill".to_owned()))
    }

    /// Running the skill as a function fails: it is a dummy.
    pub fn run_as_function(&self) -> (r: Result<String, SkillError>)
        ensures
            r matches Err(SkillError::UserCode(m)) && m@ == "I am a dummy Skill"@,
    {
        Err(SkillError::UserCode("I am a dummy Skill".to_owned()))
    }

    /// The model that tells the joke.
    pub fn model(&self) -> (m: &'static str)
        ensures
            m@ == "llama-3.1-8b-instruct"@,
    {
        "llama-3.1-8b-instruct"
    }

    /// What the user asks the model.
    pub fn prompt(&self) -> (p: &'static str)
        ensures
            p@ == "Tell me a joke!"@,
    {
        "Tell me a joke!"
    }

    /// The most tokens the joke may take.
    pub fn max_tokens(&self) -> (n: u32)
        ensures
            n == 300,
    {
        300
    }

    /// The chat request that asks for the joke: the prompt as the one user message, to the model,
    /// with at most 300 tokens and nothing else asked for. The sampling temperature of the
    /// request, a floating point number, travels beside it.
    pub fn chat_request(&self) -> (r: ChatRequest)
        ensures
            r.model@ == "llama-3.1-8b-instruct"@,
            r.messages.len() == 1,
            r.messages@[0] matches Message::Other { role, content } && role@ == "user"@ && content@
                == "Tell me a joke!"@,
            r.params.max_tokens == Some(300u32),
            r.params.max_completion_tokens is None,
            r.params.logprobs == Logprobs::No,
            r.params.tools is None,
            r.params.tool_choice is None,
            r.params.parallel_tool_calls is None,
            r.params.response_format is None,
            r.params.reasoning_effort is None,
    {
        let message = Message::Other {
            role: "user".to_owned(),
            content: self.prompt().to_owned(),
        };
        ChatRequest {
            model: self.model().to_owned(),
            messages: vec![message],
            params: ChatParams { max_tokens: Some(self.max_tokens()), ..ChatParams::default() },
        }
    }
}

/// An argument of a tool invocation; its value is JSON text.
#[derive(Debug, Clone, PartialEq, Eq)]
pub struct Argument {
    pub name: String,
    pub value: Vec<u8>,
}

/// A request to invoke a tool.
#[derive(Debug, Clone, PartialEq, Eq)]
pub struct InvokeRequest {
    pub name: String,
    pub arguments: Vec<Argument>,
}

impl SkillToolCaller {
    /// The description of the skill: none.
    pub fn manifest(&self) -> (m: Result<SkillManifest, SkillError>)
        ensures
            m == Ok::<SkillManifest, SkillError>(SkillManifest::V0),
    {
        Ok(SkillManifest::V0)
    }

    /// Running the skill as a function fails: it streams messages.
    pub fn run_as_function(&self) -> (r: Result<String, SkillError>)
        ensures
            r matches Err(SkillError::UserCode(m))
                && m@ == "I am a `message_stream` skill. Use the `message_stream` endpoint to invoke me."@,
    {
        Err(
            SkillError::UserCode(
                "I am a `message_stream` skill. Use the `message_stream` endpoint to invoke me.".to_owned(),
            ),
        )
    }

    /// The tool invocation the skill makes: `add` with the arguments `a = 1` and `b = 2`.
    pub fn request(&self) -> (r: InvokeRequest)
        ensures
            r.name@ == "add"@,
            r.arguments.len() == 2,
            r.arguments@[0].name@ == "a"@,
            r.arguments@[0].value@ == seq!['1' as u8],
            r.arguments@[1].name@ == "b"@,
            r.arguments@[1].value@ == seq!['2' as u8],
    {
        InvokeRequest {
            name: "add".to_owned(),
            arguments: vec![
                Argument { name: "a".to_owned(), value: vec!['1' as u8] },
                Argument { name: "b".to_owned(), value: vec!['2' as u8] },
            ],
        }
    }

    /// The events of the message stream, given the outcome of the tool invocation: the text of
    /// the tool's answer as a message, or the failure of the invocation.
    pub fn run_as_message_stream(&self, outcome: Option<Result<String, String>>) -> (r: Result<
        Vec<SkillEvent>,
        SkillError,
    >)
        ensures
            match outcome {
                None => r matches Err(SkillError::UserCode(m)) && m@ == "Tool invocation failed"@,
                Some(Err(e)) => r == Err::<Vec<SkillEvent>, SkillError>(SkillError::UserCode(e)),
                Some(Ok(text)) => r matches Ok(events) && events@ == seq![
                    SkillEvent::MessageBegin,
                    SkillEvent::MessageAppend { text },
                ],
            },
    {
        match outcome {
            None => Err(SkillError::UserCode("Tool invocation failed".to_owned())),
            Some(Err(e)) => Err(SkillError::UserCode(e)),
            Some(Ok(text)) => Ok(vec![SkillEvent::MessageBegin, SkillEvent::MessageAppend { text }]),
        }
    }
}

/// A chat skill with a model and a system prompt.
pub struct SkillChat {
    pub model: String,
    pub system_prompt: String,
}

/// The JSON schema of the input of the chat skill: an object with an array of messages.
pub open spec fn chat_input_schema() -> Seq<char> {
    "{\"properties\":{\"messages\":{\"title\":\"Messages\",\"type\":\"array\"}},\"required\":[\"messages\"],\"title\":\"SkillInput\",\"type\":\"object\"}"@
}

impl SkillChat {
    /// A chat skill that talks with `model` under the system prompt `system_prompt`.
    pub fn new(model: String, system_prompt: String) -> (s: SkillChat)
        ensures
            s.model == model,
            s.system_prompt == system_prompt,
    {
        SkillChat { model, system_prompt }
    }

    /// The description of the skill: a message stream skill taking a list of messages.
    pub fn manifest(&self) -> (m: Result<SkillManifest, SkillError>)
        ensures
            m matches Ok(SkillManifest::MessageStream { description, input_schema })
                && description@ == "A chat skill"@ && input_schema@ == chat_input_schema(),
    {
        Ok(
            SkillManifest::MessageStream {
                description: "A chat skill".to_owned(),
                input_schema: "{\"properties\":{\"messages\":{\"title\":\"Messages\",\"type\":\"array\"}},\"required\":[\"messages\"],\"title\":\"SkillInput\",\"type\":\"object\"}".to_owned(),
            },
        )
    }

    /// Running the skill as a function fails: it streams messages.
    pub fn run_as_function(&self) -> (r: Result<String, SkillError>)
        ensures
            r == Err::<String, SkillError>(SkillError::IsMessageStream),
    {
        Err(SkillError::IsMessageStream)
    }

    /// The messages the model is asked with: the system prompt, then the messages of the input.
    pub fn chat_messages(&self, messages: Vec<Message>) -> (all: Vec<Message>)
        ensures
            all.len() == messages.len() + 1,
            all@[0] matches Message::Other { role, content } && role@ == "system"@ && content
                == self.system_prompt,
            all@.skip(1) == messages@,
    {
        let mut all: Vec<Message> = vec![Message::system(self.system_prompt.clone())];
        let mut rest = messages;
        all.append(&mut rest);
        assert(all@.skip(1) =~= messages@);
        all
    }
}

} // verus!
