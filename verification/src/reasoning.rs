//! Separating the reasoning of a model from its answer, where the backend delivers both in one
//! text and delimits the reasoning with `<think>` and `</think>`.
use vstd::prelude::*;

use crate::inference::{think_close, think_close_tag, think_open, think_open_tag, FinishReason, TokenUsage, ToolCallChunk};
use crate::text::{chars_of, find, first_occurrence, matches_at, never_occurs, occurs_at, starts_with, string_of_range};

verus! {

/// An event of a chat stream that tells reasoning and answer apart.
#[derive(Debug, Clone, PartialEq, Eq)]
pub enum ChatEventV2 {
    MessageBegin { role: String },
    /// A piece of the answer.
    MessageAppend { content: String },
    /// A piece of the reasoning that precedes the answer.
    ReasoningAppend { content: String },
    MessageEnd { finish_reason: FinishReason },
    Usage { usage: TokenUsage },
    ToolCall(Vec<ToolCallChunk>),
}

/// The mathematical value of a [`ChatEventV2`].
pub enum ChatEventV2View {
    MessageBegin(Seq<char>),
    MessageAppend(Seq<char>),
    ReasoningAppend(Seq<char>),
    MessageEnd(FinishReason),
    Usage(TokenUsage),
    ToolCall(Seq<ToolCallChunk>),
}

impl View for ChatEventV2 {
    type V = ChatEventV2View;

    open spec fn view(&self) -> ChatEventV2View {
        match self {
            ChatEventV2::MessageBegin { role } => ChatEventV2View::MessageBegin(role@),
            ChatEventV2::MessageAppend { content } => ChatEventV2View::MessageAppend(content@),
            ChatEventV2::ReasoningAppend { content } => ChatEventV2View::ReasoningAppend(content@),
            ChatEventV2::MessageEnd { finish_reason } => ChatEventV2View::MessageEnd(*finish_reason),
            ChatEventV2::Usage { usage } => ChatEventV2View::Usage(*usage),
            ChatEventV2::ToolCall(chunks) => ChatEventV2View::ToolCall(chunks@),
        }
    }
}

impl ChatEventV2 {
    /// A piece of the answer.
    pub fn content(content: String) -> (e: ChatEventV2)
        ensures
            e@ == ChatEventV2View::MessageAppend(content@),
    {
        ChatEventV2::MessageAppend { content }
    }

    /// A piece of the reasoning.
    pub fn reasoning(content: String) -> (e: ChatEventV2)
        ensures
            e@ == ChatEventV2View::ReasoningAppend(content@),
    {
        ChatEventV2::ReasoningAppend { content }
    }
}

/// The views of a sequence of events.
pub open spec fn events_view(events: Seq<ChatEventV2>) -> Seq<ChatEventV2View> {
    events.map_values(|e: ChatEventV2| e@)
}

/// The first index at which `pat` occurs in `s`, if any.
pub open spec fn first_index(s: Seq<char>, pat: Seq<char>) -> Option<int> {
    if exists|i: int| first_occurrence(s, pat, i) {
        Some(choose|i: int| first_occurrence(s, pat, i))
    } else {
        None
    }
}

/// A reasoning piece followed by an answer piece, each left out where it is empty.
pub open spec fn spec_split(reasoning: Seq<char>, content: Seq<char>) -> Seq<ChatEventV2View> {
    (if reasoning.len() > 0 {
        seq![ChatEventV2View::ReasoningAppend(reasoning)]
    } else {
        Seq::empty()
    }) + (if content.len() > 0 {
        seq![ChatEventV2View::MessageAppend(content)]
    } else {
        Seq::empty()
    })
}

/// What the extractor emits for one event, and whether it is inside the reasoning afterwards.
///
/// Outside the reasoning, a piece of the answer that starts with `<think>` opens the reasoning;
/// inside it, the first `</think>` closes it. Everything else passes through unchanged.
pub open spec fn spec_extract(thinking: bool, event: ChatEventV2View) -> (Seq<ChatEventV2View>, bool) {
    match event {
        ChatEventV2View::MessageAppend(c) => {
            if !thinking {
                if starts_with(c, think_open()) {
                    match first_index(c, think_close()) {
                        Some(e) => (
                            spec_split(c.subrange(7, e), c.subrange(e + 8, c.len() as int)),
                            false,
                        ),
                        None => (spec_split(c.subrange(7, c.len() as int), Seq::empty()), true),
                    }
                } else {
                    (seq![event], false)
                }
            } else {
                match first_index(c, think_close()) {
                    Some(e) => (
                        spec_split(c.subrange(0, e), c.subrange(e + 8, c.len() as int)),
                        false,
                    ),
                    None => (seq![ChatEventV2View::ReasoningAppend(c)], true),
                }
            }
        },
        _ => (seq![event], thinking),
    }
}

/// Two first occurrences of a pattern are the same index.
pub proof fn lemma_first_occurrence_unique(s: Seq<char>, pat: Seq<char>, i: int, j: int)
    requires
        first_occurrence(s, pat, i),
        first_occurrence(s, pat, j),
    ensures
        i == j,
{
}

/// The index that `find` reports is the first index of the specification.
proof fn lemma_first_index_of_found(s: Seq<char>, pat: Seq<char>, i: int)
    requires
        first_occurrence(s, pat, i),
    ensures
        first_index(s, pat) == Some(i),
{
    let k = choose|k: int| first_occurrence(s, pat, k);
    lemma_first_occurrence_unique(s, pat, i, k);
}

proof fn lemma_first_index_none(s: Seq<char>, pat: Seq<char>)
    requires
        never_occurs(s, pat),
    ensures
        first_index(s, pat) is None,
{
}

/// A closing tag cannot start inside an opening tag that starts at `start`.
proof fn lemma_close_after_open(s: Seq<char>, start: int, e: int)
    requires
        occurs_at(s, think_open(), start),
        occurs_at(s, think_close(), e),
        start <= e,
    ensures
        e >= start + 7,
{
    if e < start + 7 {
        assert(s.subrange(e, e + 8)[0] == think_close()[0]);
        assert(s.subrange(e, e + 8)[1] == think_close()[1]);
        assert(s.subrange(start, start + 7)[e - start] == think_open()[e - start]);
        if e == start {
            assert(s.subrange(start, start + 7)[1] == think_open()[1]);
        }
    }
}

/// Emit a reasoning piece and an answer piece, each left out where it is empty.
fn split_events(reasoning: String, content: String) -> (out: Vec<ChatEventV2>)
    ensures
        events_view(out@) == spec_split(reasoning@, content@),
{
    let mut out: Vec<ChatEventV2> = Vec::new();
    let r_empty = reasoning.as_str().unicode_len() == 0;
    let c_empty = content.as_str().unicode_len() == 0;
    let ghost rv = reasoning@;
    let ghost cv = content@;
    if !r_empty {
        out.push(ChatEventV2::reasoning(reasoning));
    }
    if !c_empty {
        out.push(ChatEventV2::content(content));
    }
    assert(events_view(out@) =~= spec_split(rv, cv));
    out
}

/// Extracts the reasoning content from a stream of chat events.
///
/// Some backends deliver the reasoning of a model inside the content, delimited by `<think>`
/// and `</think>`. The extractor remembers across events whether the stream is inside the
/// reasoning.
pub struct ReasoningExtractor {
    is_thinking: bool,
}

impl ReasoningExtractor {
    /// Whether the stream is inside the reasoning.
    pub closed spec fn thinking(&self) -> bool {
        self.is_thinking
    }

    /// An extractor at the beginning of a stream.
    pub fn new() -> (r: ReasoningExtractor)
        ensures
            !r.thinking(),
    {
        ReasoningExtractor { is_thinking: false }
    }

    /// The events that replace `event` in the stream.
    pub fn extract(&mut self, event: ChatEventV2) -> (out: Vec<ChatEventV2>)
        ensures
            (events_view(out@), final(self).thinking()) == spec_extract(old(self).thinking(), event@),
    {
        let ghost ev = event@;
        match event {
            ChatEventV2::MessageAppend { content } => {
                let chars = chars_of(content.as_str());
                let open = chars_of(think_open_tag());
                let close = chars_of(think_close_tag());
                let n = chars.len();
                if !self.is_thinking {
                    if matches_at(&chars, &open, 0) {
                        match find(&chars, &close) {
                            Some(e) => {
                                proof {
                                    lemma_first_index_of_found(content@, think_close(), e as int);
                                    lemma_close_after_open(content@, 0, e as int);
                                }
                                let reasoning_part = string_of_range(content.as_str(), 7, e);
                                let content_part = string_of_range(content.as_str(), e + 8, n);
                                split_events(reasoning_part, content_part)
                            },
                            None => {
                                proof {
                                    lemma_first_index_none(content@, think_close());
                                }
                                self.is_thinking = true;
                                let reasoning_part = string_of_range(content.as_str(), 7, n);
                                split_events(reasoning_part, String::new())
                            },
                        }
                    } else {
                        let out = vec![ChatEventV2::MessageAppend { content }];
                        assert(events_view(out@) =~= seq![ev]);
                        out
                    }
                } else {
                    match find(&chars, &close) {
                        Some(e) => {
                            proof {
                                lemma_first_index_of_found(content@, think_close(), e as int);
                            }
                            self.is_thinking = false;
                            let reasoning_part = string_of_range(content.as_str(), 0, e);
                            let content_part = string_of_range(content.as_str(), e + 8, n);
                            split_events(reasoning_part, content_part)
                        },
                        None => {
                            proof {
                                lemma_first_index_none(content@, think_close());
                            }
                            let ghost cv = content@;
                            let out = vec![ChatEventV2::reasoning(content)];
                            assert(events_view(out@) =~= seq![ChatEventV2View::ReasoningAppend(cv)]);
                            out
                        },
                    }
                }
            },
            other => {
                let out = vec![other];
                assert(events_view(out@) =~= seq![ev]);
                out
            },
        }
    }
}

/// The optional string as an optional sequence of characters.
pub open spec fn opt_view(s: Option<String>) -> Option<Seq<char>> {
    match s {
        Some(x) => Some(x@),
        None => None,
    }
}

/// Content and reasoning of a message after the reasoning has been moved out of the content.
///
/// This happens only where the message carries no reasoning yet and its content holds a
/// `<think>` before the first `</think>`: the reasoning is what lies between the first of each,
/// and the content is what follows the closing tag.
pub open spec fn spec_extract_message(content: Option<Seq<char>>, reasoning: Option<Seq<char>>) -> (
    Option<Seq<char>>,
    Option<Seq<char>>,
) {
    match (content, reasoning) {
        (Some(c), None) => match (first_index(c, think_open()), first_index(c, think_close())) {
            (Some(s), Some(e)) => if s < e {
                (Some(c.subrange(e + 8, c.len() as int)), Some(c.subrange(s + 7, e)))
            } else {
                (content, reasoning)
            },
            _ => (content, reasoning),
        },
        _ => (content, reasoning),
    }
}

/// A chat completion message generated by the model.
#[derive(Debug, Clone, PartialEq, Eq)]
pub struct ChatCompletionResponseMessage {
    /// The contents of the message.
    pub content: Option<String>,
    /// The reasoning content generated by the model.
    pub reasoning_content: Option<String>,
    /// The tool calls generated by the model, such as function calls.
    pub tool_calls: Option<Vec<crate::inference::ToolCall>>,
}

impl ChatCompletionResponseMessage {
    /// Split the content and reasoning of a message, for backends that do not report reasoning
    /// in a field of its own and delimit it with `<think>` and `</think>` instead.
    pub fn extract_reasoning_from_content(&mut self)
        ensures
            (opt_view(final(self).content), opt_view(final(self).reasoning_content))
                == spec_extract_message(opt_view(old(self).content), opt_view(old(self).reasoning_content)),
            final(self).tool_calls == old(self).tool_calls,
    {
        if self.reasoning_content.is_none() {
            if let Some(content) = &self.content {
                let chars = chars_of(content.as_str());
                let open = chars_of(think_open_tag());
                let close = chars_of(think_close_tag());
                let n = chars.len();
                let start = find(&chars, &open);
                let end = find(&chars, &close);
                proof {
                    match start {
                        Some(s) => lemma_first_index_of_found(content@, think_open(), s as int),
                        None => lemma_first_index_none(content@, think_open()),
                    }
                    match end {
                        Some(e) => lemma_first_index_of_found(content@, think_close(), e as int),
                        None => lemma_first_index_none(content@, think_close()),
                    }
                }
                if let (Some(s), Some(e)) = (start, end) {
                    if s < e {
                        proof {
                            lemma_close_after_open(content@, s as int, e as int);
                        }
                        let reasoning = string_of_range(content.as_str(), s + 7, e);
                        let rest = string_of_range(content.as_str(), e + 8, n);
                        self.reasoning_content = Some(reasoning);
                        self.content = Some(rest);
                    }
                }
            }
        }
    }
}

/// One choice of a chat completion response.
#[derive(Debug, Clone, PartialEq, Eq)]
pub struct ChatChoice {
    pub message: ChatCompletionResponseMessage,
    /// The reason the model stopped generating tokens.
    pub finish_reason: Option<FinishReason>,
}

/// A chat completion response of a backend that may deliver reasoning inside the content.
#[derive(Debug, Clone, PartialEq, Eq)]
pub struct ChatResponseReasoningContent {
    /// A list of chat completion choices.
    pub choices: Vec<ChatChoice>,
    pub usage: Option<TokenUsage>,
}

impl ChatResponseReasoningContent {
    /// Split content and reasoning in the message of every choice.
    pub fn extract_reasoning_from_content(&mut self)
        ensures
            final(self).usage == old(self).usage,
            final(self).choices.len() == old(self).choices.len(),
            forall|i: int|
                #![trigger final(self).choices@[i]]
                0 <= i < old(self).choices.len() ==> {
                    let before = old(self).choices@[i];
                    let after = final(self).choices@[i];
                    &&& after.finish_reason == before.finish_reason
                    &&& after.message.tool_calls == before.message.tool_calls
                    &&& (opt_view(after.message.content), opt_view(after.message.reasoning_content))
                        == spec_extract_message(
                        opt_view(before.message.content),
                        opt_view(before.message.reasoning_content),
                    )
                },
    {
        let mut pending: Vec<ChatChoice> = Vec::new();
        std::mem::swap(&mut pending, &mut self.choices);
        let ghost initial = pending@;
        let mut done: Vec<ChatChoice> = Vec::new();
        let n = pending.len();
        let mut i: usize = 0;
        while i < n
            invariant
                n == initial.len(),
                i <= n,
                pending@ == initial.subrange(i as int, n as int),
                done.len() == i,
                forall|k: int|
                    #![trigger done@[k]]
                    0 <= k < i ==> {
                        let before = initial[k];
                        let after = done@[k];
                        &&& after.finish_reason == before.finish_reason
                        &&& after.message.tool_calls == before.message.tool_calls
                        &&& (opt_view(after.message.content), opt_view(after.message.reasoning_content))
                            == spec_extract_message(
                            opt_view(before.message.content),
                            opt_view(before.message.reasoning_content),
                        )
                    },
            decreases n - i,
        {
            let mut choice = pending.remove(0);
            choice.message.extract_reasoning_from_content();
            done.push(choice);
            i = i + 1;
        }
        self.choices = done;
    }
}

/// Events other than pieces of the answer pass through the extractor unchanged, and leave it
/// inside or outside of the reasoning as it was.
pub proof fn law_other_events_pass_through(thinking: bool, event: ChatEventV2View)
    requires
        !(event is MessageAppend),
    ensures
        spec_extract(thinking, event) == (seq![event], thinking),
{
}

/// Outside of the reasoning, a piece of the answer that does not start with `<think>` passes
/// through unchanged.
pub proof fn law_untagged_content_passes_through(c: Seq<char>)
    requires
        !starts_with(c, think_open()),
    ensures
        spec_extract(false, ChatEventV2View::MessageAppend(c)) == (
            seq![ChatEventV2View::MessageAppend(c)],
            false,
        ),
{
}

/// A piece that opens the reasoning leaves the extractor inside the reasoning exactly when the
/// piece does not also close it; a piece inside the reasoning ends it exactly when it holds
/// `</think>`.
pub proof fn law_thinking_follows_tags(thinking: bool, c: Seq<char>)
    requires
        thinking || starts_with(c, think_open()),
    ensures
        spec_extract(thinking, ChatEventV2View::MessageAppend(c)).1 == never_occurs(c, think_close()),
{
    if !never_occurs(c, think_close()) {
        let j = choose|j: int| occurs_at(c, think_close(), j);
        lemma_some_first_occurrence(c, think_close(), j);
    }
}

/// Where a pattern occurs, it has a first occurrence.
pub proof fn lemma_some_first_occurrence(s: Seq<char>, pat: Seq<char>, j: int)
    requires
        occurs_at(s, pat, j),
    ensures
        first_index(s, pat) is Some,
    decreases j,
{
    if !first_occurrence(s, pat, j) {
        let k = choose|k: int| 0 <= k < j && occurs_at(s, pat, k);
        lemma_some_first_occurrence(s, pat, k);
    }
}

/// Moving the reasoning out of a message a second time changes nothing.
pub proof fn law_extract_message_idempotent(content: Option<Seq<char>>, reasoning: Option<Seq<char>>)
    ensures
        ({
            let (c1, r1) = spec_extract_message(content, reasoning);
            spec_extract_message(c1, r1) == (c1, r1)
        }),
{
}

/// A message that already carries reasoning is left as it is.
pub proof fn law_existing_reasoning_is_kept(content: Option<Seq<char>>, r: Seq<char>)
    ensures
        spec_extract_message(content, Some(r)) == (content, Some(r)),
{
}

/// The extracted reasoning and the remaining content are exactly the text of the given content
/// around the two tags: nothing is lost but the tags and what precedes the opening tag.
pub proof fn law_extract_message_keeps_text(c: Seq<char>)
    ensures
        ({
            let (c1, r1) = spec_extract_message(Some(c), None);
            r1 matches Some(r) ==> exists|s: int, e: int|
                #![trigger first_occurrence(c, think_open(), s), first_occurrence(c, think_close(), e)]
                first_occurrence(c, think_open(), s) && first_occurrence(c, think_close(), e) && c
                    == c.subrange(0, s) + think_open() + r + think_close() + c1.unwrap()
        }),
{
    let (c1, r1) = spec_extract_message(Some(c), None);
    if r1 is Some {
        let s = first_index(c, think_open()).unwrap();
        let e = first_index(c, think_close()).unwrap();
        lemma_close_after_open(c, s, e);
        assert(c =~= c.subrange(0, s) + think_open() + r1.unwrap() + think_close() + c1.unwrap());
    }
}

/// The text that a sequence of events carries, reasoning and answer alike.
pub open spec fn carried_text(events: Seq<ChatEventV2View>) -> Seq<char>
    decreases events.len(),
{
    if events.len() == 0 {
        Seq::empty()
    } else {
        let rest = carried_text(events.drop_first());
        match events[0] {
            ChatEventV2View::MessageAppend(t) => t + rest,
            ChatEventV2View::ReasoningAppend(t) => t + rest,
            _ => rest,
        }
    }
}

proof fn lemma_split_carries(reasoning: Seq<char>, content: Seq<char>)
    ensures
        carried_text(spec_split(reasoning, content)) == reasoning + content,
{
    reveal_with_fuel(carried_text, 3);
    let out = spec_split(reasoning, content);
    if reasoning.len() > 0 && content.len() > 0 {
        assert(out.drop_first() =~= seq![ChatEventV2View::MessageAppend(content)]);
        assert(out.drop_first().drop_first() =~= Seq::<ChatEventV2View>::empty());
        assert(content + Seq::<char>::empty() =~= content);
    } else if reasoning.len() > 0 {
        assert(out =~= seq![ChatEventV2View::ReasoningAppend(reasoning)]);
        assert(out.drop_first() =~= Seq::<ChatEventV2View>::empty());
        assert(reasoning + content =~= reasoning + Seq::<char>::empty());
    } else if content.len() > 0 {
        assert(out =~= seq![ChatEventV2View::MessageAppend(content)]);
        assert(out.drop_first() =~= Seq::<ChatEventV2View>::empty());
        assert(reasoning + content =~= content + Seq::<char>::empty());
    } else {
        assert(out =~= Seq::<ChatEventV2View>::empty());
        assert(reasoning + content =~= Seq::<char>::empty());
    }
}

/// The extractor loses no text of a piece of the answer but the tags: what the emitted events
/// carry is the piece without an opening tag at its start and without the closing tag that ends
/// the reasoning.
pub proof fn law_extractor_keeps_text(thinking: bool, c: Seq<char>)
    ensures
        exists|o: Seq<char>, a: Seq<char>, t: Seq<char>, b: Seq<char>|
            (o == Seq::<char>::empty() || o == think_open()) && (t == Seq::<char>::empty() || t
                == think_close()) && c == o + a + t + b && #[trigger] carried_text(
                spec_extract(thinking, ChatEventV2View::MessageAppend(c)).0,
            ) == a + b,
{
    reveal_with_fuel(carried_text, 2);
    let out = spec_extract(thinking, ChatEventV2View::MessageAppend(c)).0;
    let empty = Seq::<char>::empty();
    if !thinking && starts_with(c, think_open()) {
        match first_index(c, think_close()) {
            Some(e) => {
                lemma_close_after_open(c, 0, e);
                let a = c.subrange(7, e);
                let b = c.subrange(e + 8, c.len() as int);
                lemma_split_carries(a, b);
                assert(c =~= think_open() + a + think_close() + b);
                assert(carried_text(out) == a + b);
            },
            None => {
                let a = c.subrange(7, c.len() as int);
                lemma_split_carries(a, empty);
                assert(c =~= think_open() + a + empty + empty);
                assert(a + empty =~= a);
                assert(carried_text(out) == a + empty);
            },
        }
    } else if thinking {
        match first_index(c, think_close()) {
            Some(e) => {
                let a = c.subrange(0, e);
                let b = c.subrange(e + 8, c.len() as int);
                lemma_split_carries(a, b);
                assert(c =~= empty + a + think_close() + b);
                assert(carried_text(out) == a + b);
            },
            None => {
                assert(out =~= seq![ChatEventV2View::ReasoningAppend(c)]);
                assert(out.drop_first() =~= Seq::<ChatEventV2View>::empty());
                assert(c =~= empty + c + empty + empty);
                assert(c + empty =~= c);
                assert(carried_text(out) == c + empty);
            },
        }
    } else {
        assert(out =~= seq![ChatEventV2View::MessageAppend(c)]);
        assert(out.drop_first() =~= Seq::<ChatEventV2View>::empty());
        assert(c =~= empty + c + empty + empty);
        assert(c + empty =~= c);
        assert(carried_text(out) == c + empty);
    }
}

} // verus!

