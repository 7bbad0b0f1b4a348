use pharia_kernel::inference::{FinishReason, TokenUsage};
use pharia_kernel::reasoning::{
    ChatChoice, ChatCompletionResponseMessage, ChatEventV2, ChatResponseReasoningContent,
    ReasoningExtractor,
};

fn begin() -> ChatEventV2 {
    ChatEventV2::MessageBegin {
        role: "assistant".to_owned(),
    }
}

fn end() -> ChatEventV2 {
    ChatEventV2::MessageEnd {
        finish_reason: FinishReason::Stop,
    }
}

fn content(text: &str) -> ChatEventV2 {
    ChatEventV2::content(text.to_owned())
}

fn reasoning(text: &str) -> ChatEventV2 {
    ChatEventV2::reasoning(text.to_owned())
}

fn with_content(content: &str) -> ChatCompletionResponseMessage {
    ChatCompletionResponseMessage {
        content: Some(content.to_owned()),
        reasoning_content: None,
        tool_calls: None,
    }
}

fn with_content_and_reasoning(content: &str, reasoning: &str) -> ChatCompletionResponseMessage {
    ChatCompletionResponseMessage {
        content: Some(content.to_owned()),
        reasoning_content: Some(reasoning.to_owned()),
        tool_calls: None,
    }
}

fn transform(stream: &[ChatEventV2]) -> Vec<ChatEventV2> {
    let mut extractor = ReasoningExtractor::new();
    let mut stream_transformed: Vec<ChatEventV2> = vec![];
    for event in stream {
        stream_transformed.extend(extractor.extract(event.clone()));
    }
    stream_transformed
}

#[test]
fn split_content_and_reasoning_content_in_response() {
    let chat_msg = with_content("<think>I am thinking...</think> The answer is 42");
    let mut chat_response = ChatResponseReasoningContent {
        choices: vec![ChatChoice {
            message: chat_msg,
            finish_reason: None,
        }],
        usage: None,
    };

    chat_response.extract_reasoning_from_content();

    let first_message = &chat_response.choices[0].message;
    assert_eq!(first_message.content.as_ref().unwrap(), " The answer is 42");
    assert_eq!(
        first_message.reasoning_content.as_ref().unwrap(),
        "I am thinking..."
    );
}

#[test]
fn split_content_and_reasoning_content_on_message() {
    let mut chat_msg = with_content("<think>I am thinking...</think> The answer is 42");

    chat_msg.extract_reasoning_from_content();

    assert_eq!(chat_msg.content.unwrap(), " The answer is 42");
    assert_eq!(chat_msg.reasoning_content.unwrap(), "I am thinking...");
}

#[test]
fn split_content_and_reasoning_content_on_message_with_reasoning_content_already_set() {
    let mut chat_msg = with_content_and_reasoning(
        "<think>I am thinking...</think> The answer is 42",
        "I was already thinking...",
    );

    chat_msg.extract_reasoning_from_content();

    assert_eq!(
        chat_msg.content.unwrap(),
        "<think>I am thinking...</think> The answer is 42",
    );
    assert_eq!(
        chat_msg.reasoning_content.unwrap(),
        "I was already thinking..."
    );
}

#[test]
fn split_content_and_reasoning_content_has_no_effect_without_think_tag() {
    let mut chat_msg = with_content("The answer is 42");

    chat_msg.extract_reasoning_from_content();

    assert_eq!(chat_msg.content.unwrap(), "The answer is 42");
    assert!(chat_msg.reasoning_content.is_none());
}

#[test]
fn split_content_and_reasoning_content_has_no_effect_without_closing_think_tag() {
    let mut chat_msg = with_content("<think>I am thinking... The answer is 42");

    chat_msg.extract_reasoning_from_content();

    assert_eq!(
        chat_msg.content.unwrap(),
        "<think>I am thinking... The answer is 42"
    );
    assert!(chat_msg.reasoning_content.is_none());
}

#[test]
fn split_content_and_reasoning_content_has_no_effect_when_think_tags_are_not_in_order() {
    let mut chat_msg = with_content("</think>I am thinking...<think> The answer is 42");

    chat_msg.extract_reasoning_from_content();

    assert_eq!(
        chat_msg.content.unwrap(),
        "</think>I am thinking...<think> The answer is 42"
    );
    assert!(chat_msg.reasoning_content.is_none());
}

#[test]
fn split_content_and_reasoning_content_has_effect_with_think_tag_present() {
    let mut chat_msg = with_content("<think>I am thinking...</think> The answer is 42");

    chat_msg.extract_reasoning_from_content();

    assert_eq!(chat_msg.content.unwrap(), " The answer is 42");
    assert_eq!(chat_msg.reasoning_content.unwrap(), "I am thinking...");
}

#[test]
fn stream_split_on_message_with_chunk_having_reasoning_and_content() {
    let stream = vec![
        begin(),
        content("<think>I am "),
        content("thinking...</think>The ans"),
        content("wer is 42"),
        end(),
    ];

    let stream_transformed = transform(&stream);

    let stream_expected = vec![
        begin(),
        reasoning("I am "),
        reasoning("thinking..."),
        content("The ans"),
        content("wer is 42"),
        end(),
    ];
    assert_eq!(stream_transformed, stream_expected);
}

#[test]
fn stream_split_content_and_reasoning_content_on_message_with_think_tag_splits() {
    let stream = vec![
        begin(),
        content("<think>I am "),
        content("thinking...</think>"),
        content("The answer is 42"),
        end(),
    ];

    let stream_transformed = transform(&stream);

    let stream_expected = vec![
        begin(),
        reasoning("I am "),
        reasoning("thinking..."),
        content("The answer is 42"),
        end(),
    ];
    assert_eq!(stream_transformed, stream_expected);
}

#[test]
fn stream_split_opening_think_tag_in_own_chunk() {
    let stream = vec![
        begin(),
        content("<think>"),
        content("I am "),
        content("thinking...</think>"),
        content("The answer is 42"),
        end(),
    ];

    let stream_transformed = transform(&stream);

    let stream_expected = vec![
        begin(),
        reasoning("I am "),
        reasoning("thinking..."),
        content("The answer is 42"),
        end(),
    ];
    assert_eq!(stream_transformed, stream_expected);
}

#[test]
fn stream_split_closing_think_tag_in_own_chunk() {
    let stream = vec![
        begin(),
        content("<think>I am "),
        content("thinking..."),
        content("</think>"),
        content("The answer is 42"),
        end(),
    ];

    let stream_transformed = transform(&stream);

    let stream_expected = vec![
        begin(),
        reasoning("I am "),
        reasoning("thinking..."),
        content("The answer is 42"),
        end(),
    ];
    assert_eq!(stream_transformed, stream_expected);
}

#[test]
fn stream_split_opening_and_closing_think_tag_in_own_chunk() {
    let stream = vec![
        begin(),
        content("<think>I am thinking...</think> The"),
        content(" answer is 42"),
        end(),
    ];

    let stream_transformed = transform(&stream);

    let stream_expected = vec![
        begin(),
        reasoning("I am thinking..."),
        content(" The"),
        content(" answer is 42"),
        end(),
    ];
    assert_eq!(stream_transformed, stream_expected);
}

#[test]
fn stream_split_content_and_reasoning_content_on_message_with_think_tag_inside_splits() {
    let stream = vec![
        begin(),
        content("Hello, <think>I am "),
        content("thinking...</think>"),
        content("The answer is 42"),
        end(),
    ];

    let stream_transformed = transform(&stream);

    assert_eq!(stream_transformed, stream);
}

#[test]
fn stream_split_content_and_reasoning_content_has_no_effect_without_think_tag() {
    let stream = vec![begin(), content("The answer is 42"), end()];

    let stream_transformed = transform(&stream);

    assert_eq!(stream_transformed, stream);
}

#[test]
fn events_other_than_content_pass_the_extractor_unchanged() {
    let usage = ChatEventV2::Usage {
        usage: TokenUsage {
            prompt: 3,
            completion: 4,
        },
    };
    let stream = vec![
        begin(),
        content("<think>a"),
        usage.clone(),
        content("b</think>c"),
        end(),
    ];

    let stream_transformed = transform(&stream);

    assert_eq!(
        stream_transformed,
        vec![begin(), reasoning("a"), usage, reasoning("b"), content("c"), end()]
    );
}

#[test]
fn reasoning_is_extracted_from_every_choice() {
    let mut response = ChatResponseReasoningContent {
        choices: vec![
            ChatChoice {
                message: with_content("<think>x</think>y"),
                finish_reason: Some(FinishReason::Stop),
            },
            ChatChoice {
                message: with_content("plain"),
                finish_reason: Some(FinishReason::Length),
            },
        ],
        usage: Some(TokenUsage {
            prompt: 1,
            completion: 2,
        }),
    };

    response.extract_reasoning_from_content();

    assert_eq!(response.choices[0].message.content.as_deref(), Some("y"));
    assert_eq!(
        response.choices[0].message.reasoning_content.as_deref(),
        Some("x")
    );
    assert_eq!(response.choices[1].message.content.as_deref(), Some("plain"));
    assert!(response.choices[1].message.reasoning_content.is_none());
    assert_eq!(response.choices[1].finish_reason, Some(FinishReason::Length));
}

#[test]
fn extracting_twice_changes_nothing_more() {
    let mut chat_msg = with_content("<think>a</think>b<think>c</think>d");

    chat_msg.extract_reasoning_from_content();
    let once = chat_msg.clone();
    chat_msg.extract_reasoning_from_content();

    assert_eq!(chat_msg, once);
    assert_eq!(once.reasoning_content.as_deref(), Some("a"));
    assert_eq!(once.content.as_deref(), Some("b<think>c</think>d"));
}
