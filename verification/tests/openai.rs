use pharia_kernel::csi_common::chat_event_name;
use pharia_kernel::inference::{
    AssistantMessage, ChatEvent, FinishReason, InferenceError, Message, TokenUsage, ToolCall,
    ToolCallChunk, ToolMessage,
};
use pharia_kernel::openai::{
    chat_response_from, inference_error_from_openai, request_message, stream_piece_events,
    ChatChoiceStream, ChatCompletionStreamResponseDelta, ChatStreamWithReasoning,
    FunctionCallStream, OpenAiFinishReason, OpenAiRequestMessage, OpenAiRole, ToolCallChunkDelta,
};
use pharia_kernel::reasoning::{ChatChoice, ChatCompletionResponseMessage, ChatResponseReasoningContent};

fn piece(
    role: Option<OpenAiRole>,
    content: Option<&str>,
    tool_calls: Option<Vec<ToolCallChunkDelta>>,
    finish_reason: Option<OpenAiFinishReason>,
) -> ChatStreamWithReasoning {
    ChatStreamWithReasoning {
        choices: vec![ChatChoiceStream {
            delta: ChatCompletionStreamResponseDelta {
                content: content.map(str::to_owned),
                tool_calls,
                role,
            },
            finish_reason,
        }],
        usage: None,
    }
}

fn usage() -> TokenUsage {
    TokenUsage {
        prompt: 10,
        completion: 3,
    }
}

#[test]
fn role_and_content_become_two_events() {
    let events = ChatEvent::from_stream(piece(Some(OpenAiRole::Assistant), Some("Hi"), None, None));
    assert_eq!(
        events,
        vec![
            ChatEvent::MessageBegin {
                role: "assistant".to_owned()
            },
            ChatEvent::MessageAppend {
                content: "Hi".to_owned()
            }
        ]
    );
}

#[test]
fn empty_content_is_dropped_and_tool_calls_are_mapped() {
    let calls = vec![
        ToolCallChunkDelta {
            index: 0,
            id: Some("call-1".to_owned()),
            function: Some(FunctionCallStream {
                name: Some("add".to_owned()),
                arguments: Some("{\"a\":".to_owned()),
            }),
        },
        ToolCallChunkDelta {
            index: 1,
            id: None,
            function: None,
        },
    ];
    let events = ChatEvent::from_stream(piece(
        Some(OpenAiRole::Assistant),
        Some(""),
        Some(calls),
        Some(OpenAiFinishReason::FunctionCall),
    ));
    assert_eq!(
        events,
        vec![
            ChatEvent::MessageBegin {
                role: "assistant".to_owned()
            },
            ChatEvent::ToolCall(vec![
                ToolCallChunk {
                    index: 0,
                    id: Some("call-1".to_owned()),
                    name: Some("add".to_owned()),
                    arguments: Some("{\"a\":".to_owned()),
                },
                ToolCallChunk {
                    index: 1,
                    id: None,
                    name: None,
                    arguments: None,
                },
            ]),
            ChatEvent::MessageEnd {
                finish_reason: FinishReason::ToolCalls
            },
        ]
    );
}

#[test]
fn usage_and_empty_pieces() {
    let with_usage = ChatStreamWithReasoning {
        choices: vec![],
        usage: Some(usage()),
    };
    assert_eq!(ChatEvent::from_stream(with_usage), vec![ChatEvent::Usage { usage: usage() }]);
    let empty = ChatStreamWithReasoning {
        choices: vec![],
        usage: None,
    };
    assert!(ChatEvent::from_stream(empty).is_empty());
    let end = ChatEvent::from_stream(piece(None, None, None, Some(OpenAiFinishReason::Length)));
    assert_eq!(
        end,
        vec![ChatEvent::MessageEnd {
            finish_reason: FinishReason::Length
        }]
    );
}

#[test]
fn unexpected_tool_calls_end_the_stream() {
    let calls = vec![ToolCallChunkDelta {
        index: 0,
        id: None,
        function: None,
    }];
    let (passed, error) = stream_piece_events(
        false,
        piece(Some(OpenAiRole::Assistant), None, Some(calls.clone()), None),
    );
    assert_eq!(
        passed,
        vec![ChatEvent::MessageBegin {
            role: "assistant".to_owned()
        }]
    );
    assert_eq!(error, Some(InferenceError::UnexpectedToolCall));
    let (passed, error) = stream_piece_events(
        true,
        piece(Some(OpenAiRole::Assistant), None, Some(calls), None),
    );
    assert_eq!(passed.len(), 2);
    assert_eq!(error, None);
}

#[test]
fn roles_are_matched_without_regard_to_case() {
    let other = |role: &str| Message::Other {
        role: role.to_owned(),
        content: "c".to_owned(),
    };
    assert_eq!(
        request_message(other("SYSTEM")),
        Ok(OpenAiRequestMessage::System("c".to_owned()))
    );
    assert_eq!(
        request_message(other("Developer")),
        Ok(OpenAiRequestMessage::Developer("c".to_owned()))
    );
    assert_eq!(
        request_message(other("user")),
        Ok(OpenAiRequestMessage::User("c".to_owned()))
    );
    assert_eq!(
        request_message(other("wizard")),
        Err(InferenceError::RoleNotSupported("wizard".to_owned()))
    );
    assert_eq!(
        request_message(Message::Tool(ToolMessage {
            content: "3".to_owned(),
            tool_call_id: "call-1".to_owned()
        })),
        Ok(OpenAiRequestMessage::Tool {
            content: "3".to_owned(),
            tool_call_id: "call-1".to_owned()
        })
    );
    let call = ToolCall {
        id: "1".to_owned(),
        name: "add".to_owned(),
        arguments: "{}".to_owned(),
    };
    assert_eq!(
        request_message(Message::Assistant(AssistantMessage {
            content: None,
            reasoning_content: Some("hmm".to_owned()),
            tool_calls: Some(vec![call.clone()]),
        })),
        Ok(OpenAiRequestMessage::Assistant {
            content: None,
            tool_calls: Some(vec![call])
        })
    );
}

#[test]
fn openai_errors_become_inference_errors() {
    assert_eq!(
        inference_error_from_openai(Some("invalid_api_key".to_owned()), "x"),
        InferenceError::Unauthorized
    );
    assert_eq!(
        inference_error_from_openai(Some("model_not_found".to_owned()), "x"),
        InferenceError::ModelNotFound
    );
    assert_eq!(
        inference_error_from_openai(None, "timeout"),
        InferenceError::Other("Error while calling OpenAI chat completion API: timeout".to_owned())
    );
}

fn whole(choices: Vec<ChatChoice>, usage: Option<TokenUsage>) -> ChatResponseReasoningContent {
    ChatResponseReasoningContent { choices, usage }
}

fn choice(finish_reason: Option<FinishReason>) -> ChatChoice {
    ChatChoice {
        message: ChatCompletionResponseMessage {
            content: Some("42".to_owned()),
            reasoning_content: Some("thinking".to_owned()),
            tool_calls: None,
        },
        finish_reason,
    }
}

#[test]
fn whole_answers_need_a_choice_a_finish_reason_and_a_usage() {
    assert_eq!(
        chat_response_from(whole(vec![], Some(usage()))).unwrap_err(),
        InferenceError::Other("Expected at least one choice in the chat completion response.".to_owned())
    );
    assert_eq!(
        chat_response_from(whole(vec![choice(None)], Some(usage()))).unwrap_err(),
        InferenceError::Other("Expected chat completion response to have a finish reason.".to_owned())
    );
    assert_eq!(
        chat_response_from(whole(vec![choice(Some(FinishReason::Stop))], None)).unwrap_err(),
        InferenceError::Other("Expected chat completion response to have a usage.".to_owned())
    );
    let response = chat_response_from(whole(
        vec![choice(Some(FinishReason::Stop)), choice(Some(FinishReason::Length))],
        Some(usage()),
    ))
    .unwrap();
    assert_eq!(response.finish_reason, FinishReason::Stop);
    assert_eq!(response.usage, usage());
    assert_eq!(response.message.content.as_deref(), Some("42"));
    assert_eq!(response.message.reasoning_content.as_deref(), Some("thinking"));
}

#[test]
fn chat_events_have_sse_names() {
    assert_eq!(
        chat_event_name(&ChatEvent::MessageBegin {
            role: "assistant".to_owned()
        }),
        "message_begin"
    );
    assert_eq!(
        chat_event_name(&ChatEvent::MessageAppend {
            content: "x".to_owned()
        }),
        "message_append"
    );
    assert_eq!(
        chat_event_name(&ChatEvent::MessageEnd {
            finish_reason: FinishReason::Stop
        }),
        "message_end"
    );
    assert_eq!(chat_event_name(&ChatEvent::Usage { usage: usage() }), "usage");
    assert_eq!(chat_event_name(&ChatEvent::ToolCall(vec![])), "tool_call");
}
