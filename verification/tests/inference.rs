use pharia_kernel::authorization::Authentication;
use pharia_kernel::inference::{
    aleph_alpha_api_token, inference_error_from_client, prepend_reasoning_content, should_retry,
    think_close_tag, think_open_tag, validate_chat_event, validate_chat_response,
    AlephAlphaConfig, AssistantMessage, ChatEvent, ChatResponse, ClientFailure, FinishReason,
    InferenceError, InferenceNotConfigured, Logprobs, Message, TokenUsage, UnknownFinishReason,
};
use pharia_kernel::openai::openai_logprobs;
use pharia_kernel::stream_relay::{ChatStreamRelay, RelayAction, RelayEvent, RelayPhase};

fn append(text: &str) -> ChatEvent {
    ChatEvent::MessageAppend {
        content: text.to_owned(),
    }
}

fn response(content: Option<&str>, finish_reason: FinishReason) -> ChatResponse {
    ChatResponse {
        message: AssistantMessage {
            content: content.map(str::to_owned),
            reasoning_content: None,
            tool_calls: None,
        },
        finish_reason,
        usage: TokenUsage {
            prompt: 0,
            completion: 0,
        },
    }
}

#[test]
fn finish_reasons_of_completions_are_parsed() {
    assert_eq!(FinishReason::from_str("maximum_tokens"), Ok(FinishReason::Length));
    assert_eq!(FinishReason::from_str("length"), Ok(FinishReason::Length));
    assert_eq!(FinishReason::from_str("end_of_text"), Ok(FinishReason::Stop));
    assert_eq!(
        FinishReason::from_str("stop_sequence_reached"),
        Ok(FinishReason::Stop)
    );
    assert_eq!(FinishReason::from_str("stop"), Ok(FinishReason::Stop));
    assert_eq!(
        FinishReason::from_str("content_filter"),
        Ok(FinishReason::ContentFilter)
    );
    assert_eq!(
        FinishReason::from_str("tool_calls"),
        Err(UnknownFinishReason("tool_calls".to_owned()))
    );
}

#[test]
fn reasoning_is_put_in_front_of_the_content() {
    assert_eq!(think_open_tag(), "<think>");
    assert_eq!(think_close_tag(), "</think>");
    assert_eq!(
        prepend_reasoning_content("42".to_owned(), Some("hmm".to_owned())),
        "<think>hmm</think>42"
    );
    assert_eq!(prepend_reasoning_content("42".to_owned(), None), "42");
}

#[test]
fn responses_without_tools_need_content_and_no_tool_call() {
    assert_eq!(
        validate_chat_response(false, &response(None, FinishReason::Stop)),
        Err(InferenceError::EmptyContent)
    );
    assert_eq!(
        validate_chat_response(false, &response(Some("x"), FinishReason::ToolCalls)),
        Err(InferenceError::UnexpectedToolCall)
    );
    assert_eq!(
        validate_chat_response(false, &response(Some("x"), FinishReason::Stop)),
        Ok(())
    );
    assert_eq!(
        validate_chat_response(true, &response(None, FinishReason::ToolCalls)),
        Ok(())
    );
    assert_eq!(
        validate_chat_event(
            false,
            &ChatEvent::MessageEnd {
                finish_reason: FinishReason::ToolCalls
            }
        ),
        Err(InferenceError::UnexpectedToolCall)
    );
    assert_eq!(
        validate_chat_event(false, &ChatEvent::ToolCall(vec![])),
        Err(InferenceError::UnexpectedToolCall)
    );
    assert_eq!(validate_chat_event(false, &append("x")), Ok(()));
    assert_eq!(validate_chat_event(true, &ChatEvent::ToolCall(vec![])), Ok(()));
}

#[test]
fn only_passing_failures_are_retried_five_times() {
    for failure in [
        ClientFailure::Busy,
        ClientFailure::Unavailable,
        ClientFailure::TooManyRequests,
    ] {
        for past in 0..5 {
            assert!(should_retry(&failure, past));
        }
        assert!(!should_retry(&failure, 5));
        assert!(!should_retry(&failure, u32::MAX));
    }
    assert!(!should_retry(&ClientFailure::ModelNotFound, 0));
    assert!(!should_retry(
        &ClientFailure::Http {
            status: 500,
            message: "x".to_owned()
        },
        0
    ));
    assert!(!should_retry(&ClientFailure::Other("x".to_owned()), 0));
}

#[test]
fn client_failures_become_inference_errors() {
    assert_eq!(
        inference_error_from_client(
            ClientFailure::Http { status: 401, message: "no".to_owned() },
            "HTTP request failed with status code 401. Body:\nno"
        ),
        InferenceError::Unauthorized
    );
    assert_eq!(
        inference_error_from_client(
            ClientFailure::Http { status: 500, message: "oops".to_owned() },
            "HTTP request failed with status code 500. Body:\noops"
        ),
        InferenceError::Other("HTTP request failed with status code 500. Body:\noops".to_owned())
    );
    assert_eq!(
        inference_error_from_client(ClientFailure::ModelNotFound, "model not found"),
        InferenceError::ModelNotFound
    );
    assert_eq!(
        inference_error_from_client(ClientFailure::Busy, "the service is busy"),
        InferenceError::Other("the service is busy".to_owned())
    );
}

#[test]
fn inference_error_messages() {
    assert_eq!(InferenceError::Unauthorized.message(), "Unauthorized");
    assert_eq!(
        InferenceError::RoleNotSupported("wizard".to_owned()).message(),
        "The role wizard is not supported by the inference backend. Currently, supported roles are `user`, `assistant`, `system` and `tool`."
    );
    assert!(InferenceError::NotConfigured
        .message()
        .starts_with("No inference backend configured."));
    assert_eq!(InferenceError::Other("boom".to_owned()).message(), "boom");
}

#[test]
fn log_probabilities_for_openai_backends() {
    assert_eq!(openai_logprobs(&Logprobs::No), (None, None));
    assert_eq!(openai_logprobs(&Logprobs::Sampled), (Some(true), Some(1)));
    assert_eq!(openai_logprobs(&Logprobs::Top(7)), (Some(true), Some(7)));
    assert_eq!(Logprobs::default(), Logprobs::No);
}

#[test]
fn aleph_alpha_requests_carry_the_token() {
    let config = AlephAlphaConfig::new("https://api.example.com".to_owned(), "t0k".to_owned());
    assert_eq!(config.url("/complete"), "https://api.example.com/complete");
    assert_eq!(config.authorization_header(), "Bearer t0k");
    assert!(config.query().is_empty());
}

#[test]
fn requests_fail_without_inference_backend() {
    let inference = InferenceNotConfigured;
    assert_eq!(inference.complete(), Err(InferenceError::NotConfigured));
    assert_eq!(inference.chat(), Err(InferenceError::NotConfigured));
    assert_eq!(inference.explain(), Err(InferenceError::NotConfigured));
}

#[test]
fn messages_are_recorded_in_traces_with_their_role() {
    let otel = Message::user("hi".to_owned()).as_otel_message();
    assert_eq!(otel.role, "user");
    assert_eq!(otel.content, "hi");
    let otel = Message::Assistant(AssistantMessage {
        content: None,
        reasoning_content: None,
        tool_calls: None,
    })
    .as_otel_message();
    assert_eq!(otel.role, "assistant");
    assert_eq!(otel.content, "");
}

#[test]
fn relay_passes_events_on_and_records_the_message() {
    let mut relay = ChatStreamRelay::new(true);
    let begin = ChatEvent::MessageBegin {
        role: "assistant".to_owned(),
    };
    assert_eq!(
        relay.step(RelayEvent::Received(begin.clone())),
        RelayAction::Forward(begin)
    );
    assert_eq!(
        relay.step(RelayEvent::Received(append("Hel"))),
        RelayAction::Forward(append("Hel"))
    );
    assert_eq!(
        relay.step(RelayEvent::Received(append("lo"))),
        RelayAction::Forward(append("lo"))
    );
    assert_eq!(relay.step(RelayEvent::StreamEnded(None)), RelayAction::Nothing);
    assert_eq!(relay.phase, RelayPhase::Draining);
    // Buffered events are still passed on, but no longer recorded.
    assert_eq!(
        relay.step(RelayEvent::Received(append("!"))),
        RelayAction::Forward(append("!"))
    );
    assert_eq!(
        relay.step(RelayEvent::BufferEmpty),
        RelayAction::Capture(AssistantMessage {
            content: Some("Hello".to_owned()),
            reasoning_content: None,
            tool_calls: None,
        })
    );
    assert_eq!(relay.phase, RelayPhase::Finished);
    assert_eq!(relay.step(RelayEvent::BufferEmpty), RelayAction::Nothing);
}

#[test]
fn relay_passes_on_the_error_of_the_backend() {
    let mut relay = ChatStreamRelay::new(false);
    assert_eq!(
        relay.step(RelayEvent::StreamEnded(Some(InferenceError::ModelNotFound))),
        RelayAction::ForwardError(InferenceError::ModelNotFound)
    );
    assert_eq!(relay.step(RelayEvent::BufferEmpty), RelayAction::Nothing);
    assert_eq!(relay.phase, RelayPhase::Finished);
}

#[test]
fn relay_stops_when_the_requester_is_gone() {
    let mut relay = ChatStreamRelay::new(true);
    assert_eq!(
        relay.step(RelayEvent::Received(append("a"))),
        RelayAction::Forward(append("a"))
    );
    assert_eq!(relay.step(RelayEvent::ReceiverGone), RelayAction::Nothing);
    assert_eq!(relay.phase, RelayPhase::Draining);
    assert_eq!(
        relay.step(RelayEvent::StreamEnded(Some(InferenceError::Unauthorized))),
        RelayAction::Nothing
    );
    assert_eq!(relay.captured, "a");
}

#[test]
fn aleph_alpha_needs_a_token() {
    assert_eq!(
        aleph_alpha_api_token(Authentication::new("t".to_owned())),
        Ok("t".to_owned())
    );
    assert_eq!(
        aleph_alpha_api_token(Authentication::none()),
        Err(InferenceError::AlephAlphaTokenRequired)
    );
}
