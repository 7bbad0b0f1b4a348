use pharia_kernel::inference::{
    ChatParams, ChatRequest, Function, InferenceError, JsonSchema, Logprobs, Message,
    ReasoningEffort, ResponseFormat, ToolChoice,
};
use pharia_kernel::openai::{
    OpenAiReasoningEffort, OpenAiRequestMessage, OpenAiResponseFormat, OpenAiTool,
    OpenAiToolChoice,
};

fn user(content: &str) -> Message {
    Message::Other { role: "user".to_owned(), content: content.to_owned() }
}

fn function(name: &str, parameters: Option<&[u8]>) -> Function {
    Function {
        name: name.to_owned(),
        description: Some("does things".to_owned()),
        parameters: parameters.map(|p| p.to_vec()),
        strict: Some(true),
    }
}

fn request(messages: Vec<Message>, params: ChatParams) -> ChatRequest {
    ChatRequest { model: "llama".to_owned(), messages, params }
}

#[test]
fn every_parameter_is_carried_over() {
    let schema = br#"{"type":"object"}"#;
    let params = ChatParams {
        max_tokens: Some(64),
        max_completion_tokens: Some(128),
        logprobs: Logprobs::Top(3),
        tools: Some(vec![function("add", Some(schema)), function("now", None)]),
        tool_choice: Some(ToolChoice::Named("add".to_owned())),
        parallel_tool_calls: Some(false),
        response_format: Some(ResponseFormat::JsonSchema(JsonSchema {
            name: "answer".to_owned(),
            description: None,
            schema: Some(schema.to_vec()),
            strict: None,
        })),
        reasoning_effort: Some(ReasoningEffort::Low),
    };
    let q = request(vec![user("Hi")], params).as_openai_request().unwrap();

    assert_eq!(q.model, "llama");
    assert_eq!(q.messages, vec![OpenAiRequestMessage::User("Hi".to_owned())]);
    assert_eq!(q.logprobs, Some(true));
    assert_eq!(q.top_logprobs, Some(3));
    assert_eq!(q.max_tokens, Some(64));
    assert_eq!(q.max_completion_tokens, Some(128));
    assert_eq!(
        q.tools,
        Some(vec![
            OpenAiTool {
                name: "add".to_owned(),
                description: Some("does things".to_owned()),
                parameters: Some(schema.to_vec()),
                strict: Some(true),
            },
            OpenAiTool {
                name: "now".to_owned(),
                description: Some("does things".to_owned()),
                parameters: None,
                strict: Some(true),
            },
        ])
    );
    assert_eq!(q.tool_choice, Some(OpenAiToolChoice::Named("add".to_owned())));
    assert_eq!(q.parallel_tool_calls, Some(false));
    assert_eq!(
        q.response_format,
        Some(OpenAiResponseFormat::JsonSchema {
            name: "answer".to_owned(),
            description: None,
            schema: Some(schema.to_vec()),
            strict: None,
        })
    );
    assert_eq!(q.reasoning_effort, Some(OpenAiReasoningEffort::Low));
    assert_eq!(q.stream, None);
    assert_eq!(q.stream_include_usage, None);
}

#[test]
fn default_parameters_ask_for_nothing() {
    let q = request(vec![], ChatParams::default()).as_openai_request().unwrap();
    assert!(q.messages.is_empty());
    assert_eq!(q.logprobs, None);
    assert_eq!(q.top_logprobs, None);
    assert_eq!(q.tools, None);
    assert_eq!(q.tool_choice, None);
    assert_eq!(q.response_format, None);
    assert_eq!(q.reasoning_effort, None);
}

#[test]
fn sampled_logprobs_ask_for_the_top_one() {
    let params = ChatParams { logprobs: Logprobs::Sampled, ..ChatParams::default() };
    let q = request(vec![], params).as_openai_request().unwrap();
    assert_eq!((q.logprobs, q.top_logprobs), (Some(true), Some(1)));
}

#[test]
fn parameters_that_are_not_json_fail_the_request() {
    let params = ChatParams {
        tools: Some(vec![function("ok", Some(b"{}")), function("broken", Some(b"{"))]),
        ..ChatParams::default()
    };
    let error = request(vec![user("Hi")], params).as_openai_request().unwrap_err();
    match error {
        InferenceError::Other(message) => assert!(message.contains("EOF while parsing")),
        other => panic!("unexpected error {other:?}"),
    }
}

#[test]
fn a_schema_that_is_not_json_fails_the_request() {
    let params = ChatParams {
        response_format: Some(ResponseFormat::JsonSchema(JsonSchema {
            name: "answer".to_owned(),
            description: None,
            schema: Some(b"not json".to_vec()),
            strict: None,
        })),
        ..ChatParams::default()
    };
    let error = request(vec![], params).as_openai_request().unwrap_err();
    assert!(matches!(error, InferenceError::Other(message) if !message.is_empty()));
}

#[test]
fn an_unknown_role_is_reported_before_broken_tools() {
    let params = ChatParams {
        tools: Some(vec![function("broken", Some(b"{"))]),
        ..ChatParams::default()
    };
    let messages = vec![user("Hi"), Message::Other { role: "wizard".to_owned(), content: "x".to_owned() }];
    let error = request(messages, params).as_openai_request().unwrap_err();
    assert_eq!(error, InferenceError::RoleNotSupported("wizard".to_owned()));
}

#[test]
fn plain_formats_and_choices_map_one_to_one() {
    let params = ChatParams {
        tool_choice: Some(ToolChoice::NoTool),
        response_format: Some(ResponseFormat::JsonObject),
        reasoning_effort: Some(ReasoningEffort::High),
        ..ChatParams::default()
    };
    let q = request(vec![], params).as_openai_request().unwrap();
    assert_eq!(q.tool_choice, Some(OpenAiToolChoice::NoTool));
    assert_eq!(q.response_format, Some(OpenAiResponseFormat::JsonObject));
    assert_eq!(q.reasoning_effort, Some(OpenAiReasoningEffort::High));
}

#[test]
fn the_stream_request_streams_with_usage() {
    let q = request(vec![user("Hi")], ChatParams::default()).as_openai_stream_request().unwrap();
    assert_eq!(q.stream, Some(true));
    assert_eq!(q.stream_include_usage, Some(true));
    assert_eq!(q.messages, vec![OpenAiRequestMessage::User("Hi".to_owned())]);
}
