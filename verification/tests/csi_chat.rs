use pharia_kernel::csi_v1::{
    ChatParams, ChatRequest, Function, JsonSchema, Logprobs, Message, MessageError,
    ReasoningEffort, ResponseFormat, ToolChoice,
};
use pharia_kernel::inference;
use pharia_kernel::{csi_v0_2, csi_v0_3};

fn user(content: Option<&str>) -> Message {
    Message {
        role: "user".to_owned(),
        content: content.map(str::to_owned),
        tool_call_id: None,
        tool_calls: None,
    }
}

fn params() -> ChatParams {
    ChatParams {
        max_tokens: Some(10),
        max_completion_tokens: Some(20),
        logprobs: Logprobs::Top(2),
        tools: Some(vec![Function {
            name: "add".to_owned(),
            description: None,
            parameters: Some(br#"{"type":"object"}"#.to_vec()),
            strict: Some(false),
        }]),
        tool_choice: Some(ToolChoice::NoTool),
        parallel_tool_calls: Some(true),
        response_format: Some(ResponseFormat::JsonSchema(JsonSchema {
            name: "answer".to_owned(),
            description: Some("the answer".to_owned()),
            schema: None,
            strict: Some(true),
        })),
        reasoning_effort: Some(ReasoningEffort::Medium),
    }
}

#[test]
fn version_1_chat_requests_carry_every_parameter() {
    let request = ChatRequest {
        model: "llama".to_owned(),
        messages: vec![user(Some("Hi"))],
        params: params(),
    };
    let taken = request.into_inference().unwrap();
    assert_eq!(taken.model, "llama");
    assert_eq!(
        taken.messages,
        vec![inference::Message::Other { role: "user".to_owned(), content: "Hi".to_owned() }]
    );
    let p = taken.params;
    assert_eq!(p.max_tokens, Some(10));
    assert_eq!(p.max_completion_tokens, Some(20));
    assert_eq!(p.logprobs, inference::Logprobs::Top(2));
    assert_eq!(
        p.tools,
        Some(vec![inference::Function {
            name: "add".to_owned(),
            description: None,
            parameters: Some(br#"{"type":"object"}"#.to_vec()),
            strict: Some(false),
        }])
    );
    assert_eq!(p.tool_choice, Some(inference::ToolChoice::NoTool));
    assert_eq!(p.parallel_tool_calls, Some(true));
    assert_eq!(
        p.response_format,
        Some(inference::ResponseFormat::JsonSchema(inference::JsonSchema {
            name: "answer".to_owned(),
            description: Some("the answer".to_owned()),
            schema: None,
            strict: Some(true),
        }))
    );
    assert_eq!(p.reasoning_effort, Some(inference::ReasoningEffort::Medium));
}

#[test]
fn version_1_chat_requests_fail_on_the_first_message_without_content() {
    let request = ChatRequest {
        model: "llama".to_owned(),
        messages: vec![user(Some("Hi")), user(None)],
        params: params(),
    };
    assert_eq!(request.into_inference().unwrap_err(), MessageError::MessageWithoutContent);
}

#[test]
fn tool_choices_and_efforts_map_one_to_one() {
    assert_eq!(ToolChoice::Auto.into_inference(), inference::ToolChoice::Auto);
    assert_eq!(ToolChoice::Required.into_inference(), inference::ToolChoice::Required);
    assert_eq!(
        ToolChoice::Named("f".to_owned()).into_inference(),
        inference::ToolChoice::Named("f".to_owned())
    );
    assert_eq!(ReasoningEffort::Low.into_inference(), inference::ReasoningEffort::Low);
    assert_eq!(ReasoningEffort::High.into_inference(), inference::ReasoningEffort::High);
    assert_eq!(ResponseFormat::Text.into_inference(), inference::ResponseFormat::Text);
    assert_eq!(Logprobs::Sampled.into_inference(), inference::Logprobs::Sampled);
}

#[test]
fn a_client_request_becomes_an_openai_request() {
    let request = ChatRequest {
        model: "llama".to_owned(),
        messages: vec![user(Some("Hi"))],
        params: params(),
    };
    let q = request.into_inference().unwrap().as_openai_request().unwrap();
    assert_eq!(q.top_logprobs, Some(2));
    assert_eq!(q.tools.map(|t| t.len()), Some(1));
}

#[test]
fn version_0_2_chat_requests_keep_messages_and_max_tokens() {
    let request = csi_v0_2::ChatRequest {
        model: "llama".to_owned(),
        messages: vec![
            csi_v0_2::Message { role: "system".to_owned(), content: "Be brief".to_owned() },
            csi_v0_2::Message { role: "user".to_owned(), content: "Hi".to_owned() },
        ],
        params: csi_v0_2::ChatParams { max_tokens: Some(7) },
    };
    let taken = request.into_inference();
    assert_eq!(taken.model, "llama");
    assert_eq!(
        taken.messages,
        vec![
            inference::Message::Other { role: "system".to_owned(), content: "Be brief".to_owned() },
            inference::Message::Other { role: "user".to_owned(), content: "Hi".to_owned() },
        ]
    );
    assert_eq!(taken.params, inference::ChatParams { max_tokens: Some(7), ..Default::default() });
}

#[test]
fn version_0_3_chat_requests_keep_log_probabilities() {
    let request = csi_v0_3::ChatRequest {
        model: "llama".to_owned(),
        messages: vec![csi_v0_3::Message { role: "user".to_owned(), content: "Hi".to_owned() }],
        params: csi_v0_3::ChatParams { max_tokens: None, logprobs: csi_v0_3::Logprobs::Top(4) },
    };
    let taken = request.into_inference();
    assert_eq!(taken.messages.len(), 1);
    assert_eq!(taken.params.logprobs, inference::Logprobs::Top(4));
    assert_eq!(taken.params.max_tokens, None);
    assert_eq!(taken.params.tools, None);
}

#[test]
fn completion_requests_of_every_version_keep_their_parameters() {
    let stop = vec!["\n".to_owned()];
    let v0_2 = csi_v0_2::CompletionRequest {
        prompt: "Say hi".to_owned(),
        model: "llama".to_owned(),
        params: csi_v0_2::CompletionParams {
            return_special_tokens: true,
            max_tokens: Some(5),
            top_k: Some(3),
            stop: stop.clone(),
        },
    }
    .into_inference();
    assert_eq!(v0_2.prompt, "Say hi");
    assert_eq!(v0_2.model, "llama");
    assert_eq!(
        v0_2.params,
        inference::CompletionParams {
            return_special_tokens: true,
            max_tokens: Some(5),
            top_k: Some(3),
            stop: stop.clone(),
            logprobs: inference::Logprobs::No,
            echo: false,
        }
    );

    let v0_3 = csi_v0_3::CompletionParams {
        return_special_tokens: false,
        max_tokens: None,
        top_k: None,
        stop: vec![],
        logprobs: csi_v0_3::Logprobs::Sampled,
    }
    .into_inference();
    assert_eq!(v0_3.logprobs, inference::Logprobs::Sampled);
    assert!(!v0_3.echo);

    let v1 = pharia_kernel::csi_v1::CompletionParams {
        return_special_tokens: false,
        max_tokens: Some(1),
        top_k: None,
        stop: vec![],
        logprobs: Logprobs::Top(5),
        echo: true,
    }
    .into_inference();
    assert_eq!(v1.logprobs, inference::Logprobs::Top(5));
    assert!(v1.echo);
}

#[test]
fn a_new_completion_request_has_default_parameters() {
    let request = inference::CompletionRequest::new("Say hi".to_owned(), "llama".to_owned());
    assert_eq!(request.params, inference::CompletionParams::default());
    assert!(request.params.stop.is_empty());
    assert_eq!(request.params.logprobs, inference::Logprobs::No);
    let echoing = inference::CompletionParams { echo: true, ..Default::default() };
    let request = request.with_params(echoing.clone());
    assert_eq!(request.prompt, "Say hi");
    assert_eq!(request.params, echoing);
}
