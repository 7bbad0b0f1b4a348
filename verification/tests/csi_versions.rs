use pharia_kernel::chunking;
use pharia_kernel::csi_common::{completion_event_name, CompletionEvent, FinishReason};
use pharia_kernel::csi_v0_2;
use pharia_kernel::csi_v0_3;
use pharia_kernel::csi_v1::{messages_into_inference, Message, MessageError};
use pharia_kernel::inference::{self, AssistantMessage, ToolMessage};
use pharia_kernel::language;

fn message(role: &str, content: Option<&str>, tool_call_id: Option<&str>) -> Message {
    Message {
        role: role.to_owned(),
        content: content.map(str::to_owned),
        tool_call_id: tool_call_id.map(str::to_owned),
        tool_calls: None,
    }
}

#[test]
fn version_1_messages_are_taken_in_by_role() {
    assert_eq!(
        message("assistant", None, None).into_inference(),
        Ok(inference::Message::Assistant(AssistantMessage {
            content: None,
            reasoning_content: None,
            tool_calls: None
        }))
    );
    assert_eq!(
        message("tool", Some("3"), None).into_inference(),
        Ok(inference::Message::Tool(ToolMessage {
            content: "3".to_owned(),
            tool_call_id: String::new()
        }))
    );
    assert_eq!(
        message("tool", None, Some("id")).into_inference(),
        Err(MessageError::ToolMessageWithoutContent)
    );
    assert_eq!(
        message("user", None, None).into_inference(),
        Err(MessageError::MessageWithoutContent)
    );
    assert_eq!(
        message("user", Some("hi"), None).into_inference(),
        Ok(inference::Message::Other {
            role: "user".to_owned(),
            content: "hi".to_owned()
        })
    );
    assert_eq!(
        MessageError::ToolMessageWithoutContent.message(),
        "Tool message must have content"
    );
    assert_eq!(
        MessageError::MessageWithoutContent.message(),
        "Non-assistant message must have content"
    );
}

#[test]
fn the_first_bad_message_is_reported() {
    let messages = vec![
        message("system", Some("be nice"), None),
        message("user", None, None),
        message("tool", None, None),
    ];
    assert_eq!(
        messages_into_inference(messages),
        Err(MessageError::MessageWithoutContent)
    );
    let fine = vec![message("system", Some("s"), None), message("user", Some("u"), None)];
    assert_eq!(messages_into_inference(fine).unwrap().len(), 2);
    let answer = Message::from_assistant(AssistantMessage {
        content: Some("42".to_owned()),
        reasoning_content: None,
        tool_calls: None,
    });
    assert_eq!(answer, message("assistant", Some("42"), None));
}

#[test]
fn version_0_2_knows_english_and_german() {
    assert_eq!(csi_v0_2::Language::Eng.into_language(), language::Language("eng".to_owned()));
    assert_eq!(
        csi_v0_2::Language::try_from(&language::Language("deu".to_owned())),
        Some(csi_v0_2::Language::Deu)
    );
    assert_eq!(
        csi_v0_2::Language::try_from(&language::Language("fra".to_owned())),
        None
    );
    let request = csi_v0_2::ChunkRequest {
        text: "t".to_owned(),
        params: csi_v0_2::ChunkParams {
            model: "m".to_owned(),
            max_tokens: 10,
        },
    };
    assert_eq!(
        request.into_chunking(),
        chunking::ChunkRequest {
            text: "t".to_owned(),
            params: chunking::ChunkParams {
                model: "m".to_owned(),
                max_tokens: 10,
                overlap: 0
            },
            character_offsets: false
        }
    );
}

#[test]
fn version_0_3_requests_map_field_by_field() {
    let request = csi_v0_3::ChunkWithOffsetRequest {
        text: "t".to_owned(),
        params: csi_v0_3::ChunkParams {
            model: "m".to_owned(),
            max_tokens: 10,
            overlap: 2,
        },
        character_offsets: true,
    };
    assert_eq!(
        request.into_chunking(),
        chunking::ChunkRequest {
            text: "t".to_owned(),
            params: chunking::ChunkParams {
                model: "m".to_owned(),
                max_tokens: 10,
                overlap: 2
            },
            character_offsets: true
        }
    );
    assert_eq!(
        csi_v0_3::Logprobs::Top(3).into_inference(),
        inference::Logprobs::Top(3)
    );
}

#[test]
fn completion_events_have_sse_names() {
    assert_eq!(
        completion_event_name(&CompletionEvent::Append {
            text: "x".to_owned()
        }),
        "append"
    );
    assert_eq!(
        completion_event_name(&CompletionEvent::End {
            finish_reason: inference::FinishReason::Stop
        }),
        "end"
    );
    assert_eq!(
        FinishReason::from_inference(inference::FinishReason::ToolCalls).as_str(),
        "tool_calls"
    );
}
