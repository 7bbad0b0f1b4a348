use pharia_kernel::chunking::{validate_chunk_params, ChunkParams, ChunkingError};
use pharia_kernel::hardcoded_skills::{
    chat_skill_event, hardcoded_skill, HardcodedSkill, SkillChat, SkillError, SkillEvent,
    SkillHello, SkillManifest, SkillSaboteur, SkillTellMeAJoke, SkillToolCaller,
};
use pharia_kernel::inference::{ChatEvent, FinishReason, Message, TokenUsage};
use pharia_kernel::observer::SkillPath;
use pharia_kernel::test_skills::{
    componentize_args, error_on_status, given_chat_stream_skill, given_complete_stream_skill,
    given_invalid_output_skill, given_python_skill_greet_v0_2, given_python_skill_greet_v0_3,
    given_rust_skill_chat, given_rust_skill_chat_v0_4, given_rust_skill_complete_with_echo,
    given_rust_skill_doc_metadata, given_rust_skill_explain, given_rust_skill_greet_v0_2,
    given_rust_skill_greet_v0_3, given_rust_skill_search, given_skill_infinite_streaming,
    given_skill_tool_invocation, given_streaming_output_skill, rust_artifact_path,
    release_artifact_path, rust_build_args, skill_build_cache_dir, strip_args, uv_install_args,
    uv_run_args, wasi_target,
    uv_venv_args, SkillBuild, TestSkill, WitVersion,
};

fn strings(v: &[&str]) -> Vec<String> {
    v.iter().map(|s| (*s).to_owned()).collect()
}

#[test]
fn hardcoded_skills_live_in_the_beta_namespace() {
    let find = |ns: &str, name: &str| hardcoded_skill(&SkillPath::new(ns, name));
    assert!(matches!(find("test-beta", "hello"), Some(HardcodedSkill::Hello(_))));
    assert!(matches!(
        find("test-beta", "saboteur"),
        Some(HardcodedSkill::Saboteur(_))
    ));
    assert!(matches!(
        find("test-beta", "tell_me_a_joke"),
        Some(HardcodedSkill::TellMeAJoke(_))
    ));
    assert!(matches!(
        find("test-beta", "tool_caller"),
        Some(HardcodedSkill::ToolCaller(_))
    ));
    assert!(find("test-beta", "unknown").is_none());
    assert!(find("other", "hello").is_none());
}

#[test]
fn hello_skill_streams_hello_letter_by_letter() {
    let events = SkillHello.run_as_message_stream();
    let mut expected = vec![SkillEvent::MessageBegin];
    for c in ["H", "e", "l", "l", "o"] {
        expected.push(SkillEvent::MessageAppend {
            text: c.to_owned(),
        });
    }
    expected.push(SkillEvent::MessageEnd {
        payload: "null".to_owned(),
    });
    assert_eq!(events, expected);
    assert_eq!(SkillHello.manifest(), Ok(SkillManifest::V0));
    assert_eq!(
        SkillHello.run_as_function(),
        Err(SkillError::UserCode("I am a dummy Skill".to_owned()))
    );
}

#[test]
fn saboteur_always_fails() {
    assert_eq!(
        SkillSaboteur.run_as_message_stream(),
        Err(SkillError::UserCode("Skill is a saboteur".to_owned()))
    );
    assert_eq!(SkillSaboteur.run_as_function(), Err(SkillError::IsMessageStream));
}

#[test]
fn chat_events_become_skill_events() {
    assert_eq!(
        chat_skill_event(ChatEvent::MessageBegin {
            role: "assistant".to_owned()
        }),
        Some(SkillEvent::MessageBegin)
    );
    assert_eq!(
        chat_skill_event(ChatEvent::MessageAppend {
            content: "hi".to_owned()
        }),
        Some(SkillEvent::MessageAppend {
            text: "hi".to_owned()
        })
    );
    assert_eq!(
        chat_skill_event(ChatEvent::MessageEnd {
            finish_reason: FinishReason::Length
        }),
        Some(SkillEvent::MessageEnd {
            payload: "\"Length\"".to_owned()
        })
    );
    assert_eq!(
        chat_skill_event(ChatEvent::Usage {
            usage: TokenUsage {
                prompt: 1,
                completion: 1
            }
        }),
        None
    );
}

#[test]
fn joke_skill_asks_the_model_for_a_joke() {
    let skill = SkillTellMeAJoke;
    assert_eq!(skill.model(), "llama-3.1-8b-instruct");
    assert_eq!(skill.prompt(), "Tell me a joke!");
    assert_eq!(skill.max_tokens(), 300);
    assert!(skill.manifest().is_err());
}

#[test]
fn tool_caller_reports_the_tool_answer() {
    let skill = SkillToolCaller;
    let request = skill.request();
    assert_eq!(request.name, "add");
    assert_eq!(request.arguments[0].name, "a");
    assert_eq!(request.arguments[0].value, b"1".to_vec());
    assert_eq!(request.arguments[1].name, "b");
    assert_eq!(request.arguments[1].value, b"2".to_vec());
    assert_eq!(
        skill.run_as_message_stream(Some(Ok("3".to_owned()))),
        Ok(vec![
            SkillEvent::MessageBegin,
            SkillEvent::MessageAppend {
                text: "3".to_owned()
            }
        ])
    );
    assert_eq!(
        skill.run_as_message_stream(Some(Err("no such tool".to_owned()))),
        Err(SkillError::UserCode("no such tool".to_owned()))
    );
    assert_eq!(
        skill.run_as_message_stream(None),
        Err(SkillError::UserCode("Tool invocation failed".to_owned()))
    );
}

#[test]
fn chat_skill_puts_the_system_prompt_first() {
    let skill = SkillChat::new("model".to_owned(), "Be brief.".to_owned());
    let messages = skill.chat_messages(vec![Message::user("Hi".to_owned())]);
    assert_eq!(
        messages,
        vec![
            Message::system("Be brief.".to_owned()),
            Message::user("Hi".to_owned())
        ]
    );
    assert_eq!(skill.run_as_function(), Err(SkillError::IsMessageStream));
    match skill.manifest() {
        Ok(SkillManifest::MessageStream {
            description,
            input_schema,
        }) => {
            assert_eq!(description, "A chat skill");
            assert_eq!(
                input_schema,
                r#"{"properties":{"messages":{"title":"Messages","type":"array"}},"required":["messages"],"title":"SkillInput","type":"object"}"#
            );
        }
        other => panic!("unexpected manifest {other:?}"),
    }
}

fn rust_skill(package: &str) -> TestSkill {
    TestSkill {
        path: format!("skill_build_cache/{package}-rs.wasm"),
        build: SkillBuild::Rust {
            package: package.to_owned(),
        },
    }
}

#[test]
fn test_skills_are_cached_by_package() {
    assert_eq!(skill_build_cache_dir(), "skill_build_cache");
    let cases: Vec<(TestSkill, &str)> = vec![
        (given_skill_tool_invocation(), "tool-invocation"),
        (given_skill_infinite_streaming(), "infinite-streaming"),
        (given_rust_skill_chat_v0_4(), "chat-v0_4"),
        (given_rust_skill_greet_v0_3(), "greet-v0_3"),
        (given_rust_skill_complete_with_echo(), "complete-with-echo"),
        (given_rust_skill_greet_v0_2(), "greet-v0_2"),
        (given_rust_skill_explain(), "explain"),
        (given_rust_skill_search(), "search"),
        (given_rust_skill_doc_metadata(), "doc-metadata"),
        (given_rust_skill_chat(), "chat"),
        (given_invalid_output_skill(), "invalid-output"),
        (given_complete_stream_skill(), "complete-stream"),
        (given_chat_stream_skill(), "chat-stream"),
        (given_streaming_output_skill(), "streaming-output"),
    ];
    for (skill, package) in cases {
        assert_eq!(skill, rust_skill(package));
    }
    assert_eq!(
        given_python_skill_greet_v0_2(),
        TestSkill {
            path: "skill_build_cache/greet-v0_2-py.wasm".to_owned(),
            build: SkillBuild::Python {
                package: "greet-v0_2".to_owned(),
                wit_version: WitVersion::V0_2,
                world: "skill".to_owned(),
            },
        }
    );
    assert_eq!(
        given_python_skill_greet_v0_3().build,
        SkillBuild::Python {
            package: "greet-v0_3".to_owned(),
            wit_version: WitVersion::V0_3,
            world: "skill".to_owned(),
        }
    );
    assert_eq!(WitVersion::V0_2.path(), "wit/skill@0.2");
    assert_eq!(WitVersion::V0_3.path(), "wit/skill@0.3");
}

#[test]
fn build_command_lines() {
    assert_eq!(
        rust_build_args("greet-v0_2"),
        strings(&["build", "-p", "greet-v0_2", "--target", "wasm32-wasip2", "--release"])
    );
    assert_eq!(
        rust_artifact_path("greet-v0_2"),
        "target/wasm32-wasip2/release/greet_v0_2.wasm"
    );
    assert_eq!(
        rust_artifact_path("complete-with-echo"),
        "target/wasm32-wasip2/release/complete_with_echo.wasm"
    );
    assert_eq!(
        componentize_args("greet-v0_3", "/repo/wit/skill@0.3", "skill", "out.wasm"),
        strings(&[
            "componentize-py",
            "-d",
            "/repo/wit/skill@0.3",
            "-w",
            "skill",
            "componentize",
            "python-skills.greet-v0_3.app",
            "-o",
            "out.wasm"
        ])
    );
    assert_eq!(strip_args("a.wasm"), strings(&["strip", "a.wasm", "-o", "a.wasm"]));
    assert_eq!(uv_venv_args("/v"), strings(&["venv", "/v"]));
    assert_eq!(
        uv_install_args("/v"),
        strings(&["pip", "install", "--python", "/v", "componentize-py==0.16.0"])
    );
    assert_eq!(
        uv_run_args("/v", &strings(&["a", "b"])),
        strings(&["run", "--python", "/v", "a", "b"])
    );
    assert_eq!(uv_run_args("/v", &vec![]), strings(&["run", "--python", "/v"]));
}

#[test]
fn failed_commands_report_their_standard_error() {
    assert_eq!(error_on_status("Building failed.", true, "ignored"), Ok(()));
    assert_eq!(
        error_on_status("Building failed.", false, "boom"),
        Err("Building failed.\nStandard error:\nboom".to_owned())
    );
}

#[test]
fn overlap_must_stay_below_the_chunk_size() {
    let params = |max_tokens, overlap| ChunkParams {
        model: "pharia-1-llm-7B-control".to_owned(),
        max_tokens,
        overlap,
    };
    assert_eq!(validate_chunk_params(&params(100, 0)), Ok(()));
    assert_eq!(validate_chunk_params(&params(100, 99)), Ok(()));
    assert_eq!(
        validate_chunk_params(&params(100, 100)),
        Err(ChunkingError::OverlapNotBelowMaxTokens)
    );
    assert_eq!(
        validate_chunk_params(&params(0, 0)),
        Err(ChunkingError::OverlapNotBelowMaxTokens)
    );
    assert_eq!(
        ChunkingError::OverlapNotBelowMaxTokens.message(),
        "The overlap is larger than or equal to the desired chunk capacity"
    );
}

#[test]
fn release_artifacts_live_under_the_wasi_target() {
    assert_eq!(wasi_target(), "wasm32-wasip2");
    assert_eq!(
        release_artifact_path("greet_v0_2"),
        "target/wasm32-wasip2/release/greet_v0_2.wasm"
    );
}

#[test]
fn the_joke_is_asked_for_in_one_user_message() {
    let request = SkillTellMeAJoke.chat_request();
    assert_eq!(request.model, "llama-3.1-8b-instruct");
    assert_eq!(
        request.messages,
        vec![Message::Other { role: "user".to_owned(), content: "Tell me a joke!".to_owned() }]
    );
    assert_eq!(request.params.max_tokens, Some(300));
    assert_eq!(request.params.tools, None);
}
