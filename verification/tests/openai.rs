use ai_provider::config::OpenAiConfig;
use ai_provider::json::Json;
use ai_provider::openai::{
    action_append_text, build_messages_from_request, build_tool_call_action, chat_completions_url,
    closing_events, current_user_query_text, models_from_body, models_url, opening_events,
    parse_delta, AccumulatedToolCall, OpenAiAdapter, ReplyStream, StreamIds, ToolCallAccumulator,
};
use ai_provider::proto::calls::Tool;
use ai_provider::proto::conversation::{
    ClientAction, InputKind, Message, MessageKind, Request, RequestInput, RequestMetadata,
    RequestSettings, ResponseEvent, Task, TaskContext, ToolCall, ToolCallResult, ToolType, UserInput,
    UserInputKind, UserQuery,
};
use ai_provider::proto::results::{CommandFinished, RunShellCommandOutcome, ToolResult};
use ai_provider::tools::registry::ToolRegistry;

fn json(text: &str) -> Json {
    Json::parse(text).expect("test JSON")
}

fn empty_request() -> Request {
    Request { task_context: None, input: None, settings: None, metadata: None }
}

fn build_request_with_query(text: &str) -> Request {
    Request {
        input: Some(RequestInput {
            kind: Some(InputKind::UserInputs(vec![UserInput {
                input: Some(UserInputKind::UserQuery(UserQuery { query: text.to_string() })),
            }])),
        }),
        ..empty_request()
    }
}

fn tool_result_request(tool_call_id: &str, exit_code: i32, output: &str) -> Request {
    let result = ToolResult::RunShellCommand(Some(RunShellCommandOutcome::CommandFinished(
        CommandFinished { exit_code, output: output.to_string() },
    )));
    Request {
        input: Some(RequestInput {
            kind: Some(InputKind::UserInputs(vec![UserInput {
                input: Some(UserInputKind::ToolCallResult(ToolCallResult {
                    tool_call_id: tool_call_id.to_string(),
                    result: Some(result),
                })),
            }])),
        }),
        ..empty_request()
    }
}

fn adapter() -> OpenAiAdapter {
    OpenAiAdapter::new(OpenAiConfig {
        endpoint: "https://example.test/v1".into(),
        api_key: "sk-x".into(),
        model: "gpt-4o-mini".into(),
    })
}

fn str_at<'a>(j: &'a Json, key: &str) -> Option<&'a str> {
    j.get(key).and_then(|v| v.as_str())
}

#[test]
fn build_request_body_has_messages_array() {
    let req = build_request_with_query("how are you");
    let body = adapter().build_request_body(&req).expect("body");
    assert_eq!(str_at(&body, "model"), Some("gpt-4o-mini"));
    assert_eq!(body.get("stream").and_then(|v| v.as_bool()), Some(true));
    let messages = body.get("messages").and_then(|v| v.as_array()).expect("messages array");
    assert_eq!(messages.len(), 2);
    assert_eq!(str_at(&messages[0], "role"), Some("system"));
    assert_eq!(str_at(&messages[1], "role"), Some("user"));
    assert_eq!(str_at(&messages[1], "content"), Some("how are you"));
}

#[test]
fn build_request_body_omits_tools_when_supported_tools_empty() {
    let req = build_request_with_query("hello");
    let body = adapter().build_request_body(&req).expect("body");
    assert!(body.get("tools").is_none(), "tools should be absent when supported_tools is empty");
}

#[test]
fn build_request_body_offers_tools_when_supported() {
    let mut req = build_request_with_query("hello");
    req.settings = Some(RequestSettings {
        supported_tools: vec![ToolType::RunShellCommand, ToolType::Grep],
    });
    let body = adapter().build_request_body(&req).expect("body");
    let tools = body.get("tools").and_then(|v| v.as_array()).expect("tools");
    assert_eq!(tools.len(), 2);
    let names: Vec<&str> = tools
        .iter()
        .map(|t| t.get("function").and_then(|f| f.get("name")).and_then(|n| n.as_str()).unwrap())
        .collect();
    assert_eq!(names, vec!["run_shell_command", "grep"]);
}

#[test]
fn build_request_body_omits_tools_when_no_declared_kind_is_known() {
    let mut req = build_request_with_query("hello");
    req.settings = Some(RequestSettings { supported_tools: vec![ToolType::Other(99)] });
    let body = adapter().build_request_body(&req).expect("body");
    assert!(body.get("tools").is_none());
}

#[test]
fn errors_when_request_has_no_user_query() {
    let err = adapter().build_request_body(&empty_request()).expect_err("expected error but got Ok");
    assert!(err.message().contains("Request.input is missing"));
}

#[test]
fn stage2_tool_result_sent_as_role_tool_and_response_streamed() {
    let req = tool_result_request("call_abc123", 0, "file_a\nfile_b");
    let body = adapter().build_request_body(&req).expect("body");
    let messages = body.get("messages").and_then(|v| v.as_array()).expect("messages");
    let tool_msg = messages
        .iter()
        .find(|m| str_at(m, "role") == Some("tool"))
        .expect("expected a role:tool message in the outgoing request");
    assert_eq!(str_at(tool_msg, "tool_call_id"), Some("call_abc123"));
    assert_eq!(str_at(tool_msg, "content"), Some("exit_code: 0\noutput:\nfile_a\nfile_b"));
    assert_eq!(str_at(&messages[1], "role"), Some("user"));
    assert_eq!(str_at(&messages[1], "content"), Some("(continue)"));

    let mut reply = ReplyStream::new(&StreamIds::for_request(&req));
    let mut texts: Vec<String> = Vec::new();
    for data in [
        r#"{"choices":[{"delta":{"role":"assistant"},"finish_reason":null}]}"#,
        r#"{"choices":[{"delta":{"content":"Done! Found file_a and file_b."},"finish_reason":"stop"}]}"#,
        "[DONE]",
    ] {
        if let Some(Ok(ResponseEvent::ClientActions(actions))) = reply.on_message(data) {
            for action in actions {
                if let ClientAction::AppendToMessageContent { message, .. } = action {
                    if let Some(MessageKind::AgentOutput(out)) = message.message {
                        texts.push(out.text);
                    }
                }
            }
        }
    }
    assert!(!texts.is_empty(), "expected at least one text-delta event from the mock text response");
    let full_text = texts.join("");
    assert!(full_text.contains("file_a") || full_text.contains("Done"));
}

#[test]
fn history_is_replayed_before_the_input() {
    let call = ToolRegistry::default()
        .by_name("read_shell_command_output")
        .unwrap()
        .decode_call_args(json(r#"{"command_id": "cmd-1"}"#))
        .expect("decode");
    let history = vec![
        Message {
            id: "m1".into(),
            task_id: "t".into(),
            message: Some(MessageKind::UserQuery(UserQuery { query: "first".into() })),
        },
        Message {
            id: "m2".into(),
            task_id: "t".into(),
            message: Some(MessageKind::ToolCall(ToolCall {
                tool_call_id: "call_1".into(),
                tool: Some(call),
            })),
        },
        Message { id: "m3".into(), task_id: "t".into(), message: Some(MessageKind::Other) },
    ];
    let mut req = build_request_with_query("second");
    req.task_context = Some(TaskContext { tasks: vec![Task { id: "t".into(), messages: history }] });
    let messages = build_messages_from_request(&req, &ToolRegistry::default()).expect("messages");
    assert_eq!(messages.len(), 3);
    assert_eq!(str_at(&messages[0], "content"), Some("first"));
    assert_eq!(str_at(&messages[1], "role"), Some("assistant"));
    let calls = messages[1].get("tool_calls").and_then(|v| v.as_array()).unwrap();
    assert_eq!(str_at(&calls[0], "id"), Some("call_1"));
    let function = calls[0].get("function").unwrap();
    assert_eq!(str_at(function, "name"), Some("read_shell_command_output"));
    let arguments = Json::parse(str_at(function, "arguments").unwrap()).expect("arguments JSON");
    assert_eq!(str_at(&arguments, "command_id"), Some("cmd-1"));
    assert_eq!(str_at(&messages[2], "content"), Some("second"));
}

#[test]
fn unsupported_tool_result_gets_placeholder() {
    let req = Request {
        input: Some(RequestInput {
            kind: Some(InputKind::UserInputs(vec![UserInput {
                input: Some(UserInputKind::ToolCallResult(ToolCallResult {
                    tool_call_id: "c".into(),
                    result: Some(ToolResult::Other),
                })),
            }])),
        }),
        ..empty_request()
    };
    let messages = build_messages_from_request(&req, &ToolRegistry::default()).expect("messages");
    assert_eq!(messages.len(), 2);
    assert_eq!(str_at(&messages[1], "content"), Some("(unsupported tool result variant)"));
}

#[test]
fn stream_ids_are_unique_uuids() {
    let ids = StreamIds::new();
    assert_ne!(ids.conversation_id, ids.request_id);
    assert!(uuid::Uuid::parse_str(&ids.conversation_id).is_ok());
    assert!(uuid::Uuid::parse_str(&ids.task_id).is_ok());
}

#[test]
fn append_text_action_has_correct_mask() {
    let action = action_append_text("task-1", "msg-1", "hello");
    match action {
        ClientAction::AppendToMessageContent { task_id, message, mask } => {
            assert_eq!(task_id, "task-1");
            assert_eq!(mask, vec!["agent_output.text"]);
            match message.message.as_ref().unwrap() {
                MessageKind::AgentOutput(out) => {
                    assert_eq!(out.text, "hello");
                }
                _ => panic!("expected AgentOutput"),
            }
        }
        _ => panic!("expected AppendToMessageContent"),
    }
}

#[test]
fn for_request_reuses_conversation_id_when_set() {
    let request = Request {
        metadata: Some(RequestMetadata { conversation_id: "existing-conv".to_string() }),
        ..empty_request()
    };
    let ids = StreamIds::for_request(&request);
    assert_eq!(ids.conversation_id, "existing-conv");
    assert!(StreamIds::is_continuation(&request));
}

#[test]
fn for_request_reuses_task_id_when_present() {
    let request = Request {
        task_context: Some(TaskContext {
            tasks: vec![Task { id: "existing-task".to_string(), messages: vec![] }],
        }),
        ..empty_request()
    };
    let ids = StreamIds::for_request(&request);
    assert_eq!(ids.task_id, "existing-task");
    assert!(StreamIds::is_continuation(&request));
}

#[test]
fn for_request_synthesizes_fresh_when_default() {
    let request = empty_request();
    let ids = StreamIds::for_request(&request);
    assert!(uuid::Uuid::parse_str(&ids.conversation_id).is_ok());
    assert!(uuid::Uuid::parse_str(&ids.task_id).is_ok());
    assert!(!StreamIds::is_continuation(&request));
}

#[test]
fn fresh_ids_are_version_four() {
    let ids = StreamIds::new();
    for id in [&ids.conversation_id, &ids.request_id, &ids.run_id, &ids.task_id, &ids.message_id] {
        let parsed = uuid::Uuid::parse_str(id).expect("uuid");
        assert_eq!(parsed.get_version_num(), 4);
        assert_eq!(id.len(), 36);
        assert_eq!(id.to_lowercase(), *id);
    }
}

#[test]
fn accumulator_handles_two_parallel_tool_calls() {
    let mut acc = ToolCallAccumulator::default();
    acc.ingest_chunk(&json(
        r#"{
            "choices": [{
                "delta": {
                    "tool_calls": [
                        { "index": 0, "id": "call_a", "function": { "name": "run_shell_command", "arguments": "{\"command\":\"ls\"}" } },
                        { "index": 1, "id": "call_b", "function": { "name": "grep", "arguments": "{\"queries\":[\"main\"],\"path\":\".\"}" } }
                    ]
                }
            }]
        }"#,
    ));
    let drained = acc.drain_completed();
    assert_eq!(drained.len(), 2);
}

#[test]
fn accumulator_joins_fragments_in_index_order() {
    let mut acc = ToolCallAccumulator::new();
    acc.ingest_chunk(&json(
        r#"{"choices":[{"delta":{"tool_calls":[{"index":2,"id":"c2","function":{"name":"grep","arguments":"{\"q"}}]}}]}"#,
    ));
    acc.ingest_chunk(&json(
        r#"{"choices":[{"delta":{"tool_calls":[{"index":0,"id":"c0","function":{"name":"read_skill","arguments":""}}]}}]}"#,
    ));
    acc.ingest_chunk(&json(
        r#"{"choices":[{"delta":{"tool_calls":[{"index":2,"id":"","function":{"name":"","arguments":"ueries\"}"}}]}}]}"#,
    ));
    acc.ingest_chunk(&json(r#"{"choices":[{"delta":{"tool_calls":[{"id":"no-index"}]}}]}"#));
    let drained = acc.drain_completed();
    assert_eq!(drained.len(), 2);
    assert_eq!(drained[0].id, "c0");
    assert_eq!(drained[0].name, "read_skill");
    assert_eq!(drained[1].id, "c2");
    assert_eq!(drained[1].name, "grep");
    assert_eq!(drained[1].arguments, "{\"queries\"}");
    assert!(acc.drain_completed().is_empty());
}

#[test]
fn unknown_tool_name_emits_message_without_tool_variant() {
    let acc = AccumulatedToolCall {
        id: "call_x".into(),
        name: "made_up_tool".into(),
        arguments: "{}".into(),
    };
    let action = build_tool_call_action("task-1", &acc);
    match action {
        ClientAction::AddMessagesToTask { messages, .. } => {
            assert_eq!(messages.len(), 1);
            let msg = &messages[0];
            if let Some(MessageKind::ToolCall(tc)) = msg.message.as_ref() {
                assert!(tc.tool.is_none(), "unknown tool should produce tool=None");
            } else {
                panic!("expected ToolCall message variant");
            }
        }
        _ => panic!("expected AddMessagesToTask"),
    }
}

#[test]
fn malformed_args_falls_back_to_empty_object() {
    let acc = AccumulatedToolCall {
        id: "call_x".into(),
        name: "run_shell_command".into(),
        arguments: "{not valid json".into(),
    };
    let action = build_tool_call_action("task-1", &acc);
    match action {
        ClientAction::AddMessagesToTask { messages, .. } => {
            let msg = &messages[0];
            if let Some(MessageKind::ToolCall(tc)) = msg.message.as_ref() {
                assert!(tc.tool.is_none(), "malformed args should produce tool=None");
            }
        }
        _ => panic!("expected AddMessagesToTask"),
    }
}

#[test]
fn known_tool_call_is_decoded() {
    let acc = AccumulatedToolCall {
        id: "call_abc123".into(),
        name: "run_shell_command".into(),
        arguments: r#"{"command":"ls /tmp","risk_category":"read_only"}"#.into(),
    };
    match build_tool_call_action("task-1", &acc) {
        ClientAction::AddMessagesToTask { task_id, messages } => {
            assert_eq!(task_id, "task-1");
            assert_eq!(messages[0].task_id, "task-1");
            assert!(uuid::Uuid::parse_str(&messages[0].id).is_ok());
            match messages[0].message.as_ref() {
                Some(MessageKind::ToolCall(tc)) => {
                    assert_eq!(tc.tool_call_id, "call_abc123");
                    match tc.tool.as_ref() {
                        Some(Tool::RunShellCommand(rsc)) => assert_eq!(rsc.command, "ls /tmp"),
                        other => panic!("expected RunShellCommand, got {other:?}"),
                    }
                }
                _ => panic!("expected ToolCall"),
            }
        }
        _ => panic!("expected AddMessagesToTask"),
    }
}

#[test]
fn parse_delta_reads_content_or_fails() {
    assert_eq!(
        parse_delta(r#"{"choices":[{"delta":{"content":"Hello"}}]}"#).expect("ok"),
        Some("Hello".to_string())
    );
    assert_eq!(parse_delta(r#"{"choices":[{"delta":{"role":"assistant"}}]}"#).expect("ok"), None);
    let err = parse_delta("not valid json").expect_err("expected error from malformed JSON");
    assert!(err.message().starts_with("OpenAI adapter: failed to parse SSE chunk JSON: "));
}

#[test]
fn current_query_is_the_first_query() {
    assert_eq!(current_user_query_text(&build_request_with_query("hi")), Some("hi".to_string()));
    assert_eq!(current_user_query_text(&tool_result_request("c", 0, "")), None);
    assert_eq!(current_user_query_text(&empty_request()), None);
}

#[test]
fn happy_path_emits_canonical_transaction_sequence() {
    let request = build_request_with_query("hi");
    let ids = StreamIds::for_request(&request);
    let opening = opening_events(&request, &ids);
    assert_eq!(opening.len(), 2);
    match &opening[0] {
        ResponseEvent::Init(init) => assert_eq!(init.conversation_id, ids.conversation_id),
        _ => panic!("expected Init"),
    }
    match &opening[1] {
        ResponseEvent::ClientActions(actions) => {
            assert_eq!(actions.len(), 3);
            assert!(matches!(actions[0], ClientAction::BeginTransaction));
            assert!(matches!(actions[1], ClientAction::CreateTask { .. }));
            match &actions[2] {
                ClientAction::AddMessagesToTask { task_id, messages } => {
                    assert_eq!(*task_id, ids.task_id);
                    assert_eq!(messages.len(), 2);
                    assert!(matches!(messages[0].message, Some(MessageKind::UserQuery(_))));
                    assert_eq!(messages[1].id, ids.message_id);
                }
                _ => panic!("expected AddMessagesToTask"),
            }
        }
        _ => panic!("expected ClientActions"),
    }
    let mut reply = ReplyStream::new(&ids);
    let mut text = String::new();
    for data in [
        r#"{"choices":[{"delta":{"role":"assistant"},"finish_reason":null}]}"#,
        r#"{"choices":[{"delta":{"content":"Hello"},"finish_reason":null}]}"#,
        r#"{"choices":[{"delta":{"content":" world"},"finish_reason":"stop"}]}"#,
        "[DONE]",
    ] {
        if let Some(event) = reply.on_message(data) {
            match event.expect("event") {
                ResponseEvent::ClientActions(actions) => match &actions[0] {
                    ClientAction::AppendToMessageContent { message, .. } => {
                        if let Some(MessageKind::AgentOutput(out)) = &message.message {
                            text.push_str(&out.text);
                        }
                    }
                    _ => panic!("expected AppendToMessageContent"),
                },
                _ => panic!("expected ClientActions"),
            }
        }
    }
    assert_eq!(text, "Hello world");
    let closing = closing_events();
    assert_eq!(closing.len(), 2);
    assert!(matches!(closing[1], ResponseEvent::FinishedDone));
}

#[test]
fn continuation_skips_create_task_and_query() {
    let mut request = tool_result_request("c", 0, "");
    request.metadata = Some(RequestMetadata { conversation_id: "conv".into() });
    let ids = StreamIds::for_request(&request);
    let opening = opening_events(&request, &ids);
    match &opening[1] {
        ResponseEvent::ClientActions(actions) => {
            assert_eq!(actions.len(), 2);
            match &actions[1] {
                ClientAction::AddMessagesToTask { messages, .. } => assert_eq!(messages.len(), 1),
                _ => panic!("expected AddMessagesToTask"),
            }
        }
        _ => panic!("expected ClientActions"),
    }
}

#[test]
fn stage1_tool_call_delta_emits_tool_call_message() {
    let ids = StreamIds::new();
    let mut reply = ReplyStream::new(&ids);
    let first = reply.on_message(
        r#"{"choices":[{"delta":{"role":"assistant","tool_calls":[{"index":0,"id":"call_abc123","type":"function","function":{"name":"run_shell_command","arguments":""}}]},"finish_reason":null}]}"#,
    );
    assert!(first.is_none());
    let second = reply.on_message(
        r#"{"choices":[{"delta":{"tool_calls":[{"index":0,"function":{"arguments":"{\"command\":\"ls /tmp\",\"risk_category\":\"read_only\"}"}}]},"finish_reason":null}]}"#,
    );
    assert!(second.is_none());
    let third = reply
        .on_message(r#"{"choices":[{"delta":{},"finish_reason":"tool_calls"}]}"#)
        .expect("event")
        .expect("ok");
    match third {
        ResponseEvent::ClientActions(actions) => {
            assert_eq!(actions.len(), 1);
            match &actions[0] {
                ClientAction::AddMessagesToTask { task_id, messages } => {
                    assert_eq!(*task_id, ids.task_id);
                    match messages[0].message.as_ref() {
                        Some(MessageKind::ToolCall(tc)) => {
                            assert_eq!(tc.tool_call_id, "call_abc123");
                            match tc.tool.as_ref() {
                                Some(Tool::RunShellCommand(rsc)) => assert_eq!(rsc.command, "ls /tmp"),
                                other => panic!("expected RunShellCommand, got {other:?}"),
                            }
                        }
                        _ => panic!("expected ToolCall message"),
                    }
                }
                _ => panic!("expected AddMessagesToTask action"),
            }
        }
        _ => panic!("expected ClientActions"),
    }
    assert!(reply.on_message(r#"{"choices":[{"delta":{},"finish_reason":"tool_calls"}]}"#).is_none());
    assert!(reply.on_message("[DONE]").is_none());
}

#[test]
fn errors_on_malformed_sse_chunk() {
    let mut reply = ReplyStream::new(&StreamIds::new());
    let event = reply.on_message("not valid json").expect("event");
    assert!(event.is_err(), "expected error from malformed JSON");
}

#[test]
fn urls_drop_trailing_slashes() {
    assert_eq!(chat_completions_url("https://x.test/v1//"), "https://x.test/v1/chat/completions");
    assert_eq!(chat_completions_url("http://localhost:11434/v1"), "http://localhost:11434/v1/chat/completions");
    assert_eq!(models_url("", "sk").expect("url"), "https://api.openai.com/v1/models");
    assert_eq!(models_url("https://x.test/v1/", "sk").expect("url"), "https://x.test/v1/models");
    let err = models_url("https://x.test", "  ").expect_err("err");
    assert_eq!(err.message(), "AI Provider API key is required");
}

#[test]
fn model_ids_are_listed_in_order() {
    let body = json(r#"{"data": [{"id": "gpt-4o"}, {"object": "model"}, {"id": "gpt-4o-mini"}]}"#);
    assert_eq!(models_from_body(&body).expect("ids"), vec!["gpt-4o", "gpt-4o-mini"]);
    let err = models_from_body(&json(r#"{"data": []}"#)).expect_err("err");
    assert_eq!(err.message(), "fetch_models: endpoint returned no models");
    assert!(models_from_body(&json(r#"{"models": ["x"]}"#)).is_err());
}

#[test]
fn text_reply_stream_is_opening_then_one_append_per_chunk_then_closing() {
    let req = build_request_with_query("hi");
    let ids = StreamIds::for_request(&req);
    let mut stream: Vec<ResponseEvent> = opening_events(&req, &ids);
    let mut reply = ReplyStream::new(&ids);
    for data in [
        r#"{"choices":[{"delta":{"content":"a"},"finish_reason":null}]}"#,
        r#"{"choices":[{"delta":{"content":"b"},"finish_reason":null}]}"#,
        r#"{"choices":[{"delta":{"content":"c"},"finish_reason":"stop"}]}"#,
    ] {
        if let Some(event) = reply.on_message(data) {
            stream.push(event.expect("event"));
        }
    }
    stream.extend(closing_events());
    assert_eq!(stream.len(), 2 + 3 + 2);
    assert!(matches!(stream[0], ResponseEvent::Init(_)));
    for (i, expected) in ["a", "b", "c"].iter().enumerate() {
        match &stream[2 + i] {
            ResponseEvent::ClientActions(actions) => {
                assert_eq!(actions.len(), 1);
                match &actions[0] {
                    ClientAction::AppendToMessageContent { task_id, message, .. } => {
                        assert_eq!(*task_id, ids.task_id);
                        assert_eq!(message.id, ids.message_id);
                        match &message.message {
                            Some(MessageKind::AgentOutput(out)) => assert_eq!(out.text, *expected),
                            _ => panic!("expected AgentOutput"),
                        }
                    }
                    _ => panic!("expected AppendToMessageContent"),
                }
            }
            _ => panic!("expected ClientActions"),
        }
    }
    assert!(matches!(stream[6], ResponseEvent::FinishedDone));
}

#[test]
fn urls_keep_text_before_the_trailing_slashes() {
    assert_eq!(chat_completions_url("/"), "/chat/completions");
    assert_eq!(chat_completions_url("https://é.test/a/b"), "https://é.test/a/b/chat/completions");
    assert_eq!(chat_completions_url("https://x.test/v1/ /"), "https://x.test/v1/ /chat/completions");
}

#[test]
fn unicode_white_space_counts_as_blank() {
    assert_eq!(models_url("\u{3000}\t\u{2003}", "sk").expect("url"), "https://api.openai.com/v1/models");
    assert!(models_url("https://x.test", "\u{00a0}\u{2029}").is_err());
    assert!(models_url("https://x.test", "\u{200b}").is_ok());
}

#[test]
fn parallel_tool_calls_are_recorded_in_one_action_in_index_order() {
    let ids = StreamIds::new();
    let mut reply = ReplyStream::new(&ids);
    let first = reply.on_message(
        r#"{"choices":[{"delta":{"tool_calls":[{"index":0,"id":"call_a","function":{"name":"run_shell_command","arguments":"{\"command\":\"ls\"}"}},{"index":1,"id":"call_b","function":{"name":"grep","arguments":"{\"queries\":[\"main\"],\"path\":\".\"}"}}]},"finish_reason":null}]}"#,
    );
    assert!(first.is_none());
    let done = reply
        .on_message(r#"{"choices":[{"delta":{},"finish_reason":"tool_calls"}]}"#)
        .expect("event")
        .expect("ok");
    match done {
        ResponseEvent::ClientActions(actions) => {
            assert_eq!(actions.len(), 1);
            match &actions[0] {
                ClientAction::AddMessagesToTask { task_id, messages } => {
                    assert_eq!(*task_id, ids.task_id);
                    assert_eq!(messages.len(), 2);
                    match messages[0].message.as_ref() {
                        Some(MessageKind::ToolCall(tc)) => {
                            assert_eq!(tc.tool_call_id, "call_a");
                            match tc.tool.as_ref() {
                                Some(Tool::RunShellCommand(rsc)) => assert_eq!(rsc.command, "ls"),
                                other => panic!("expected RunShellCommand, got {other:?}"),
                            }
                        }
                        _ => panic!("expected ToolCall message"),
                    }
                    match messages[1].message.as_ref() {
                        Some(MessageKind::ToolCall(tc)) => {
                            assert_eq!(tc.tool_call_id, "call_b");
                            match tc.tool.as_ref() {
                                Some(Tool::Grep(g)) => {
                                    assert_eq!(g.queries, vec!["main".to_string()]);
                                    assert_eq!(g.path, ".");
                                }
                                other => panic!("expected Grep, got {other:?}"),
                            }
                        }
                        _ => panic!("expected ToolCall message"),
                    }
                    assert_ne!(messages[0].id, messages[1].id);
                }
                _ => panic!("expected AddMessagesToTask"),
            }
        }
        _ => panic!("expected ClientActions"),
    }
    assert!(reply.on_message("[DONE]").is_none());
}

#[test]
fn chunks_without_text_and_done_emit_nothing_in_a_text_reply() {
    let req = build_request_with_query("hi");
    let ids = StreamIds::for_request(&req);
    let mut stream: Vec<ResponseEvent> = opening_events(&req, &ids);
    let mut reply = ReplyStream::new(&ids);
    for data in [
        r#"{"choices":[{"delta":{"role":"assistant"},"finish_reason":null}]}"#,
        r#"{"choices":[{"delta":{"content":"Hi"},"finish_reason":null}]}"#,
        r#"{"choices":[{"delta":{},"finish_reason":"stop"}]}"#,
        "[DONE]",
    ] {
        if let Some(event) = reply.on_message(data) {
            stream.push(event.expect("event"));
        }
    }
    stream.extend(closing_events());
    assert_eq!(stream.len(), 2 + 1 + 2);
    match &stream[2] {
        ResponseEvent::ClientActions(actions) => match &actions[0] {
            ClientAction::AppendToMessageContent { message, .. } => match &message.message {
                Some(MessageKind::AgentOutput(out)) => assert_eq!(out.text, "Hi"),
                _ => panic!("expected AgentOutput"),
            },
            _ => panic!("expected AppendToMessageContent"),
        },
        _ => panic!("expected ClientActions"),
    }
    assert!(matches!(stream[4], ResponseEvent::FinishedDone));
}
