use ai_provider::json::Json;
use ai_provider::proto::conversation::ToolType;
use ai_provider::proto::calls::{ComputerActionKind, RiskCategory, Tool, WaitUntilCompleteValue};
use ai_provider::proto::results::{CommandFinished, RunShellCommandOutcome, ToolResult};
use ai_provider::tools::edit_write::{
    APPLY_FILE_DIFFS, CREATE_DOCUMENTS, EDIT_DOCUMENTS, WRITE_TO_LONG_RUNNING_SHELL_COMMAND,
};
use ai_provider::tools::misc::{
    CALL_MCP_TOOL, INSERT_REVIEW_COMMENTS, REQUEST_COMPUTER_USE, SEARCH_CODEBASE,
    UPLOAD_FILE_ARTIFACT, USE_COMPUTER,
};
use ai_provider::tools::read_search::{
    FILE_GLOB_V2, GREP, READ_DOCUMENTS, READ_FILES, READ_MCP_RESOURCE, READ_SHELL_COMMAND_OUTPUT,
    READ_SKILL,
};
use ai_provider::tools::registry::{ToolDefinition, ToolRegistry};
use ai_provider::tools::run_shell_command::TOOL;

fn json(text: &str) -> Json {
    Json::parse(text).expect("test JSON")
}

#[test]
fn schema_has_required_fields() {
    let schema = TOOL.parameters_schema();
    let required = schema.get("required").and_then(|v| v.as_array()).unwrap();
    assert!(required.iter().any(|v| v.as_str() == Some("command")));
    assert!(required.iter().any(|v| v.as_str() == Some("risk_category")));
}

#[test]
fn decode_minimal_call() {
    let args = json(r#"{"command": "ls", "risk_category": "read_only"}"#);
    let tool = TOOL.decode_call_args(args).expect("decode");
    match tool {
        Tool::RunShellCommand(rsc) => {
            assert_eq!(rsc.command, "ls");
            assert_eq!(rsc.risk_category, RiskCategory::ReadOnly);
        }
        _ => panic!("expected RunShellCommand variant"),
    }
}

#[test]
fn decode_missing_command_errors() {
    let args = json(r#"{"risk_category": "read_only"}"#);
    let err = TOOL.decode_call_args(args).expect_err("err");
    assert!(err.message().contains("missing required `command`"));
}

#[test]
fn decode_run_shell_command_defaults() {
    let args = json(r#"{"command": "top", "risk_category": "bogus"}"#);
    match TOOL.decode_call_args(args).expect("decode") {
        Tool::RunShellCommand(rsc) => {
            assert_eq!(rsc.risk_category, RiskCategory::Unspecified);
            assert!(!rsc.uses_pager);
            assert_eq!(
                rsc.wait_until_complete_value,
                Some(WaitUntilCompleteValue::WaitUntilComplete(true))
            );
        }
        _ => panic!("expected RunShellCommand variant"),
    }
}

#[test]
fn decode_read_files_minimal() {
    let args = json(r#"{ "files": [{ "name": "src/main.rs" }] }"#);
    let tool = READ_FILES.decode_call_args(args).expect("decode");
    match tool {
        Tool::ReadFiles(rf) => {
            assert_eq!(rf.files.len(), 1);
            assert_eq!(rf.files[0].name, "src/main.rs");
        }
        _ => panic!("expected ReadFiles variant"),
    }
}

#[test]
fn decode_read_documents_minimal() {
    let args = json(r#"{ "documents": [{ "document_id": "doc-123" }] }"#);
    let tool = READ_DOCUMENTS.decode_call_args(args).expect("decode");
    match tool {
        Tool::ReadDocuments(rd) => {
            assert_eq!(rd.documents.len(), 1);
            assert_eq!(rd.documents[0].document_id, "doc-123");
        }
        _ => panic!("expected ReadDocuments variant"),
    }
}

#[test]
fn decode_grep_minimal() {
    let args = json(r#"{ "queries": ["fn main"], "path": "src/" }"#);
    let tool = GREP.decode_call_args(args).expect("decode");
    match tool {
        Tool::Grep(g) => {
            assert_eq!(g.queries, vec!["fn main"]);
            assert_eq!(g.path, "src/");
        }
        _ => panic!("expected Grep variant"),
    }
}

#[test]
fn decode_file_glob_v2_minimal() {
    let args = json(r#"{ "patterns": ["*.rs"], "search_dir": "src/" }"#);
    let tool = FILE_GLOB_V2.decode_call_args(args).expect("decode");
    match tool {
        Tool::FileGlobV2(fg) => {
            assert_eq!(fg.patterns, vec!["*.rs"]);
            assert_eq!(fg.search_dir, "src/");
        }
        _ => panic!("expected FileGlobV2 variant"),
    }
}

#[test]
fn decode_read_shell_command_output_minimal() {
    let args = json(r#"{ "command_id": "cmd-abc" }"#);
    let tool = READ_SHELL_COMMAND_OUTPUT.decode_call_args(args).expect("decode");
    match tool {
        Tool::ReadShellCommandOutput(rsco) => {
            assert_eq!(rsco.command_id, "cmd-abc");
            assert!(rsco.delay.is_none());
        }
        _ => panic!("expected ReadShellCommandOutput variant"),
    }
}

#[test]
fn decode_read_skill_minimal() {
    let args = json(r#"{ "name": "my-skill" }"#);
    let tool = READ_SKILL.decode_call_args(args).expect("decode");
    match tool {
        Tool::ReadSkill(rs) => {
            assert_eq!(rs.name, "my-skill");
            assert!(rs.skill_reference.is_none());
        }
        _ => panic!("expected ReadSkill variant"),
    }
}

#[test]
fn decode_read_mcp_resource_minimal() {
    let args = json(r#"{ "uri": "mcp://server/resource" }"#);
    let tool = READ_MCP_RESOURCE.decode_call_args(args).expect("decode");
    match tool {
        Tool::ReadMcpResource(rmr) => {
            assert_eq!(rmr.uri, "mcp://server/resource");
        }
        _ => panic!("expected ReadMcpResource variant"),
    }
}

#[test]
fn decode_apply_file_diffs_minimal() {
    let args = json(
        r#"{
            "summary": "Fix a bug in main.rs",
            "diffs": [
                { "file_path": "src/main.rs", "search": "old text", "replace": "new text" }
            ]
        }"#,
    );
    let tool = APPLY_FILE_DIFFS.decode_call_args(args).expect("decode");
    match tool {
        Tool::ApplyFileDiffs(afd) => {
            assert_eq!(afd.summary, "Fix a bug in main.rs");
            assert_eq!(afd.diffs.len(), 1);
            assert_eq!(afd.diffs[0].file_path, "src/main.rs");
            assert_eq!(afd.diffs[0].search, "old text");
            assert_eq!(afd.diffs[0].replace, "new text");
        }
        _ => panic!("expected ApplyFileDiffs variant"),
    }
}

#[test]
fn decode_edit_documents_minimal() {
    let args = json(
        r#"{ "diffs": [ { "document_id": "doc-456", "search": "old", "replace": "new" } ] }"#,
    );
    let tool = EDIT_DOCUMENTS.decode_call_args(args).expect("decode");
    match tool {
        Tool::EditDocuments(ed) => {
            assert_eq!(ed.diffs.len(), 1);
            assert_eq!(ed.diffs[0].document_id, "doc-456");
            assert_eq!(ed.diffs[0].search, "old");
            assert_eq!(ed.diffs[0].replace, "new");
        }
        _ => panic!("expected EditDocuments variant"),
    }
}

#[test]
fn decode_create_documents_minimal() {
    let args = json(r#"{ "new_documents": [ { "title": "My Doc", "content": "Hello world" } ] }"#);
    let tool = CREATE_DOCUMENTS.decode_call_args(args).expect("decode");
    match tool {
        Tool::CreateDocuments(cd) => {
            assert_eq!(cd.new_documents.len(), 1);
            assert_eq!(cd.new_documents[0].title, "My Doc");
            assert_eq!(cd.new_documents[0].content, "Hello world");
        }
        _ => panic!("expected CreateDocuments variant"),
    }
}

#[test]
fn decode_write_to_long_running_shell_command_minimal() {
    let args = json(r#"{ "command_id": "cmd-xyz", "input": "ls -la\n", "mode": "line" }"#);
    let tool = WRITE_TO_LONG_RUNNING_SHELL_COMMAND.decode_call_args(args).expect("decode");
    match tool {
        Tool::WriteToLongRunningShellCommand(w) => {
            assert_eq!(w.command_id, "cmd-xyz");
            assert_eq!(w.input, b"ls -la\n");
            assert!(w.mode.is_some());
        }
        _ => panic!("expected WriteToLongRunningShellCommand variant"),
    }
}

#[test]
fn decode_search_codebase_minimal() {
    let args = json(r#"{ "query": "find all TODO comments" }"#);
    let tool = SEARCH_CODEBASE.decode_call_args(args).expect("decode");
    match tool {
        Tool::SearchCodebase(sc) => {
            assert_eq!(sc.query, "find all TODO comments");
            assert!(sc.path_filters.is_empty());
            assert!(sc.codebase_path.is_empty());
        }
        _ => panic!("expected SearchCodebase variant"),
    }
}

#[test]
fn decode_search_codebase_with_filters() {
    let args = json(
        r#"{
            "query": "async fn",
            "path_filters": ["src/", "lib/"],
            "codebase_path": "/home/user/project"
        }"#,
    );
    let tool = SEARCH_CODEBASE.decode_call_args(args).expect("decode");
    match tool {
        Tool::SearchCodebase(sc) => {
            assert_eq!(sc.query, "async fn");
            assert_eq!(sc.path_filters, vec!["src/", "lib/"]);
            assert_eq!(sc.codebase_path, "/home/user/project");
        }
        _ => panic!("expected SearchCodebase variant"),
    }
}

#[test]
fn decode_call_mcp_tool_minimal() {
    let args = json(r#"{ "name": "my_mcp_tool", "args": { "key": "value", "count": 42 } }"#);
    let tool = CALL_MCP_TOOL.decode_call_args(args).expect("decode");
    match tool {
        Tool::CallMcpTool(ct) => {
            assert_eq!(ct.name, "my_mcp_tool");
            assert!(ct.args.is_some());
            let prost_struct = ct.args.unwrap();
            assert!(prost_struct.fields.iter().any(|(k, _)| k == "key"));
            assert!(prost_struct.fields.iter().any(|(k, _)| k == "count"));
        }
        _ => panic!("expected CallMcpTool variant"),
    }
}

#[test]
fn decode_use_computer_click_action() {
    let args = json(
        r#"{
            "actions": [ { "type": "click", "x": 100, "y": 200, "button": "left" } ],
            "action_summary": "Click the submit button"
        }"#,
    );
    let tool = USE_COMPUTER.decode_call_args(args).expect("decode");
    match tool {
        Tool::UseComputer(uc) => {
            assert_eq!(uc.action_summary, "Click the submit button");
            assert_eq!(uc.actions.len(), 1);
            let action = &uc.actions[0];
            match action.kind.as_ref().expect("action type") {
                ComputerActionKind::MouseDown { at, .. } => {
                    let coords = at.as_ref().expect("coords");
                    assert_eq!(coords.x, 100);
                    assert_eq!(coords.y, 200);
                }
                _ => panic!("expected MouseDown (click) variant"),
            }
        }
        _ => panic!("expected UseComputer variant"),
    }
}

#[test]
fn decode_use_computer_type_action() {
    let args = json(
        r#"{ "actions": [ { "type": "type", "text": "hello world" } ], "action_summary": "Type greeting" }"#,
    );
    let tool = USE_COMPUTER.decode_call_args(args).expect("decode");
    match tool {
        Tool::UseComputer(uc) => {
            assert_eq!(uc.actions.len(), 1);
            match uc.actions[0].kind.as_ref().expect("action type") {
                ComputerActionKind::TypeText { text } => {
                    assert_eq!(text, "hello world");
                }
                _ => panic!("expected TypeText variant"),
            }
        }
        _ => panic!("expected UseComputer variant"),
    }
}

#[test]
fn decode_use_computer_unsupported_action_returns_error() {
    let args = json(
        r#"{
            "actions": [{ "type": "drag", "from_x": 0, "from_y": 0, "to_x": 100, "to_y": 100 }],
            "action_summary": "Drag element"
        }"#,
    );
    let err = USE_COMPUTER.decode_call_args(args).expect_err("should fail");
    assert!(err.message().contains("unsupported action type"));
}

#[test]
fn decode_request_computer_use_minimal() {
    let args = json(r#"{ "task_summary": "Automate form filling" }"#);
    let tool = REQUEST_COMPUTER_USE.decode_call_args(args).expect("decode");
    match tool {
        Tool::RequestComputerUse(rcu) => {
            assert_eq!(rcu.task_summary, "Automate form filling");
            assert!(rcu.screenshot_params.is_none());
        }
        _ => panic!("expected RequestComputerUse variant"),
    }
}

#[test]
fn decode_insert_review_comments_minimal() {
    let args = json(
        r#"{
            "repo_path": "/home/user/my-repo",
            "base_branch": "main",
            "comments": [
                {
                    "comment_body": "This could be simplified.",
                    "file_path": "src/main.rs",
                    "diff_hunk": "@@ -10,5 +10,4 @@"
                }
            ]
        }"#,
    );
    let tool = INSERT_REVIEW_COMMENTS.decode_call_args(args).expect("decode");
    match tool {
        Tool::InsertReviewComments(irc) => {
            assert_eq!(irc.repo_path, "/home/user/my-repo");
            assert_eq!(irc.base_branch, "main");
            assert_eq!(irc.comments.len(), 1);
            assert_eq!(irc.comments[0].comment_body, "This could be simplified.");
        }
        _ => panic!("expected InsertReviewComments variant"),
    }
}

#[test]
fn decode_upload_file_artifact_minimal() {
    let args = json(r#"{ "file": { "path": "/tmp/output.txt" }, "description": "Command output log" }"#);
    let tool = UPLOAD_FILE_ARTIFACT.decode_call_args(args).expect("decode");
    match tool {
        Tool::UploadFileArtifact(ufa) => {
            let file = ufa.file.as_ref().expect("file");
            assert_eq!(file.file_path, "/tmp/output.txt");
            assert_eq!(ufa.description, "Command output log");
        }
        _ => panic!("expected UploadFileArtifact variant"),
    }
}

#[test]
fn registry_emits_tools_array() {
    let reg = ToolRegistry::new();
    let tools = reg.openai_tools_json();
    let arr = tools.as_array().unwrap();
    assert!(!arr.is_empty());
    assert!(arr.iter().any(|t| t
        .get("function")
        .and_then(|f| f.get("name"))
        .and_then(|n| n.as_str())
        == Some("run_shell_command")));
}

#[test]
fn registry_lookup_misses_unknown() {
    let reg = ToolRegistry::new();
    assert!(reg.by_name("anything_unknown").is_none());
}

#[test]
fn registry_lookup_hits_run_shell_command() {
    let reg = ToolRegistry::new();
    assert!(reg.by_name("run_shell_command").is_some());
}

const ALL: [ToolDefinition; 18] = [
    ToolDefinition::RunShellCommand,
    ToolDefinition::ReadFiles,
    ToolDefinition::ReadDocuments,
    ToolDefinition::Grep,
    ToolDefinition::FileGlobV2,
    ToolDefinition::ReadShellCommandOutput,
    ToolDefinition::ReadSkill,
    ToolDefinition::ReadMcpResource,
    ToolDefinition::ApplyFileDiffs,
    ToolDefinition::EditDocuments,
    ToolDefinition::CreateDocuments,
    ToolDefinition::WriteToLongRunningShellCommand,
    ToolDefinition::SearchCodebase,
    ToolDefinition::CallMcpTool,
    ToolDefinition::UseComputer,
    ToolDefinition::RequestComputerUse,
    ToolDefinition::InsertReviewComments,
    ToolDefinition::UploadFileArtifact,
];

#[test]
fn every_tool_is_found_by_its_own_name() {
    let reg = ToolRegistry::default();
    for d in ALL {
        assert_eq!(reg.by_name(d.name()), Some(d));
    }
    let names: std::collections::BTreeSet<&str> = ALL.iter().map(|d| d.name()).collect();
    assert_eq!(names.len(), ALL.len());
}

#[test]
fn tools_array_lists_every_tool_in_order() {
    let reg = ToolRegistry::default();
    let tools = reg.openai_tools_json();
    let arr = tools.as_array().unwrap();
    assert_eq!(arr.len(), 18);
    for (d, entry) in ALL.iter().zip(arr.iter()) {
        assert_eq!(entry.get("type").and_then(|t| t.as_str()), Some("function"));
        let f = entry.get("function").unwrap();
        assert_eq!(f.get("name").and_then(|n| n.as_str()), Some(d.name()));
        assert_eq!(f.get("description").and_then(|n| n.as_str()), Some(d.description()));
        let params = f.get("parameters").unwrap();
        assert_eq!(params.get("type").and_then(|t| t.as_str()), Some("object"));
    }
}

#[test]
fn decoded_call_is_found_again_by_kind() {
    let reg = ToolRegistry::default();
    let args = json(r#"{"queries": ["x"], "path": "."}"#);
    let grep = reg.by_name("grep").unwrap();
    let tool = grep.decode_call_args(args).expect("decode");
    assert_eq!(reg.tool_for_proto(&tool), Some(ToolDefinition::Grep));
    assert_eq!(reg.tool_for_proto(&Tool::Other), None);
}

#[test]
fn result_of_a_kind_is_encoded_by_its_tool() {
    let reg = ToolRegistry::default();
    let result = ToolResult::RunShellCommand(Some(RunShellCommandOutcome::CommandFinished(
        CommandFinished { exit_code: 0, output: "file_a\nfile_b".to_string() },
    )));
    let d = reg.tool_for_proto_result(&result).expect("tool");
    assert_eq!(d, ToolDefinition::RunShellCommand);
    assert_eq!(d.encode_result_text(&result).expect("text"), "exit_code: 0\noutput:\nfile_a\nfile_b");
    assert!(reg.tool_for_proto_result(&ToolResult::Other).is_none());
    let mismatch = ToolDefinition::Grep.encode_result_text(&result).expect_err("mismatch");
    assert_eq!(mismatch.message(), "grep: result variant mismatch");
}

#[test]
fn encode_call_args_of_other_kind_is_empty_object() {
    let reg = ToolRegistry::default();
    let grep_call = reg
        .by_name("grep")
        .unwrap()
        .decode_call_args(json(r#"{"queries": ["x"], "path": "."}"#))
        .expect("decode");
    let encoded = TOOL.encode_call_args(&grep_call);
    match encoded {
        Json::Object(es) => assert!(es.is_empty()),
        _ => panic!("expected object"),
    }
}

#[test]
fn run_shell_command_round_trips_through_its_arguments() {
    let args = json(r#"{"command": "ls -la", "risk_category": "risky", "uses_pager": true}"#);
    let call = TOOL.decode_call_args(args).expect("decode");
    let encoded = TOOL.encode_call_args(&call);
    let again = TOOL.decode_call_args(encoded).expect("decode again");
    assert_eq!(
        format!("{:?}", call),
        format!("{:?}", again)
    );
}

#[test]
fn filter_to_supported_with_no_kinds_keeps_no_tool() {
    let reg = ToolRegistry::default();
    let filtered = reg.filter_to_supported(&[]);
    assert_eq!(filtered.openai_tools_json().as_array().unwrap().len(), 0);
}

#[test]
fn filter_to_supported_keeps_the_supported_kinds_in_registry_order() {
    let reg = ToolRegistry::default();
    let filtered = reg.filter_to_supported(&[ToolType::Grep, ToolType::ReadFiles, ToolType::Other(99)]);
    let tools = filtered.openai_tools_json();
    let items = tools.as_array().unwrap();
    assert_eq!(items.len(), 2);
    let name_of = |i: usize| {
        items[i]
            .get("function")
            .and_then(|f| f.get("name"))
            .and_then(|n| n.as_str().map(|s| s.to_string()))
            .unwrap()
    };
    assert_eq!(name_of(0), "read_files");
    assert_eq!(name_of(1), "grep");
    assert!(filtered.by_name("grep").is_some());
    assert!(filtered.by_name("run_shell_command").is_none());
}

#[test]
fn filter_to_supported_with_every_kind_keeps_every_tool() {
    let reg = ToolRegistry::default();
    let all = [
        ToolType::RunShellCommand,
        ToolType::ReadFiles,
        ToolType::ReadDocuments,
        ToolType::Grep,
        ToolType::FileGlobV2,
        ToolType::ReadShellCommandOutput,
        ToolType::ReadSkill,
        ToolType::ReadMcpResource,
        ToolType::ApplyFileDiffs,
        ToolType::EditDocuments,
        ToolType::CreateDocuments,
        ToolType::WriteToLongRunningShellCommand,
        ToolType::SearchCodebase,
        ToolType::CallMcpTool,
        ToolType::UseComputer,
        ToolType::RequestComputerUse,
        ToolType::InsertReviewComments,
        ToolType::UploadFileArtifact,
    ];
    let filtered = reg.filter_to_supported(&all);
    assert_eq!(
        filtered.openai_tools_json().to_json_text(),
        reg.openai_tools_json().to_json_text()
    );
    assert_eq!(filtered.openai_tools_json().as_array().unwrap().len(), 18);
}

#[test]
fn grep_round_trips_through_its_arguments() {
    let call = GREP.decode_call_args(json(r#"{"queries": ["a", "b"], "path": "src/"}"#)).expect("decode");
    let again = GREP.decode_call_args(GREP.encode_call_args(&call)).expect("decode again");
    match (call, again) {
        (Tool::Grep(a), Tool::Grep(b)) => assert_eq!(a, b),
        _ => panic!("expected Grep variants"),
    }
}

#[test]
fn every_encodable_call_decodes_again() {
    let reg = ToolRegistry::default();
    let samples = [
        ("read_skill", r#"{"name": "s"}"#),
        ("read_mcp_resource", r#"{"uri": "mcp://x", "server_id": "srv"}"#),
        ("read_files", r#"{"files": [{"name": "a.rs", "line_ranges": [{"start": 1, "end": 2}]}]}"#),
        ("upload_file_artifact", r#"{"file": {"path": "/tmp/x"}, "description": "d"}"#),
        ("call_mcp_tool", r#"{"name": "t", "args": {"k": [1, 2.5, null]}}"#),
    ];
    for (name, args) in samples {
        let d = reg.by_name(name).unwrap();
        let call = d.decode_call_args(json(args)).expect("decode");
        let again = d.decode_call_args(d.encode_call_args(&call)).expect("decode again");
        assert_eq!(reg.tool_for_proto(&again), Some(d));
    }
}

#[test]
fn review_comment_encoding_is_not_decodable() {
    let d = ToolRegistry::default().by_name("insert_review_comments").unwrap();
    let call = d
        .decode_call_args(json(r#"{"repo_path": "/r", "comments": []}"#))
        .expect("decode");
    let err = d.decode_call_args(d.encode_call_args(&call)).expect_err("comments are only counted");
    assert_eq!(err.message(), "insert_review_comments: missing required `comments` argument");
}
