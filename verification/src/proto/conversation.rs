//! Requests, conversation messages and streamed response events.

use vstd::prelude::*;

use crate::proto::calls::Tool;
use crate::proto::results::ToolResult;

verus! {

#[derive(Debug, Clone, PartialEq, Eq)]
pub struct UserQuery {
    pub query: String,
}

#[derive(Debug, Clone, PartialEq, Eq)]
pub struct AgentOutput {
    pub text: String,
}

#[derive(Debug)]
pub struct ToolCall {
    pub tool_call_id: String,
    pub tool: Option<Tool>,
}

/// The content of a conversation message. `Other` stands for the kinds
/// of message that have no chat-completions form (server events, ...).
#[derive(Debug)]
pub enum MessageKind {
    UserQuery(UserQuery),
    AgentOutput(AgentOutput),
    ToolCall(ToolCall),
    Other,
}

#[derive(Debug)]
pub struct Message {
    pub id: String,
    pub task_id: String,
    pub message: Option<MessageKind>,
}

#[derive(Debug)]
pub struct Task {
    pub id: String,
    pub messages: Vec<Message>,
}

#[derive(Debug)]
pub struct TaskContext {
    pub tasks: Vec<Task>,
}

#[derive(Debug, Clone, PartialEq, Eq)]
pub struct ToolCallResult {
    pub tool_call_id: String,
    pub result: Option<ToolResult>,
}

#[derive(Debug, Clone, PartialEq, Eq)]
pub enum UserInputKind {
    UserQuery(UserQuery),
    ToolCallResult(ToolCallResult),
    Other,
}

#[derive(Debug, Clone, PartialEq, Eq)]
pub struct UserInput {
    pub input: Option<UserInputKind>,
}

/// The current turn's input. `UserQuery` is the older single-query form.
#[derive(Debug, Clone, PartialEq, Eq)]
pub enum InputKind {
    UserInputs(Vec<UserInput>),
    UserQuery(UserQuery),
    Other,
}

#[derive(Debug, Clone, PartialEq, Eq)]
pub struct RequestInput {
    pub kind: Option<InputKind>,
}

/// A kind of tool the client can execute. `Other` carries the number of a
/// kind that no tool of this library handles.
#[derive(Debug, Clone, Copy, PartialEq, Eq)]
pub enum ToolType {
    RunShellCommand,
    ReadFiles,
    ReadDocuments,
    Grep,
    FileGlobV2,
    ReadShellCommandOutput,
    ReadSkill,
    ReadMcpResource,
    ApplyFileDiffs,
    EditDocuments,
    CreateDocuments,
    WriteToLongRunningShellCommand,
    SearchCodebase,
    CallMcpTool,
    UseComputer,
    RequestComputerUse,
    InsertReviewComments,
    UploadFileArtifact,
    Other(i32),
}

#[derive(Debug, Clone, PartialEq, Eq)]
pub struct RequestSettings {
    /// The tool kinds that the client can execute.
    pub supported_tools: Vec<ToolType>,
}

#[derive(Debug, Clone, PartialEq, Eq)]
pub struct RequestMetadata {
    pub conversation_id: String,
}

/// One turn sent to the assistant: past tasks, the current input, and
/// client settings.
#[derive(Debug)]
pub struct Request {
    pub task_context: Option<TaskContext>,
    pub input: Option<RequestInput>,
    pub settings: Option<RequestSettings>,
    pub metadata: Option<RequestMetadata>,
}

/// A change the client applies to its conversation state.
#[derive(Debug)]
pub enum ClientAction {
    BeginTransaction,
    CommitTransaction,
    CreateTask { task: Task },
    AddMessagesToTask { task_id: String, messages: Vec<Message> },
    AppendToMessageContent { task_id: String, message: Message, mask: Vec<String> },
}

#[derive(Debug, Clone, PartialEq, Eq)]
pub struct StreamInit {
    pub conversation_id: String,
    pub request_id: String,
    pub run_id: String,
}

/// One event of a streamed response.
#[derive(Debug)]
pub enum ResponseEvent {
    Init(StreamInit),
    ClientActions(Vec<ClientAction>),
    /// The stream finished normally.
    FinishedDone,
}

} // verus!
