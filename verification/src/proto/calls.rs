//! Tool calls the assistant can request, as plain values: one struct per
//! tool, gathered in [`Tool`].

use vstd::prelude::*;

use crate::json::{JsonNumber, JsonView};

verus! {

/// How destructive a shell command is.
#[derive(Debug, Clone, Copy, PartialEq, Eq)]
pub enum RiskCategory {
    Unspecified,
    ReadOnly,
    TrivialLocalChange,
    NontrivialLocalChange,
    ExternalChange,
    Risky,
}

#[derive(Debug, Clone, PartialEq, Eq)]
pub enum WaitUntilCompleteValue {
    WaitUntilComplete(bool),
}

#[derive(Debug, Clone, PartialEq, Eq)]
pub struct RunShellCommand {
    pub command: String,
    pub risk_category: RiskCategory,
    pub uses_pager: bool,
    pub wait_until_complete_value: Option<WaitUntilCompleteValue>,
}

#[derive(Debug, Clone, Copy, PartialEq, Eq)]
pub struct FileContentLineRange {
    pub start: u32,
    pub end: u32,
}

#[derive(Debug, Clone, PartialEq, Eq)]
pub struct ReadFilesFile {
    pub name: String,
    pub line_ranges: Vec<FileContentLineRange>,
}

#[derive(Debug, Clone, PartialEq, Eq)]
pub struct ReadFiles {
    pub files: Vec<ReadFilesFile>,
}

#[derive(Debug, Clone, PartialEq, Eq)]
pub struct ReadDocumentsDocument {
    pub document_id: String,
    pub line_ranges: Vec<FileContentLineRange>,
}

#[derive(Debug, Clone, PartialEq, Eq)]
pub struct ReadDocuments {
    pub documents: Vec<ReadDocumentsDocument>,
}

#[derive(Debug, Clone, PartialEq, Eq)]
pub struct Grep {
    pub queries: Vec<String>,
    pub path: String,
}

#[derive(Debug, Clone, PartialEq, Eq)]
pub struct FileGlobV2 {
    pub patterns: Vec<String>,
    pub search_dir: String,
    pub max_matches: i32,
    pub max_depth: i32,
    pub min_depth: i32,
}

/// A span of time: whole seconds plus nanoseconds (of the same sign).
#[derive(Debug, Clone, Copy, PartialEq, Eq)]
pub struct ProtoDuration {
    pub seconds: i64,
    pub nanos: i32,
}

#[derive(Debug, Clone, PartialEq, Eq)]
pub enum OutputDelay {
    Duration(ProtoDuration),
}

#[derive(Debug, Clone, PartialEq, Eq)]
pub struct ReadShellCommandOutput {
    pub command_id: String,
    pub delay: Option<OutputDelay>,
}

#[derive(Debug, Clone, PartialEq, Eq)]
pub enum SkillReference {
    SkillPath(String),
    BundledSkillId(String),
}

#[derive(Debug, Clone, PartialEq, Eq)]
pub struct ReadSkill {
    pub name: String,
    pub skill_reference: Option<SkillReference>,
}

#[derive(Debug, Clone, PartialEq, Eq)]
pub struct ReadMcpResource {
    pub uri: String,
    pub server_id: String,
}

#[derive(Debug, Clone, PartialEq, Eq)]
pub struct FileDiff {
    pub file_path: String,
    pub search: String,
    pub replace: String,
}

#[derive(Debug, Clone, PartialEq, Eq)]
pub struct NewFile {
    pub file_path: String,
    pub content: String,
}

#[derive(Debug, Clone, PartialEq, Eq)]
pub struct DeleteFile {
    pub file_path: String,
}

#[derive(Debug, Clone, PartialEq, Eq)]
pub struct ApplyFileDiffs {
    pub summary: String,
    pub diffs: Vec<FileDiff>,
    pub new_files: Vec<NewFile>,
    pub deleted_files: Vec<DeleteFile>,
}

#[derive(Debug, Clone, PartialEq, Eq)]
pub struct DocumentDiff {
    pub document_id: String,
    pub search: String,
    pub replace: String,
}

#[derive(Debug, Clone, PartialEq, Eq)]
pub struct EditDocuments {
    pub diffs: Vec<DocumentDiff>,
}

#[derive(Debug, Clone, PartialEq, Eq)]
pub struct NewDocument {
    pub title: String,
    pub content: String,
}

#[derive(Debug, Clone, PartialEq, Eq)]
pub struct CreateDocuments {
    pub new_documents: Vec<NewDocument>,
}

#[derive(Debug, Clone, Copy, PartialEq, Eq)]
pub enum WriteModeKind {
    Raw,
    Line,
    Block,
}

#[derive(Debug, Clone, PartialEq, Eq)]
pub struct WriteMode {
    pub mode: Option<WriteModeKind>,
}

#[derive(Debug, Clone, PartialEq, Eq)]
pub struct WriteToLongRunningShellCommand {
    pub command_id: String,
    pub input: Vec<u8>,
    pub mode: Option<WriteMode>,
}

#[derive(Debug, Clone, PartialEq, Eq)]
pub struct SearchCodebase {
    pub query: String,
    pub path_filters: Vec<String>,
    pub codebase_path: String,
}

/// A structured value handed to an MCP tool (the shape of a protobuf
/// `Struct`); numbers keep the exact form they had in the JSON arguments.
#[derive(Debug)]
pub enum McpValue {
    Null,
    Bool(bool),
    Number(JsonNumber),
    Str(String),
    List(Vec<McpValue>),
    Struct(Vec<(String, McpValue)>),
}

pub open spec fn mcp_items_view(items: Seq<McpValue>) -> Seq<JsonView>
    decreases items,
{
    if items.len() == 0 {
        Seq::empty()
    } else {
        seq![items[0].view()] + mcp_items_view(items.drop_first())
    }
}

pub open spec fn mcp_fields_view(fields: Seq<(String, McpValue)>) -> Seq<(Seq<char>, JsonView)>
    decreases fields,
{
    if fields.len() == 0 {
        Seq::empty()
    } else {
        seq![(fields[0].0@, fields[0].1.view())] + mcp_fields_view(fields.drop_first())
    }
}

impl McpValue {
    /// The value read as JSON: lists are arrays and structs are objects.
    pub open spec fn view(&self) -> JsonView
        decreases self,
    {
        match self {
            McpValue::Null => JsonView::Null,
            McpValue::Bool(b) => JsonView::Bool(*b),
            McpValue::Number(n) => JsonView::Number(n.view()),
            McpValue::Str(s) => JsonView::Str(s@),
            McpValue::List(items) => JsonView::Array(mcp_items_view(items@)),
            McpValue::Struct(fields) => JsonView::Object(mcp_fields_view(fields@)),
        }
    }
}

pub proof fn lemma_mcp_items_push(items: Seq<McpValue>, v: McpValue)
    ensures
        mcp_items_view(items.push(v)) == mcp_items_view(items).push(v.view()),
    decreases items.len(),
{
    if items.len() == 0 {
        assert(items.push(v).drop_first() =~= items);
        assert(mcp_items_view(items.push(v)) =~= mcp_items_view(items).push(v.view()));
    } else {
        assert(items.push(v).drop_first() =~= items.drop_first().push(v));
        lemma_mcp_items_push(items.drop_first(), v);
        assert(mcp_items_view(items.push(v)) =~= mcp_items_view(items).push(v.view()));
    }
}

pub proof fn lemma_mcp_fields_push(fields: Seq<(String, McpValue)>, f: (String, McpValue))
    ensures
        mcp_fields_view(fields.push(f)) == mcp_fields_view(fields).push((f.0@, f.1.view())),
    decreases fields.len(),
{
    if fields.len() == 0 {
        assert(fields.push(f).drop_first() =~= fields);
        assert(mcp_fields_view(fields.push(f)) =~= mcp_fields_view(fields).push((f.0@, f.1.view())));
    } else {
        assert(fields.push(f).drop_first() =~= fields.drop_first().push(f));
        lemma_mcp_fields_push(fields.drop_first(), f);
        assert(mcp_fields_view(fields.push(f)) =~= mcp_fields_view(fields).push((f.0@, f.1.view())));
    }
}

#[derive(Debug)]
pub struct McpStruct {
    pub fields: Vec<(String, McpValue)>,
}

#[derive(Debug)]
pub struct CallMcpTool {
    pub name: String,
    pub args: Option<McpStruct>,
    pub server_id: String,
}

#[derive(Debug, Clone, Copy, PartialEq, Eq)]
pub struct Coordinates {
    pub x: i32,
    pub y: i32,
}

#[derive(Debug, Clone, Copy, PartialEq, Eq)]
pub enum MouseButton {
    Left,
    Right,
    Middle,
}

#[derive(Debug, Clone, PartialEq, Eq)]
pub enum ComputerActionKind {
    MouseDown { button: MouseButton, at: Option<Coordinates> },
    MouseMove { to: Option<Coordinates> },
    TypeText { text: String },
    Wait { duration: Option<ProtoDuration> },
}

#[derive(Debug, Clone, PartialEq, Eq)]
pub struct ComputerAction {
    pub kind: Option<ComputerActionKind>,
}

#[derive(Debug, Clone, PartialEq, Eq)]
pub struct UseComputer {
    pub actions: Vec<ComputerAction>,
    pub action_summary: String,
}

/// How screenshots should be taken; the assistant's calls never set it.
#[derive(Debug, Clone, Copy, PartialEq, Eq)]
pub struct ScreenshotParams;

#[derive(Debug, Clone, PartialEq, Eq)]
pub struct RequestComputerUse {
    pub task_summary: String,
    pub screenshot_params: Option<ScreenshotParams>,
}

/// Where a review comment is anchored; `side` 0 is the new (right) side.
#[derive(Debug, Clone, PartialEq, Eq)]
pub struct CommentLineRange {
    pub diff_hunk: String,
    pub side: i32,
}

#[derive(Debug, Clone, PartialEq, Eq)]
pub struct CommentLocation {
    pub file_path: String,
    pub line: Option<CommentLineRange>,
}

#[derive(Debug, Clone, PartialEq, Eq)]
pub struct ReviewComment {
    pub comment_id: String,
    pub author: String,
    pub comment_body: String,
    pub location: Option<CommentLocation>,
}

#[derive(Debug, Clone, PartialEq, Eq)]
pub struct InsertReviewComments {
    pub repo_path: String,
    pub base_branch: String,
    pub comments: Vec<ReviewComment>,
}

#[derive(Debug, Clone, PartialEq, Eq)]
pub struct FilePathReference {
    pub file_path: String,
}

#[derive(Debug, Clone, PartialEq, Eq)]
pub struct UploadFileArtifact {
    pub file: Option<FilePathReference>,
    pub description: String,
}

/// The tool a `ToolCall` message requests. `Other` stands for the kinds of
/// tool call that no registered tool handles.
#[derive(Debug)]
pub enum Tool {
    RunShellCommand(RunShellCommand),
    ReadFiles(ReadFiles),
    ReadDocuments(ReadDocuments),
    Grep(Grep),
    FileGlobV2(FileGlobV2),
    ReadShellCommandOutput(ReadShellCommandOutput),
    ReadSkill(ReadSkill),
    ReadMcpResource(ReadMcpResource),
    ApplyFileDiffs(ApplyFileDiffs),
    EditDocuments(EditDocuments),
    CreateDocuments(CreateDocuments),
    WriteToLongRunningShellCommand(WriteToLongRunningShellCommand),
    SearchCodebase(SearchCodebase),
    CallMcpTool(CallMcpTool),
    UseComputer(UseComputer),
    RequestComputerUse(RequestComputerUse),
    InsertReviewComments(InsertReviewComments),
    UploadFileArtifact(UploadFileArtifact),
    Other,
}

} // verus!
