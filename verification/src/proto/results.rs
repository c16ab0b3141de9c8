//! Results of executed tool calls, as the client reports them back.

use vstd::prelude::*;

use crate::proto::calls::{Coordinates, FileContentLineRange, FilePathReference};

verus! {

/// A tool-reported failure.
#[derive(Debug, Clone, PartialEq, Eq)]
pub struct ToolError {
    pub message: String,
}

#[derive(Debug, Clone, PartialEq, Eq)]
pub struct CommandFinished {
    pub exit_code: i32,
    pub output: String,
}

#[derive(Debug, Clone, PartialEq, Eq)]
pub struct LongRunningCommandSnapshot {
    pub command_id: String,
    pub output: String,
}

#[derive(Debug, Clone, PartialEq, Eq)]
pub enum RunShellCommandOutcome {
    CommandFinished(CommandFinished),
    LongRunningCommandSnapshot(LongRunningCommandSnapshot),
    PermissionDenied,
}

/// Outcome of reading from, or writing to, a long-running command.
#[derive(Debug, Clone, PartialEq, Eq)]
pub enum CommandIoOutcome {
    CommandFinished(CommandFinished),
    LongRunningCommandSnapshot(LongRunningCommandSnapshot),
    Error,
}

#[derive(Debug, Clone, PartialEq, Eq)]
pub struct FileContent {
    pub file_path: String,
    pub content: String,
}

#[derive(Debug, Clone, PartialEq, Eq)]
pub enum AnyFileKind {
    Text(FileContent),
    Binary,
}

#[derive(Debug, Clone, PartialEq, Eq)]
pub struct AnyFileContent {
    pub content: Option<AnyFileKind>,
}

#[derive(Debug, Clone, PartialEq, Eq)]
pub enum ReadFilesOutcome {
    TextFilesSuccess(Vec<FileContent>),
    AnyFilesSuccess(Vec<AnyFileContent>),
    Error(ToolError),
}

#[derive(Debug, Clone, PartialEq, Eq)]
pub struct DocumentContent {
    pub document_id: String,
    pub content: String,
}

#[derive(Debug, Clone, PartialEq, Eq)]
pub enum ReadDocumentsOutcome {
    Success(Vec<DocumentContent>),
    Error(ToolError),
}

#[derive(Debug, Clone, Copy, PartialEq, Eq)]
pub struct GrepLineMatch {
    pub line_number: u32,
}

#[derive(Debug, Clone, PartialEq, Eq)]
pub struct GrepFileMatch {
    pub file_path: String,
    pub matched_lines: Vec<GrepLineMatch>,
}

#[derive(Debug, Clone, PartialEq, Eq)]
pub enum GrepOutcome {
    Success(Vec<GrepFileMatch>),
    Error(ToolError),
}

#[derive(Debug, Clone, PartialEq, Eq)]
pub enum FileGlobV2Outcome {
    Success(Vec<FilePathReference>),
    Error(ToolError),
}

#[derive(Debug, Clone, PartialEq, Eq)]
pub enum ReadSkillOutcome {
    Success(Option<FileContent>),
    Error(ToolError),
}

#[derive(Debug, Clone, PartialEq, Eq)]
pub enum McpResourceContentType {
    Text(String),
    Binary,
}

#[derive(Debug, Clone, PartialEq, Eq)]
pub struct McpResourceContent {
    pub content_type: Option<McpResourceContentType>,
}

#[derive(Debug, Clone, PartialEq, Eq)]
pub enum ReadMcpResourceOutcome {
    Success(Vec<McpResourceContent>),
    Error(ToolError),
}

#[derive(Debug, Clone, PartialEq, Eq)]
pub struct UpdatedFile {
    pub file: Option<FilePathReference>,
}

#[derive(Debug, Clone, PartialEq, Eq)]
pub enum ApplyFileDiffsOutcome {
    Success { updated_files_v2: Vec<UpdatedFile>, deleted_files: Vec<FilePathReference> },
    Error(ToolError),
}

#[derive(Debug, Clone, PartialEq, Eq)]
pub struct DocumentRef {
    pub document_id: String,
}

/// Outcome of editing or creating documents.
#[derive(Debug, Clone, PartialEq, Eq)]
pub enum DocumentsOutcome {
    Success(Vec<DocumentRef>),
    Error(ToolError),
}

#[derive(Debug, Clone, PartialEq, Eq)]
pub struct CodebaseFile {
    pub file_path: String,
    pub line_range: Option<FileContentLineRange>,
    pub content: String,
}

#[derive(Debug, Clone, PartialEq, Eq)]
pub enum SearchCodebaseOutcome {
    Success(Vec<CodebaseFile>),
    Error(ToolError),
}

#[derive(Debug, Clone, PartialEq, Eq)]
pub enum McpToolContent {
    Text(String),
    Image { data: Vec<u8>, mime_type: String },
    Resource { uri: String },
}

#[derive(Debug, Clone, PartialEq, Eq)]
pub struct McpToolOutput {
    pub result: Option<McpToolContent>,
}

#[derive(Debug, Clone, PartialEq, Eq)]
pub enum CallMcpToolOutcome {
    Success(Vec<McpToolOutput>),
    Error(ToolError),
}

#[derive(Debug, Clone, PartialEq, Eq)]
pub enum UseComputerOutcome {
    Success { cursor_position: Option<Coordinates> },
    Error(ToolError),
}

#[derive(Debug, Clone, Copy, PartialEq, Eq)]
pub struct ScreenDimensions {
    pub width_px: i32,
    pub height_px: i32,
}

#[derive(Debug, Clone, PartialEq, Eq)]
pub enum RequestComputerUseOutcome {
    Approved { screen_dimensions: Option<ScreenDimensions> },
    Rejected,
    Error(ToolError),
}

#[derive(Debug, Clone, PartialEq, Eq)]
pub enum InsertReviewCommentsOutcome {
    Success,
    Error(ToolError),
}

#[derive(Debug, Clone, PartialEq, Eq)]
pub enum UploadFileArtifactOutcome {
    Success { artifact_uid: String, size_bytes: u64 },
    Error(ToolError),
}

/// The result of one tool call; each variant holds the (optional) outcome
/// reported for that kind of tool. `Other` stands for results of tools
/// that no registered tool handles.
#[derive(Debug, Clone, PartialEq, Eq)]
pub enum ToolResult {
    RunShellCommand(Option<RunShellCommandOutcome>),
    ReadFiles(Option<ReadFilesOutcome>),
    ReadDocuments(Option<ReadDocumentsOutcome>),
    Grep(Option<GrepOutcome>),
    FileGlobV2(Option<FileGlobV2Outcome>),
    ReadShellCommandOutput(Option<CommandIoOutcome>),
    ReadSkill(Option<ReadSkillOutcome>),
    ReadMcpResource(Option<ReadMcpResourceOutcome>),
    ApplyFileDiffs(Option<ApplyFileDiffsOutcome>),
    EditDocuments(Option<DocumentsOutcome>),
    CreateDocuments(Option<DocumentsOutcome>),
    WriteToLongRunningShellCommand(Option<CommandIoOutcome>),
    SearchCodebase(Option<SearchCodebaseOutcome>),
    CallMcpTool(Option<CallMcpToolOutcome>),
    UseComputer(Option<UseComputerOutcome>),
    RequestComputerUse(Option<RequestComputerUseOutcome>),
    InsertReviewComments(Option<InsertReviewCommentsOutcome>),
    UploadFileArtifact(Option<UploadFileArtifactOutcome>),
    Other,
}

} // verus!
