//! The registry of client-executed tools: lookup by name, by the kind of
//! a call or of a result, and the `tools[]` array offered to the model.

use std::sync::Arc;

use vstd::prelude::*;

use crate::error::AIApiError;
use crate::json::{self, json_str, push_entry, push_item, Json, JsonView};
use crate::proto::calls::Tool;
use crate::proto::conversation::ToolType;
use crate::proto::results::ToolResult;
use crate::text::str_eq;
use crate::tools::{edit_write, misc, read_search, run_shell_command};

verus! {

/// One tool the assistant can invoke.
#[derive(Debug, Clone, Copy, PartialEq, Eq)]
pub enum ToolDefinition {
    RunShellCommand,
    ReadFiles,
    ReadDocuments,
    Grep,
    FileGlobV2,
    ReadShellCommandOutput,
    ReadSkill,
    ReadMcpResource,
    ApplyFileDiffs,
    EditDocuments,
    CreateDocuments,
    WriteToLongRunningShellCommand,
    SearchCodebase,
    CallMcpTool,
    UseComputer,
    RequestComputerUse,
    InsertReviewComments,
    UploadFileArtifact,
}

/// Every tool, in the order the registry holds them.
pub open spec fn all_tools() -> Seq<ToolDefinition> {
    seq![
        ToolDefinition::RunShellCommand,
        ToolDefinition::ReadFiles,
        ToolDefinition::ReadDocuments,
        ToolDefinition::Grep,
        ToolDefinition::FileGlobV2,
        ToolDefinition::ReadShellCommandOutput,
        ToolDefinition::ReadSkill,
        ToolDefinition::ReadMcpResource,
        ToolDefinition::ApplyFileDiffs,
        ToolDefinition::EditDocuments,
        ToolDefinition::CreateDocuments,
        ToolDefinition::WriteToLongRunningShellCommand,
        ToolDefinition::SearchCodebase,
        ToolDefinition::CallMcpTool,
        ToolDefinition::UseComputer,
        ToolDefinition::RequestComputerUse,
        ToolDefinition::InsertReviewComments,
        ToolDefinition::UploadFileArtifact,
    ]
}

impl ToolDefinition {
    /// The function name the model calls the tool by.
    pub open spec fn tool_name(self) -> Seq<char> {
        match self {
            ToolDefinition::RunShellCommand => "run_shell_command"@,
            ToolDefinition::ReadFiles => "read_files"@,
            ToolDefinition::ReadDocuments => "read_documents"@,
            ToolDefinition::Grep => "grep"@,
            ToolDefinition::FileGlobV2 => "file_glob_v2"@,
            ToolDefinition::ReadShellCommandOutput => "read_shell_command_output"@,
            ToolDefinition::ReadSkill => "read_skill"@,
            ToolDefinition::ReadMcpResource => "read_mcp_resource"@,
            ToolDefinition::ApplyFileDiffs => "apply_file_diffs"@,
            ToolDefinition::EditDocuments => "edit_documents"@,
            ToolDefinition::CreateDocuments => "create_documents"@,
            ToolDefinition::WriteToLongRunningShellCommand => "write_to_long_running_shell_command"@,
            ToolDefinition::SearchCodebase => "search_codebase"@,
            ToolDefinition::CallMcpTool => "call_mcp_tool"@,
            ToolDefinition::UseComputer => "use_computer"@,
            ToolDefinition::RequestComputerUse => "request_computer_use"@,
            ToolDefinition::InsertReviewComments => "insert_review_comments"@,
            ToolDefinition::UploadFileArtifact => "upload_file_artifact"@,
        }
    }

    pub open spec fn tool_description(self) -> Seq<char> {
        match self {
            ToolDefinition::RunShellCommand => run_shell_command::run_shell_command_description(),
            ToolDefinition::ReadFiles => read_search::read_files_description(),
            ToolDefinition::ReadDocuments => read_search::read_documents_description(),
            ToolDefinition::Grep => read_search::grep_description(),
            ToolDefinition::FileGlobV2 => read_search::file_glob_v2_description(),
            ToolDefinition::ReadShellCommandOutput => read_search::read_shell_command_output_description(),
            ToolDefinition::ReadSkill => read_search::read_skill_description(),
            ToolDefinition::ReadMcpResource => read_search::read_mcp_resource_description(),
            ToolDefinition::ApplyFileDiffs => edit_write::apply_file_diffs_description(),
            ToolDefinition::EditDocuments => edit_write::edit_documents_description(),
            ToolDefinition::CreateDocuments => edit_write::create_documents_description(),
            ToolDefinition::WriteToLongRunningShellCommand => edit_write::write_to_long_running_shell_command_description(),
            ToolDefinition::SearchCodebase => misc::search_codebase_description(),
            ToolDefinition::CallMcpTool => misc::call_mcp_tool_description(),
            ToolDefinition::UseComputer => misc::use_computer_description(),
            ToolDefinition::RequestComputerUse => misc::request_computer_use_description(),
            ToolDefinition::InsertReviewComments => misc::insert_review_comments_description(),
            ToolDefinition::UploadFileArtifact => misc::upload_file_artifact_description(),
        }
    }

    /// `s` has the shape of the tool's argument schema.
    pub open spec fn schema_ok(self, s: JsonView) -> bool {
        match self {
            ToolDefinition::RunShellCommand => run_shell_command::run_shell_command_schema(s),
            ToolDefinition::ReadFiles => read_search::read_files_schema(s),
            ToolDefinition::ReadDocuments => read_search::read_documents_schema(s),
            ToolDefinition::Grep => read_search::grep_schema(s),
            ToolDefinition::FileGlobV2 => read_search::file_glob_v2_schema(s),
            ToolDefinition::ReadShellCommandOutput => read_search::read_shell_command_output_schema(s),
            ToolDefinition::ReadSkill => read_search::read_skill_schema(s),
            ToolDefinition::ReadMcpResource => read_search::read_mcp_resource_schema(s),
            ToolDefinition::ApplyFileDiffs => edit_write::apply_file_diffs_schema(s),
            ToolDefinition::EditDocuments => edit_write::edit_documents_schema(s),
            ToolDefinition::CreateDocuments => edit_write::create_documents_schema(s),
            ToolDefinition::WriteToLongRunningShellCommand => edit_write::write_to_long_running_shell_command_schema(s),
            ToolDefinition::SearchCodebase => misc::search_codebase_schema(s),
            ToolDefinition::CallMcpTool => misc::call_mcp_tool_schema(s),
            ToolDefinition::UseComputer => misc::use_computer_schema(s),
            ToolDefinition::RequestComputerUse => misc::request_computer_use_schema(s),
            ToolDefinition::InsertReviewComments => misc::insert_review_comments_schema(s),
            ToolDefinition::UploadFileArtifact => misc::upload_file_artifact_schema(s),
        }
    }

    /// What decoding `args` as a call of this tool gives.
    pub open spec fn decodes(self, args: Json, r: Result<Tool, Arc<AIApiError>>) -> bool {
        match self {
            ToolDefinition::RunShellCommand => run_shell_command::run_shell_command_decoded(args, r),
            ToolDefinition::ReadFiles => read_search::read_files_decoded(args, r),
            ToolDefinition::ReadDocuments => read_search::read_documents_decoded(args, r),
            ToolDefinition::Grep => read_search::grep_decoded(args, r),
            ToolDefinition::FileGlobV2 => read_search::file_glob_v2_decoded(args, r),
            ToolDefinition::ReadShellCommandOutput => read_search::read_shell_command_output_decoded(args, r),
            ToolDefinition::ReadSkill => read_search::read_skill_decoded(args, r),
            ToolDefinition::ReadMcpResource => read_search::read_mcp_resource_decoded(args, r),
            ToolDefinition::ApplyFileDiffs => edit_write::apply_file_diffs_decoded(args, r),
            ToolDefinition::EditDocuments => edit_write::edit_documents_decoded(args, r),
            ToolDefinition::CreateDocuments => edit_write::create_documents_decoded(args, r),
            ToolDefinition::WriteToLongRunningShellCommand => edit_write::write_to_long_running_shell_command_decoded(args, r),
            ToolDefinition::SearchCodebase => misc::search_codebase_decoded(args, r),
            ToolDefinition::CallMcpTool => misc::call_mcp_tool_decoded(args, r),
            ToolDefinition::UseComputer => misc::use_computer_decoded(args, r),
            ToolDefinition::RequestComputerUse => misc::request_computer_use_decoded(args, r),
            ToolDefinition::InsertReviewComments => misc::insert_review_comments_decoded(args, r),
            ToolDefinition::UploadFileArtifact => misc::upload_file_artifact_decoded(args, r),
        }
    }

    /// The JSON arguments a call is encoded as by this tool.
    pub open spec fn call_args(self, tool: &Tool) -> JsonView {
        match self {
            ToolDefinition::RunShellCommand => run_shell_command::run_shell_command_call_args(tool),
            ToolDefinition::ReadFiles => read_search::read_files_call_args(tool),
            ToolDefinition::ReadDocuments => read_search::read_documents_call_args(tool),
            ToolDefinition::Grep => read_search::grep_call_args(tool),
            ToolDefinition::FileGlobV2 => read_search::file_glob_v2_call_args(tool),
            ToolDefinition::ReadShellCommandOutput => read_search::read_shell_command_output_call_args(tool),
            ToolDefinition::ReadSkill => read_search::read_skill_call_args(tool),
            ToolDefinition::ReadMcpResource => read_search::read_mcp_resource_call_args(tool),
            ToolDefinition::ApplyFileDiffs => edit_write::apply_file_diffs_call_args(tool),
            ToolDefinition::EditDocuments => edit_write::edit_documents_call_args(tool),
            ToolDefinition::CreateDocuments => edit_write::create_documents_call_args(tool),
            ToolDefinition::WriteToLongRunningShellCommand => edit_write::write_to_long_running_shell_command_call_args(tool),
            ToolDefinition::SearchCodebase => misc::search_codebase_call_args(tool),
            ToolDefinition::CallMcpTool => misc::call_mcp_tool_call_args(tool),
            ToolDefinition::UseComputer => misc::use_computer_call_args(tool),
            ToolDefinition::RequestComputerUse => misc::request_computer_use_call_args(tool),
            ToolDefinition::InsertReviewComments => misc::insert_review_comments_call_args(tool),
            ToolDefinition::UploadFileArtifact => misc::upload_file_artifact_call_args(tool),
        }
    }

    /// What encoding `result` as this tool's result gives.
    pub open spec fn result_encoded(self, result: &ToolResult, r: Result<String, Arc<AIApiError>>) -> bool {
        match self {
            ToolDefinition::RunShellCommand => run_shell_command::run_shell_command_result_encoded(result, r),
            ToolDefinition::ReadFiles => read_search::read_files_result_encoded(result, r),
            ToolDefinition::ReadDocuments => read_search::read_documents_result_encoded(result, r),
            ToolDefinition::Grep => read_search::grep_result_encoded(result, r),
            ToolDefinition::FileGlobV2 => read_search::file_glob_v2_result_encoded(result, r),
            ToolDefinition::ReadShellCommandOutput => read_search::read_shell_command_output_result_encoded(result, r),
            ToolDefinition::ReadSkill => read_search::read_skill_result_encoded(result, r),
            ToolDefinition::ReadMcpResource => read_search::read_mcp_resource_result_encoded(result, r),
            ToolDefinition::ApplyFileDiffs => edit_write::apply_file_diffs_result_encoded(result, r),
            ToolDefinition::EditDocuments => edit_write::edit_documents_result_encoded(result, r),
            ToolDefinition::CreateDocuments => edit_write::create_documents_result_encoded(result, r),
            ToolDefinition::WriteToLongRunningShellCommand => edit_write::write_to_long_running_shell_command_result_encoded(result, r),
            ToolDefinition::SearchCodebase => misc::search_codebase_result_encoded(result, r),
            ToolDefinition::CallMcpTool => misc::call_mcp_tool_result_encoded(result, r),
            ToolDefinition::UseComputer => misc::use_computer_result_encoded(result, r),
            ToolDefinition::RequestComputerUse => misc::request_computer_use_result_encoded(result, r),
            ToolDefinition::InsertReviewComments => misc::insert_review_comments_result_encoded(result, r),
            ToolDefinition::UploadFileArtifact => misc::upload_file_artifact_result_encoded(result, r),
        }
    }

    /// The call is of this tool's kind.
    pub open spec fn handles_call(self, tool: Tool) -> bool {
        match self {
            ToolDefinition::RunShellCommand => tool is RunShellCommand,
            ToolDefinition::ReadFiles => tool is ReadFiles,
            ToolDefinition::ReadDocuments => tool is ReadDocuments,
            ToolDefinition::Grep => tool is Grep,
            ToolDefinition::FileGlobV2 => tool is FileGlobV2,
            ToolDefinition::ReadShellCommandOutput => tool is ReadShellCommandOutput,
            ToolDefinition::ReadSkill => tool is ReadSkill,
            ToolDefinition::ReadMcpResource => tool is ReadMcpResource,
            ToolDefinition::ApplyFileDiffs => tool is ApplyFileDiffs,
            ToolDefinition::EditDocuments => tool is EditDocuments,
            ToolDefinition::CreateDocuments => tool is CreateDocuments,
            ToolDefinition::WriteToLongRunningShellCommand => tool is WriteToLongRunningShellCommand,
            ToolDefinition::SearchCodebase => tool is SearchCodebase,
            ToolDefinition::CallMcpTool => tool is CallMcpTool,
            ToolDefinition::UseComputer => tool is UseComputer,
            ToolDefinition::RequestComputerUse => tool is RequestComputerUse,
            ToolDefinition::InsertReviewComments => tool is InsertReviewComments,
            ToolDefinition::UploadFileArtifact => tool is UploadFileArtifact,
        }
    }

    /// `t` is the client's kind for this tool.
    pub open spec fn handles_type(self, t: ToolType) -> bool {
        match self {
            ToolDefinition::RunShellCommand => t is RunShellCommand,
            ToolDefinition::ReadFiles => t is ReadFiles,
            ToolDefinition::ReadDocuments => t is ReadDocuments,
            ToolDefinition::Grep => t is Grep,
            ToolDefinition::FileGlobV2 => t is FileGlobV2,
            ToolDefinition::ReadShellCommandOutput => t is ReadShellCommandOutput,
            ToolDefinition::ReadSkill => t is ReadSkill,
            ToolDefinition::ReadMcpResource => t is ReadMcpResource,
            ToolDefinition::ApplyFileDiffs => t is ApplyFileDiffs,
            ToolDefinition::EditDocuments => t is EditDocuments,
            ToolDefinition::CreateDocuments => t is CreateDocuments,
            ToolDefinition::WriteToLongRunningShellCommand => t is WriteToLongRunningShellCommand,
            ToolDefinition::SearchCodebase => t is SearchCodebase,
            ToolDefinition::CallMcpTool => t is CallMcpTool,
            ToolDefinition::UseComputer => t is UseComputer,
            ToolDefinition::RequestComputerUse => t is RequestComputerUse,
            ToolDefinition::InsertReviewComments => t is InsertReviewComments,
            ToolDefinition::UploadFileArtifact => t is UploadFileArtifact,
        }
    }

    /// The result is of this tool's kind.
    pub open spec fn handles_result(self, result: ToolResult) -> bool {
        match self {
            ToolDefinition::RunShellCommand => result is RunShellCommand,
            ToolDefinition::ReadFiles => result is ReadFiles,
            ToolDefinition::ReadDocuments => result is ReadDocuments,
            ToolDefinition::Grep => result is Grep,
            ToolDefinition::FileGlobV2 => result is FileGlobV2,
            ToolDefinition::ReadShellCommandOutput => result is ReadShellCommandOutput,
            ToolDefinition::ReadSkill => result is ReadSkill,
            ToolDefinition::ReadMcpResource => result is ReadMcpResource,
            ToolDefinition::ApplyFileDiffs => result is ApplyFileDiffs,
            ToolDefinition::EditDocuments => result is EditDocuments,
            ToolDefinition::CreateDocuments => result is CreateDocuments,
            ToolDefinition::WriteToLongRunningShellCommand => result is WriteToLongRunningShellCommand,
            ToolDefinition::SearchCodebase => result is SearchCodebase,
            ToolDefinition::CallMcpTool => result is CallMcpTool,
            ToolDefinition::UseComputer => result is UseComputer,
            ToolDefinition::RequestComputerUse => result is RequestComputerUse,
            ToolDefinition::InsertReviewComments => result is InsertReviewComments,
            ToolDefinition::UploadFileArtifact => result is UploadFileArtifact,
        }
    }

    pub fn name(&self) -> (r: &'static str)
        ensures
            r@ == self.tool_name(),
    {
        match self {
            ToolDefinition::RunShellCommand => run_shell_command::TOOL.name(),
            ToolDefinition::ReadFiles => read_search::READ_FILES.name(),
            ToolDefinition::ReadDocuments => read_search::READ_DOCUMENTS.name(),
            ToolDefinition::Grep => read_search::GREP.name(),
            ToolDefinition::FileGlobV2 => read_search::FILE_GLOB_V2.name(),
            ToolDefinition::ReadShellCommandOutput => read_search::READ_SHELL_COMMAND_OUTPUT.name(),
            ToolDefinition::ReadSkill => read_search::READ_SKILL.name(),
            ToolDefinition::ReadMcpResource => read_search::READ_MCP_RESOURCE.name(),
            ToolDefinition::ApplyFileDiffs => edit_write::APPLY_FILE_DIFFS.name(),
            ToolDefinition::EditDocuments => edit_write::EDIT_DOCUMENTS.name(),
            ToolDefinition::CreateDocuments => edit_write::CREATE_DOCUMENTS.name(),
            ToolDefinition::WriteToLongRunningShellCommand => edit_write::WRITE_TO_LONG_RUNNING_SHELL_COMMAND.name(),
            ToolDefinition::SearchCodebase => misc::SEARCH_CODEBASE.name(),
            ToolDefinition::CallMcpTool => misc::CALL_MCP_TOOL.name(),
            ToolDefinition::UseComputer => misc::USE_COMPUTER.name(),
            ToolDefinition::RequestComputerUse => misc::REQUEST_COMPUTER_USE.name(),
            ToolDefinition::InsertReviewComments => misc::INSERT_REVIEW_COMMENTS.name(),
            ToolDefinition::UploadFileArtifact => misc::UPLOAD_FILE_ARTIFACT.name(),
        }
    }

    pub fn description(&self) -> (r: &'static str)
        ensures
            r@ == self.tool_description(),
    {
        match self {
            ToolDefinition::RunShellCommand => run_shell_command::TOOL.description(),
            ToolDefinition::ReadFiles => read_search::READ_FILES.description(),
            ToolDefinition::ReadDocuments => read_search::READ_DOCUMENTS.description(),
            ToolDefinition::Grep => read_search::GREP.description(),
            ToolDefinition::FileGlobV2 => read_search::FILE_GLOB_V2.description(),
            ToolDefinition::ReadShellCommandOutput => read_search::READ_SHELL_COMMAND_OUTPUT.description(),
            ToolDefinition::ReadSkill => read_search::READ_SKILL.description(),
            ToolDefinition::ReadMcpResource => read_search::READ_MCP_RESOURCE.description(),
            ToolDefinition::ApplyFileDiffs => edit_write::APPLY_FILE_DIFFS.description(),
            ToolDefinition::EditDocuments => edit_write::EDIT_DOCUMENTS.description(),
            ToolDefinition::CreateDocuments => edit_write::CREATE_DOCUMENTS.description(),
            ToolDefinition::WriteToLongRunningShellCommand => edit_write::WRITE_TO_LONG_RUNNING_SHELL_COMMAND.description(),
            ToolDefinition::SearchCodebase => misc::SEARCH_CODEBASE.description(),
            ToolDefinition::CallMcpTool => misc::CALL_MCP_TOOL.description(),
            ToolDefinition::UseComputer => misc::USE_COMPUTER.description(),
            ToolDefinition::RequestComputerUse => misc::REQUEST_COMPUTER_USE.description(),
            ToolDefinition::InsertReviewComments => misc::INSERT_REVIEW_COMMENTS.description(),
            ToolDefinition::UploadFileArtifact => misc::UPLOAD_FILE_ARTIFACT.description(),
        }
    }

    /// JSON Schema of the tool's arguments.
    pub fn parameters_schema(&self) -> (r: Json)
        ensures
            self.schema_ok(r@),
    {
        match self {
            ToolDefinition::RunShellCommand => run_shell_command::TOOL.parameters_schema(),
            ToolDefinition::ReadFiles => read_search::READ_FILES.parameters_schema(),
            ToolDefinition::ReadDocuments => read_search::READ_DOCUMENTS.parameters_schema(),
            ToolDefinition::Grep => read_search::GREP.parameters_schema(),
            ToolDefinition::FileGlobV2 => read_search::FILE_GLOB_V2.parameters_schema(),
            ToolDefinition::ReadShellCommandOutput => read_search::READ_SHELL_COMMAND_OUTPUT.parameters_schema(),
            ToolDefinition::ReadSkill => read_search::READ_SKILL.parameters_schema(),
            ToolDefinition::ReadMcpResource => read_search::READ_MCP_RESOURCE.parameters_schema(),
            ToolDefinition::ApplyFileDiffs => edit_write::APPLY_FILE_DIFFS.parameters_schema(),
            ToolDefinition::EditDocuments => edit_write::EDIT_DOCUMENTS.parameters_schema(),
            ToolDefinition::CreateDocuments => edit_write::CREATE_DOCUMENTS.parameters_schema(),
            ToolDefinition::WriteToLongRunningShellCommand => edit_write::WRITE_TO_LONG_RUNNING_SHELL_COMMAND.parameters_schema(),
            ToolDefinition::SearchCodebase => misc::SEARCH_CODEBASE.parameters_schema(),
            ToolDefinition::CallMcpTool => misc::CALL_MCP_TOOL.parameters_schema(),
            ToolDefinition::UseComputer => misc::USE_COMPUTER.parameters_schema(),
            ToolDefinition::RequestComputerUse => misc::REQUEST_COMPUTER_USE.parameters_schema(),
            ToolDefinition::InsertReviewComments => misc::INSERT_REVIEW_COMMENTS.parameters_schema(),
            ToolDefinition::UploadFileArtifact => misc::UPLOAD_FILE_ARTIFACT.parameters_schema(),
        }
    }

    /// Decodes the JSON arguments of a call of this tool.
    pub fn decode_call_args(&self, args: Json) -> (r: Result<Tool, Arc<AIApiError>>)
        ensures
            self.decodes(args, r),
    {
        match self {
            ToolDefinition::RunShellCommand => run_shell_command::TOOL.decode_call_args(args),
            ToolDefinition::ReadFiles => read_search::READ_FILES.decode_call_args(args),
            ToolDefinition::ReadDocuments => read_search::READ_DOCUMENTS.decode_call_args(args),
            ToolDefinition::Grep => read_search::GREP.decode_call_args(args),
            ToolDefinition::FileGlobV2 => read_search::FILE_GLOB_V2.decode_call_args(args),
            ToolDefinition::ReadShellCommandOutput => read_search::READ_SHELL_COMMAND_OUTPUT.decode_call_args(args),
            ToolDefinition::ReadSkill => read_search::READ_SKILL.decode_call_args(args),
            ToolDefinition::ReadMcpResource => read_search::READ_MCP_RESOURCE.decode_call_args(args),
            ToolDefinition::ApplyFileDiffs => edit_write::APPLY_FILE_DIFFS.decode_call_args(args),
            ToolDefinition::EditDocuments => edit_write::EDIT_DOCUMENTS.decode_call_args(args),
            ToolDefinition::CreateDocuments => edit_write::CREATE_DOCUMENTS.decode_call_args(args),
            ToolDefinition::WriteToLongRunningShellCommand => edit_write::WRITE_TO_LONG_RUNNING_SHELL_COMMAND.decode_call_args(args),
            ToolDefinition::SearchCodebase => misc::SEARCH_CODEBASE.decode_call_args(args),
            ToolDefinition::CallMcpTool => misc::CALL_MCP_TOOL.decode_call_args(args),
            ToolDefinition::UseComputer => misc::USE_COMPUTER.decode_call_args(args),
            ToolDefinition::RequestComputerUse => misc::REQUEST_COMPUTER_USE.decode_call_args(args),
            ToolDefinition::InsertReviewComments => misc::INSERT_REVIEW_COMMENTS.decode_call_args(args),
            ToolDefinition::UploadFileArtifact => misc::UPLOAD_FILE_ARTIFACT.decode_call_args(args),
        }
    }

    /// Encodes a call back into its JSON arguments.
    pub fn encode_call_args(&self, tool: &Tool) -> (r: Json)
        ensures
            r@ == self.call_args(tool),
    {
        match self {
            ToolDefinition::RunShellCommand => run_shell_command::TOOL.encode_call_args(tool),
            ToolDefinition::ReadFiles => read_search::READ_FILES.encode_call_args(tool),
            ToolDefinition::ReadDocuments => read_search::READ_DOCUMENTS.encode_call_args(tool),
            ToolDefinition::Grep => read_search::GREP.encode_call_args(tool),
            ToolDefinition::FileGlobV2 => read_search::FILE_GLOB_V2.encode_call_args(tool),
            ToolDefinition::ReadShellCommandOutput => read_search::READ_SHELL_COMMAND_OUTPUT.encode_call_args(tool),
            ToolDefinition::ReadSkill => read_search::READ_SKILL.encode_call_args(tool),
            ToolDefinition::ReadMcpResource => read_search::READ_MCP_RESOURCE.encode_call_args(tool),
            ToolDefinition::ApplyFileDiffs => edit_write::APPLY_FILE_DIFFS.encode_call_args(tool),
            ToolDefinition::EditDocuments => edit_write::EDIT_DOCUMENTS.encode_call_args(tool),
            ToolDefinition::CreateDocuments => edit_write::CREATE_DOCUMENTS.encode_call_args(tool),
            ToolDefinition::WriteToLongRunningShellCommand => edit_write::WRITE_TO_LONG_RUNNING_SHELL_COMMAND.encode_call_args(tool),
            ToolDefinition::SearchCodebase => misc::SEARCH_CODEBASE.encode_call_args(tool),
            ToolDefinition::CallMcpTool => misc::CALL_MCP_TOOL.encode_call_args(tool),
            ToolDefinition::UseComputer => misc::USE_COMPUTER.encode_call_args(tool),
            ToolDefinition::RequestComputerUse => misc::REQUEST_COMPUTER_USE.encode_call_args(tool),
            ToolDefinition::InsertReviewComments => misc::INSERT_REVIEW_COMMENTS.encode_call_args(tool),
            ToolDefinition::UploadFileArtifact => misc::UPLOAD_FILE_ARTIFACT.encode_call_args(tool),
        }
    }

    /// The text sent back to the model for a result of this tool.
    pub fn encode_result_text(&self, result: &ToolResult) -> (r: Result<String, Arc<AIApiError>>)
        ensures
            self.result_encoded(result, r),
    {
        match self {
            ToolDefinition::RunShellCommand => run_shell_command::TOOL.encode_result_text(result),
            ToolDefinition::ReadFiles => read_search::READ_FILES.encode_result_text(result),
            ToolDefinition::ReadDocuments => read_search::READ_DOCUMENTS.encode_result_text(result),
            ToolDefinition::Grep => read_search::GREP.encode_result_text(result),
            ToolDefinition::FileGlobV2 => read_search::FILE_GLOB_V2.encode_result_text(result),
            ToolDefinition::ReadShellCommandOutput => read_search::READ_SHELL_COMMAND_OUTPUT.encode_result_text(result),
            ToolDefinition::ReadSkill => read_search::READ_SKILL.encode_result_text(result),
            ToolDefinition::ReadMcpResource => read_search::READ_MCP_RESOURCE.encode_result_text(result),
            ToolDefinition::ApplyFileDiffs => edit_write::APPLY_FILE_DIFFS.encode_result_text(result),
            ToolDefinition::EditDocuments => edit_write::EDIT_DOCUMENTS.encode_result_text(result),
            ToolDefinition::CreateDocuments => edit_write::CREATE_DOCUMENTS.encode_result_text(result),
            ToolDefinition::WriteToLongRunningShellCommand => edit_write::WRITE_TO_LONG_RUNNING_SHELL_COMMAND.encode_result_text(result),
            ToolDefinition::SearchCodebase => misc::SEARCH_CODEBASE.encode_result_text(result),
            ToolDefinition::CallMcpTool => misc::CALL_MCP_TOOL.encode_result_text(result),
            ToolDefinition::UseComputer => misc::USE_COMPUTER.encode_result_text(result),
            ToolDefinition::RequestComputerUse => misc::REQUEST_COMPUTER_USE.encode_result_text(result),
            ToolDefinition::InsertReviewComments => misc::INSERT_REVIEW_COMMENTS.encode_result_text(result),
            ToolDefinition::UploadFileArtifact => misc::UPLOAD_FILE_ARTIFACT.encode_result_text(result),
        }
    }

    /// True iff `t` is the client's kind for this tool.
    pub fn matches_tool_type(&self, t: ToolType) -> (r: bool)
        ensures
            r == self.handles_type(t),
    {
        match self {
            ToolDefinition::RunShellCommand => matches!(t, ToolType::RunShellCommand),
            ToolDefinition::ReadFiles => matches!(t, ToolType::ReadFiles),
            ToolDefinition::ReadDocuments => matches!(t, ToolType::ReadDocuments),
            ToolDefinition::Grep => matches!(t, ToolType::Grep),
            ToolDefinition::FileGlobV2 => matches!(t, ToolType::FileGlobV2),
            ToolDefinition::ReadShellCommandOutput => matches!(t, ToolType::ReadShellCommandOutput),
            ToolDefinition::ReadSkill => matches!(t, ToolType::ReadSkill),
            ToolDefinition::ReadMcpResource => matches!(t, ToolType::ReadMcpResource),
            ToolDefinition::ApplyFileDiffs => matches!(t, ToolType::ApplyFileDiffs),
            ToolDefinition::EditDocuments => matches!(t, ToolType::EditDocuments),
            ToolDefinition::CreateDocuments => matches!(t, ToolType::CreateDocuments),
            ToolDefinition::WriteToLongRunningShellCommand => matches!(t, ToolType::WriteToLongRunningShellCommand),
            ToolDefinition::SearchCodebase => matches!(t, ToolType::SearchCodebase),
            ToolDefinition::CallMcpTool => matches!(t, ToolType::CallMcpTool),
            ToolDefinition::UseComputer => matches!(t, ToolType::UseComputer),
            ToolDefinition::RequestComputerUse => matches!(t, ToolType::RequestComputerUse),
            ToolDefinition::InsertReviewComments => matches!(t, ToolType::InsertReviewComments),
            ToolDefinition::UploadFileArtifact => matches!(t, ToolType::UploadFileArtifact),
        }
    }

    pub fn matches_proto_call(&self, tool: &Tool) -> (r: bool)
        ensures
            r == self.handles_call(*tool),
    {
        match self {
            ToolDefinition::RunShellCommand => run_shell_command::TOOL.matches_proto_call(tool),
            ToolDefinition::ReadFiles => read_search::READ_FILES.matches_proto_call(tool),
            ToolDefinition::ReadDocuments => read_search::READ_DOCUMENTS.matches_proto_call(tool),
            ToolDefinition::Grep => read_search::GREP.matches_proto_call(tool),
            ToolDefinition::FileGlobV2 => read_search::FILE_GLOB_V2.matches_proto_call(tool),
            ToolDefinition::ReadShellCommandOutput => read_search::READ_SHELL_COMMAND_OUTPUT.matches_proto_call(tool),
            ToolDefinition::ReadSkill => read_search::READ_SKILL.matches_proto_call(tool),
            ToolDefinition::ReadMcpResource => read_search::READ_MCP_RESOURCE.matches_proto_call(tool),
            ToolDefinition::ApplyFileDiffs => edit_write::APPLY_FILE_DIFFS.matches_proto_call(tool),
            ToolDefinition::EditDocuments => edit_write::EDIT_DOCUMENTS.matches_proto_call(tool),
            ToolDefinition::CreateDocuments => edit_write::CREATE_DOCUMENTS.matches_proto_call(tool),
            ToolDefinition::WriteToLongRunningShellCommand => edit_write::WRITE_TO_LONG_RUNNING_SHELL_COMMAND.matches_proto_call(tool),
            ToolDefinition::SearchCodebase => misc::SEARCH_CODEBASE.matches_proto_call(tool),
            ToolDefinition::CallMcpTool => misc::CALL_MCP_TOOL.matches_proto_call(tool),
            ToolDefinition::UseComputer => misc::USE_COMPUTER.matches_proto_call(tool),
            ToolDefinition::RequestComputerUse => misc::REQUEST_COMPUTER_USE.matches_proto_call(tool),
            ToolDefinition::InsertReviewComments => misc::INSERT_REVIEW_COMMENTS.matches_proto_call(tool),
            ToolDefinition::UploadFileArtifact => misc::UPLOAD_FILE_ARTIFACT.matches_proto_call(tool),
        }
    }

    pub fn matches_proto_result(&self, result: &ToolResult) -> (r: bool)
        ensures
            r == self.handles_result(*result),
    {
        match self {
            ToolDefinition::RunShellCommand => run_shell_command::TOOL.matches_proto_result(result),
            ToolDefinition::ReadFiles => read_search::READ_FILES.matches_proto_result(result),
            ToolDefinition::ReadDocuments => read_search::READ_DOCUMENTS.matches_proto_result(result),
            ToolDefinition::Grep => read_search::GREP.matches_proto_result(result),
            ToolDefinition::FileGlobV2 => read_search::FILE_GLOB_V2.matches_proto_result(result),
            ToolDefinition::ReadShellCommandOutput => read_search::READ_SHELL_COMMAND_OUTPUT.matches_proto_result(result),
            ToolDefinition::ReadSkill => read_search::READ_SKILL.matches_proto_result(result),
            ToolDefinition::ReadMcpResource => read_search::READ_MCP_RESOURCE.matches_proto_result(result),
            ToolDefinition::ApplyFileDiffs => edit_write::APPLY_FILE_DIFFS.matches_proto_result(result),
            ToolDefinition::EditDocuments => edit_write::EDIT_DOCUMENTS.matches_proto_result(result),
            ToolDefinition::CreateDocuments => edit_write::CREATE_DOCUMENTS.matches_proto_result(result),
            ToolDefinition::WriteToLongRunningShellCommand => edit_write::WRITE_TO_LONG_RUNNING_SHELL_COMMAND.matches_proto_result(result),
            ToolDefinition::SearchCodebase => misc::SEARCH_CODEBASE.matches_proto_result(result),
            ToolDefinition::CallMcpTool => misc::CALL_MCP_TOOL.matches_proto_result(result),
            ToolDefinition::UseComputer => misc::USE_COMPUTER.matches_proto_result(result),
            ToolDefinition::RequestComputerUse => misc::REQUEST_COMPUTER_USE.matches_proto_result(result),
            ToolDefinition::InsertReviewComments => misc::INSERT_REVIEW_COMMENTS.matches_proto_result(result),
            ToolDefinition::UploadFileArtifact => misc::UPLOAD_FILE_ARTIFACT.matches_proto_result(result),
        }
    }
}

/// The first tool of `tools` that satisfies `p`.
pub open spec fn first_match(
    tools: Seq<ToolDefinition>,
    p: spec_fn(ToolDefinition) -> bool,
) -> Option<ToolDefinition>
    decreases tools.len(),
{
    if tools.len() == 0 {
        None
    } else if p(tools[0]) {
        Some(tools[0])
    } else {
        first_match(tools.drop_first(), p)
    }
}

proof fn lemma_first_match_at(tools: Seq<ToolDefinition>, p: spec_fn(ToolDefinition) -> bool, i: int)
    requires
        0 <= i < tools.len(),
        p(tools[i]),
        forall|j: int| 0 <= j < i ==> !p(#[trigger] tools[j]),
    ensures
        first_match(tools, p) == Some(tools[i]),
    decreases i,
{
    if i > 0 {
        let rest = tools.drop_first();
        assert forall|j: int| 0 <= j < i - 1 implies !p(#[trigger] rest[j]) by {
            assert(rest[j] == tools[j + 1]);
        }
        lemma_first_match_at(rest, p, i - 1);
    }
}

proof fn lemma_first_match_none(tools: Seq<ToolDefinition>, p: spec_fn(ToolDefinition) -> bool)
    requires
        forall|j: int| 0 <= j < tools.len() ==> !p(#[trigger] tools[j]),
    ensures
        first_match(tools, p) is None,
    decreases tools.len(),
{
    if tools.len() > 0 {
        let rest = tools.drop_first();
        assert forall|j: int| 0 <= j < rest.len() implies !p(#[trigger] rest[j]) by {
            assert(rest[j] == tools[j + 1]);
        }
        lemma_first_match_none(rest, p);
    }
}

/// `item` is the `tools[]` entry the model is offered for `d`:
/// `{"type": "function", "function": {"name", "description", "parameters"}}`.
pub open spec fn is_tool_entry(d: ToolDefinition, item: JsonView) -> bool {
    &&& item matches JsonView::Object(es)
    &&& es.len() == 2
    &&& es[0] == ("type"@, JsonView::Str("function"@))
    &&& es[1].0 == "function"@
    &&& es[1].1 matches JsonView::Object(fs)
    &&& fs.len() == 3
    &&& fs[0] == ("name"@, JsonView::Str(d.tool_name()))
    &&& fs[1] == ("description"@, JsonView::Str(d.tool_description()))
    &&& fs[2].0 == "parameters"@
    &&& d.schema_ok(fs[2].1)
}

fn tool_entry(d: ToolDefinition) -> (r: Json)
    ensures
        is_tool_entry(d, r@),
{
    let mut func: Vec<(String, Json)> = Vec::new();
    push_entry(&mut func, "name", json_str(d.name()));
    push_entry(&mut func, "description", json_str(d.description()));
    let params = d.parameters_schema();
    let ghost pv = params@;
    push_entry(&mut func, "parameters", params);
    let ghost fv = json::view_entries(func@);
    let mut es: Vec<(String, Json)> = Vec::new();
    push_entry(&mut es, "type", json_str("function"));
    push_entry(&mut es, "function", Json::Object(func));
    assert(fv =~= seq![
        ("name"@, JsonView::Str(d.tool_name())),
        ("description"@, JsonView::Str(d.tool_description())),
        ("parameters"@, pv),
    ]);
    assert(json::view_entries(es@) =~= seq![
        ("type"@, JsonView::Str("function"@)),
        ("function"@, JsonView::Object(fv)),
    ]);
    Json::Object(es)
}

/// Where a tool stands in [`all_tools`].
pub open spec fn position(d: ToolDefinition) -> int {
    match d {
        ToolDefinition::RunShellCommand => 0,
        ToolDefinition::ReadFiles => 1,
        ToolDefinition::ReadDocuments => 2,
        ToolDefinition::Grep => 3,
        ToolDefinition::FileGlobV2 => 4,
        ToolDefinition::ReadShellCommandOutput => 5,
        ToolDefinition::ReadSkill => 6,
        ToolDefinition::ReadMcpResource => 7,
        ToolDefinition::ApplyFileDiffs => 8,
        ToolDefinition::EditDocuments => 9,
        ToolDefinition::CreateDocuments => 10,
        ToolDefinition::WriteToLongRunningShellCommand => 11,
        ToolDefinition::SearchCodebase => 12,
        ToolDefinition::CallMcpTool => 13,
        ToolDefinition::UseComputer => 14,
        ToolDefinition::RequestComputerUse => 15,
        ToolDefinition::InsertReviewComments => 16,
        ToolDefinition::UploadFileArtifact => 17,
    }
}

proof fn lemma_position(d: ToolDefinition)
    ensures
        0 <= position(d) < all_tools().len(),
        all_tools()[position(d)] == d,
{
}

/// No two tools share a function name.
pub proof fn lemma_tool_names_distinct(d1: ToolDefinition, d2: ToolDefinition)
    ensures
        d1.tool_name() == d2.tool_name() ==> d1 == d2,
{
    reveal_strlit("run_shell_command");
    reveal_strlit("read_files");
    reveal_strlit("read_documents");
    reveal_strlit("grep");
    reveal_strlit("file_glob_v2");
    reveal_strlit("read_shell_command_output");
    reveal_strlit("read_skill");
    reveal_strlit("read_mcp_resource");
    reveal_strlit("apply_file_diffs");
    reveal_strlit("edit_documents");
    reveal_strlit("create_documents");
    reveal_strlit("write_to_long_running_shell_command");
    reveal_strlit("search_codebase");
    reveal_strlit("call_mcp_tool");
    reveal_strlit("use_computer");
    reveal_strlit("request_computer_use");
    reveal_strlit("insert_review_comments");
    reveal_strlit("upload_file_artifact");
    if d1 != d2 {
        assert(d1.tool_name() != d2.tool_name()) by {
            if d1.tool_name() == d2.tool_name() {
                assert(d1.tool_name().len() == d2.tool_name().len());
                assert(d1.tool_name()[0] == d2.tool_name()[0]);
                assert(d1.tool_name()[1] == d2.tool_name()[1]);
                assert(d1.tool_name()[5] == d2.tool_name()[5]);
            }
        }
    }
}

/// Every tool is in the registry, and looking a tool up by its own name
/// gives that tool back.
pub proof fn lemma_by_name_finds_tool(d: ToolDefinition)
    ensures
        first_match(all_tools(), |x: ToolDefinition| x.tool_name() == d.tool_name()) == Some(d),
{
    let s = all_tools();
    let i = position(d);
    lemma_position(d);
    assert forall|j: int| 0 <= j < i implies (#[trigger] s[j]).tool_name() != d.tool_name() by {
        lemma_tool_names_distinct(s[j], d);
    }
    lemma_first_match_at(s, |x: ToolDefinition| x.tool_name() == d.tool_name(), i);
}

proof fn lemma_positions()
    ensures
        forall|j: int| 0 <= j < all_tools().len() ==> position(#[trigger] all_tools()[j]) == j,
{
    assert forall|j: int| 0 <= j < all_tools().len() implies position(#[trigger] all_tools()[j]) == j by {
        if j == 0 {
        } else if j == 1 {
        } else if j == 2 {
        } else if j == 3 {
        } else if j == 4 {
        } else if j == 5 {
        } else if j == 6 {
        } else if j == 7 {
        } else if j == 8 {
        } else if j == 9 {
        } else if j == 10 {
        } else if j == 11 {
        } else if j == 12 {
        } else if j == 13 {
        } else if j == 14 {
        } else if j == 15 {
        } else if j == 16 {
        } else if j == 17 {
        }
    }
}

/// The tool whose calls are of `t`'s kind, if any.
pub open spec fn tool_of_call(t: Tool) -> Option<ToolDefinition> {
    match t {
        Tool::RunShellCommand(_) => Some(ToolDefinition::RunShellCommand),
        Tool::ReadFiles(_) => Some(ToolDefinition::ReadFiles),
        Tool::ReadDocuments(_) => Some(ToolDefinition::ReadDocuments),
        Tool::Grep(_) => Some(ToolDefinition::Grep),
        Tool::FileGlobV2(_) => Some(ToolDefinition::FileGlobV2),
        Tool::ReadShellCommandOutput(_) => Some(ToolDefinition::ReadShellCommandOutput),
        Tool::ReadSkill(_) => Some(ToolDefinition::ReadSkill),
        Tool::ReadMcpResource(_) => Some(ToolDefinition::ReadMcpResource),
        Tool::ApplyFileDiffs(_) => Some(ToolDefinition::ApplyFileDiffs),
        Tool::EditDocuments(_) => Some(ToolDefinition::EditDocuments),
        Tool::CreateDocuments(_) => Some(ToolDefinition::CreateDocuments),
        Tool::WriteToLongRunningShellCommand(_) => Some(ToolDefinition::WriteToLongRunningShellCommand),
        Tool::SearchCodebase(_) => Some(ToolDefinition::SearchCodebase),
        Tool::CallMcpTool(_) => Some(ToolDefinition::CallMcpTool),
        Tool::UseComputer(_) => Some(ToolDefinition::UseComputer),
        Tool::RequestComputerUse(_) => Some(ToolDefinition::RequestComputerUse),
        Tool::InsertReviewComments(_) => Some(ToolDefinition::InsertReviewComments),
        Tool::UploadFileArtifact(_) => Some(ToolDefinition::UploadFileArtifact),
        Tool::Other => None,
    }
}

/// The tool whose results are of `result`'s kind, if any.
pub open spec fn tool_of_result(result: ToolResult) -> Option<ToolDefinition> {
    match result {
        ToolResult::RunShellCommand(_) => Some(ToolDefinition::RunShellCommand),
        ToolResult::ReadFiles(_) => Some(ToolDefinition::ReadFiles),
        ToolResult::ReadDocuments(_) => Some(ToolDefinition::ReadDocuments),
        ToolResult::Grep(_) => Some(ToolDefinition::Grep),
        ToolResult::FileGlobV2(_) => Some(ToolDefinition::FileGlobV2),
        ToolResult::ReadShellCommandOutput(_) => Some(ToolDefinition::ReadShellCommandOutput),
        ToolResult::ReadSkill(_) => Some(ToolDefinition::ReadSkill),
        ToolResult::ReadMcpResource(_) => Some(ToolDefinition::ReadMcpResource),
        ToolResult::ApplyFileDiffs(_) => Some(ToolDefinition::ApplyFileDiffs),
        ToolResult::EditDocuments(_) => Some(ToolDefinition::EditDocuments),
        ToolResult::CreateDocuments(_) => Some(ToolDefinition::CreateDocuments),
        ToolResult::WriteToLongRunningShellCommand(_) => Some(ToolDefinition::WriteToLongRunningShellCommand),
        ToolResult::SearchCodebase(_) => Some(ToolDefinition::SearchCodebase),
        ToolResult::CallMcpTool(_) => Some(ToolDefinition::CallMcpTool),
        ToolResult::UseComputer(_) => Some(ToolDefinition::UseComputer),
        ToolResult::RequestComputerUse(_) => Some(ToolDefinition::RequestComputerUse),
        ToolResult::InsertReviewComments(_) => Some(ToolDefinition::InsertReviewComments),
        ToolResult::UploadFileArtifact(_) => Some(ToolDefinition::UploadFileArtifact),
        ToolResult::Other => None,
    }
}

/// The text a result is sent to the model as, by the tool of its kind
/// (empty for a result of no tool's kind).
pub open spec fn result_text(result: ToolResult) -> Seq<char> {
    match result {
        ToolResult::RunShellCommand(o) => run_shell_command::run_shell_command_result_text(o),
        ToolResult::ReadFiles(o) => read_search::read_files_result_text(o),
        ToolResult::ReadDocuments(o) => read_search::read_documents_result_text(o),
        ToolResult::Grep(o) => read_search::grep_result_text(o),
        ToolResult::FileGlobV2(o) => read_search::file_glob_result_text(o),
        ToolResult::ReadShellCommandOutput(o) => read_search::command_io_result_text(o),
        ToolResult::ReadSkill(o) => read_search::read_skill_result_text(o),
        ToolResult::ReadMcpResource(o) => read_search::read_mcp_resource_result_text(o),
        ToolResult::ApplyFileDiffs(o) => edit_write::apply_file_diffs_result_text(o),
        ToolResult::EditDocuments(o) => edit_write::documents_result_text("updated_documents: "@, o),
        ToolResult::CreateDocuments(o) => edit_write::documents_result_text("created_documents: "@, o),
        ToolResult::WriteToLongRunningShellCommand(o) => read_search::command_io_result_text(o),
        ToolResult::SearchCodebase(o) => misc::search_codebase_result_text(o),
        ToolResult::CallMcpTool(o) => misc::call_mcp_tool_result_text(o),
        ToolResult::UseComputer(o) => misc::use_computer_result_text(o),
        ToolResult::RequestComputerUse(o) => misc::request_computer_use_result_text(o),
        ToolResult::InsertReviewComments(o) => misc::insert_review_comments_result_text(o),
        ToolResult::UploadFileArtifact(o) => misc::upload_file_artifact_result_text(o),
        ToolResult::Other => Seq::empty(),
    }
}

/// What [`first_match`] finds satisfies the condition.
pub proof fn lemma_first_match_satisfies(tools: Seq<ToolDefinition>, p: spec_fn(ToolDefinition) -> bool)
    ensures
        first_match(tools, p) matches Some(d) ==> p(d),
    decreases tools.len(),
{
    if tools.len() > 0 && !p(tools[0]) {
        lemma_first_match_satisfies(tools.drop_first(), p);
    }
}

/// Only the tool of a call's kind handles the call; likewise for results.
pub proof fn lemma_handles_only_own_kind(d: ToolDefinition, t: Tool, result: ToolResult)
    ensures
        d.handles_call(t) <==> tool_of_call(t) == Some(d),
        d.handles_result(result) <==> tool_of_result(result) == Some(d),
{
}

/// The registry finds, for a call, the one tool of the call's kind, and
/// none for a call of no tool's kind.
pub proof fn lemma_registry_finds_call_tool(t: Tool)
    ensures
        first_match(all_tools(), |x: ToolDefinition| x.handles_call(t)) == tool_of_call(t),
{
    let s = all_tools();
    let p = |x: ToolDefinition| x.handles_call(t);
    lemma_positions();
    match tool_of_call(t) {
        Some(d) => {
            lemma_position(d);
            assert forall|j: int| 0 <= j < position(d) implies !p(#[trigger] s[j]) by {
                assert(position(s[j]) == j);
            }
            lemma_first_match_at(s, p, position(d));
        },
        None => {
            lemma_first_match_none(s, p);
        },
    }
}

/// The registry finds, for a result, the one tool of the result's kind,
/// and none for a result of no tool's kind.
pub proof fn lemma_registry_finds_result_tool(result: ToolResult)
    ensures
        first_match(all_tools(), |x: ToolDefinition| x.handles_result(result)) == tool_of_result(result),
{
    let s = all_tools();
    let p = |x: ToolDefinition| x.handles_result(result);
    lemma_positions();
    match tool_of_result(result) {
        Some(d) => {
            lemma_position(d);
            assert forall|j: int| 0 <= j < position(d) implies !p(#[trigger] s[j]) by {
                assert(position(s[j]) == j);
            }
            lemma_first_match_at(s, p, position(d));
        },
        None => {
            lemma_first_match_none(s, p);
        },
    }
}

/// A call a tool decodes is of that tool's kind: the registry maps it
/// back to the tool that decoded it.
pub proof fn lemma_decoded_call_is_own_kind(d: ToolDefinition, args: Json, t: Tool)
    requires
        d.decodes(args, Ok(t)),
    ensures
        tool_of_call(t) == Some(d),
{
}

/// A tool encodes every result of its own kind: encoding never fails for
/// the tool the registry finds for a result.
pub proof fn lemma_own_result_encodes(
    d: ToolDefinition,
    result: ToolResult,
    r: Result<String, Arc<AIApiError>>,
)
    requires
        tool_of_result(result) == Some(d),
        d.result_encoded(&result, r),
    ensures
        r matches Ok(s) && s@ == result_text(result),
{
}

/// Decoding the arguments a call was encoded to succeeds: a call replayed
/// from the conversation history is understood again. This holds for
/// every tool whose encoding keeps the arguments its decoding requires:
/// all but the computer-use and review-comment tools, which encode only a
/// count of their actions or comments.
pub proof fn lemma_encoded_call_decodes(
    d: ToolDefinition,
    t: Tool,
    args: Json,
    r: Result<Tool, Arc<AIApiError>>,
)
    requires
        tool_of_call(t) == Some(d),
        d != ToolDefinition::UseComputer,
        d != ToolDefinition::InsertReviewComments,
        args@ == d.call_args(&t),
        d.decodes(args, r),
    ensures
        r is Ok,
{
    reveal_strlit("command");
    reveal_strlit("risk_category");
    reveal_strlit("uses_pager");
    reveal_strlit("files");
    reveal_strlit("documents");
    reveal_strlit("queries");
    reveal_strlit("path");
    reveal_strlit("patterns");
    reveal_strlit("search_dir");
    reveal_strlit("command_id");
    reveal_strlit("name");
    reveal_strlit("uri");
    reveal_strlit("summary");
    reveal_strlit("diffs");
    reveal_strlit("new_documents");
    reveal_strlit("input");
    reveal_strlit("query");
    reveal_strlit("path_filters");
    reveal_strlit("codebase_path");
    reveal_strlit("server_id");
    reveal_strlit("args");
    reveal_strlit("task_summary");
    reveal_strlit("file");
    reveal_strlit("description");
    reveal_strlit("type");
    reveal_strlit("object");
    reveal_with_fuel(crate::json::lookup, 4);
    match t {
        Tool::Grep(g) => {
            let es = read_search::grep_args(g)->Object_0;
            assert(es.drop_first()[0] == es[1]);
            assert("queries"@[0] != "path"@[0]);
            assert(args@.get_str("path"@) == Some(g.path@));
        },
        Tool::FileGlobV2(fg) => {
            let es = read_search::file_glob_args(fg)->Object_0;
            assert(es.drop_first()[0] == es[1]);
            assert("patterns"@[0] != "search_dir"@[0]);
            assert(args@.get_str("search_dir"@) == Some(fg.search_dir@));
        },
        Tool::UploadFileArtifact(c) => {
            let es = misc::upload_file_artifact_args(c)->Object_0;
            assert(es.drop_first()[0] == es[1]);
            assert("file"@[0] != "description"@[0]);
            assert(args@.get_str("description"@) == Some(c.description@));
            assert(misc::file_path_arg(args@) is Some);
        },
        _ => {},
    }
}

/// The client can execute tool `d`: one of the `supported` kinds is its.
pub open spec fn is_supported(d: ToolDefinition, supported: Seq<ToolType>) -> bool {
    exists|i: int| 0 <= i < supported.len() && d.handles_type(#[trigger] supported[i])
}

/// The tools of `tools` that the client can execute, in their order.
pub open spec fn supported_only(tools: Seq<ToolDefinition>, supported: Seq<ToolType>) -> Seq<ToolDefinition>
    decreases tools.len(),
{
    if tools.len() == 0 {
        Seq::empty()
    } else if is_supported(tools.last(), supported) {
        supported_only(tools.drop_last(), supported).push(tools.last())
    } else {
        supported_only(tools.drop_last(), supported)
    }
}

/// With no supported kinds, no tool is kept.
pub proof fn lemma_supported_only_none(tools: Seq<ToolDefinition>, supported: Seq<ToolType>)
    requires
        supported.len() == 0,
    ensures
        supported_only(tools, supported) == Seq::<ToolDefinition>::empty(),
    decreases tools.len(),
{
    if tools.len() > 0 {
        lemma_supported_only_none(tools.drop_last(), supported);
    }
}

/// Filtering keeps exactly the tools whose kind is supported: a tool is in
/// the result if and only if it is among `tools` and the client supports it.
pub proof fn lemma_supported_only_members(tools: Seq<ToolDefinition>, supported: Seq<ToolType>)
    ensures
        forall|d: ToolDefinition|
            #[trigger] supported_only(tools, supported).contains(d) <==> (tools.contains(d)
                && is_supported(d, supported)),
    decreases tools.len(),
{
    if tools.len() > 0 {
        let rest = tools.drop_last();
        lemma_supported_only_members(rest, supported);
        assert forall|d: ToolDefinition|
            #[trigger] supported_only(tools, supported).contains(d) <==> (tools.contains(d)
                && is_supported(d, supported)) by {
            assert(tools =~= rest.push(tools.last()));
            if tools.contains(d) && d != tools.last() {
                let k = choose|k: int| 0 <= k < tools.len() && tools[k] == d;
                assert(rest[k] == d);
            }
            if rest.contains(d) {
                let k = choose|k: int| 0 <= k < rest.len() && rest[k] == d;
                assert(tools[k] == d);
            }
            let f = supported_only(rest, supported);
            if is_supported(tools.last(), supported) {
                assert(f.push(tools.last())[f.len() as int] == tools.last());
                if f.contains(d) {
                    let k = choose|k: int| 0 <= k < f.len() && f[k] == d;
                    assert(f.push(tools.last())[k] == d);
                }
                if f.push(tools.last()).contains(d) && d != tools.last() {
                    let k = choose|k: int| 0 <= k < f.len() + 1 && f.push(tools.last())[k] == d;
                    assert(f[k] == d);
                }
            }
        }
    }
}

/// The tools the assistant may call, in a fixed order.
pub struct ToolRegistry {
    tools: Vec<ToolDefinition>,
}

impl View for ToolRegistry {
    type V = Seq<ToolDefinition>;

    closed spec fn view(&self) -> Seq<ToolDefinition> {
        self.tools@
    }
}

impl Default for ToolRegistry {
    fn default() -> (r: Self)
        ensures
            r@ == all_tools(),
    {
        Self::new()
    }
}

impl ToolRegistry {
    /// A registry holding every tool.
    pub fn new() -> (r: Self)
        ensures
            r@ == all_tools(),
    {
        let tools = vec![
            ToolDefinition::RunShellCommand,
            ToolDefinition::ReadFiles,
            ToolDefinition::ReadDocuments,
            ToolDefinition::Grep,
            ToolDefinition::FileGlobV2,
            ToolDefinition::ReadShellCommandOutput,
            ToolDefinition::ReadSkill,
            ToolDefinition::ReadMcpResource,
            ToolDefinition::ApplyFileDiffs,
            ToolDefinition::EditDocuments,
            ToolDefinition::CreateDocuments,
            ToolDefinition::WriteToLongRunningShellCommand,
            ToolDefinition::SearchCodebase,
            ToolDefinition::CallMcpTool,
            ToolDefinition::UseComputer,
            ToolDefinition::RequestComputerUse,
            ToolDefinition::InsertReviewComments,
            ToolDefinition::UploadFileArtifact,
        ];
        assert(tools@ =~= all_tools());
        ToolRegistry { tools }
    }

    /// The first tool whose function name is `name`.
    pub fn by_name(&self, name: &str) -> (r: Option<ToolDefinition>)
        ensures
            r == first_match(self@, |d: ToolDefinition| d.tool_name() == name@),
    {
        let mut i: usize = 0;
        while i < self.tools.len()
            invariant
                i <= self.tools.len(),
                forall|j: int| 0 <= j < i ==> (#[trigger] self.tools@[j]).tool_name() != name@,
            decreases self.tools.len() - i,
        {
            let d = self.tools[i];
            if str_eq(d.name(), name) {
                proof {
                    lemma_first_match_at(self@, |d: ToolDefinition| d.tool_name() == name@, i as int);
                }
                return Some(d);
            }
            i = i + 1;
        }
        proof {
            lemma_first_match_none(self@, |d: ToolDefinition| d.tool_name() == name@);
        }
        None
    }

    /// The first tool whose calls are of `tool`'s kind.
    pub fn tool_for_proto(&self, tool: &Tool) -> (r: Option<ToolDefinition>)
        ensures
            r == first_match(self@, |d: ToolDefinition| d.handles_call(*tool)),
    {
        let mut i: usize = 0;
        while i < self.tools.len()
            invariant
                i <= self.tools.len(),
                forall|j: int| 0 <= j < i ==> !(#[trigger] self.tools@[j]).handles_call(*tool),
            decreases self.tools.len() - i,
        {
            let d = self.tools[i];
            if d.matches_proto_call(tool) {
                proof {
                    lemma_first_match_at(self@, |d: ToolDefinition| d.handles_call(*tool), i as int);
                }
                return Some(d);
            }
            i = i + 1;
        }
        proof {
            lemma_first_match_none(self@, |d: ToolDefinition| d.handles_call(*tool));
        }
        None
    }

    /// The first tool whose results are of `result`'s kind.
    pub fn tool_for_proto_result(&self, result: &ToolResult) -> (r: Option<ToolDefinition>)
        ensures
            r == first_match(self@, |d: ToolDefinition| d.handles_result(*result)),
    {
        let mut i: usize = 0;
        while i < self.tools.len()
            invariant
                i <= self.tools.len(),
                forall|j: int| 0 <= j < i ==> !(#[trigger] self.tools@[j]).handles_result(*result),
            decreases self.tools.len() - i,
        {
            let d = self.tools[i];
            if d.matches_proto_result(result) {
                proof {
                    lemma_first_match_at(self@, |d: ToolDefinition| d.handles_result(*result), i as int);
                }
                return Some(d);
            }
            i = i + 1;
        }
        proof {
            lemma_first_match_none(self@, |d: ToolDefinition| d.handles_result(*result));
        }
        None
    }

    /// The `tools[]` array offered to the model: one entry per tool, in order.
    pub fn openai_tools_json(&self) -> (r: Json)
        ensures
            r@ matches JsonView::Array(items) && items.len() == self@.len() && forall|i: int|
                0 <= i < items.len() ==> is_tool_entry(self@[i], #[trigger] items[i]),
    {
        let mut out: Vec<Json> = Vec::new();
        let mut i: usize = 0;
        while i < self.tools.len()
            invariant
                i <= self.tools.len(),
                json::view_items(out@).len() == i,
                forall|j: int| 0 <= j < i ==> is_tool_entry(self.tools@[j], #[trigger] json::view_items(out@)[j]),
            decreases self.tools.len() - i,
        {
            let e = tool_entry(self.tools[i]);
            push_item(&mut out, e);
            i = i + 1;
        }
        Json::Array(out)
    }

    /// The registry restricted to the tools whose kind the client supports
    /// (`Request.settings.supported_tools`), in registration order.
    pub fn filter_to_supported(&self, supported: &[ToolType]) -> (r: ToolRegistry)
        ensures
            r@ == supported_only(self@, supported@),
    {
        let mut tools: Vec<ToolDefinition> = Vec::new();
        let mut i: usize = 0;
        while i < self.tools.len()
            invariant
                i <= self.tools.len(),
                tools@ == supported_only(self.tools@.take(i as int), supported@),
            decreases self.tools.len() - i,
        {
            let d = self.tools[i];
            let mut found = false;
            let mut j: usize = 0;
            while j < supported.len()
                invariant
                    j <= supported.len(),
                    found <==> exists|k: int| 0 <= k < j && d.handles_type(#[trigger] supported@[k]),
                decreases supported.len() - j,
            {
                if d.matches_tool_type(supported[j]) {
                    found = true;
                }
                j = j + 1;
            }
            proof {
                let t = self.tools@.take(i + 1);
                assert(t.drop_last() =~= self.tools@.take(i as int));
                assert(t.last() == d);
            }
            if found {
                tools.push(d);
            }
            i = i + 1;
        }
        assert(self.tools@.take(self.tools.len() as int) =~= self.tools@);
        ToolRegistry { tools }
    }
}

} // verus!
