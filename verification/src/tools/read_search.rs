//! Read and search tools: ReadFiles, ReadDocuments, Grep, FileGlobV2,
//! ReadShellCommandOutput, ReadSkill, ReadMcpResource.

use std::sync::Arc;

use vstd::prelude::*;
use vstd::string::*;

use crate::error::AIApiError;
use crate::json::{
    self, collect_strings, get_array, get_i64, get_str, get_string, get_string_or_empty,
    get_u64, json_str, json_str_array, push_entry, push_item, Json, JsonView,
};
use crate::proto::calls::{
    FileContentLineRange, FileGlobV2, Grep, OutputDelay, ReadDocuments,
    ReadDocumentsDocument, ReadFiles, ReadFilesFile, ReadMcpResource, ReadShellCommandOutput,
    ReadSkill, SkillReference, Tool,
};
use crate::proto::results::{
    AnyFileKind, CommandIoOutcome, FileGlobV2Outcome, GrepOutcome, McpResourceContentType,
    ReadDocumentsOutcome, ReadFilesOutcome, ReadMcpResourceOutcome, ReadSkillOutcome, ToolResult,
};
use crate::text::{self, join, push_u64};
use crate::tools::run_shell_command::{push_finished, push_snapshot};
use crate::tools::{
    self, arg_error, error_string, file_block_string, no_result,
};

verus! {

pub struct ReadFilesTool;

pub struct ReadDocumentsTool;

pub struct GrepTool;

pub struct FileGlobV2Tool;

pub struct ReadShellCommandOutputTool;

pub struct ReadSkillTool;

pub struct ReadMcpResourceTool;

pub const READ_FILES: ReadFilesTool = ReadFilesTool;

pub const READ_DOCUMENTS: ReadDocumentsTool = ReadDocumentsTool;

pub const GREP: GrepTool = GrepTool;

pub const FILE_GLOB_V2: FileGlobV2Tool = FileGlobV2Tool;

pub const READ_SHELL_COMMAND_OUTPUT: ReadShellCommandOutputTool = ReadShellCommandOutputTool;

pub const READ_SKILL: ReadSkillTool = ReadSkillTool;

pub const READ_MCP_RESOURCE: ReadMcpResourceTool = ReadMcpResourceTool;

// ---------------------------------------------------------------------------
// Line ranges, shared by ReadFiles and ReadDocuments
// ---------------------------------------------------------------------------

/// A `{"start", "end"}` object read as a line range (each number cut to
/// 32 bits); `None` when either is not a non-negative integer.
pub open spec fn line_range_of(r: JsonView) -> Option<(u32, u32)> {
    match (r.get_u64("start"@), r.get_u64("end"@)) {
        (Some(a), Some(b)) => Some((a as u32, b as u32)),
        _ => None,
    }
}

pub open spec fn line_range_fn() -> spec_fn(JsonView) -> Option<(u32, u32)> {
    |r: JsonView| line_range_of(r)
}

/// The line ranges an entry asks for: the valid elements of its
/// `line_ranges` array, or none.
pub open spec fn line_ranges_of(item: JsonView) -> Seq<(u32, u32)> {
    match item.get_array("line_ranges"@) {
        Some(rs) => json::filter_map(rs, line_range_fn()),
        None => Seq::empty(),
    }
}

pub open spec fn ranges_view(rs: Seq<FileContentLineRange>) -> Seq<(u32, u32)> {
    rs.map_values(|r: FileContentLineRange| (r.start, r.end))
}

fn decode_line_ranges(item: &Json) -> (r: Vec<FileContentLineRange>)
    ensures
        ranges_view(r@) == line_ranges_of(item@),
{
    let mut out: Vec<FileContentLineRange> = Vec::new();
    match get_array(item, "line_ranges") {
        Some(rs) => {
            proof {
                json::lemma_view_items_len(rs@);
            }
            let ghost vs = json::view_items(rs@);
            assert(ranges_view(out@) =~= json::filter_map(vs.take(0), line_range_fn()));
            let mut i: usize = 0;
            while i < rs.len()
                invariant
                    i <= rs.len(),
                    vs == json::view_items(rs@),
                    vs.len() == rs.len(),
                    forall|k: int| 0 <= k < rs.len() ==> #[trigger] vs[k] == rs@[k]@,
                    ranges_view(out@) == json::filter_map(vs.take(i as int), line_range_fn()),
                decreases rs.len() - i,
            {
                proof {
                    json::lemma_filter_map_step(vs, line_range_fn(), i as int);
                }
                let r = &rs[i];
                match (get_u64(r, "start"), get_u64(r, "end")) {
                    (Some(a), Some(b)) => {
                        let ghost before = out@;
                        out.push(FileContentLineRange { start: a as u32, end: b as u32 });
                        assert(ranges_view(out@) =~= ranges_view(before).push(
                            (a as u32, b as u32),
                        ));
                    },
                    _ => {},
                }
                i = i + 1;
            }
            assert(vs.take(rs.len() as int) =~= vs);
        },
        None => {
            assert(ranges_view(out@) =~= Seq::<(u32, u32)>::empty());
        },
    }
    out
}

// ---------------------------------------------------------------------------
// ReadFiles
// ---------------------------------------------------------------------------

/// A `files` entry: its `name` (required) and line ranges.
pub open spec fn read_file_of(f: JsonView) -> Option<(Seq<char>, Seq<(u32, u32)>)> {
    match f.get_str("name"@) {
        Some(n) => Some((n, line_ranges_of(f))),
        None => None,
    }
}

pub open spec fn read_file_fn() -> spec_fn(JsonView) -> Option<(Seq<char>, Seq<(u32, u32)>)> {
    |f: JsonView| read_file_of(f)
}

pub open spec fn read_files_view(fs: Seq<ReadFilesFile>) -> Seq<(Seq<char>, Seq<(u32, u32)>)> {
    fs.map_values(|f: ReadFilesFile| (f.name@, ranges_view(f.line_ranges@)))
}

pub open spec fn read_files_args(rf: ReadFiles) -> JsonView {
    JsonView::Object(
        seq![
            (
                "files"@,
                JsonView::Array(
                    rf.files@.map_values(
                        |f: ReadFilesFile|
                            JsonView::Object(seq![("name"@, JsonView::Str(f.name@))]),
                    ),
                ),
            ),
        ],
    )
}

pub open spec fn text_file_blocks(files: Seq<crate::proto::results::FileContent>) -> Seq<Seq<char>> {
    files.map_values(
        |f: crate::proto::results::FileContent| tools::file_block(f.file_path@, f.content@),
    )
}

pub open spec fn any_file_block(f: crate::proto::results::AnyFileContent) -> Option<Seq<char>> {
    match f.content {
        Some(AnyFileKind::Text(t)) => Some(tools::file_block(t.file_path@, t.content@)),
        _ => None,
    }
}

/// The text blocks of the text files among `files`, in order.
pub open spec fn any_file_blocks(files: Seq<crate::proto::results::AnyFileContent>) -> Seq<
    Seq<char>,
>
    decreases files.len(),
{
    if files.len() == 0 {
        Seq::empty()
    } else {
        let rest = any_file_blocks(files.drop_last());
        match any_file_block(files.last()) {
            Some(b) => rest.push(b),
            None => rest,
        }
    }
}

pub open spec fn read_files_result_text(o: Option<ReadFilesOutcome>) -> Seq<char> {
    match o {
        Some(ReadFilesOutcome::TextFilesSuccess(files)) => text::joined(
            text_file_blocks(files@),
            "\n\n"@,
        ),
        Some(ReadFilesOutcome::AnyFilesSuccess(files)) => text::joined(
            any_file_blocks(files@),
            "\n\n"@,
        ),
        Some(ReadFilesOutcome::Error(e)) => tools::error_text(e),
        None => "(no result)"@,
    }
}

/// A read of text files is sent as each file's path, then `:` and a line
/// break, then its content: the text begins with the first file's path and
/// content, ends with the last file's, is exactly them for one file, and is
/// empty for none.
pub proof fn lemma_text_files_sent_as_path_then_content(o: Option<ReadFilesOutcome>)
    ensures
        match o {
            Some(ReadFilesOutcome::TextFilesSuccess(files)) => {
                let fs = files@;
                let t = read_files_result_text(o);
                &&& fs.len() == 0 ==> t.len() == 0
                &&& fs.len() == 1 ==> t == fs[0].file_path@ + ":\n"@ + fs[0].content@
                &&& fs.len() > 0 ==> {
                    let first = fs[0].file_path@ + ":\n"@ + fs[0].content@;
                    &&& t.len() >= first.len()
                    &&& t.subrange(0, first.len() as int) == first
                }
                &&& fs.len() > 0 ==> {
                    let last = fs.last().file_path@ + ":\n"@ + fs.last().content@;
                    &&& t.len() >= last.len()
                    &&& t.subrange(t.len() - last.len(), t.len() as int) == last
                }
            },
            _ => true,
        },
{
    if let Some(ReadFilesOutcome::TextFilesSuccess(files)) = o {
        let fs = files@;
        let blocks = text_file_blocks(fs);
        if fs.len() > 0 {
            text::lemma_joined_ends(blocks, "\n\n"@);
            assert(blocks[0] == tools::file_block(fs[0].file_path@, fs[0].content@));
            assert(blocks.last() == tools::file_block(fs.last().file_path@, fs.last().content@));
        } else {
            assert(blocks.len() == 0);
        }
    }
}

/// Each line range asked for is read from its entry's `start` and `end`
/// members (cut to 32 bits), in order, when every entry has both.
pub proof fn lemma_line_ranges_from_members(item: JsonView, rs: Seq<JsonView>)
    requires
        item.get_array("line_ranges"@) == Some(rs),
        forall|j: int| 0 <= j < rs.len() ==> (#[trigger] rs[j]).get_u64("start"@) is Some
            && rs[j].get_u64("end"@) is Some,
    ensures
        line_ranges_of(item).len() == rs.len(),
        forall|j: int| 0 <= j < rs.len() ==> {
            &&& (#[trigger] line_ranges_of(item)[j]).0 == rs[j].get_u64("start"@)->0 as u32
            &&& line_ranges_of(item)[j].1 == rs[j].get_u64("end"@)->0 as u32
        },
{
    assert forall|j: int| 0 <= j < rs.len() implies (#[trigger] line_range_fn()(rs[j])) is Some by {
        assert(rs[j].get_u64("start"@) is Some && rs[j].get_u64("end"@) is Some);
    }
    json::lemma_filter_map_all_some(rs, line_range_fn());
    assert forall|j: int| 0 <= j < rs.len() implies {
        &&& (#[trigger] line_ranges_of(item)[j]).0 == rs[j].get_u64("start"@)->0 as u32
        &&& line_ranges_of(item)[j].1 == rs[j].get_u64("end"@)->0 as u32
    } by {
        assert(Some(json::filter_map(rs, line_range_fn())[j]) == line_range_fn()(rs[j]));
    }
}

/// Decoding a read of files whose entries all name a file keeps every entry,
/// in order: each decoded file has its entry's `name`, and the line ranges
/// its entry asks for (each from its `start` and `end` members, see
/// [`lemma_line_ranges_from_members`]).
pub proof fn lemma_read_files_decodes_each_entry(args: Json, r: Result<Tool, Arc<AIApiError>>, fs: Seq<JsonView>)
    requires
        read_files_decoded(args, r),
        args@.get_array("files"@) == Some(fs),
        forall|i: int| 0 <= i < fs.len() ==> (#[trigger] fs[i]).get_str("name"@) is Some,
    ensures
        r matches Ok(Tool::ReadFiles(rf)) && rf.files@.len() == fs.len() && forall|i: int|
            0 <= i < fs.len() ==> {
                &&& Some((#[trigger] rf.files@[i]).name@) == fs[i].get_str("name"@)
                &&& ranges_view(rf.files@[i].line_ranges@) == line_ranges_of(fs[i])
            },
{
    assert forall|i: int| 0 <= i < fs.len() implies (#[trigger] read_file_fn()(fs[i])) is Some by {
        assert(fs[i].get_str("name"@) is Some);
    }
    json::lemma_filter_map_all_some(fs, read_file_fn());
    if let Ok(Tool::ReadFiles(rf)) = r {
        let v = read_files_view(rf.files@);
        assert(v.len() == rf.files@.len());
        assert forall|i: int| 0 <= i < fs.len() implies {
            &&& Some((#[trigger] rf.files@[i]).name@) == fs[i].get_str("name"@)
            &&& ranges_view(rf.files@[i].line_ranges@) == line_ranges_of(fs[i])
        } by {
            assert(Some(json::filter_map(fs, read_file_fn())[i]) == read_file_fn()(fs[i]));
            assert(v[i] == (rf.files@[i].name@, ranges_view(rf.files@[i].line_ranges@)));
        }
    }
}

fn decode_read_file(f: &Json) -> (r: Option<ReadFilesFile>)
    ensures
        match r {
            Some(x) => read_file_of(f@) == Some((x.name@, ranges_view(x.line_ranges@))),
            None => read_file_of(f@) is None,
        },
{
    match get_string(f, "name") {
        Some(name) => Some(ReadFilesFile { name, line_ranges: decode_line_ranges(f) }),
        None => None,
    }
}

/// What decoding a call\'s JSON arguments gives, or when it fails.
pub open spec fn read_files_decoded(args: Json, r: Result<Tool, Arc<AIApiError>>) -> bool {
    match r {
        Ok(Tool::ReadFiles(rf)) => args@.get_array("files"@) matches Some(fs)
            && read_files_view(rf.files@) == json::filter_map(fs, read_file_fn()),
        Ok(_) => false,
        Err(e) => args@.get_array("files"@) is None && e.is_other(
            "read_files: missing required `files` argument"@,
        ),
    }
}

/// Every argument object that conforms to the schema this tool is offered
/// with decodes: the schema requires `files`, with the types decoding takes.
pub proof fn lemma_read_files_schema_conforming_args_decode(args: Json, r: Result<Tool, Arc<AIApiError>>)
    requires
        crate::tools::conforms_to_schema(args@, read_files_schema_value()),
        read_files_decoded(args, r),
    ensures
        r is Ok,
{
    reveal_strlit("array");
    reveal_strlit("boolean");
    reveal_strlit("files");
    reveal_strlit("integer");
    reveal_strlit("number");
    reveal_strlit("object");
    reveal_strlit("properties");
    reveal_strlit("required");
    reveal_strlit("string");
    reveal_strlit("type");
    assert("type"@[0] != "properties"@[0]);
    assert("type"@[0] != "required"@[0]);
    assert("properties"@[0] != "required"@[0]);
    assert("string"@[0] != "array"@[0]);
    assert("string"@[0] != "object"@[0]);
    assert("string"@[0] != "boolean"@[0]);
    assert("string"@[0] != "integer"@[0]);
    assert("string"@[0] != "number"@[0]);
    assert("array"@[0] != "object"@[0]);
    assert("array"@[0] != "boolean"@[0]);
    assert("array"@[0] != "integer"@[0]);
    assert("array"@[0] != "number"@[0]);
    assert("object"@[0] != "boolean"@[0]);
    assert("object"@[0] != "integer"@[0]);
    assert("object"@[0] != "number"@[0]);
    assert("boolean"@[0] != "integer"@[0]);
    assert("boolean"@[0] != "number"@[0]);
    assert("integer"@[0] != "number"@[0]);
    reveal_with_fuel(crate::json::lookup, 3);
    reveal_with_fuel(crate::json::strings_of, 2);
    let sch = read_files_schema_value();
    let es = sch->Object_0;
    assert(es.drop_first()[0] == es[1]);
    assert(es.drop_first().drop_first()[0] == es[2]);
    let req = seq![JsonView::Str("files"@)];
    assert(sch.get_array("required"@) == Some(req));
    assert(req.take(0) =~= Seq::<JsonView>::empty());
    assert(req.take(1).drop_last() =~= req.take(0));
    assert(req.take(1) =~= req);
    assert(crate::tools::required_members(sch) =~= seq!["files"@]);
    let ps = es[1].1->Object_0;
    assert(crate::tools::described_members(sch) == ps);
    assert(ps[0].0 == "files"@);
    assert(ps[0].1.get_str("type"@) == Some("array"@));
    crate::tools::lemma_required_member_typed(args@, sch, 0, 0);
    assert(args@.get("files"@)->0 is Array);
    assert(args@.get_array("files"@) is Some);
}


/// The JSON arguments a call of this tool is encoded as; other calls give `{}`.
pub open spec fn read_files_call_args(tool: &Tool) -> JsonView {
    match tool {
        Tool::ReadFiles(rf) => read_files_args(*rf),
        _ => JsonView::Object(Seq::empty()),
    }
}

/// The text a result of this tool is sent as; other results are refused.
pub open spec fn read_files_result_encoded(result: &ToolResult, r: Result<String, Arc<AIApiError>>) -> bool {
    match result {
        ToolResult::ReadFiles(o) => r matches Ok(s) && s@ == read_files_result_text(*o),
        _ => r matches Err(e) && e.is_other("read_files: result variant mismatch"@),
    }
}

/// What the model is told the tool does.
pub open spec fn read_files_description() -> Seq<char> {
    "Read the contents of one or more files."@
}

/// The tool's argument schema.
pub open spec fn read_files_schema_value() -> JsonView {
    JsonView::Object(
        seq![
            ("type"@, JsonView::Str("object"@)),
            (
                "properties"@,
                JsonView::Object(
                    seq![
                        (
                            "files"@,
                            JsonView::Object(
                                seq![
                                    ("type"@, JsonView::Str("array"@)),
                                    ("description"@, JsonView::Str("List of files to read."@)),
                                    (
                                        "items"@,
                                        JsonView::Object(
                                            seq![
                                                ("type"@, JsonView::Str("object"@)),
                                                (
                                                    "properties"@,
                                                    JsonView::Object(
                                                        seq![
                                                            (
                                                                "name"@,
                                                                JsonView::Object(
                                                                    seq![
                                                                        ("type"@, JsonView::Str("string"@)),
                                                                        ("description"@, JsonView::Str("Path to the file."@)),
                                                                    ],
                                                                ),
                                                            ),
                                                            (
                                                                "line_ranges"@,
                                                                JsonView::Object(
                                                                    seq![
                                                                        ("type"@, JsonView::Str("array"@)),
                                                                        ("description"@, JsonView::Str("Optional line ranges to read. If omitted, the entire file is read."@)),
                                                                        (
                                                                            "items"@,
                                                                            JsonView::Object(
                                                                                seq![
                                                                                    ("type"@, JsonView::Str("object"@)),
                                                                                    (
                                                                                        "properties"@,
                                                                                        JsonView::Object(
                                                                                            seq![
                                                                                                (
                                                                                                    "start"@,
                                                                                                    JsonView::Object(
                                                                                                        seq![
                                                                                                            ("type"@, JsonView::Str("integer"@)),
                                                                                                        ],
                                                                                                    ),
                                                                                                ),
                                                                                                (
                                                                                                    "end"@,
                                                                                                    JsonView::Object(
                                                                                                        seq![
                                                                                                            ("type"@, JsonView::Str("integer"@)),
                                                                                                        ],
                                                                                                    ),
                                                                                                ),
                                                                                            ],
                                                                                        ),
                                                                                    ),
                                                                                    (
                                                                                        "required"@,
                                                                                        JsonView::Array(
                                                                                            seq![
                                                                                                JsonView::Str("start"@),
                                                                                                JsonView::Str("end"@),
                                                                                            ],
                                                                                        ),
                                                                                    ),
                                                                                ],
                                                                            ),
                                                                        ),
                                                                    ],
                                                                ),
                                                            ),
                                                        ],
                                                    ),
                                                ),
                                                (
                                                    "required"@,
                                                    JsonView::Array(
                                                        seq![
                                                            JsonView::Str("name"@),
                                                        ],
                                                    ),
                                                ),
                                            ],
                                        ),
                                    ),
                                ],
                            ),
                        ),
                    ],
                ),
            ),
            (
                "required"@,
                JsonView::Array(
                    seq![
                        JsonView::Str("files"@),
                    ],
                ),
            ),
        ],
    )
}

/// `s` is the tool's argument schema.
pub open spec fn read_files_schema(s: JsonView) -> bool {
    s == read_files_schema_value()
}

/// Decoding the arguments a search call is encoded to gives the same
/// queries and path back.
pub proof fn lemma_grep_round_trip(g: Grep, args: Json, r: Result<Tool, Arc<AIApiError>>)
    requires
        args@ == grep_args(g),
        grep_decoded(args, r),
    ensures
        r matches Ok(Tool::Grep(h)) && text::string_views(h.queries@) == text::string_views(
            g.queries@,
        ) && h.path@ == g.path@,
{
    reveal_with_fuel(json::lookup, 3);
    reveal_strlit("queries");
    reveal_strlit("path");
    let es = grep_args(g)->Object_0;
    assert(es.drop_first()[0] == es[1]);
    assert("queries"@[0] != "path"@[0]);
    assert(args@.get_str("path"@) == Some(g.path@));
    json::lemma_strings_of_str_views(g.queries@);
}

/// Decoding the arguments an output-read call is encoded to gives the
/// call back, for a call without a delay (the encoding leaves it out).
pub proof fn lemma_read_shell_command_output_round_trip(
    c: ReadShellCommandOutput,
    args: Json,
    r: Result<Tool, Arc<AIApiError>>,
)
    requires
        c.delay is None,
        args@ == read_shell_command_output_args(c),
        read_shell_command_output_decoded(args, r),
    ensures
        r matches Ok(Tool::ReadShellCommandOutput(d)) && d.command_id@ == c.command_id@
            && d.delay is None,
{
    reveal_with_fuel(json::lookup, 3);
    reveal_strlit("command_id");
    reveal_strlit("delay_ms");
    assert("command_id"@[0] != "delay_ms"@[0]);
}

/// Decoding the arguments a skill-read call is encoded to gives the call
/// back, for a call that names no skill file (the encoding sends only the
/// name).
pub proof fn lemma_read_skill_round_trip(c: ReadSkill, args: Json, r: Result<Tool, Arc<AIApiError>>)
    requires
        c.skill_reference is None,
        args@ == read_skill_args(c),
        read_skill_decoded(args, r),
    ensures
        r matches Ok(Tool::ReadSkill(d)) && d.name@ == c.name@ && d.skill_reference is None,
{
    reveal_with_fuel(json::lookup, 3);
    reveal_strlit("name");
    reveal_strlit("skill_path");
    reveal_strlit("bundled_skill_id");
    assert("name"@[0] != "skill_path"@[0]);
    assert("name"@[0] != "bundled_skill_id"@[0]);
}

/// Decoding the arguments a resource-read call is encoded to gives the
/// call back, for a call with no server id (the encoding sends only the
/// URI).
pub proof fn lemma_read_mcp_resource_round_trip(
    c: ReadMcpResource,
    args: Json,
    r: Result<Tool, Arc<AIApiError>>,
)
    requires
        c.server_id@.len() == 0,
        args@ == read_mcp_resource_args(c),
        read_mcp_resource_decoded(args, r),
    ensures
        r matches Ok(Tool::ReadMcpResource(d)) && d.uri@ == c.uri@ && d.server_id@ == c.server_id@,
{
    reveal_with_fuel(json::lookup, 3);
    reveal_strlit("uri");
    reveal_strlit("server_id");
    assert("uri"@[0] != "server_id"@[0]);
}

/// Decoding the arguments a file read is encoded to gives the same files
/// back, for a read of whole files (the encoding sends only the names).
pub proof fn lemma_read_files_round_trip(c: ReadFiles, args: Json, r: Result<Tool, Arc<AIApiError>>)
    requires
        forall|i: int| 0 <= i < c.files@.len() ==> (#[trigger] c.files@[i]).line_ranges@.len() == 0,
        args@ == read_files_args(c),
        read_files_decoded(args, r),
    ensures
        r matches Ok(Tool::ReadFiles(d)) && read_files_view(d.files@) == read_files_view(c.files@),
{
    reveal_strlit("name");
    reveal_strlit("line_ranges");
    assert("name"@[0] != "line_ranges"@[0]);
    reveal_with_fuel(json::lookup, 2);
    let g = |f: ReadFilesFile| JsonView::Object(seq![("name"@, JsonView::Str(f.name@))]);
    let h = |f: ReadFilesFile| (f.name@, ranges_view(f.line_ranges@));
    assert forall|i: int| 0 <= i < c.files@.len() implies read_file_fn()(g(#[trigger] c.files@[i]))
        == Some(h(c.files@[i])) by {
        let f = c.files@[i];
        assert(ranges_view(f.line_ranges@) =~= Seq::<(u32, u32)>::empty());
    }
    json::lemma_filter_map_of_images(c.files@, g, read_file_fn(), h);
    assert(read_files_view(c.files@) =~= c.files@.map_values(h));
    assert(read_files_args(c) == JsonView::Object(seq![("files"@, JsonView::Array(c.files@.map_values(g)))]));
}

/// Decoding the arguments a document read is encoded to gives the same
/// documents back, for a read of whole documents (the encoding sends only
/// the ids).
pub proof fn lemma_read_documents_round_trip(c: ReadDocuments, args: Json, r: Result<Tool, Arc<AIApiError>>)
    requires
        forall|i: int| 0 <= i < c.documents@.len() ==> (#[trigger] c.documents@[i]).line_ranges@.len() == 0,
        args@ == read_documents_args(c),
        read_documents_decoded(args, r),
    ensures
        r matches Ok(Tool::ReadDocuments(d)) && read_documents_view(d.documents@) == read_documents_view(
            c.documents@,
        ),
{
    reveal_strlit("document_id");
    reveal_strlit("line_ranges");
    assert("document_id"@[0] != "line_ranges"@[0]);
    reveal_with_fuel(json::lookup, 2);
    let g = |d: ReadDocumentsDocument| JsonView::Object(seq![("document_id"@, JsonView::Str(d.document_id@))]);
    let h = |d: ReadDocumentsDocument| (d.document_id@, ranges_view(d.line_ranges@));
    assert forall|i: int| 0 <= i < c.documents@.len() implies read_document_fn()(
        g(#[trigger] c.documents@[i]),
    ) == Some(h(c.documents@[i])) by {
        let d = c.documents@[i];
        assert(ranges_view(d.line_ranges@) =~= Seq::<(u32, u32)>::empty());
    }
    json::lemma_filter_map_of_images(c.documents@, g, read_document_fn(), h);
    assert(read_documents_view(c.documents@) =~= c.documents@.map_values(h));
    assert(read_documents_args(c) == JsonView::Object(
        seq![("documents"@, JsonView::Array(c.documents@.map_values(g)))],
    ));
}

/// Decoding the arguments a file glob is encoded to gives the glob back,
/// for a glob without limits (the encoding sends only the patterns and
/// the directory, and a missing limit is 0).
pub proof fn lemma_file_glob_v2_round_trip(fg: FileGlobV2, args: Json, r: Result<Tool, Arc<AIApiError>>)
    requires
        fg.max_matches == 0,
        fg.max_depth == 0,
        fg.min_depth == 0,
        args@ == file_glob_args(fg),
        file_glob_v2_decoded(args, r),
    ensures
        r matches Ok(Tool::FileGlobV2(h)) && text::string_views(h.patterns@) == text::string_views(
            fg.patterns@,
        ) && h.search_dir@ == fg.search_dir@ && h.max_matches == 0 && h.max_depth == 0
            && h.min_depth == 0,
{
    reveal_strlit("patterns");
    reveal_strlit("search_dir");
    reveal_strlit("max_matches");
    reveal_strlit("max_depth");
    reveal_strlit("min_depth");
    reveal_with_fuel(json::lookup, 3);
    let es = file_glob_args(fg)->Object_0;
    assert(es.drop_first()[0] == es[1]);
    assert("patterns"@[0] != "search_dir"@[0]);
    assert("patterns"@[0] != "max_matches"@[0]);
    assert("patterns"@[0] != "max_depth"@[0]);
    assert("patterns"@[0] != "min_depth"@[0]);
    assert("search_dir"@[0] != "max_matches"@[0]);
    assert("search_dir"@[0] != "max_depth"@[0]);
    assert("search_dir"@[0] != "min_depth"@[0]);
    assert(args@.get_str("search_dir"@) == Some(fg.search_dir@));
    assert(args@.get_i64("max_matches"@) is None);
    assert(args@.get_i64("max_depth"@) is None);
    assert(args@.get_i64("min_depth"@) is None);
    json::lemma_strings_of_str_views(fg.patterns@);
}

impl ReadFilesTool {
    pub fn name(&self) -> (r: &'static str)
        ensures
            r@ == "read_files"@,
    {
        "read_files"
    }

    pub fn description(&self) -> (r: &'static str)
        ensures
            r@ == read_files_description(),
    {
        "Read the contents of one or more files."
    }

    /// JSON Schema of the arguments.
    pub fn parameters_schema(&self) -> (r: Json)
        ensures
            read_files_schema(r@),
    {
        let mut o1: Vec<(String, Json)> = Vec::new();
        push_entry(&mut o1, "type", json_str("string"));
        push_entry(&mut o1, "description", json_str("Path to the file."));
        assert(json::view_entries(o1@) =~= seq![("type"@, JsonView::Str("string"@)), ("description"@, JsonView::Str("Path to the file."@))]);
        let j2 = Json::Object(o1);
        let ghost j2_v = j2@;
        let mut o3: Vec<(String, Json)> = Vec::new();
        push_entry(&mut o3, "type", json_str("integer"));
        assert(json::view_entries(o3@) =~= seq![("type"@, JsonView::Str("integer"@))]);
        let j4 = Json::Object(o3);
        let ghost j4_v = j4@;
        let mut o5: Vec<(String, Json)> = Vec::new();
        push_entry(&mut o5, "type", json_str("integer"));
        assert(json::view_entries(o5@) =~= seq![("type"@, JsonView::Str("integer"@))]);
        let j6 = Json::Object(o5);
        let ghost j6_v = j6@;
        let mut o7: Vec<(String, Json)> = Vec::new();
        push_entry(&mut o7, "start", j4);
        push_entry(&mut o7, "end", j6);
        assert(json::view_entries(o7@) =~= seq![("start"@, j4_v), ("end"@, j6_v)]);
        let j8 = Json::Object(o7);
        let ghost j8_v = j8@;
        let mut a9: Vec<Json> = Vec::new();
        push_item(&mut a9, json_str("start"));
        push_item(&mut a9, json_str("end"));
        assert(json::view_items(a9@) =~= seq![JsonView::Str("start"@), JsonView::Str("end"@)]);
        let j10 = Json::Array(a9);
        let ghost j10_v = j10@;
        let mut o11: Vec<(String, Json)> = Vec::new();
        push_entry(&mut o11, "type", json_str("object"));
        push_entry(&mut o11, "properties", j8);
        push_entry(&mut o11, "required", j10);
        assert(json::view_entries(o11@) =~= seq![("type"@, JsonView::Str("object"@)), ("properties"@, j8_v), ("required"@, j10_v)]);
        let j12 = Json::Object(o11);
        let ghost j12_v = j12@;
        let mut o13: Vec<(String, Json)> = Vec::new();
        push_entry(&mut o13, "type", json_str("array"));
        push_entry(&mut o13, "description", json_str("Optional line ranges to read. If omitted, the entire file is read."));
        push_entry(&mut o13, "items", j12);
        assert(json::view_entries(o13@) =~= seq![("type"@, JsonView::Str("array"@)), ("description"@, JsonView::Str("Optional line ranges to read. If omitted, the entire file is read."@)), ("items"@, j12_v)]);
        let j14 = Json::Object(o13);
        let ghost j14_v = j14@;
        let mut o15: Vec<(String, Json)> = Vec::new();
        push_entry(&mut o15, "name", j2);
        push_entry(&mut o15, "line_ranges", j14);
        assert(json::view_entries(o15@) =~= seq![("name"@, j2_v), ("line_ranges"@, j14_v)]);
        let j16 = Json::Object(o15);
        let ghost j16_v = j16@;
        let mut a17: Vec<Json> = Vec::new();
        push_item(&mut a17, json_str("name"));
        assert(json::view_items(a17@) =~= seq![JsonView::Str("name"@)]);
        let j18 = Json::Array(a17);
        let ghost j18_v = j18@;
        let mut o19: Vec<(String, Json)> = Vec::new();
        push_entry(&mut o19, "type", json_str("object"));
        push_entry(&mut o19, "properties", j16);
        push_entry(&mut o19, "required", j18);
        assert(json::view_entries(o19@) =~= seq![("type"@, JsonView::Str("object"@)), ("properties"@, j16_v), ("required"@, j18_v)]);
        let j20 = Json::Object(o19);
        let ghost j20_v = j20@;
        let mut o21: Vec<(String, Json)> = Vec::new();
        push_entry(&mut o21, "type", json_str("array"));
        push_entry(&mut o21, "description", json_str("List of files to read."));
        push_entry(&mut o21, "items", j20);
        assert(json::view_entries(o21@) =~= seq![("type"@, JsonView::Str("array"@)), ("description"@, JsonView::Str("List of files to read."@)), ("items"@, j20_v)]);
        let j22 = Json::Object(o21);
        let ghost j22_v = j22@;
        let mut o23: Vec<(String, Json)> = Vec::new();
        push_entry(&mut o23, "files", j22);
        assert(json::view_entries(o23@) =~= seq![("files"@, j22_v)]);
        let j24 = Json::Object(o23);
        let ghost j24_v = j24@;
        let mut a25: Vec<Json> = Vec::new();
        push_item(&mut a25, json_str("files"));
        assert(json::view_items(a25@) =~= seq![JsonView::Str("files"@)]);
        let j26 = Json::Array(a25);
        let ghost j26_v = j26@;
        let mut o27: Vec<(String, Json)> = Vec::new();
        push_entry(&mut o27, "type", json_str("object"));
        push_entry(&mut o27, "properties", j24);
        push_entry(&mut o27, "required", j26);
        assert(json::view_entries(o27@) =~= seq![("type"@, JsonView::Str("object"@)), ("properties"@, j24_v), ("required"@, j26_v)]);
        let j28 = Json::Object(o27);
        let ghost j28_v = j28@;
        assert(j28_v == read_files_schema_value());
        j28
    }

    /// Decodes the JSON arguments: `files` must be an array; entries
    /// without a string `name` are skipped.
    pub fn decode_call_args(&self, args: Json) -> (r: Result<Tool, Arc<AIApiError>>)
        ensures
            read_files_decoded(args, r),
    {
        let files_val = match get_array(&args, "files") {
            Some(a) => a,
            None => {
                return Err(arg_error("read_files: missing required `files` argument"));
            },
        };
        proof {
            json::lemma_view_items_len(files_val@);
        }
        let ghost vs = json::view_items(files_val@);
        let mut files: Vec<ReadFilesFile> = Vec::new();
        assert(read_files_view(files@) =~= json::filter_map(vs.take(0), read_file_fn()));
        let mut i: usize = 0;
        while i < files_val.len()
            invariant
                i <= files_val.len(),
                vs == json::view_items(files_val@),
                vs.len() == files_val.len(),
                forall|k: int| 0 <= k < files_val.len() ==> #[trigger] vs[k] == files_val@[k]@,
                read_files_view(files@) == json::filter_map(vs.take(i as int), read_file_fn()),
            decreases files_val.len() - i,
        {
            proof {
                json::lemma_filter_map_step(vs, read_file_fn(), i as int);
            }
            match decode_read_file(&files_val[i]) {
                Some(f) => {
                    let ghost before = files@;
                    let ghost fv = (f.name@, ranges_view(f.line_ranges@));
                    files.push(f);
                    assert(read_files_view(files@) =~= read_files_view(before).push(fv));
                },
                None => {},
            }
            i = i + 1;
        }
        assert(vs.take(files_val.len() as int) =~= vs);
        Ok(Tool::ReadFiles(ReadFiles { files }))
    }

    /// Encodes a call back into its arguments (the file names only).
    pub fn encode_call_args(&self, tool: &Tool) -> (r: Json)
        ensures
            r@ == read_files_call_args(tool),
    {
        let mut es: Vec<(String, Json)> = Vec::new();
        match tool {
            Tool::ReadFiles(rf) => {
                let mut items: Vec<Json> = Vec::new();
                let ghost target = rf.files@.map_values(
                    |f: ReadFilesFile| JsonView::Object(seq![("name"@, JsonView::Str(f.name@))]),
                );
                let mut i: usize = 0;
                while i < rf.files.len()
                    invariant
                        i <= rf.files.len(),
                        target == rf.files@.map_values(
                            |f: ReadFilesFile|
                                JsonView::Object(seq![("name"@, JsonView::Str(f.name@))]),
                        ),
                        json::view_items(items@) == target.take(i as int),
                    decreases rf.files.len() - i,
                {
                    let mut e: Vec<(String, Json)> = Vec::new();
                    push_entry(&mut e, "name", Json::Str(rf.files[i].name.clone()));
                    assert(json::view_entries(e@) =~= seq![
                        ("name"@, JsonView::Str(rf.files@[i as int].name@)),
                    ]);
                    push_item(&mut items, Json::Object(e));
                    assert(target.take(i + 1) =~= target.take(i as int).push(target[i as int]));
                    i = i + 1;
                }
                assert(target.take(rf.files.len() as int) =~= target);
                push_entry(&mut es, "files", Json::Array(items));
                assert(json::view_entries(es@) =~= read_files_args(*rf)->Object_0);
            },
            _ => {
                assert(json::view_entries(es@) =~= Seq::<(Seq<char>, JsonView)>::empty());
            },
        }
        Json::Object(es)
    }

    /// The text sent back to the model for a result of this tool.
    pub fn encode_result_text(&self, result: &ToolResult) -> (r: Result<String, Arc<AIApiError>>)
        ensures
            read_files_result_encoded(result, r),
    {
        match result {
            ToolResult::ReadFiles(o) => match o {
                Some(ReadFilesOutcome::TextFilesSuccess(files)) => {
                    let mut parts: Vec<String> = Vec::new();
                    let mut i: usize = 0;
                    while i < files.len()
                        invariant
                            i <= files.len(),
                            text::string_views(parts@) == text_file_blocks(files@.take(i as int)),
                        decreases files.len() - i,
                    {
                        let ghost before = parts@;
                        parts.push(
                            file_block_string(
                                files[i].file_path.as_str(),
                                files[i].content.as_str(),
                            ),
                        );
                        assert(text::string_views(parts@) =~= text::string_views(before).push(
                            tools::file_block(files@[i as int].file_path@, files@[i as int].content@),
                        ));
                        assert(text_file_blocks(files@.take(i + 1)) =~= text_file_blocks(
                            files@.take(i as int),
                        ).push(tools::file_block(files@[i as int].file_path@, files@[i as int].content@)));
                        i = i + 1;
                    }
                    assert(files@.take(files.len() as int) =~= files@);
                    Ok(join(&parts, "\n\n"))
                },
                Some(ReadFilesOutcome::AnyFilesSuccess(files)) => {
                    let mut parts: Vec<String> = Vec::new();
                    let mut i: usize = 0;
                    while i < files.len()
                        invariant
                            i <= files.len(),
                            text::string_views(parts@) == any_file_blocks(files@.take(i as int)),
                        decreases files.len() - i,
                    {
                        assert(files@.take(i + 1).drop_last() =~= files@.take(i as int));
                        match &files[i].content {
                            Some(AnyFileKind::Text(t)) => {
                                let ghost before = parts@;
                                parts.push(
                                    file_block_string(t.file_path.as_str(), t.content.as_str()),
                                );
                                assert(text::string_views(parts@) =~= text::string_views(
                                    before,
                                ).push(tools::file_block(t.file_path@, t.content@)));
                            },
                            _ => {},
                        }
                        i = i + 1;
                    }
                    assert(files@.take(files.len() as int) =~= files@);
                    Ok(join(&parts, "\n\n"))
                },
                Some(ReadFilesOutcome::Error(e)) => Ok(error_string(e)),
                None => Ok(no_result()),
            },
            _ => Err(arg_error("read_files: result variant mismatch")),
        }
    }

    pub fn matches_proto_call(&self, tool: &Tool) -> (r: bool)
        ensures
            r == (tool is ReadFiles),
    {
        match tool {
            Tool::ReadFiles(_) => true,
            _ => false,
        }
    }

    pub fn matches_proto_result(&self, result: &ToolResult) -> (r: bool)
        ensures
            r == (result is ReadFiles),
    {
        match result {
            ToolResult::ReadFiles(_) => true,
            _ => false,
        }
    }
}

// ---------------------------------------------------------------------------
// ReadDocuments
// ---------------------------------------------------------------------------

/// A `documents` entry: its `document_id` (required) and line ranges.
pub open spec fn read_document_of(d: JsonView) -> Option<(Seq<char>, Seq<(u32, u32)>)> {
    match d.get_str("document_id"@) {
        Some(n) => Some((n, line_ranges_of(d))),
        None => None,
    }
}

pub open spec fn read_document_fn() -> spec_fn(JsonView) -> Option<(Seq<char>, Seq<(u32, u32)>)> {
    |d: JsonView| read_document_of(d)
}

pub open spec fn read_documents_view(ds: Seq<ReadDocumentsDocument>) -> Seq<(Seq<char>, Seq<(u32, u32)>)> {
    ds.map_values(|d: ReadDocumentsDocument| (d.document_id@, ranges_view(d.line_ranges@)))
}

pub open spec fn read_documents_args(rd: ReadDocuments) -> JsonView {
    JsonView::Object(
        seq![
            (
                "documents"@,
                JsonView::Array(
                    rd.documents@.map_values(
                        |d: ReadDocumentsDocument|
                            JsonView::Object(seq![("document_id"@, JsonView::Str(d.document_id@))]),
                    ),
                ),
            ),
        ],
    )
}

pub open spec fn document_blocks(docs: Seq<crate::proto::results::DocumentContent>) -> Seq<Seq<char>> {
    docs.map_values(
        |d: crate::proto::results::DocumentContent| tools::file_block(d.document_id@, d.content@),
    )
}

pub open spec fn read_documents_result_text(o: Option<ReadDocumentsOutcome>) -> Seq<char> {
    match o {
        Some(ReadDocumentsOutcome::Success(docs)) => text::joined(document_blocks(docs@), "\n\n"@),
        Some(ReadDocumentsOutcome::Error(e)) => tools::error_text(e),
        None => "(no result)"@,
    }
}

fn decode_read_document(d: &Json) -> (r: Option<ReadDocumentsDocument>)
    ensures
        match r {
            Some(x) => read_document_of(d@) == Some((x.document_id@, ranges_view(x.line_ranges@))),
            None => read_document_of(d@) is None,
        },
{
    match get_string(d, "document_id") {
        Some(document_id) => Some(
            ReadDocumentsDocument { document_id, line_ranges: decode_line_ranges(d) },
        ),
        None => None,
    }
}

/// What decoding a call\'s JSON arguments gives, or when it fails.
pub open spec fn read_documents_decoded(args: Json, r: Result<Tool, Arc<AIApiError>>) -> bool {
    match r {
        Ok(Tool::ReadDocuments(rd)) => args@.get_array("documents"@) matches Some(ds)
            && read_documents_view(rd.documents@) == json::filter_map(ds, read_document_fn()),
        Ok(_) => false,
        Err(e) => args@.get_array("documents"@) is None && e.is_other(
            "read_documents: missing required `documents` argument"@,
        ),
    }
}

/// Every argument object that conforms to the schema this tool is offered
/// with decodes: the schema requires `documents`, with the types decoding takes.
pub proof fn lemma_read_documents_schema_conforming_args_decode(args: Json, r: Result<Tool, Arc<AIApiError>>)
    requires
        crate::tools::conforms_to_schema(args@, read_documents_schema_value()),
        read_documents_decoded(args, r),
    ensures
        r is Ok,
{
    reveal_strlit("array");
    reveal_strlit("boolean");
    reveal_strlit("documents");
    reveal_strlit("integer");
    reveal_strlit("number");
    reveal_strlit("object");
    reveal_strlit("properties");
    reveal_strlit("required");
    reveal_strlit("string");
    reveal_strlit("type");
    assert("type"@[0] != "properties"@[0]);
    assert("type"@[0] != "required"@[0]);
    assert("properties"@[0] != "required"@[0]);
    assert("string"@[0] != "array"@[0]);
    assert("string"@[0] != "object"@[0]);
    assert("string"@[0] != "boolean"@[0]);
    assert("string"@[0] != "integer"@[0]);
    assert("string"@[0] != "number"@[0]);
    assert("array"@[0] != "object"@[0]);
    assert("array"@[0] != "boolean"@[0]);
    assert("array"@[0] != "integer"@[0]);
    assert("array"@[0] != "number"@[0]);
    assert("object"@[0] != "boolean"@[0]);
    assert("object"@[0] != "integer"@[0]);
    assert("object"@[0] != "number"@[0]);
    assert("boolean"@[0] != "integer"@[0]);
    assert("boolean"@[0] != "number"@[0]);
    assert("integer"@[0] != "number"@[0]);
    reveal_with_fuel(crate::json::lookup, 3);
    reveal_with_fuel(crate::json::strings_of, 2);
    let sch = read_documents_schema_value();
    let es = sch->Object_0;
    assert(es.drop_first()[0] == es[1]);
    assert(es.drop_first().drop_first()[0] == es[2]);
    let req = seq![JsonView::Str("documents"@)];
    assert(sch.get_array("required"@) == Some(req));
    assert(req.take(0) =~= Seq::<JsonView>::empty());
    assert(req.take(1).drop_last() =~= req.take(0));
    assert(req.take(1) =~= req);
    assert(crate::tools::required_members(sch) =~= seq!["documents"@]);
    let ps = es[1].1->Object_0;
    assert(crate::tools::described_members(sch) == ps);
    assert(ps[0].0 == "documents"@);
    assert(ps[0].1.get_str("type"@) == Some("array"@));
    crate::tools::lemma_required_member_typed(args@, sch, 0, 0);
    assert(args@.get("documents"@)->0 is Array);
    assert(args@.get_array("documents"@) is Some);
}


/// The JSON arguments a call of this tool is encoded as; other calls give `{}`.
pub open spec fn read_documents_call_args(tool: &Tool) -> JsonView {
    match tool {
        Tool::ReadDocuments(rd) => read_documents_args(*rd),
        _ => JsonView::Object(Seq::empty()),
    }
}

/// The text a result of this tool is sent as; other results are refused.
pub open spec fn read_documents_result_encoded(result: &ToolResult, r: Result<String, Arc<AIApiError>>) -> bool {
    match result {
        ToolResult::ReadDocuments(o) => r matches Ok(s) && s@ == read_documents_result_text(*o),
        _ => r matches Err(e) && e.is_other("read_documents: result variant mismatch"@),
    }
}

/// What the model is told the tool does.
pub open spec fn read_documents_description() -> Seq<char> {
    "Read Warp Drive documents by ID."@
}

/// The tool's argument schema.
pub open spec fn read_documents_schema_value() -> JsonView {
    JsonView::Object(
        seq![
            ("type"@, JsonView::Str("object"@)),
            (
                "properties"@,
                JsonView::Object(
                    seq![
                        (
                            "documents"@,
                            JsonView::Object(
                                seq![
                                    ("type"@, JsonView::Str("array"@)),
                                    ("description"@, JsonView::Str("List of documents to read."@)),
                                    (
                                        "items"@,
                                        JsonView::Object(
                                            seq![
                                                ("type"@, JsonView::Str("object"@)),
                                                (
                                                    "properties"@,
                                                    JsonView::Object(
                                                        seq![
                                                            (
                                                                "document_id"@,
                                                                JsonView::Object(
                                                                    seq![
                                                                        ("type"@, JsonView::Str("string"@)),
                                                                        ("description"@, JsonView::Str("The unique identifier of the document."@)),
                                                                    ],
                                                                ),
                                                            ),
                                                            (
                                                                "line_ranges"@,
                                                                JsonView::Object(
                                                                    seq![
                                                                        ("type"@, JsonView::Str("array"@)),
                                                                        ("description"@, JsonView::Str("Optional line ranges to read. If omitted, the entire document is read."@)),
                                                                        (
                                                                            "items"@,
                                                                            JsonView::Object(
                                                                                seq![
                                                                                    ("type"@, JsonView::Str("object"@)),
                                                                                    (
                                                                                        "properties"@,
                                                                                        JsonView::Object(
                                                                                            seq![
                                                                                                (
                                                                                                    "start"@,
                                                                                                    JsonView::Object(
                                                                                                        seq![
                                                                                                            ("type"@, JsonView::Str("integer"@)),
                                                                                                        ],
                                                                                                    ),
                                                                                                ),
                                                                                                (
                                                                                                    "end"@,
                                                                                                    JsonView::Object(
                                                                                                        seq![
                                                                                                            ("type"@, JsonView::Str("integer"@)),
                                                                                                        ],
                                                                                                    ),
                                                                                                ),
                                                                                            ],
                                                                                        ),
                                                                                    ),
                                                                                    (
                                                                                        "required"@,
                                                                                        JsonView::Array(
                                                                                            seq![
                                                                                                JsonView::Str("start"@),
                                                                                                JsonView::Str("end"@),
                                                                                            ],
                                                                                        ),
                                                                                    ),
                                                                                ],
                                                                            ),
                                                                        ),
                                                                    ],
                                                                ),
                                                            ),
                                                        ],
                                                    ),
                                                ),
                                                (
                                                    "required"@,
                                                    JsonView::Array(
                                                        seq![
                                                            JsonView::Str("document_id"@),
                                                        ],
                                                    ),
                                                ),
                                            ],
                                        ),
                                    ),
                                ],
                            ),
                        ),
                    ],
                ),
            ),
            (
                "required"@,
                JsonView::Array(
                    seq![
                        JsonView::Str("documents"@),
                    ],
                ),
            ),
        ],
    )
}

/// `s` is the tool's argument schema.
pub open spec fn read_documents_schema(s: JsonView) -> bool {
    s == read_documents_schema_value()
}

impl ReadDocumentsTool {
    pub fn name(&self) -> (r: &'static str)
        ensures
            r@ == "read_documents"@,
    {
        "read_documents"
    }

    pub fn description(&self) -> (r: &'static str)
        ensures
            r@ == read_documents_description(),
    {
        "Read Warp Drive documents by ID."
    }

    /// JSON Schema of the arguments.
    pub fn parameters_schema(&self) -> (r: Json)
        ensures
            read_documents_schema(r@),
    {
        let mut o1: Vec<(String, Json)> = Vec::new();
        push_entry(&mut o1, "type", json_str("string"));
        push_entry(&mut o1, "description", json_str("The unique identifier of the document."));
        assert(json::view_entries(o1@) =~= seq![("type"@, JsonView::Str("string"@)), ("description"@, JsonView::Str("The unique identifier of the document."@))]);
        let j2 = Json::Object(o1);
        let ghost j2_v = j2@;
        let mut o3: Vec<(String, Json)> = Vec::new();
        push_entry(&mut o3, "type", json_str("integer"));
        assert(json::view_entries(o3@) =~= seq![("type"@, JsonView::Str("integer"@))]);
        let j4 = Json::Object(o3);
        let ghost j4_v = j4@;
        let mut o5: Vec<(String, Json)> = Vec::new();
        push_entry(&mut o5, "type", json_str("integer"));
        assert(json::view_entries(o5@) =~= seq![("type"@, JsonView::Str("integer"@))]);
        let j6 = Json::Object(o5);
        let ghost j6_v = j6@;
        let mut o7: Vec<(String, Json)> = Vec::new();
        push_entry(&mut o7, "start", j4);
        push_entry(&mut o7, "end", j6);
        assert(json::view_entries(o7@) =~= seq![("start"@, j4_v), ("end"@, j6_v)]);
        let j8 = Json::Object(o7);
        let ghost j8_v = j8@;
        let mut a9: Vec<Json> = Vec::new();
        push_item(&mut a9, json_str("start"));
        push_item(&mut a9, json_str("end"));
        assert(json::view_items(a9@) =~= seq![JsonView::Str("start"@), JsonView::Str("end"@)]);
        let j10 = Json::Array(a9);
        let ghost j10_v = j10@;
        let mut o11: Vec<(String, Json)> = Vec::new();
        push_entry(&mut o11, "type", json_str("object"));
        push_entry(&mut o11, "properties", j8);
        push_entry(&mut o11, "required", j10);
        assert(json::view_entries(o11@) =~= seq![("type"@, JsonView::Str("object"@)), ("properties"@, j8_v), ("required"@, j10_v)]);
        let j12 = Json::Object(o11);
        let ghost j12_v = j12@;
        let mut o13: Vec<(String, Json)> = Vec::new();
        push_entry(&mut o13, "type", json_str("array"));
        push_entry(&mut o13, "description", json_str("Optional line ranges to read. If omitted, the entire document is read."));
        push_entry(&mut o13, "items", j12);
        assert(json::view_entries(o13@) =~= seq![("type"@, JsonView::Str("array"@)), ("description"@, JsonView::Str("Optional line ranges to read. If omitted, the entire document is read."@)), ("items"@, j12_v)]);
        let j14 = Json::Object(o13);
        let ghost j14_v = j14@;
        let mut o15: Vec<(String, Json)> = Vec::new();
        push_entry(&mut o15, "document_id", j2);
        push_entry(&mut o15, "line_ranges", j14);
        assert(json::view_entries(o15@) =~= seq![("document_id"@, j2_v), ("line_ranges"@, j14_v)]);
        let j16 = Json::Object(o15);
        let ghost j16_v = j16@;
        let mut a17: Vec<Json> = Vec::new();
        push_item(&mut a17, json_str("document_id"));
        assert(json::view_items(a17@) =~= seq![JsonView::Str("document_id"@)]);
        let j18 = Json::Array(a17);
        let ghost j18_v = j18@;
        let mut o19: Vec<(String, Json)> = Vec::new();
        push_entry(&mut o19, "type", json_str("object"));
        push_entry(&mut o19, "properties", j16);
        push_entry(&mut o19, "required", j18);
        assert(json::view_entries(o19@) =~= seq![("type"@, JsonView::Str("object"@)), ("properties"@, j16_v), ("required"@, j18_v)]);
        let j20 = Json::Object(o19);
        let ghost j20_v = j20@;
        let mut o21: Vec<(String, Json)> = Vec::new();
        push_entry(&mut o21, "type", json_str("array"));
        push_entry(&mut o21, "description", json_str("List of documents to read."));
        push_entry(&mut o21, "items", j20);
        assert(json::view_entries(o21@) =~= seq![("type"@, JsonView::Str("array"@)), ("description"@, JsonView::Str("List of documents to read."@)), ("items"@, j20_v)]);
        let j22 = Json::Object(o21);
        let ghost j22_v = j22@;
        let mut o23: Vec<(String, Json)> = Vec::new();
        push_entry(&mut o23, "documents", j22);
        assert(json::view_entries(o23@) =~= seq![("documents"@, j22_v)]);
        let j24 = Json::Object(o23);
        let ghost j24_v = j24@;
        let mut a25: Vec<Json> = Vec::new();
        push_item(&mut a25, json_str("documents"));
        assert(json::view_items(a25@) =~= seq![JsonView::Str("documents"@)]);
        let j26 = Json::Array(a25);
        let ghost j26_v = j26@;
        let mut o27: Vec<(String, Json)> = Vec::new();
        push_entry(&mut o27, "type", json_str("object"));
        push_entry(&mut o27, "properties", j24);
        push_entry(&mut o27, "required", j26);
        assert(json::view_entries(o27@) =~= seq![("type"@, JsonView::Str("object"@)), ("properties"@, j24_v), ("required"@, j26_v)]);
        let j28 = Json::Object(o27);
        let ghost j28_v = j28@;
        assert(j28_v == read_documents_schema_value());
        j28
    }

    /// Decodes the JSON arguments: `documents` must be an array; entries
    /// without a string `document_id` are skipped.
    pub fn decode_call_args(&self, args: Json) -> (r: Result<Tool, Arc<AIApiError>>)
        ensures
            read_documents_decoded(args, r),
    {
        let docs_val = match get_array(&args, "documents") {
            Some(a) => a,
            None => {
                return Err(arg_error("read_documents: missing required `documents` argument"));
            },
        };
        proof {
            json::lemma_view_items_len(docs_val@);
        }
        let ghost vs = json::view_items(docs_val@);
        let mut documents: Vec<ReadDocumentsDocument> = Vec::new();
        assert(read_documents_view(documents@) =~= json::filter_map(vs.take(0), read_document_fn()));
        let mut i: usize = 0;
        while i < docs_val.len()
            invariant
                i <= docs_val.len(),
                vs == json::view_items(docs_val@),
                vs.len() == docs_val.len(),
                forall|k: int| 0 <= k < docs_val.len() ==> #[trigger] vs[k] == docs_val@[k]@,
                read_documents_view(documents@) == json::filter_map(vs.take(i as int), read_document_fn()),
            decreases docs_val.len() - i,
        {
            proof {
                json::lemma_filter_map_step(vs, read_document_fn(), i as int);
            }
            match decode_read_document(&docs_val[i]) {
                Some(d) => {
                    let ghost before = documents@;
                    let ghost dv = (d.document_id@, ranges_view(d.line_ranges@));
                    documents.push(d);
                    assert(read_documents_view(documents@) =~= read_documents_view(before).push(dv));
                },
                None => {},
            }
            i = i + 1;
        }
        assert(vs.take(docs_val.len() as int) =~= vs);
        Ok(Tool::ReadDocuments(ReadDocuments { documents }))
    }

    /// Encodes a call back into its arguments (the document ids only).
    pub fn encode_call_args(&self, tool: &Tool) -> (r: Json)
        ensures
            r@ == read_documents_call_args(tool),
    {
        let mut es: Vec<(String, Json)> = Vec::new();
        match tool {
            Tool::ReadDocuments(rd) => {
                let mut items: Vec<Json> = Vec::new();
                let ghost target = rd.documents@.map_values(
                    |d: ReadDocumentsDocument|
                        JsonView::Object(seq![("document_id"@, JsonView::Str(d.document_id@))]),
                );
                let mut i: usize = 0;
                while i < rd.documents.len()
                    invariant
                        i <= rd.documents.len(),
                        target == rd.documents@.map_values(
                            |d: ReadDocumentsDocument|
                                JsonView::Object(seq![("document_id"@, JsonView::Str(d.document_id@))]),
                        ),
                        json::view_items(items@) == target.take(i as int),
                    decreases rd.documents.len() - i,
                {
                    let mut e: Vec<(String, Json)> = Vec::new();
                    push_entry(&mut e, "document_id", Json::Str(rd.documents[i].document_id.clone()));
                    assert(json::view_entries(e@) =~= seq![
                        ("document_id"@, JsonView::Str(rd.documents@[i as int].document_id@)),
                    ]);
                    push_item(&mut items, Json::Object(e));
                    assert(target.take(i + 1) =~= target.take(i as int).push(target[i as int]));
                    i = i + 1;
                }
                assert(target.take(rd.documents.len() as int) =~= target);
                push_entry(&mut es, "documents", Json::Array(items));
                assert(json::view_entries(es@) =~= read_documents_args(*rd)->Object_0);
            },
            _ => {
                assert(json::view_entries(es@) =~= Seq::<(Seq<char>, JsonView)>::empty());
            },
        }
        Json::Object(es)
    }

    /// The text sent back to the model for a result of this tool.
    pub fn encode_result_text(&self, result: &ToolResult) -> (r: Result<String, Arc<AIApiError>>)
        ensures
            read_documents_result_encoded(result, r),
    {
        match result {
            ToolResult::ReadDocuments(o) => match o {
                Some(ReadDocumentsOutcome::Success(docs)) => {
                    let mut parts: Vec<String> = Vec::new();
                    let mut i: usize = 0;
                    while i < docs.len()
                        invariant
                            i <= docs.len(),
                            text::string_views(parts@) == document_blocks(docs@.take(i as int)),
                        decreases docs.len() - i,
                    {
                        let ghost before = parts@;
                        parts.push(
                            file_block_string(docs[i].document_id.as_str(), docs[i].content.as_str()),
                        );
                        assert(text::string_views(parts@) =~= text::string_views(before).push(
                            tools::file_block(docs@[i as int].document_id@, docs@[i as int].content@),
                        ));
                        assert(document_blocks(docs@.take(i + 1)) =~= document_blocks(
                            docs@.take(i as int),
                        ).push(tools::file_block(docs@[i as int].document_id@, docs@[i as int].content@)));
                        i = i + 1;
                    }
                    assert(docs@.take(docs.len() as int) =~= docs@);
                    Ok(join(&parts, "\n\n"))
                },
                Some(ReadDocumentsOutcome::Error(e)) => Ok(error_string(e)),
                None => Ok(no_result()),
            },
            _ => Err(arg_error("read_documents: result variant mismatch")),
        }
    }

    pub fn matches_proto_call(&self, tool: &Tool) -> (r: bool)
        ensures
            r == (tool is ReadDocuments),
    {
        match tool {
            Tool::ReadDocuments(_) => true,
            _ => false,
        }
    }

    pub fn matches_proto_result(&self, result: &ToolResult) -> (r: bool)
        ensures
            r == (result is ReadDocuments),
    {
        match result {
            ToolResult::ReadDocuments(_) => true,
            _ => false,
        }
    }
}

// ---------------------------------------------------------------------------
// Grep
// ---------------------------------------------------------------------------

pub open spec fn grep_args(g: Grep) -> JsonView {
    JsonView::Object(
        seq![
            ("queries"@, JsonView::Array(json::str_views(g.queries@))),
            ("path"@, JsonView::Str(g.path@)),
        ],
    )
}

/// `path:line` for each matched line of one file.
pub open spec fn grep_file_lines(f: crate::proto::results::GrepFileMatch) -> Seq<Seq<char>> {
    f.matched_lines@.map_values(
        |l: crate::proto::results::GrepLineMatch| f.file_path@ + ":"@ + text::decimal(l.line_number as int),
    )
}

/// The matched lines of all files, file by file.
pub open spec fn grep_lines(files: Seq<crate::proto::results::GrepFileMatch>) -> Seq<Seq<char>>
    decreases files.len(),
{
    if files.len() == 0 {
        Seq::empty()
    } else {
        grep_lines(files.drop_last()) + grep_file_lines(files.last())
    }
}

pub open spec fn grep_result_text(o: Option<GrepOutcome>) -> Seq<char> {
    match o {
        Some(GrepOutcome::Success(files)) => text::joined(grep_lines(files@), "\n"@),
        Some(GrepOutcome::Error(e)) => tools::error_text(e),
        None => "(no result)"@,
    }
}

/// What decoding a call\'s JSON arguments gives, or when it fails.
pub open spec fn grep_decoded(args: Json, r: Result<Tool, Arc<AIApiError>>) -> bool {
    match r {
        Ok(Tool::Grep(g)) => args@.get_array("queries"@) matches Some(qs)
            && text::string_views(g.queries@) == json::strings_of(qs)
            && args@.get_str("path"@) == Some(g.path@),
        Ok(_) => false,
        Err(e) => if args@.get_array("queries"@) is None {
            e.is_other("grep: missing required `queries` argument"@)
        } else {
            args@.get_str("path"@) is None && e.is_other(
                "grep: missing required `path` argument"@,
            )
        },
    }
}

/// Every argument object that conforms to the schema grep is offered
/// with decodes: what the schema tells the model to send is what decoding
/// takes (`queries` an array, `path` a string).
pub proof fn lemma_grep_schema_conforming_args_decode(args: Json, r: Result<Tool, Arc<AIApiError>>)
    requires
        tools::conforms_to_schema(args@, grep_schema_value()),
        grep_decoded(args, r),
    ensures
        r is Ok,
{
    reveal_strlit("type");
    reveal_strlit("properties");
    reveal_strlit("required");
    reveal_strlit("queries");
    reveal_strlit("path");
    reveal_strlit("array");
    reveal_strlit("string");
    reveal_strlit("description");
    reveal_strlit("items");
    reveal_with_fuel(json::lookup, 3);
    assert("type"@[0] != "required"@[0]);
    assert("type"@[0] != "properties"@[0]);
    assert("properties"@[0] != "required"@[0]);
    assert("queries"@[0] != "path"@[0]);
    let sch = grep_schema_value();
    let es = sch->Object_0;
    assert(es.drop_first()[0] == es[1]);
    assert(es.drop_first().drop_first()[0] == es[2]);
    let req = seq![JsonView::Str("queries"@), JsonView::Str("path"@)];
    assert(sch.get_array("required"@) == Some(req));
    reveal_with_fuel(json::strings_of, 3);
    assert(req.drop_last().drop_last() =~= Seq::<JsonView>::empty());
    assert(req.drop_last() =~= seq![JsonView::Str("queries"@)]);
    assert(tools::required_members(sch) =~= seq!["queries"@, "path"@]);
    let ps = es[1].1->Object_0;
    assert(tools::described_members(sch) == ps);
    assert(ps[0].1.get_str("type"@) == Some("array"@));
    assert(ps[1].1.get_str("type"@) == Some("string"@));
    assert(ps[0].0 == "queries"@ && ps[1].0 == "path"@);
    assert("array"@[0] != "string"@[0]);
    tools::lemma_required_member_typed(args@, sch, 0, 0);
    tools::lemma_required_member_typed(args@, sch, 1, 1);
    assert(args@.get("queries"@)->0 is Array);
    assert(args@.get_array("queries"@) is Some);
    assert(args@.get_str("path"@) is Some);
}

/// The JSON arguments a call of this tool is encoded as; other calls give `{}`.
pub open spec fn grep_call_args(tool: &Tool) -> JsonView {
    match tool {
        Tool::Grep(g) => grep_args(*g),
        _ => JsonView::Object(Seq::empty()),
    }
}

/// The text a result of this tool is sent as; other results are refused.
pub open spec fn grep_result_encoded(result: &ToolResult, r: Result<String, Arc<AIApiError>>) -> bool {
    match result {
        ToolResult::Grep(o) => r matches Ok(s) && s@ == grep_result_text(*o),
        _ => r matches Err(e) && e.is_other("grep: result variant mismatch"@),
    }
}

/// What the model is told the tool does.
pub open spec fn grep_description() -> Seq<char> {
    "Search for patterns in files using regex."@
}

/// The tool's argument schema.
pub open spec fn grep_schema_value() -> JsonView {
    JsonView::Object(
        seq![
            ("type"@, JsonView::Str("object"@)),
            (
                "properties"@,
                JsonView::Object(
                    seq![
                        (
                            "queries"@,
                            JsonView::Object(
                                seq![
                                    ("type"@, JsonView::Str("array"@)),
                                    ("description"@, JsonView::Str("The search terms or patterns to look for."@)),
                                    (
                                        "items"@,
                                        JsonView::Object(
                                            seq![
                                                ("type"@, JsonView::Str("string"@)),
                                            ],
                                        ),
                                    ),
                                ],
                            ),
                        ),
                        (
                            "path"@,
                            JsonView::Object(
                                seq![
                                    ("type"@, JsonView::Str("string"@)),
                                    ("description"@, JsonView::Str("The relative path to the file or directory to search in."@)),
                                ],
                            ),
                        ),
                    ],
                ),
            ),
            (
                "required"@,
                JsonView::Array(
                    seq![
                        JsonView::Str("queries"@),
                        JsonView::Str("path"@),
                    ],
                ),
            ),
        ],
    )
}

/// `s` is the tool's argument schema.
pub open spec fn grep_schema(s: JsonView) -> bool {
    s == grep_schema_value()
}

impl GrepTool {
    pub fn name(&self) -> (r: &'static str)
        ensures
            r@ == "grep"@,
    {
        "grep"
    }

    pub fn description(&self) -> (r: &'static str)
        ensures
            r@ == grep_description(),
    {
        "Search for patterns in files using regex."
    }

    /// JSON Schema of the arguments.
    pub fn parameters_schema(&self) -> (r: Json)
        ensures
            grep_schema(r@),
    {
        let mut o1: Vec<(String, Json)> = Vec::new();
        push_entry(&mut o1, "type", json_str("string"));
        assert(json::view_entries(o1@) =~= seq![("type"@, JsonView::Str("string"@))]);
        let j2 = Json::Object(o1);
        let ghost j2_v = j2@;
        let mut o3: Vec<(String, Json)> = Vec::new();
        push_entry(&mut o3, "type", json_str("array"));
        push_entry(&mut o3, "description", json_str("The search terms or patterns to look for."));
        push_entry(&mut o3, "items", j2);
        assert(json::view_entries(o3@) =~= seq![("type"@, JsonView::Str("array"@)), ("description"@, JsonView::Str("The search terms or patterns to look for."@)), ("items"@, j2_v)]);
        let j4 = Json::Object(o3);
        let ghost j4_v = j4@;
        let mut o5: Vec<(String, Json)> = Vec::new();
        push_entry(&mut o5, "type", json_str("string"));
        push_entry(&mut o5, "description", json_str("The relative path to the file or directory to search in."));
        assert(json::view_entries(o5@) =~= seq![("type"@, JsonView::Str("string"@)), ("description"@, JsonView::Str("The relative path to the file or directory to search in."@))]);
        let j6 = Json::Object(o5);
        let ghost j6_v = j6@;
        let mut o7: Vec<(String, Json)> = Vec::new();
        push_entry(&mut o7, "queries", j4);
        push_entry(&mut o7, "path", j6);
        assert(json::view_entries(o7@) =~= seq![("queries"@, j4_v), ("path"@, j6_v)]);
        let j8 = Json::Object(o7);
        let ghost j8_v = j8@;
        let mut a9: Vec<Json> = Vec::new();
        push_item(&mut a9, json_str("queries"));
        push_item(&mut a9, json_str("path"));
        assert(json::view_items(a9@) =~= seq![JsonView::Str("queries"@), JsonView::Str("path"@)]);
        let j10 = Json::Array(a9);
        let ghost j10_v = j10@;
        let mut o11: Vec<(String, Json)> = Vec::new();
        push_entry(&mut o11, "type", json_str("object"));
        push_entry(&mut o11, "properties", j8);
        push_entry(&mut o11, "required", j10);
        assert(json::view_entries(o11@) =~= seq![("type"@, JsonView::Str("object"@)), ("properties"@, j8_v), ("required"@, j10_v)]);
        let j12 = Json::Object(o11);
        let ghost j12_v = j12@;
        assert(j12_v == grep_schema_value());
        j12
    }

    /// Decodes the JSON arguments: `queries` (an array, of which the
    /// strings are kept) and `path` are required.
    pub fn decode_call_args(&self, args: Json) -> (r: Result<Tool, Arc<AIApiError>>)
        ensures
            grep_decoded(args, r),
    {
        let queries = match get_array(&args, "queries") {
            Some(a) => collect_strings(a),
            None => {
                return Err(arg_error("grep: missing required `queries` argument"));
            },
        };
        let path = match get_string(&args, "path") {
            Some(p) => p,
            None => {
                return Err(arg_error("grep: missing required `path` argument"));
            },
        };
        Ok(Tool::Grep(Grep { queries, path }))
    }

    /// Encodes a call back into its arguments.
    pub fn encode_call_args(&self, tool: &Tool) -> (r: Json)
        ensures
            r@ == grep_call_args(tool),
    {
        let mut es: Vec<(String, Json)> = Vec::new();
        match tool {
            Tool::Grep(g) => {
                push_entry(&mut es, "queries", json_str_array(&g.queries));
                push_entry(&mut es, "path", Json::Str(g.path.clone()));
                assert(json::view_entries(es@) =~= grep_args(*g)->Object_0);
            },
            _ => {
                assert(json::view_entries(es@) =~= Seq::<(Seq<char>, JsonView)>::empty());
            },
        }
        Json::Object(es)
    }

    /// The text sent back to the model for a result of this tool.
    pub fn encode_result_text(&self, result: &ToolResult) -> (r: Result<String, Arc<AIApiError>>)
        ensures
            grep_result_encoded(result, r),
    {
        match result {
            ToolResult::Grep(o) => match o {
                Some(GrepOutcome::Success(files)) => {
                    let mut parts: Vec<String> = Vec::new();
                    let mut i: usize = 0;
                    while i < files.len()
                        invariant
                            i <= files.len(),
                            text::string_views(parts@) == grep_lines(files@.take(i as int)),
                        decreases files.len() - i,
                    {
                        assert(files@.take(i + 1).drop_last() =~= files@.take(i as int));
                        let f = &files[i];
                        let ghost start = parts@;
                        let mut j: usize = 0;
                        while j < f.matched_lines.len()
                            invariant
                                j <= f.matched_lines.len(),
                                parts@.len() == start.len() + j,
                                parts@.take(start.len() as int) == start,
                                text::string_views(parts@) == text::string_views(start)
                                    + grep_file_lines(*f).take(j as int),
                            decreases f.matched_lines.len() - j,
                        {
                            let mut line = f.file_path.clone();
                            line.append(":");
                            push_u64(&mut line, f.matched_lines[j].line_number as u64);
                            let ghost before = parts@;
                            parts.push(line);
                            assert(text::string_views(parts@) =~= text::string_views(before).push(line@));
                            assert(grep_file_lines(*f).take(j + 1) =~= grep_file_lines(*f).take(j as int).push(line@));
                            assert(parts@.take(start.len() as int) =~= start);
                            j = j + 1;
                        }
                        assert(grep_file_lines(*f).take(f.matched_lines.len() as int) =~= grep_file_lines(*f));
                        i = i + 1;
                    }
                    assert(files@.take(files.len() as int) =~= files@);
                    Ok(join(&parts, "\n"))
                },
                Some(GrepOutcome::Error(e)) => Ok(error_string(e)),
                None => Ok(no_result()),
            },
            _ => Err(arg_error("grep: result variant mismatch")),
        }
    }

    pub fn matches_proto_call(&self, tool: &Tool) -> (r: bool)
        ensures
            r == (tool is Grep),
    {
        match tool {
            Tool::Grep(_) => true,
            _ => false,
        }
    }

    pub fn matches_proto_result(&self, result: &ToolResult) -> (r: bool)
        ensures
            r == (result is Grep),
    {
        match result {
            ToolResult::Grep(_) => true,
            _ => false,
        }
    }
}

// ---------------------------------------------------------------------------
// FileGlobV2
// ---------------------------------------------------------------------------

pub open spec fn i64_or_zero(v: Option<i64>) -> i64 {
    match v {
        Some(x) => x,
        None => 0,
    }
}

pub open spec fn file_glob_args(fg: FileGlobV2) -> JsonView {
    JsonView::Object(
        seq![
            ("patterns"@, JsonView::Array(json::str_views(fg.patterns@))),
            ("search_dir"@, JsonView::Str(fg.search_dir@)),
        ],
    )
}

pub open spec fn file_paths(fs: Seq<crate::proto::calls::FilePathReference>) -> Seq<Seq<char>> {
    fs.map_values(|f: crate::proto::calls::FilePathReference| f.file_path@)
}

pub open spec fn file_glob_result_text(o: Option<FileGlobV2Outcome>) -> Seq<char> {
    match o {
        Some(FileGlobV2Outcome::Success(fs)) => text::joined(file_paths(fs@), "\n"@),
        Some(FileGlobV2Outcome::Error(e)) => tools::error_text(e),
        None => "(no result)"@,
    }
}

/// What decoding a call\'s JSON arguments gives, or when it fails.
pub open spec fn file_glob_v2_decoded(args: Json, r: Result<Tool, Arc<AIApiError>>) -> bool {
    match r {
        Ok(Tool::FileGlobV2(fg)) => args@.get_array("patterns"@) matches Some(ps)
            && text::string_views(fg.patterns@) == json::strings_of(ps)
            && args@.get_str("search_dir"@) == Some(fg.search_dir@)
            && fg.max_matches == i64_or_zero(args@.get_i64("max_matches"@)) as i32
            && fg.max_depth == i64_or_zero(args@.get_i64("max_depth"@)) as i32
            && fg.min_depth == i64_or_zero(args@.get_i64("min_depth"@)) as i32,
        Ok(_) => false,
        Err(e) => if args@.get_array("patterns"@) is None {
            e.is_other("file_glob_v2: missing required `patterns` argument"@)
        } else {
            args@.get_str("search_dir"@) is None && e.is_other(
                "file_glob_v2: missing required `search_dir` argument"@,
            )
        },
    }
}

/// Every argument object that conforms to the schema this tool is offered
/// with decodes: the schema requires `patterns` and `search_dir`, with the types decoding takes.
pub proof fn lemma_file_glob_v2_schema_conforming_args_decode(args: Json, r: Result<Tool, Arc<AIApiError>>)
    requires
        crate::tools::conforms_to_schema(args@, file_glob_v2_schema_value()),
        file_glob_v2_decoded(args, r),
    ensures
        r is Ok,
{
    reveal_strlit("array");
    reveal_strlit("boolean");
    reveal_strlit("integer");
    reveal_strlit("max_depth");
    reveal_strlit("max_matches");
    reveal_strlit("min_depth");
    reveal_strlit("number");
    reveal_strlit("object");
    reveal_strlit("patterns");
    reveal_strlit("properties");
    reveal_strlit("required");
    reveal_strlit("search_dir");
    reveal_strlit("string");
    reveal_strlit("type");
    assert("type"@[0] != "properties"@[0]);
    assert("type"@[0] != "required"@[0]);
    assert("properties"@[0] != "required"@[0]);
    assert("string"@[0] != "array"@[0]);
    assert("string"@[0] != "object"@[0]);
    assert("string"@[0] != "boolean"@[0]);
    assert("string"@[0] != "integer"@[0]);
    assert("string"@[0] != "number"@[0]);
    assert("array"@[0] != "object"@[0]);
    assert("array"@[0] != "boolean"@[0]);
    assert("array"@[0] != "integer"@[0]);
    assert("array"@[0] != "number"@[0]);
    assert("object"@[0] != "boolean"@[0]);
    assert("object"@[0] != "integer"@[0]);
    assert("object"@[0] != "number"@[0]);
    assert("boolean"@[0] != "integer"@[0]);
    assert("boolean"@[0] != "number"@[0]);
    assert("integer"@[0] != "number"@[0]);
    reveal_with_fuel(crate::json::lookup, 3);
    reveal_with_fuel(crate::json::strings_of, 3);
    let sch = file_glob_v2_schema_value();
    let es = sch->Object_0;
    assert(es.drop_first()[0] == es[1]);
    assert(es.drop_first().drop_first()[0] == es[2]);
    let req = seq![JsonView::Str("patterns"@), JsonView::Str("search_dir"@)];
    assert(sch.get_array("required"@) == Some(req));
    assert(req.take(0) =~= Seq::<JsonView>::empty());
    assert(req.take(1).drop_last() =~= req.take(0));
    assert(req.take(2).drop_last() =~= req.take(1));
    assert(req.take(2) =~= req);
    assert(crate::tools::required_members(sch) =~= seq!["patterns"@, "search_dir"@]);
    let ps = es[1].1->Object_0;
    assert(crate::tools::described_members(sch) == ps);
    assert(ps[0].0 == "patterns"@);
    assert(ps[0].1.get_str("type"@) == Some("array"@));
    crate::tools::lemma_required_member_typed(args@, sch, 0, 0);
    assert(args@.get("patterns"@)->0 is Array);
    assert(args@.get_array("patterns"@) is Some);
    assert(ps[1].0 == "search_dir"@);
    assert(ps[1].1.get_str("type"@) == Some("string"@));
    crate::tools::lemma_required_member_typed(args@, sch, 1, 1);
    assert(args@.get("search_dir"@)->0 is Str);
    assert(args@.get_str("search_dir"@) is Some);
}


/// The JSON arguments a call of this tool is encoded as; other calls give `{}`.
pub open spec fn file_glob_v2_call_args(tool: &Tool) -> JsonView {
    match tool {
        Tool::FileGlobV2(fg) => file_glob_args(*fg),
        _ => JsonView::Object(Seq::empty()),
    }
}

/// The text a result of this tool is sent as; other results are refused.
pub open spec fn file_glob_v2_result_encoded(result: &ToolResult, r: Result<String, Arc<AIApiError>>) -> bool {
    match result {
        ToolResult::FileGlobV2(o) => r matches Ok(s) && s@ == file_glob_result_text(*o),
        _ => r matches Err(e) && e.is_other("file_glob_v2: result variant mismatch"@),
    }
}

/// What the model is told the tool does.
pub open spec fn file_glob_v2_description() -> Seq<char> {
    "Find files matching glob patterns."@
}

/// The tool's argument schema.
pub open spec fn file_glob_v2_schema_value() -> JsonView {
    JsonView::Object(
        seq![
            ("type"@, JsonView::Str("object"@)),
            (
                "properties"@,
                JsonView::Object(
                    seq![
                        (
                            "patterns"@,
                            JsonView::Object(
                                seq![
                                    ("type"@, JsonView::Str("array"@)),
                                    ("description"@, JsonView::Str("The patterns to match file names against. Supports ?, *, []."@)),
                                    (
                                        "items"@,
                                        JsonView::Object(
                                            seq![
                                                ("type"@, JsonView::Str("string"@)),
                                            ],
                                        ),
                                    ),
                                ],
                            ),
                        ),
                        (
                            "search_dir"@,
                            JsonView::Object(
                                seq![
                                    ("type"@, JsonView::Str("string"@)),
                                    ("description"@, JsonView::Str("The relative path to the directory to search in."@)),
                                ],
                            ),
                        ),
                        (
                            "max_matches"@,
                            JsonView::Object(
                                seq![
                                    ("type"@, JsonView::Str("integer"@)),
                                    ("description"@, JsonView::Str("The maximum number of matches to return. Zero indicates no limit."@)),
                                ],
                            ),
                        ),
                        (
                            "max_depth"@,
                            JsonView::Object(
                                seq![
                                    ("type"@, JsonView::Str("integer"@)),
                                    ("description"@, JsonView::Str("The maximum depth to search in. Zero indicates no limit."@)),
                                ],
                            ),
                        ),
                        (
                            "min_depth"@,
                            JsonView::Object(
                                seq![
                                    ("type"@, JsonView::Str("integer"@)),
                                    ("description"@, JsonView::Str("The minimum depth to search in. Zero indicates no limit."@)),
                                ],
                            ),
                        ),
                    ],
                ),
            ),
            (
                "required"@,
                JsonView::Array(
                    seq![
                        JsonView::Str("patterns"@),
                        JsonView::Str("search_dir"@),
                    ],
                ),
            ),
        ],
    )
}

/// `s` is the tool's argument schema.
pub open spec fn file_glob_v2_schema(s: JsonView) -> bool {
    s == file_glob_v2_schema_value()
}

impl FileGlobV2Tool {
    pub fn name(&self) -> (r: &'static str)
        ensures
            r@ == "file_glob_v2"@,
    {
        "file_glob_v2"
    }

    pub fn description(&self) -> (r: &'static str)
        ensures
            r@ == file_glob_v2_description(),
    {
        "Find files matching glob patterns."
    }

    /// JSON Schema of the arguments.
    pub fn parameters_schema(&self) -> (r: Json)
        ensures
            file_glob_v2_schema(r@),
    {
        let mut o1: Vec<(String, Json)> = Vec::new();
        push_entry(&mut o1, "type", json_str("string"));
        assert(json::view_entries(o1@) =~= seq![("type"@, JsonView::Str("string"@))]);
        let j2 = Json::Object(o1);
        let ghost j2_v = j2@;
        let mut o3: Vec<(String, Json)> = Vec::new();
        push_entry(&mut o3, "type", json_str("array"));
        push_entry(&mut o3, "description", json_str("The patterns to match file names against. Supports ?, *, []."));
        push_entry(&mut o3, "items", j2);
        assert(json::view_entries(o3@) =~= seq![("type"@, JsonView::Str("array"@)), ("description"@, JsonView::Str("The patterns to match file names against. Supports ?, *, []."@)), ("items"@, j2_v)]);
        let j4 = Json::Object(o3);
        let ghost j4_v = j4@;
        let mut o5: Vec<(String, Json)> = Vec::new();
        push_entry(&mut o5, "type", json_str("string"));
        push_entry(&mut o5, "description", json_str("The relative path to the directory to search in."));
        assert(json::view_entries(o5@) =~= seq![("type"@, JsonView::Str("string"@)), ("description"@, JsonView::Str("The relative path to the directory to search in."@))]);
        let j6 = Json::Object(o5);
        let ghost j6_v = j6@;
        let mut o7: Vec<(String, Json)> = Vec::new();
        push_entry(&mut o7, "type", json_str("integer"));
        push_entry(&mut o7, "description", json_str("The maximum number of matches to return. Zero indicates no limit."));
        assert(json::view_entries(o7@) =~= seq![("type"@, JsonView::Str("integer"@)), ("description"@, JsonView::Str("The maximum number of matches to return. Zero indicates no limit."@))]);
        let j8 = Json::Object(o7);
        let ghost j8_v = j8@;
        let mut o9: Vec<(String, Json)> = Vec::new();
        push_entry(&mut o9, "type", json_str("integer"));
        push_entry(&mut o9, "description", json_str("The maximum depth to search in. Zero indicates no limit."));
        assert(json::view_entries(o9@) =~= seq![("type"@, JsonView::Str("integer"@)), ("description"@, JsonView::Str("The maximum depth to search in. Zero indicates no limit."@))]);
        let j10 = Json::Object(o9);
        let ghost j10_v = j10@;
        let mut o11: Vec<(String, Json)> = Vec::new();
        push_entry(&mut o11, "type", json_str("integer"));
        push_entry(&mut o11, "description", json_str("The minimum depth to search in. Zero indicates no limit."));
        assert(json::view_entries(o11@) =~= seq![("type"@, JsonView::Str("integer"@)), ("description"@, JsonView::Str("The minimum depth to search in. Zero indicates no limit."@))]);
        let j12 = Json::Object(o11);
        let ghost j12_v = j12@;
        let mut o13: Vec<(String, Json)> = Vec::new();
        push_entry(&mut o13, "patterns", j4);
        push_entry(&mut o13, "search_dir", j6);
        push_entry(&mut o13, "max_matches", j8);
        push_entry(&mut o13, "max_depth", j10);
        push_entry(&mut o13, "min_depth", j12);
        assert(json::view_entries(o13@) =~= seq![("patterns"@, j4_v), ("search_dir"@, j6_v), ("max_matches"@, j8_v), ("max_depth"@, j10_v), ("min_depth"@, j12_v)]);
        let j14 = Json::Object(o13);
        let ghost j14_v = j14@;
        let mut a15: Vec<Json> = Vec::new();
        push_item(&mut a15, json_str("patterns"));
        push_item(&mut a15, json_str("search_dir"));
        assert(json::view_items(a15@) =~= seq![JsonView::Str("patterns"@), JsonView::Str("search_dir"@)]);
        let j16 = Json::Array(a15);
        let ghost j16_v = j16@;
        let mut o17: Vec<(String, Json)> = Vec::new();
        push_entry(&mut o17, "type", json_str("object"));
        push_entry(&mut o17, "properties", j14);
        push_entry(&mut o17, "required", j16);
        assert(json::view_entries(o17@) =~= seq![("type"@, JsonView::Str("object"@)), ("properties"@, j14_v), ("required"@, j16_v)]);
        let j18 = Json::Object(o17);
        let ghost j18_v = j18@;
        assert(j18_v == file_glob_v2_schema_value());
        j18
    }

    /// Decodes the JSON arguments: `patterns` (an array, of which the
    /// strings are kept) and `search_dir` are required; the limits default
    /// to 0 and are cut to 32 bits.
    pub fn decode_call_args(&self, args: Json) -> (r: Result<Tool, Arc<AIApiError>>)
        ensures
            file_glob_v2_decoded(args, r),
    {
        let patterns = match get_array(&args, "patterns") {
            Some(a) => collect_strings(a),
            None => {
                return Err(arg_error("file_glob_v2: missing required `patterns` argument"));
            },
        };
        let search_dir = match get_string(&args, "search_dir") {
            Some(p) => p,
            None => {
                return Err(arg_error("file_glob_v2: missing required `search_dir` argument"));
            },
        };
        let max_matches = match get_i64(&args, "max_matches") {
            Some(v) => v,
            None => 0,
        } as i32;
        let max_depth = match get_i64(&args, "max_depth") {
            Some(v) => v,
            None => 0,
        } as i32;
        let min_depth = match get_i64(&args, "min_depth") {
            Some(v) => v,
            None => 0,
        } as i32;
        Ok(Tool::FileGlobV2(FileGlobV2 { patterns, search_dir, max_matches, max_depth, min_depth }))
    }

    /// Encodes a call back into its arguments (patterns and directory).
    pub fn encode_call_args(&self, tool: &Tool) -> (r: Json)
        ensures
            r@ == file_glob_v2_call_args(tool),
    {
        let mut es: Vec<(String, Json)> = Vec::new();
        match tool {
            Tool::FileGlobV2(fg) => {
                push_entry(&mut es, "patterns", json_str_array(&fg.patterns));
                push_entry(&mut es, "search_dir", Json::Str(fg.search_dir.clone()));
                assert(json::view_entries(es@) =~= file_glob_args(*fg)->Object_0);
            },
            _ => {
                assert(json::view_entries(es@) =~= Seq::<(Seq<char>, JsonView)>::empty());
            },
        }
        Json::Object(es)
    }

    /// The text sent back to the model for a result of this tool.
    pub fn encode_result_text(&self, result: &ToolResult) -> (r: Result<String, Arc<AIApiError>>)
        ensures
            file_glob_v2_result_encoded(result, r),
    {
        match result {
            ToolResult::FileGlobV2(o) => match o {
                Some(FileGlobV2Outcome::Success(fs)) => {
                    let mut parts: Vec<String> = Vec::new();
                    let mut i: usize = 0;
                    while i < fs.len()
                        invariant
                            i <= fs.len(),
                            text::string_views(parts@) == file_paths(fs@.take(i as int)),
                        decreases fs.len() - i,
                    {
                        let ghost before = parts@;
                        parts.push(fs[i].file_path.clone());
                        assert(text::string_views(parts@) =~= text::string_views(before).push(
                            fs@[i as int].file_path@,
                        ));
                        assert(file_paths(fs@.take(i + 1)) =~= file_paths(fs@.take(i as int)).push(
                            fs@[i as int].file_path@,
                        ));
                        i = i + 1;
                    }
                    assert(fs@.take(fs.len() as int) =~= fs@);
                    Ok(join(&parts, "\n"))
                },
                Some(FileGlobV2Outcome::Error(e)) => Ok(error_string(e)),
                None => Ok(no_result()),
            },
            _ => Err(arg_error("file_glob_v2: result variant mismatch")),
        }
    }

    pub fn matches_proto_call(&self, tool: &Tool) -> (r: bool)
        ensures
            r == (tool is FileGlobV2),
    {
        match tool {
            Tool::FileGlobV2(_) => true,
            _ => false,
        }
    }

    pub fn matches_proto_result(&self, result: &ToolResult) -> (r: bool)
        ensures
            r == (result is FileGlobV2),
    {
        match result {
            ToolResult::FileGlobV2(_) => true,
            _ => false,
        }
    }
}

// ---------------------------------------------------------------------------
// ReadShellCommandOutput
// ---------------------------------------------------------------------------

/// What reading from, or writing to, a long-running command reports.
pub open spec fn command_io_result_text(o: Option<CommandIoOutcome>) -> Seq<char> {
    match o {
        Some(CommandIoOutcome::CommandFinished(f)) => crate::tools::run_shell_command::finished_text(f),
        Some(CommandIoOutcome::LongRunningCommandSnapshot(s)) => crate::tools::run_shell_command::snapshot_text(s),
        Some(CommandIoOutcome::Error) => "error: command not found"@,
        None => "(no result)"@,
    }
}

/// The text for the outcome of reading from or writing to a command.
pub fn command_io_string(o: &Option<CommandIoOutcome>) -> (r: String)
    ensures
        r@ == command_io_result_text(*o),
{
    let mut out = String::new();
    match o {
        Some(CommandIoOutcome::CommandFinished(f)) => push_finished(&mut out, f),
        Some(CommandIoOutcome::LongRunningCommandSnapshot(s)) => push_snapshot(&mut out, s),
        Some(CommandIoOutcome::Error) => out.append("error: command not found"),
        None => out.append("(no result)"),
    }
    out
}

pub open spec fn delay_of(ms: Option<i64>) -> Option<OutputDelay> {
    match ms {
        Some(m) => Some(OutputDelay::Duration(tools::duration_of_ms(m))),
        None => None,
    }
}

pub open spec fn read_shell_command_output_args(c: ReadShellCommandOutput) -> JsonView {
    JsonView::Object(seq![("command_id"@, JsonView::Str(c.command_id@))])
}

/// What decoding a call\'s JSON arguments gives, or when it fails.
pub open spec fn read_shell_command_output_decoded(args: Json, r: Result<Tool, Arc<AIApiError>>) -> bool {
    match r {
        Ok(Tool::ReadShellCommandOutput(c)) => args@.get_str("command_id"@) == Some(
            c.command_id@,
        ) && c.delay == delay_of(args@.get_i64("delay_ms"@)),
        Ok(_) => false,
        Err(e) => args@.get_str("command_id"@) is None && e.is_other(
            "read_shell_command_output: missing required `command_id` argument"@,
        ),
    }
}

/// Every argument object that conforms to the schema this tool is offered
/// with decodes: the schema requires `command_id`, with the types decoding takes.
pub proof fn lemma_read_shell_command_output_schema_conforming_args_decode(args: Json, r: Result<Tool, Arc<AIApiError>>)
    requires
        crate::tools::conforms_to_schema(args@, read_shell_command_output_schema_value()),
        read_shell_command_output_decoded(args, r),
    ensures
        r is Ok,
{
    reveal_strlit("array");
    reveal_strlit("boolean");
    reveal_strlit("command_id");
    reveal_strlit("delay_ms");
    reveal_strlit("integer");
    reveal_strlit("number");
    reveal_strlit("object");
    reveal_strlit("properties");
    reveal_strlit("required");
    reveal_strlit("string");
    reveal_strlit("type");
    assert("type"@[0] != "properties"@[0]);
    assert("type"@[0] != "required"@[0]);
    assert("properties"@[0] != "required"@[0]);
    assert("string"@[0] != "array"@[0]);
    assert("string"@[0] != "object"@[0]);
    assert("string"@[0] != "boolean"@[0]);
    assert("string"@[0] != "integer"@[0]);
    assert("string"@[0] != "number"@[0]);
    assert("array"@[0] != "object"@[0]);
    assert("array"@[0] != "boolean"@[0]);
    assert("array"@[0] != "integer"@[0]);
    assert("array"@[0] != "number"@[0]);
    assert("object"@[0] != "boolean"@[0]);
    assert("object"@[0] != "integer"@[0]);
    assert("object"@[0] != "number"@[0]);
    assert("boolean"@[0] != "integer"@[0]);
    assert("boolean"@[0] != "number"@[0]);
    assert("integer"@[0] != "number"@[0]);
    reveal_with_fuel(crate::json::lookup, 3);
    reveal_with_fuel(crate::json::strings_of, 2);
    let sch = read_shell_command_output_schema_value();
    let es = sch->Object_0;
    assert(es.drop_first()[0] == es[1]);
    assert(es.drop_first().drop_first()[0] == es[2]);
    let req = seq![JsonView::Str("command_id"@)];
    assert(sch.get_array("required"@) == Some(req));
    assert(req.take(0) =~= Seq::<JsonView>::empty());
    assert(req.take(1).drop_last() =~= req.take(0));
    assert(req.take(1) =~= req);
    assert(crate::tools::required_members(sch) =~= seq!["command_id"@]);
    let ps = es[1].1->Object_0;
    assert(crate::tools::described_members(sch) == ps);
    assert(ps[0].0 == "command_id"@);
    assert(ps[0].1.get_str("type"@) == Some("string"@));
    crate::tools::lemma_required_member_typed(args@, sch, 0, 0);
    assert(args@.get("command_id"@)->0 is Str);
    assert(args@.get_str("command_id"@) is Some);
}


/// The JSON arguments a call of this tool is encoded as; other calls give `{}`.
pub open spec fn read_shell_command_output_call_args(tool: &Tool) -> JsonView {
    match tool {
        Tool::ReadShellCommandOutput(c) => read_shell_command_output_args(*c),
        _ => JsonView::Object(Seq::empty()),
    }
}

/// The text a result of this tool is sent as; other results are refused.
pub open spec fn read_shell_command_output_result_encoded(result: &ToolResult, r: Result<String, Arc<AIApiError>>) -> bool {
    match result {
        ToolResult::ReadShellCommandOutput(o) => r matches Ok(s) && s@
            == command_io_result_text(*o),
        _ => r matches Err(e) && e.is_other(
            "read_shell_command_output: result variant mismatch"@,
        ),
    }
}

/// What the model is told the tool does.
pub open spec fn read_shell_command_output_description() -> Seq<char> {
    "Read output from a long-running shell command."@
}

/// The tool's argument schema.
pub open spec fn read_shell_command_output_schema_value() -> JsonView {
    JsonView::Object(
        seq![
            ("type"@, JsonView::Str("object"@)),
            (
                "properties"@,
                JsonView::Object(
                    seq![
                        (
                            "command_id"@,
                            JsonView::Object(
                                seq![
                                    ("type"@, JsonView::Str("string"@)),
                                    ("description"@, JsonView::Str("The ID of the long-running command whose output to read."@)),
                                ],
                            ),
                        ),
                        (
                            "delay_ms"@,
                            JsonView::Object(
                                seq![
                                    ("type"@, JsonView::Str("integer"@)),
                                    ("description"@, JsonView::Str("Optional delay in milliseconds before returning the output."@)),
                                ],
                            ),
                        ),
                    ],
                ),
            ),
            (
                "required"@,
                JsonView::Array(
                    seq![
                        JsonView::Str("command_id"@),
                    ],
                ),
            ),
        ],
    )
}

/// `s` is the tool's argument schema.
pub open spec fn read_shell_command_output_schema(s: JsonView) -> bool {
    s == read_shell_command_output_schema_value()
}

impl ReadShellCommandOutputTool {
    pub fn name(&self) -> (r: &'static str)
        ensures
            r@ == "read_shell_command_output"@,
    {
        "read_shell_command_output"
    }

    pub fn description(&self) -> (r: &'static str)
        ensures
            r@ == read_shell_command_output_description(),
    {
        "Read output from a long-running shell command."
    }

    /// JSON Schema of the arguments.
    pub fn parameters_schema(&self) -> (r: Json)
        ensures
            read_shell_command_output_schema(r@),
    {
        let mut o1: Vec<(String, Json)> = Vec::new();
        push_entry(&mut o1, "type", json_str("string"));
        push_entry(&mut o1, "description", json_str("The ID of the long-running command whose output to read."));
        assert(json::view_entries(o1@) =~= seq![("type"@, JsonView::Str("string"@)), ("description"@, JsonView::Str("The ID of the long-running command whose output to read."@))]);
        let j2 = Json::Object(o1);
        let ghost j2_v = j2@;
        let mut o3: Vec<(String, Json)> = Vec::new();
        push_entry(&mut o3, "type", json_str("integer"));
        push_entry(&mut o3, "description", json_str("Optional delay in milliseconds before returning the output."));
        assert(json::view_entries(o3@) =~= seq![("type"@, JsonView::Str("integer"@)), ("description"@, JsonView::Str("Optional delay in milliseconds before returning the output."@))]);
        let j4 = Json::Object(o3);
        let ghost j4_v = j4@;
        let mut o5: Vec<(String, Json)> = Vec::new();
        push_entry(&mut o5, "command_id", j2);
        push_entry(&mut o5, "delay_ms", j4);
        assert(json::view_entries(o5@) =~= seq![("command_id"@, j2_v), ("delay_ms"@, j4_v)]);
        let j6 = Json::Object(o5);
        let ghost j6_v = j6@;
        let mut a7: Vec<Json> = Vec::new();
        push_item(&mut a7, json_str("command_id"));
        assert(json::view_items(a7@) =~= seq![JsonView::Str("command_id"@)]);
        let j8 = Json::Array(a7);
        let ghost j8_v = j8@;
        let mut o9: Vec<(String, Json)> = Vec::new();
        push_entry(&mut o9, "type", json_str("object"));
        push_entry(&mut o9, "properties", j6);
        push_entry(&mut o9, "required", j8);
        assert(json::view_entries(o9@) =~= seq![("type"@, JsonView::Str("object"@)), ("properties"@, j6_v), ("required"@, j8_v)]);
        let j10 = Json::Object(o9);
        let ghost j10_v = j10@;
        assert(j10_v == read_shell_command_output_schema_value());
        j10
    }

    /// Decodes the JSON arguments: `command_id` is required; `delay_ms`,
    /// when an integer, becomes the delay.
    pub fn decode_call_args(&self, args: Json) -> (r: Result<Tool, Arc<AIApiError>>)
        ensures
            read_shell_command_output_decoded(args, r),
    {
        let command_id = match get_string(&args, "command_id") {
            Some(c) => c,
            None => {
                return Err(
                    arg_error("read_shell_command_output: missing required `command_id` argument"),
                );
            },
        };
        let delay = match get_i64(&args, "delay_ms") {
            Some(ms) => Some(OutputDelay::Duration(tools::duration_from_ms(ms))),
            None => None,
        };
        Ok(Tool::ReadShellCommandOutput(ReadShellCommandOutput { command_id, delay }))
    }

    /// Encodes a call back into its arguments (the command id).
    pub fn encode_call_args(&self, tool: &Tool) -> (r: Json)
        ensures
            r@ == read_shell_command_output_call_args(tool),
    {
        let mut es: Vec<(String, Json)> = Vec::new();
        match tool {
            Tool::ReadShellCommandOutput(c) => {
                push_entry(&mut es, "command_id", Json::Str(c.command_id.clone()));
                assert(json::view_entries(es@) =~= read_shell_command_output_args(*c)->Object_0);
            },
            _ => {
                assert(json::view_entries(es@) =~= Seq::<(Seq<char>, JsonView)>::empty());
            },
        }
        Json::Object(es)
    }

    /// The text sent back to the model for a result of this tool.
    pub fn encode_result_text(&self, result: &ToolResult) -> (r: Result<String, Arc<AIApiError>>)
        ensures
            read_shell_command_output_result_encoded(result, r),
    {
        match result {
            ToolResult::ReadShellCommandOutput(o) => Ok(command_io_string(o)),
            _ => Err(arg_error("read_shell_command_output: result variant mismatch")),
        }
    }

    pub fn matches_proto_call(&self, tool: &Tool) -> (r: bool)
        ensures
            r == (tool is ReadShellCommandOutput),
    {
        match tool {
            Tool::ReadShellCommandOutput(_) => true,
            _ => false,
        }
    }

    pub fn matches_proto_result(&self, result: &ToolResult) -> (r: bool)
        ensures
            r == (result is ReadShellCommandOutput),
    {
        match result {
            ToolResult::ReadShellCommandOutput(_) => true,
            _ => false,
        }
    }
}

// ---------------------------------------------------------------------------
// ReadSkill
// ---------------------------------------------------------------------------

pub open spec fn skill_reference_matches(args: JsonView, r: Option<SkillReference>) -> bool {
    match args.get_str("skill_path"@) {
        Some(p) => r matches Some(SkillReference::SkillPath(q)) && q@ == p,
        None => match args.get_str("bundled_skill_id"@) {
            Some(id) => r matches Some(SkillReference::BundledSkillId(q)) && q@ == id,
            None => r is None,
        },
    }
}

pub open spec fn read_skill_args(c: ReadSkill) -> JsonView {
    JsonView::Object(seq![("name"@, JsonView::Str(c.name@))])
}

pub open spec fn read_skill_result_text(o: Option<ReadSkillOutcome>) -> Seq<char> {
    match o {
        Some(ReadSkillOutcome::Success(Some(c))) => tools::file_block(c.file_path@, c.content@),
        Some(ReadSkillOutcome::Success(None)) => "(no skill content)"@,
        Some(ReadSkillOutcome::Error(e)) => tools::error_text(e),
        None => "(no result)"@,
    }
}

/// What decoding a call\'s JSON arguments gives, or when it fails.
pub open spec fn read_skill_decoded(args: Json, r: Result<Tool, Arc<AIApiError>>) -> bool {
    match r {
        Ok(Tool::ReadSkill(c)) => args@.get_str("name"@) == Some(c.name@)
            && skill_reference_matches(args@, c.skill_reference),
        Ok(_) => false,
        Err(e) => args@.get_str("name"@) is None && e.is_other(
            "read_skill: missing required `name` argument"@,
        ),
    }
}

/// Every argument object that conforms to the schema this tool is offered
/// with decodes: the schema requires `name`, with the types decoding takes.
pub proof fn lemma_read_skill_schema_conforming_args_decode(args: Json, r: Result<Tool, Arc<AIApiError>>)
    requires
        crate::tools::conforms_to_schema(args@, read_skill_schema_value()),
        read_skill_decoded(args, r),
    ensures
        r is Ok,
{
    reveal_strlit("array");
    reveal_strlit("boolean");
    reveal_strlit("bundled_skill_id");
    reveal_strlit("integer");
    reveal_strlit("name");
    reveal_strlit("number");
    reveal_strlit("object");
    reveal_strlit("properties");
    reveal_strlit("required");
    reveal_strlit("skill_path");
    reveal_strlit("string");
    reveal_strlit("type");
    assert("type"@[0] != "properties"@[0]);
    assert("type"@[0] != "required"@[0]);
    assert("properties"@[0] != "required"@[0]);
    assert("string"@[0] != "array"@[0]);
    assert("string"@[0] != "object"@[0]);
    assert("string"@[0] != "boolean"@[0]);
    assert("string"@[0] != "integer"@[0]);
    assert("string"@[0] != "number"@[0]);
    assert("array"@[0] != "object"@[0]);
    assert("array"@[0] != "boolean"@[0]);
    assert("array"@[0] != "integer"@[0]);
    assert("array"@[0] != "number"@[0]);
    assert("object"@[0] != "boolean"@[0]);
    assert("object"@[0] != "integer"@[0]);
    assert("object"@[0] != "number"@[0]);
    assert("boolean"@[0] != "integer"@[0]);
    assert("boolean"@[0] != "number"@[0]);
    assert("integer"@[0] != "number"@[0]);
    reveal_with_fuel(crate::json::lookup, 3);
    reveal_with_fuel(crate::json::strings_of, 2);
    let sch = read_skill_schema_value();
    let es = sch->Object_0;
    assert(es.drop_first()[0] == es[1]);
    assert(es.drop_first().drop_first()[0] == es[2]);
    let req = seq![JsonView::Str("name"@)];
    assert(sch.get_array("required"@) == Some(req));
    assert(req.take(0) =~= Seq::<JsonView>::empty());
    assert(req.take(1).drop_last() =~= req.take(0));
    assert(req.take(1) =~= req);
    assert(crate::tools::required_members(sch) =~= seq!["name"@]);
    let ps = es[1].1->Object_0;
    assert(crate::tools::described_members(sch) == ps);
    assert(ps[0].0 == "name"@);
    assert(ps[0].1.get_str("type"@) == Some("string"@));
    crate::tools::lemma_required_member_typed(args@, sch, 0, 0);
    assert(args@.get("name"@)->0 is Str);
    assert(args@.get_str("name"@) is Some);
}


/// The JSON arguments a call of this tool is encoded as; other calls give `{}`.
pub open spec fn read_skill_call_args(tool: &Tool) -> JsonView {
    match tool {
        Tool::ReadSkill(c) => read_skill_args(*c),
        _ => JsonView::Object(Seq::empty()),
    }
}

/// The text a result of this tool is sent as; other results are refused.
pub open spec fn read_skill_result_encoded(result: &ToolResult, r: Result<String, Arc<AIApiError>>) -> bool {
    match result {
        ToolResult::ReadSkill(o) => r matches Ok(s) && s@ == read_skill_result_text(*o),
        _ => r matches Err(e) && e.is_other("read_skill: result variant mismatch"@),
    }
}

/// What the model is told the tool does.
pub open spec fn read_skill_description() -> Seq<char> {
    "Read a Warp Skill (instructions/prompt template)."@
}

/// The tool's argument schema.
pub open spec fn read_skill_schema_value() -> JsonView {
    JsonView::Object(
        seq![
            ("type"@, JsonView::Str("object"@)),
            (
                "properties"@,
                JsonView::Object(
                    seq![
                        (
                            "name"@,
                            JsonView::Object(
                                seq![
                                    ("type"@, JsonView::Str("string"@)),
                                    ("description"@, JsonView::Str("The name of the skill."@)),
                                ],
                            ),
                        ),
                        (
                            "skill_path"@,
                            JsonView::Object(
                                seq![
                                    ("type"@, JsonView::Str("string"@)),
                                    ("description"@, JsonView::Str("Optional path to the SKILL.md file to read."@)),
                                ],
                            ),
                        ),
                        (
                            "bundled_skill_id"@,
                            JsonView::Object(
                                seq![
                                    ("type"@, JsonView::Str("string"@)),
                                    ("description"@, JsonView::Str("Optional unique identifier for a skill bundled with the client."@)),
                                ],
                            ),
                        ),
                    ],
                ),
            ),
            (
                "required"@,
                JsonView::Array(
                    seq![
                        JsonView::Str("name"@),
                    ],
                ),
            ),
        ],
    )
}

/// `s` is the tool's argument schema.
pub open spec fn read_skill_schema(s: JsonView) -> bool {
    s == read_skill_schema_value()
}

impl ReadSkillTool {
    pub fn name(&self) -> (r: &'static str)
        ensures
            r@ == "read_skill"@,
    {
        "read_skill"
    }

    pub fn description(&self) -> (r: &'static str)
        ensures
            r@ == read_skill_description(),
    {
        "Read a Warp Skill (instructions/prompt template)."
    }

    /// JSON Schema of the arguments.
    pub fn parameters_schema(&self) -> (r: Json)
        ensures
            read_skill_schema(r@),
    {
        let mut o1: Vec<(String, Json)> = Vec::new();
        push_entry(&mut o1, "type", json_str("string"));
        push_entry(&mut o1, "description", json_str("The name of the skill."));
        assert(json::view_entries(o1@) =~= seq![("type"@, JsonView::Str("string"@)), ("description"@, JsonView::Str("The name of the skill."@))]);
        let j2 = Json::Object(o1);
        let ghost j2_v = j2@;
        let mut o3: Vec<(String, Json)> = Vec::new();
        push_entry(&mut o3, "type", json_str("string"));
        push_entry(&mut o3, "description", json_str("Optional path to the SKILL.md file to read."));
        assert(json::view_entries(o3@) =~= seq![("type"@, JsonView::Str("string"@)), ("description"@, JsonView::Str("Optional path to the SKILL.md file to read."@))]);
        let j4 = Json::Object(o3);
        let ghost j4_v = j4@;
        let mut o5: Vec<(String, Json)> = Vec::new();
        push_entry(&mut o5, "type", json_str("string"));
        push_entry(&mut o5, "description", json_str("Optional unique identifier for a skill bundled with the client."));
        assert(json::view_entries(o5@) =~= seq![("type"@, JsonView::Str("string"@)), ("description"@, JsonView::Str("Optional unique identifier for a skill bundled with the client."@))]);
        let j6 = Json::Object(o5);
        let ghost j6_v = j6@;
        let mut o7: Vec<(String, Json)> = Vec::new();
        push_entry(&mut o7, "name", j2);
        push_entry(&mut o7, "skill_path", j4);
        push_entry(&mut o7, "bundled_skill_id", j6);
        assert(json::view_entries(o7@) =~= seq![("name"@, j2_v), ("skill_path"@, j4_v), ("bundled_skill_id"@, j6_v)]);
        let j8 = Json::Object(o7);
        let ghost j8_v = j8@;
        let mut a9: Vec<Json> = Vec::new();
        push_item(&mut a9, json_str("name"));
        assert(json::view_items(a9@) =~= seq![JsonView::Str("name"@)]);
        let j10 = Json::Array(a9);
        let ghost j10_v = j10@;
        let mut o11: Vec<(String, Json)> = Vec::new();
        push_entry(&mut o11, "type", json_str("object"));
        push_entry(&mut o11, "properties", j8);
        push_entry(&mut o11, "required", j10);
        assert(json::view_entries(o11@) =~= seq![("type"@, JsonView::Str("object"@)), ("properties"@, j8_v), ("required"@, j10_v)]);
        let j12 = Json::Object(o11);
        let ghost j12_v = j12@;
        assert(j12_v == read_skill_schema_value());
        j12
    }

    /// Decodes the JSON arguments: `name` is required; a `skill_path`, or
    /// else a `bundled_skill_id`, names the skill's source.
    pub fn decode_call_args(&self, args: Json) -> (r: Result<Tool, Arc<AIApiError>>)
        ensures
            read_skill_decoded(args, r),
    {
        let name = match get_string(&args, "name") {
            Some(n) => n,
            None => {
                return Err(arg_error("read_skill: missing required `name` argument"));
            },
        };
        let skill_reference = match get_string(&args, "skill_path") {
            Some(p) => Some(SkillReference::SkillPath(p)),
            None => match get_string(&args, "bundled_skill_id") {
                Some(id) => Some(SkillReference::BundledSkillId(id)),
                None => None,
            },
        };
        Ok(Tool::ReadSkill(ReadSkill { name, skill_reference }))
    }

    /// Encodes a call back into its arguments (the skill name).
    pub fn encode_call_args(&self, tool: &Tool) -> (r: Json)
        ensures
            r@ == read_skill_call_args(tool),
    {
        let mut es: Vec<(String, Json)> = Vec::new();
        match tool {
            Tool::ReadSkill(c) => {
                push_entry(&mut es, "name", Json::Str(c.name.clone()));
                assert(json::view_entries(es@) =~= read_skill_args(*c)->Object_0);
            },
            _ => {
                assert(json::view_entries(es@) =~= Seq::<(Seq<char>, JsonView)>::empty());
            },
        }
        Json::Object(es)
    }

    /// The text sent back to the model for a result of this tool.
    pub fn encode_result_text(&self, result: &ToolResult) -> (r: Result<String, Arc<AIApiError>>)
        ensures
            read_skill_result_encoded(result, r),
    {
        match result {
            ToolResult::ReadSkill(o) => match o {
                Some(ReadSkillOutcome::Success(Some(c))) => Ok(
                    file_block_string(c.file_path.as_str(), c.content.as_str()),
                ),
                Some(ReadSkillOutcome::Success(None)) => Ok(text::owned("(no skill content)")),
                Some(ReadSkillOutcome::Error(e)) => Ok(error_string(e)),
                None => Ok(no_result()),
            },
            _ => Err(arg_error("read_skill: result variant mismatch")),
        }
    }

    pub fn matches_proto_call(&self, tool: &Tool) -> (r: bool)
        ensures
            r == (tool is ReadSkill),
    {
        match tool {
            Tool::ReadSkill(_) => true,
            _ => false,
        }
    }

    pub fn matches_proto_result(&self, result: &ToolResult) -> (r: bool)
        ensures
            r == (result is ReadSkill),
    {
        match result {
            ToolResult::ReadSkill(_) => true,
            _ => false,
        }
    }
}

// ---------------------------------------------------------------------------
// ReadMcpResource
// ---------------------------------------------------------------------------

pub open spec fn read_mcp_resource_args(c: ReadMcpResource) -> JsonView {
    JsonView::Object(seq![("uri"@, JsonView::Str(c.uri@))])
}

/// The text contents among `cs`, in order.
pub open spec fn mcp_resource_texts(cs: Seq<crate::proto::results::McpResourceContent>) -> Seq<Seq<char>>
    decreases cs.len(),
{
    if cs.len() == 0 {
        Seq::empty()
    } else {
        let rest = mcp_resource_texts(cs.drop_last());
        match cs.last().content_type {
            Some(McpResourceContentType::Text(t)) => rest.push(t@),
            _ => rest,
        }
    }
}

pub open spec fn read_mcp_resource_result_text(o: Option<ReadMcpResourceOutcome>) -> Seq<char> {
    match o {
        Some(ReadMcpResourceOutcome::Success(cs)) => text::joined(mcp_resource_texts(cs@), "\n"@),
        Some(ReadMcpResourceOutcome::Error(e)) => tools::error_text(e),
        None => "(no result)"@,
    }
}

/// What decoding a call\'s JSON arguments gives, or when it fails.
pub open spec fn read_mcp_resource_decoded(args: Json, r: Result<Tool, Arc<AIApiError>>) -> bool {
    match r {
        Ok(Tool::ReadMcpResource(c)) => args@.get_str("uri"@) == Some(c.uri@) && c.server_id@
            == json::str_or_empty(args@.get_str("server_id"@)),
        Ok(_) => false,
        Err(e) => args@.get_str("uri"@) is None && e.is_other(
            "read_mcp_resource: missing required `uri` argument"@,
        ),
    }
}

/// Every argument object that conforms to the schema this tool is offered
/// with decodes: the schema requires `uri`, with the types decoding takes.
pub proof fn lemma_read_mcp_resource_schema_conforming_args_decode(args: Json, r: Result<Tool, Arc<AIApiError>>)
    requires
        crate::tools::conforms_to_schema(args@, read_mcp_resource_schema_value()),
        read_mcp_resource_decoded(args, r),
    ensures
        r is Ok,
{
    reveal_strlit("array");
    reveal_strlit("boolean");
    reveal_strlit("integer");
    reveal_strlit("number");
    reveal_strlit("object");
    reveal_strlit("properties");
    reveal_strlit("required");
    reveal_strlit("server_id");
    reveal_strlit("string");
    reveal_strlit("type");
    reveal_strlit("uri");
    assert("type"@[0] != "properties"@[0]);
    assert("type"@[0] != "required"@[0]);
    assert("properties"@[0] != "required"@[0]);
    assert("string"@[0] != "array"@[0]);
    assert("string"@[0] != "object"@[0]);
    assert("string"@[0] != "boolean"@[0]);
    assert("string"@[0] != "integer"@[0]);
    assert("string"@[0] != "number"@[0]);
    assert("array"@[0] != "object"@[0]);
    assert("array"@[0] != "boolean"@[0]);
    assert("array"@[0] != "integer"@[0]);
    assert("array"@[0] != "number"@[0]);
    assert("object"@[0] != "boolean"@[0]);
    assert("object"@[0] != "integer"@[0]);
    assert("object"@[0] != "number"@[0]);
    assert("boolean"@[0] != "integer"@[0]);
    assert("boolean"@[0] != "number"@[0]);
    assert("integer"@[0] != "number"@[0]);
    reveal_with_fuel(crate::json::lookup, 3);
    reveal_with_fuel(crate::json::strings_of, 2);
    let sch = read_mcp_resource_schema_value();
    let es = sch->Object_0;
    assert(es.drop_first()[0] == es[1]);
    assert(es.drop_first().drop_first()[0] == es[2]);
    let req = seq![JsonView::Str("uri"@)];
    assert(sch.get_array("required"@) == Some(req));
    assert(req.take(0) =~= Seq::<JsonView>::empty());
    assert(req.take(1).drop_last() =~= req.take(0));
    assert(req.take(1) =~= req);
    assert(crate::tools::required_members(sch) =~= seq!["uri"@]);
    let ps = es[1].1->Object_0;
    assert(crate::tools::described_members(sch) == ps);
    assert(ps[0].0 == "uri"@);
    assert(ps[0].1.get_str("type"@) == Some("string"@));
    crate::tools::lemma_required_member_typed(args@, sch, 0, 0);
    assert(args@.get("uri"@)->0 is Str);
    assert(args@.get_str("uri"@) is Some);
}


/// The JSON arguments a call of this tool is encoded as; other calls give `{}`.
pub open spec fn read_mcp_resource_call_args(tool: &Tool) -> JsonView {
    match tool {
        Tool::ReadMcpResource(c) => read_mcp_resource_args(*c),
        _ => JsonView::Object(Seq::empty()),
    }
}

/// The text a result of this tool is sent as; other results are refused.
pub open spec fn read_mcp_resource_result_encoded(result: &ToolResult, r: Result<String, Arc<AIApiError>>) -> bool {
    match result {
        ToolResult::ReadMcpResource(o) => r matches Ok(s) && s@
            == read_mcp_resource_result_text(*o),
        _ => r matches Err(e) && e.is_other("read_mcp_resource: result variant mismatch"@),
    }
}

/// What the model is told the tool does.
pub open spec fn read_mcp_resource_description() -> Seq<char> {
    "Read a resource from a connected MCP server."@
}

/// The tool's argument schema.
pub open spec fn read_mcp_resource_schema_value() -> JsonView {
    JsonView::Object(
        seq![
            ("type"@, JsonView::Str("object"@)),
            (
                "properties"@,
                JsonView::Object(
                    seq![
                        (
                            "uri"@,
                            JsonView::Object(
                                seq![
                                    ("type"@, JsonView::Str("string"@)),
                                    ("description"@, JsonView::Str("The URI of the MCP resource to read."@)),
                                ],
                            ),
                        ),
                        (
                            "server_id"@,
                            JsonView::Object(
                                seq![
                                    ("type"@, JsonView::Str("string"@)),
                                    ("description"@, JsonView::Str("Optional identifier of the MCP server that provides this resource."@)),
                                ],
                            ),
                        ),
                    ],
                ),
            ),
            (
                "required"@,
                JsonView::Array(
                    seq![
                        JsonView::Str("uri"@),
                    ],
                ),
            ),
        ],
    )
}

/// `s` is the tool's argument schema.
pub open spec fn read_mcp_resource_schema(s: JsonView) -> bool {
    s == read_mcp_resource_schema_value()
}

impl ReadMcpResourceTool {
    pub fn name(&self) -> (r: &'static str)
        ensures
            r@ == "read_mcp_resource"@,
    {
        "read_mcp_resource"
    }

    pub fn description(&self) -> (r: &'static str)
        ensures
            r@ == read_mcp_resource_description(),
    {
        "Read a resource from a connected MCP server."
    }

    /// JSON Schema of the arguments.
    pub fn parameters_schema(&self) -> (r: Json)
        ensures
            read_mcp_resource_schema(r@),
    {
        let mut o1: Vec<(String, Json)> = Vec::new();
        push_entry(&mut o1, "type", json_str("string"));
        push_entry(&mut o1, "description", json_str("The URI of the MCP resource to read."));
        assert(json::view_entries(o1@) =~= seq![("type"@, JsonView::Str("string"@)), ("description"@, JsonView::Str("The URI of the MCP resource to read."@))]);
        let j2 = Json::Object(o1);
        let ghost j2_v = j2@;
        let mut o3: Vec<(String, Json)> = Vec::new();
        push_entry(&mut o3, "type", json_str("string"));
        push_entry(&mut o3, "description", json_str("Optional identifier of the MCP server that provides this resource."));
        assert(json::view_entries(o3@) =~= seq![("type"@, JsonView::Str("string"@)), ("description"@, JsonView::Str("Optional identifier of the MCP server that provides this resource."@))]);
        let j4 = Json::Object(o3);
        let ghost j4_v = j4@;
        let mut o5: Vec<(String, Json)> = Vec::new();
        push_entry(&mut o5, "uri", j2);
        push_entry(&mut o5, "server_id", j4);
        assert(json::view_entries(o5@) =~= seq![("uri"@, j2_v), ("server_id"@, j4_v)]);
        let j6 = Json::Object(o5);
        let ghost j6_v = j6@;
        let mut a7: Vec<Json> = Vec::new();
        push_item(&mut a7, json_str("uri"));
        assert(json::view_items(a7@) =~= seq![JsonView::Str("uri"@)]);
        let j8 = Json::Array(a7);
        let ghost j8_v = j8@;
        let mut o9: Vec<(String, Json)> = Vec::new();
        push_entry(&mut o9, "type", json_str("object"));
        push_entry(&mut o9, "properties", j6);
        push_entry(&mut o9, "required", j8);
        assert(json::view_entries(o9@) =~= seq![("type"@, JsonView::Str("object"@)), ("properties"@, j6_v), ("required"@, j8_v)]);
        let j10 = Json::Object(o9);
        let ghost j10_v = j10@;
        assert(j10_v == read_mcp_resource_schema_value());
        j10
    }

    /// Decodes the JSON arguments: `uri` is required; `server_id`
    /// defaults to empty.
    pub fn decode_call_args(&self, args: Json) -> (r: Result<Tool, Arc<AIApiError>>)
        ensures
            read_mcp_resource_decoded(args, r),
    {
        let uri = match get_string(&args, "uri") {
            Some(u) => u,
            None => {
                return Err(arg_error("read_mcp_resource: missing required `uri` argument"));
            },
        };
        let server_id = get_string_or_empty(&args, "server_id");
        Ok(Tool::ReadMcpResource(ReadMcpResource { uri, server_id }))
    }

    /// Encodes a call back into its arguments (the URI).
    pub fn encode_call_args(&self, tool: &Tool) -> (r: Json)
        ensures
            r@ == read_mcp_resource_call_args(tool),
    {
        let mut es: Vec<(String, Json)> = Vec::new();
        match tool {
            Tool::ReadMcpResource(c) => {
                push_entry(&mut es, "uri", Json::Str(c.uri.clone()));
                assert(json::view_entries(es@) =~= read_mcp_resource_args(*c)->Object_0);
            },
            _ => {
                assert(json::view_entries(es@) =~= Seq::<(Seq<char>, JsonView)>::empty());
            },
        }
        Json::Object(es)
    }

    /// The text sent back to the model for a result of this tool.
    pub fn encode_result_text(&self, result: &ToolResult) -> (r: Result<String, Arc<AIApiError>>)
        ensures
            read_mcp_resource_result_encoded(result, r),
    {
        match result {
            ToolResult::ReadMcpResource(o) => match o {
                Some(ReadMcpResourceOutcome::Success(cs)) => {
                    let mut parts: Vec<String> = Vec::new();
                    let mut i: usize = 0;
                    while i < cs.len()
                        invariant
                            i <= cs.len(),
                            text::string_views(parts@) == mcp_resource_texts(cs@.take(i as int)),
                        decreases cs.len() - i,
                    {
                        assert(cs@.take(i + 1).drop_last() =~= cs@.take(i as int));
                        match &cs[i].content_type {
                            Some(McpResourceContentType::Text(t)) => {
                                let ghost before = parts@;
                                parts.push(t.clone());
                                assert(text::string_views(parts@) =~= text::string_views(before).push(t@));
                            },
                            _ => {},
                        }
                        i = i + 1;
                    }
                    assert(cs@.take(cs.len() as int) =~= cs@);
                    Ok(join(&parts, "\n"))
                },
                Some(ReadMcpResourceOutcome::Error(e)) => Ok(error_string(e)),
                None => Ok(no_result()),
            },
            _ => Err(arg_error("read_mcp_resource: result variant mismatch")),
        }
    }

    pub fn matches_proto_call(&self, tool: &Tool) -> (r: bool)
        ensures
            r == (tool is ReadMcpResource),
    {
        match tool {
            Tool::ReadMcpResource(_) => true,
            _ => false,
        }
    }

    pub fn matches_proto_result(&self, result: &ToolResult) -> (r: bool)
        ensures
            r == (result is ReadMcpResource),
    {
        match result {
            ToolResult::ReadMcpResource(_) => true,
            _ => false,
        }
    }
}

} // verus!
