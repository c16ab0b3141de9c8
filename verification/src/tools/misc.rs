//! Miscellaneous tools: SearchCodebase, CallMcpTool, UseComputer,
//! RequestComputerUse, InsertReviewComments, UploadFileArtifact.

use std::sync::Arc;

use vstd::prelude::*;
use vstd::string::*;

use crate::error::AIApiError;
use crate::json::{
    self, collect_strings, get_array, get_i64, get_str, get_string, get_string_or_empty,
    json_str, json_str_array, push_entry, push_item, Json, JsonNumber, JsonView,
};
use crate::proto::calls::{
    CallMcpTool, CommentLineRange, CommentLocation, ComputerAction, ComputerActionKind, Coordinates,
    FilePathReference, InsertReviewComments, McpStruct, McpValue, MouseButton, ProtoDuration,
    RequestComputerUse, ReviewComment, SearchCodebase, Tool, UploadFileArtifact, UseComputer,
};
use crate::proto::results::{
    CallMcpToolOutcome, InsertReviewCommentsOutcome, McpToolContent, RequestComputerUseOutcome,
    SearchCodebaseOutcome, ToolResult, UploadFileArtifactOutcome, UseComputerOutcome,
};
use crate::text::{self, join, push_i64, push_u64, str_eq};
use crate::tools::{
    self, arg_error, error_string, no_result,
};

verus! {

pub struct SearchCodebaseTool;

pub struct CallMcpToolTool;

pub struct UseComputerTool;

pub struct RequestComputerUseTool;

pub struct InsertReviewCommentsTool;

pub struct UploadFileArtifactTool;

pub const SEARCH_CODEBASE: SearchCodebaseTool = SearchCodebaseTool;

pub const CALL_MCP_TOOL: CallMcpToolTool = CallMcpToolTool;

pub const USE_COMPUTER: UseComputerTool = UseComputerTool;

pub const REQUEST_COMPUTER_USE: RequestComputerUseTool = RequestComputerUseTool;

pub const INSERT_REVIEW_COMMENTS: InsertReviewCommentsTool = InsertReviewCommentsTool;

pub const UPLOAD_FILE_ARTIFACT: UploadFileArtifactTool = UploadFileArtifactTool;

// ---------------------------------------------------------------------------
// SearchCodebase
// ---------------------------------------------------------------------------

pub open spec fn search_codebase_args(c: SearchCodebase) -> JsonView {
    JsonView::Object(
        seq![
            ("query"@, JsonView::Str(c.query@)),
            ("path_filters"@, JsonView::Array(json::str_views(c.path_filters@))),
            ("codebase_path"@, JsonView::Str(c.codebase_path@)),
        ],
    )
}

/// `path[:start-end]:\ncontent` for one matched file.
pub open spec fn codebase_snippet(f: crate::proto::results::CodebaseFile) -> Seq<char> {
    f.file_path@ + match f.line_range {
        Some(lr) => ":"@ + text::decimal(lr.start as int) + "-"@ + text::decimal(lr.end as int),
        None => Seq::empty(),
    } + ":\n"@ + f.content@
}

pub open spec fn search_codebase_result_text(o: Option<SearchCodebaseOutcome>) -> Seq<char> {
    match o {
        Some(SearchCodebaseOutcome::Success(files)) => text::joined(
            files@.map_values(|f: crate::proto::results::CodebaseFile| codebase_snippet(f)),
            "\n---\n"@,
        ),
        Some(SearchCodebaseOutcome::Error(e)) => tools::error_text(e),
        None => "(no result)"@,
    }
}

pub open spec fn strings_opt(a: Option<Seq<JsonView>>) -> Seq<Seq<char>> {
    match a {
        Some(items) => json::strings_of(items),
        None => Seq::empty(),
    }
}

fn snippet(f: &crate::proto::results::CodebaseFile) -> (r: String)
    ensures
        r@ == codebase_snippet(*f),
{
    let mut out = f.file_path.clone();
    match &f.line_range {
        Some(lr) => {
            out.append(":");
            push_u64(&mut out, lr.start as u64);
            out.append("-");
            push_u64(&mut out, lr.end as u64);
        },
        None => {},
    }
    out.append(":\n");
    out.append(f.content.as_str());
    assert(out@ =~= codebase_snippet(*f));
    out
}

/// What decoding a call\'s JSON arguments gives, or when it fails.
pub open spec fn search_codebase_decoded(args: Json, r: Result<Tool, Arc<AIApiError>>) -> bool {
    match r {
        Ok(Tool::SearchCodebase(c)) => {
            &&& args@.get_str("query"@) == Some(c.query@)
            &&& text::string_views(c.path_filters@) == strings_opt(
                args@.get_array("path_filters"@),
            )
            &&& c.codebase_path@ == json::str_or_empty(args@.get_str("codebase_path"@))
        },
        Ok(_) => false,
        Err(e) => args@.get_str("query"@) is None && e.is_other(
            "search_codebase: missing required `query` argument"@,
        ),
    }
}

/// Every argument object that conforms to the schema this tool is offered
/// with decodes: the schema requires `query`, with the types decoding takes.
pub proof fn lemma_search_codebase_schema_conforming_args_decode(args: Json, r: Result<Tool, Arc<AIApiError>>)
    requires
        crate::tools::conforms_to_schema(args@, search_codebase_schema_value()),
        search_codebase_decoded(args, r),
    ensures
        r is Ok,
{
    reveal_strlit("array");
    reveal_strlit("boolean");
    reveal_strlit("codebase_path");
    reveal_strlit("integer");
    reveal_strlit("number");
    reveal_strlit("object");
    reveal_strlit("path_filters");
    reveal_strlit("properties");
    reveal_strlit("query");
    reveal_strlit("required");
    reveal_strlit("string");
    reveal_strlit("type");
    assert("type"@[0] != "properties"@[0]);
    assert("type"@[0] != "required"@[0]);
    assert("properties"@[0] != "required"@[0]);
    assert("string"@[0] != "array"@[0]);
    assert("string"@[0] != "object"@[0]);
    assert("string"@[0] != "boolean"@[0]);
    assert("string"@[0] != "integer"@[0]);
    assert("string"@[0] != "number"@[0]);
    assert("array"@[0] != "object"@[0]);
    assert("array"@[0] != "boolean"@[0]);
    assert("array"@[0] != "integer"@[0]);
    assert("array"@[0] != "number"@[0]);
    assert("object"@[0] != "boolean"@[0]);
    assert("object"@[0] != "integer"@[0]);
    assert("object"@[0] != "number"@[0]);
    assert("boolean"@[0] != "integer"@[0]);
    assert("boolean"@[0] != "number"@[0]);
    assert("integer"@[0] != "number"@[0]);
    reveal_with_fuel(crate::json::lookup, 3);
    reveal_with_fuel(crate::json::strings_of, 2);
    let sch = search_codebase_schema_value();
    let es = sch->Object_0;
    assert(es.drop_first()[0] == es[1]);
    assert(es.drop_first().drop_first()[0] == es[2]);
    let req = seq![JsonView::Str("query"@)];
    assert(sch.get_array("required"@) == Some(req));
    assert(req.take(0) =~= Seq::<JsonView>::empty());
    assert(req.take(1).drop_last() =~= req.take(0));
    assert(req.take(1) =~= req);
    assert(crate::tools::required_members(sch) =~= seq!["query"@]);
    let ps = es[1].1->Object_0;
    assert(crate::tools::described_members(sch) == ps);
    assert(ps[0].0 == "query"@);
    assert(ps[0].1.get_str("type"@) == Some("string"@));
    crate::tools::lemma_required_member_typed(args@, sch, 0, 0);
    assert(args@.get("query"@)->0 is Str);
    assert(args@.get_str("query"@) is Some);
}


/// The JSON arguments a call of this tool is encoded as; other calls give `{}`.
pub open spec fn search_codebase_call_args(tool: &Tool) -> JsonView {
    match tool {
        Tool::SearchCodebase(c) => search_codebase_args(*c),
        _ => JsonView::Object(Seq::empty()),
    }
}

/// The text a result of this tool is sent as; other results are refused.
pub open spec fn search_codebase_result_encoded(result: &ToolResult, r: Result<String, Arc<AIApiError>>) -> bool {
    match result {
        ToolResult::SearchCodebase(o) => r matches Ok(s) && s@ == search_codebase_result_text(*o),
        _ => r matches Err(e) && e.is_other("search_codebase: result variant mismatch"@),
    }
}

/// What the model is told the tool does.
pub open spec fn search_codebase_description() -> Seq<char> {
    "Semantic search across the user's indexed codebase."@
}

/// The tool's argument schema.
pub open spec fn search_codebase_schema_value() -> JsonView {
    JsonView::Object(
        seq![
            ("type"@, JsonView::Str("object"@)),
            (
                "properties"@,
                JsonView::Object(
                    seq![
                        (
                            "query"@,
                            JsonView::Object(
                                seq![
                                    ("type"@, JsonView::Str("string"@)),
                                    ("description"@, JsonView::Str("The natural-language or keyword query to search for."@)),
                                ],
                            ),
                        ),
                        (
                            "path_filters"@,
                            JsonView::Object(
                                seq![
                                    ("type"@, JsonView::Str("array"@)),
                                    (
                                        "items"@,
                                        JsonView::Object(
                                            seq![
                                                ("type"@, JsonView::Str("string"@)),
                                            ],
                                        ),
                                    ),
                                    ("description"@, JsonView::Str("Optional list of path prefixes to restrict the search."@)),
                                ],
                            ),
                        ),
                        (
                            "codebase_path"@,
                            JsonView::Object(
                                seq![
                                    ("type"@, JsonView::Str("string"@)),
                                    ("description"@, JsonView::Str("Absolute path to the codebase root. Defaults to the user's current directory."@)),
                                ],
                            ),
                        ),
                    ],
                ),
            ),
            (
                "required"@,
                JsonView::Array(
                    seq![
                        JsonView::Str("query"@),
                    ],
                ),
            ),
        ],
    )
}

/// `s` is the tool's argument schema.
pub open spec fn search_codebase_schema(s: JsonView) -> bool {
    s == search_codebase_schema_value()
}

/// Decoding the arguments a codebase search is encoded to gives the same
/// query, path filters and codebase path back.
pub proof fn lemma_search_codebase_round_trip(c: SearchCodebase, args: Json, r: Result<Tool, Arc<AIApiError>>)
    requires
        args@ == search_codebase_args(c),
        search_codebase_decoded(args, r),
    ensures
        r matches Ok(Tool::SearchCodebase(d)) && d.query@ == c.query@ && text::string_views(
            d.path_filters@,
        ) == text::string_views(c.path_filters@) && d.codebase_path@ == c.codebase_path@,
{
    reveal_strlit("query");
    reveal_strlit("path_filters");
    reveal_strlit("codebase_path");
    reveal_with_fuel(json::lookup, 4);
    let es = search_codebase_args(c)->Object_0;
    assert(es.drop_first()[0] == es[1]);
    assert(es.drop_first().drop_first()[0] == es[2]);
    assert("query"@[0] != "path_filters"@[0]);
    assert("query"@[0] != "codebase_path"@[0]);
    assert("path_filters"@[0] != "codebase_path"@[0]);
    assert(args@.get_array("path_filters"@) == Some(json::str_views(c.path_filters@)));
    assert(args@.get_str("codebase_path"@) == Some(c.codebase_path@));
    json::lemma_strings_of_str_views(c.path_filters@);
}

/// Decoding the arguments a computer-use request is encoded to gives the
/// request back.
pub proof fn lemma_request_computer_use_round_trip(
    c: RequestComputerUse,
    args: Json,
    r: Result<Tool, Arc<AIApiError>>,
)
    requires
        c.screenshot_params is None,
        args@ == request_computer_use_args(c),
        request_computer_use_decoded(args, r),
    ensures
        r matches Ok(Tool::RequestComputerUse(d)) && d.task_summary@ == c.task_summary@
            && d.screenshot_params == c.screenshot_params,
{
}

/// Decoding the arguments an upload call is encoded to gives the call
/// back, for a call that names its file.
pub proof fn lemma_upload_file_artifact_round_trip(
    c: UploadFileArtifact,
    args: Json,
    r: Result<Tool, Arc<AIApiError>>,
)
    requires
        c.file is Some,
        args@ == upload_file_artifact_args(c),
        upload_file_artifact_decoded(args, r),
    ensures
        r matches Ok(Tool::UploadFileArtifact(d)) && d.file matches Some(f) && f.file_path@
            == c.file->Some_0.file_path@ && d.description@ == c.description@,
{
    reveal_with_fuel(json::lookup, 3);
    reveal_strlit("file");
    reveal_strlit("description");
    let es = upload_file_artifact_args(c)->Object_0;
    assert(es.drop_first()[0] == es[1]);
    assert("file"@[0] != "description"@[0]);
    assert(args@.get_str("description"@) == Some(c.description@));
}

impl SearchCodebaseTool {
    pub fn name(&self) -> (r: &'static str)
        ensures
            r@ == "search_codebase"@,
    {
        "search_codebase"
    }

    pub fn description(&self) -> (r: &'static str)
        ensures
            r@ == search_codebase_description(),
    {
        "Semantic search across the user's indexed codebase."
    }

    /// JSON Schema of the arguments.
    pub fn parameters_schema(&self) -> (r: Json)
        ensures
            search_codebase_schema(r@),
    {
        let mut o1: Vec<(String, Json)> = Vec::new();
        push_entry(&mut o1, "type", json_str("string"));
        push_entry(&mut o1, "description", json_str("The natural-language or keyword query to search for."));
        assert(json::view_entries(o1@) =~= seq![("type"@, JsonView::Str("string"@)), ("description"@, JsonView::Str("The natural-language or keyword query to search for."@))]);
        let j2 = Json::Object(o1);
        let ghost j2_v = j2@;
        let mut o3: Vec<(String, Json)> = Vec::new();
        push_entry(&mut o3, "type", json_str("string"));
        assert(json::view_entries(o3@) =~= seq![("type"@, JsonView::Str("string"@))]);
        let j4 = Json::Object(o3);
        let ghost j4_v = j4@;
        let mut o5: Vec<(String, Json)> = Vec::new();
        push_entry(&mut o5, "type", json_str("array"));
        push_entry(&mut o5, "items", j4);
        push_entry(&mut o5, "description", json_str("Optional list of path prefixes to restrict the search."));
        assert(json::view_entries(o5@) =~= seq![("type"@, JsonView::Str("array"@)), ("items"@, j4_v), ("description"@, JsonView::Str("Optional list of path prefixes to restrict the search."@))]);
        let j6 = Json::Object(o5);
        let ghost j6_v = j6@;
        let mut o7: Vec<(String, Json)> = Vec::new();
        push_entry(&mut o7, "type", json_str("string"));
        push_entry(&mut o7, "description", json_str("Absolute path to the codebase root. Defaults to the user's current directory."));
        assert(json::view_entries(o7@) =~= seq![("type"@, JsonView::Str("string"@)), ("description"@, JsonView::Str("Absolute path to the codebase root. Defaults to the user's current directory."@))]);
        let j8 = Json::Object(o7);
        let ghost j8_v = j8@;
        let mut o9: Vec<(String, Json)> = Vec::new();
        push_entry(&mut o9, "query", j2);
        push_entry(&mut o9, "path_filters", j6);
        push_entry(&mut o9, "codebase_path", j8);
        assert(json::view_entries(o9@) =~= seq![("query"@, j2_v), ("path_filters"@, j6_v), ("codebase_path"@, j8_v)]);
        let j10 = Json::Object(o9);
        let ghost j10_v = j10@;
        let mut a11: Vec<Json> = Vec::new();
        push_item(&mut a11, json_str("query"));
        assert(json::view_items(a11@) =~= seq![JsonView::Str("query"@)]);
        let j12 = Json::Array(a11);
        let ghost j12_v = j12@;
        let mut o13: Vec<(String, Json)> = Vec::new();
        push_entry(&mut o13, "type", json_str("object"));
        push_entry(&mut o13, "properties", j10);
        push_entry(&mut o13, "required", j12);
        assert(json::view_entries(o13@) =~= seq![("type"@, JsonView::Str("object"@)), ("properties"@, j10_v), ("required"@, j12_v)]);
        let j14 = Json::Object(o13);
        let ghost j14_v = j14@;
        assert(j14_v == search_codebase_schema_value());
        j14
    }

    /// Decodes the JSON arguments: `query` is required; the string
    /// elements of `path_filters` are kept; `codebase_path` defaults to
    /// empty.
    pub fn decode_call_args(&self, args: Json) -> (r: Result<Tool, Arc<AIApiError>>)
        ensures
            search_codebase_decoded(args, r),
    {
        let query = match get_string(&args, "query") {
            Some(q) => q,
            None => {
                return Err(arg_error("search_codebase: missing required `query` argument"));
            },
        };
        let path_filters = match get_array(&args, "path_filters") {
            Some(a) => collect_strings(a),
            None => Vec::new(),
        };
        proof {
            assert(text::string_views(path_filters@) == strings_opt(args@.get_array("path_filters"@)));
        }
        let codebase_path = get_string_or_empty(&args, "codebase_path");
        Ok(Tool::SearchCodebase(SearchCodebase { query, path_filters, codebase_path }))
    }

    /// Encodes a call back into its arguments.
    pub fn encode_call_args(&self, tool: &Tool) -> (r: Json)
        ensures
            r@ == search_codebase_call_args(tool),
    {
        let mut es: Vec<(String, Json)> = Vec::new();
        match tool {
            Tool::SearchCodebase(c) => {
                push_entry(&mut es, "query", Json::Str(c.query.clone()));
                push_entry(&mut es, "path_filters", json_str_array(&c.path_filters));
                push_entry(&mut es, "codebase_path", Json::Str(c.codebase_path.clone()));
                assert(json::view_entries(es@) =~= search_codebase_args(*c)->Object_0);
            },
            _ => {
                assert(json::view_entries(es@) =~= Seq::<(Seq<char>, JsonView)>::empty());
            },
        }
        Json::Object(es)
    }

    /// The text sent back to the model for a result of this tool.
    pub fn encode_result_text(&self, result: &ToolResult) -> (r: Result<String, Arc<AIApiError>>)
        ensures
            search_codebase_result_encoded(result, r),
    {
        match result {
            ToolResult::SearchCodebase(o) => match o {
                Some(SearchCodebaseOutcome::Success(files)) => {
                    let ghost target = files@.map_values(
                        |f: crate::proto::results::CodebaseFile| codebase_snippet(f),
                    );
                    let mut parts: Vec<String> = Vec::new();
                    let mut i: usize = 0;
                    while i < files.len()
                        invariant
                            i <= files.len(),
                            target == files@.map_values(
                                |f: crate::proto::results::CodebaseFile| codebase_snippet(f),
                            ),
                            text::string_views(parts@) == target.take(i as int),
                        decreases files.len() - i,
                    {
                        let ghost before = parts@;
                        parts.push(snippet(&files[i]));
                        assert(text::string_views(parts@) =~= text::string_views(before).push(
                            target[i as int],
                        ));
                        assert(target.take(i + 1) =~= target.take(i as int).push(target[i as int]));
                        i = i + 1;
                    }
                    assert(target.take(files.len() as int) =~= target);
                    Ok(join(&parts, "\n---\n"))
                },
                Some(SearchCodebaseOutcome::Error(e)) => Ok(error_string(e)),
                None => Ok(no_result()),
            },
            _ => Err(arg_error("search_codebase: result variant mismatch")),
        }
    }

    pub fn matches_proto_call(&self, tool: &Tool) -> (r: bool)
        ensures
            r == (tool is SearchCodebase),
    {
        match tool {
            Tool::SearchCodebase(_) => true,
            _ => false,
        }
    }

    pub fn matches_proto_result(&self, result: &ToolResult) -> (r: bool)
        ensures
            r == (result is SearchCodebase),
    {
        match result {
            ToolResult::SearchCodebase(_) => true,
            _ => false,
        }
    }
}

// ---------------------------------------------------------------------------
// CallMcpTool
// ---------------------------------------------------------------------------

/// A JSON value as an MCP value; the result reads back as the same JSON.
pub fn json_to_mcp_value(v: &Json) -> (r: McpValue)
    ensures
        r.view() == v@,
    decreases v,
{
    match v {
        Json::Null => McpValue::Null,
        Json::Bool(b) => McpValue::Bool(*b),
        Json::Number(n) => McpValue::Number(n.duplicate()),
        Json::Str(s) => McpValue::Str(s.clone()),
        Json::Array(items) => {
            proof {
                json::lemma_view_items_len(items@);
            }
            let ghost vs = json::view_items(items@);
            let mut out: Vec<McpValue> = Vec::new();
            let mut i: usize = 0;
            while i < items.len()
                invariant
                    i <= items.len(),
                    vs == json::view_items(items@),
                    vs.len() == items.len(),
                    forall|k: int| 0 <= k < items.len() ==> #[trigger] vs[k] == items@[k]@,
                    crate::proto::calls::mcp_items_view(out@) == vs.take(i as int),
                    *v == Json::Array(*items),
                decreases items.len() - i,
            {
                proof {
                    let ghost xs = *items;
                    assert(decreases_to!(*v => (*v)->Array_0));
                    assert((*v)->Array_0 == xs);
                    assert(decreases_to!(xs => xs[i as int]));
                    assert(decreases_to!(*v => xs[i as int]));
                }
                let x = json_to_mcp_value(&items[i]);
                let ghost before = out@;
                let ghost xv = x.view();
                out.push(x);
                proof {
                    crate::proto::calls::lemma_mcp_items_push(before, x);
                }
                assert(vs.take(i + 1) =~= vs.take(i as int).push(vs[i as int]));
                i = i + 1;
            }
            assert(vs.take(items.len() as int) =~= vs);
            McpValue::List(out)
        },
        Json::Object(es) => {
            proof {
                json::lemma_view_entries_len(es@);
            }
            let ghost vs = json::view_entries(es@);
            let mut out: Vec<(String, McpValue)> = Vec::new();
            let mut i: usize = 0;
            while i < es.len()
                invariant
                    i <= es.len(),
                    vs == json::view_entries(es@),
                    vs.len() == es.len(),
                    forall|k: int| 0 <= k < es.len() ==> #[trigger] vs[k] == (es@[k].0@, es@[k].1@),
                    crate::proto::calls::mcp_fields_view(out@) == vs.take(i as int),
                    *v == Json::Object(*es),
                decreases es.len() - i,
            {
                proof {
                    let ghost xs = *es;
                    assert(decreases_to!(*v => (*v)->Object_0));
                    assert((*v)->Object_0 == xs);
                    assert(decreases_to!(xs => xs[i as int]));
                    assert(decreases_to!(xs[i as int] => xs[i as int].1));
                    assert(decreases_to!(*v => es[i as int].1));
                }
                let x = json_to_mcp_value(&es[i].1);
                let f = (es[i].0.clone(), x);
                let ghost before = out@;
                proof {
                    crate::proto::calls::lemma_mcp_fields_push(before, f);
                }
                out.push(f);
                assert(vs.take(i + 1) =~= vs.take(i as int).push(vs[i as int]));
                i = i + 1;
            }
            assert(vs.take(es.len() as int) =~= vs);
            McpValue::Struct(out)
        },
    }
}

/// The members of a JSON object, as MCP values; a non-object gives no
/// members.
pub open spec fn object_members(v: JsonView) -> Seq<(Seq<char>, JsonView)> {
    match v {
        JsonView::Object(es) => es,
        _ => Seq::empty(),
    }
}

/// Converts a JSON object into an MCP struct with the same members;
/// anything else becomes an empty struct.
pub fn json_object_to_prost_struct(v: &Json) -> (r: McpStruct)
    ensures
        crate::proto::calls::mcp_fields_view(r.fields@) == object_members(v@),
{
    match json_to_mcp_value(v) {
        McpValue::Struct(fields) => McpStruct { fields },
        _ => {
            let fields: Vec<(String, McpValue)> = Vec::new();
            assert(crate::proto::calls::mcp_fields_view(fields@) =~= Seq::<(Seq<char>, JsonView)>::empty());
            McpStruct { fields }
        },
    }
}

pub open spec fn call_mcp_tool_args(c: CallMcpTool) -> JsonView {
    JsonView::Object(
        seq![("name"@, JsonView::Str(c.name@)), ("server_id"@, JsonView::Str(c.server_id@))],
    )
}

/// How one MCP tool output is shown: text as is, images and resources as
/// a bracketed summary.
pub open spec fn mcp_output_text(c: McpToolContent) -> Seq<char> {
    match c {
        McpToolContent::Text(t) => t@,
        McpToolContent::Image { data, mime_type } => "[image: "@ + text::decimal(data@.len() as int)
            + " bytes, "@ + mime_type@ + "]"@,
        McpToolContent::Resource { uri } => "[resource: "@ + uri@ + "]"@,
    }
}

/// The texts of the outputs that carry content, in order.
pub open spec fn mcp_output_texts(rs: Seq<crate::proto::results::McpToolOutput>) -> Seq<Seq<char>>
    decreases rs.len(),
{
    if rs.len() == 0 {
        Seq::empty()
    } else {
        let rest = mcp_output_texts(rs.drop_last());
        match rs.last().result {
            Some(c) => rest.push(mcp_output_text(c)),
            None => rest,
        }
    }
}

pub open spec fn call_mcp_tool_result_text(o: Option<CallMcpToolOutcome>) -> Seq<char> {
    match o {
        Some(CallMcpToolOutcome::Success(rs)) => text::joined(mcp_output_texts(rs@), "\n"@),
        Some(CallMcpToolOutcome::Error(e)) => tools::error_text(e),
        None => "(no result)"@,
    }
}

fn mcp_output_string(c: &McpToolContent) -> (r: String)
    ensures
        r@ == mcp_output_text(*c),
{
    match c {
        McpToolContent::Text(t) => t.clone(),
        McpToolContent::Image { data, mime_type } => {
            let mut out = text::owned("[image: ");
            push_u64(&mut out, data.len() as u64);
            out.append(" bytes, ");
            out.append(mime_type.as_str());
            out.append("]");
            assert(out@ =~= mcp_output_text(*c));
            out
        },
        McpToolContent::Resource { uri } => {
            let mut out = text::owned("[resource: ");
            out.append(uri.as_str());
            out.append("]");
            assert(out@ =~= mcp_output_text(*c));
            out
        },
    }
}

/// What decoding a call\'s JSON arguments gives, or when it fails.
pub open spec fn call_mcp_tool_decoded(args: Json, r: Result<Tool, Arc<AIApiError>>) -> bool {
    match r {
        Ok(Tool::CallMcpTool(c)) => {
            &&& args@.get_str("name"@) == Some(c.name@)
            &&& c.args matches Some(st) && crate::proto::calls::mcp_fields_view(st.fields@)
                == match args@.get("args"@) {
                Some(a) => object_members(a),
                None => Seq::empty(),
            }
            &&& c.server_id@ == json::str_or_empty(args@.get_str("server_id"@))
        },
        Ok(_) => false,
        Err(e) => args@.get_str("name"@) is None && e.is_other(
            "call_mcp_tool: missing required `name` argument"@,
        ),
    }
}

/// Every argument object that conforms to the schema this tool is offered
/// with decodes: the schema requires `name` and `args`, with the types decoding takes.
pub proof fn lemma_call_mcp_tool_schema_conforming_args_decode(args: Json, r: Result<Tool, Arc<AIApiError>>)
    requires
        crate::tools::conforms_to_schema(args@, call_mcp_tool_schema_value()),
        call_mcp_tool_decoded(args, r),
    ensures
        r is Ok,
{
    reveal_strlit("args");
    reveal_strlit("array");
    reveal_strlit("boolean");
    reveal_strlit("integer");
    reveal_strlit("name");
    reveal_strlit("number");
    reveal_strlit("object");
    reveal_strlit("properties");
    reveal_strlit("required");
    reveal_strlit("server_id");
    reveal_strlit("string");
    reveal_strlit("type");
    assert("type"@[0] != "properties"@[0]);
    assert("type"@[0] != "required"@[0]);
    assert("properties"@[0] != "required"@[0]);
    assert("string"@[0] != "array"@[0]);
    assert("string"@[0] != "object"@[0]);
    assert("string"@[0] != "boolean"@[0]);
    assert("string"@[0] != "integer"@[0]);
    assert("string"@[0] != "number"@[0]);
    assert("array"@[0] != "object"@[0]);
    assert("array"@[0] != "boolean"@[0]);
    assert("array"@[0] != "integer"@[0]);
    assert("array"@[0] != "number"@[0]);
    assert("object"@[0] != "boolean"@[0]);
    assert("object"@[0] != "integer"@[0]);
    assert("object"@[0] != "number"@[0]);
    assert("boolean"@[0] != "integer"@[0]);
    assert("boolean"@[0] != "number"@[0]);
    assert("integer"@[0] != "number"@[0]);
    reveal_with_fuel(crate::json::lookup, 3);
    reveal_with_fuel(crate::json::strings_of, 3);
    let sch = call_mcp_tool_schema_value();
    let es = sch->Object_0;
    assert(es.drop_first()[0] == es[1]);
    assert(es.drop_first().drop_first()[0] == es[2]);
    let req = seq![JsonView::Str("name"@), JsonView::Str("args"@)];
    assert(sch.get_array("required"@) == Some(req));
    assert(req.take(0) =~= Seq::<JsonView>::empty());
    assert(req.take(1).drop_last() =~= req.take(0));
    assert(req.take(2).drop_last() =~= req.take(1));
    assert(req.take(2) =~= req);
    assert(crate::tools::required_members(sch) =~= seq!["name"@, "args"@]);
    let ps = es[1].1->Object_0;
    assert(crate::tools::described_members(sch) == ps);
    assert(ps[0].0 == "name"@);
    assert(ps[0].1.get_str("type"@) == Some("string"@));
    crate::tools::lemma_required_member_typed(args@, sch, 0, 0);
    assert(args@.get("name"@)->0 is Str);
    assert(args@.get_str("name"@) is Some);
    assert(ps[1].0 == "args"@);
    assert(ps[1].1.get_str("type"@) == Some("object"@));
    crate::tools::lemma_required_member_typed(args@, sch, 1, 1);
}


/// The JSON arguments a call of this tool is encoded as; other calls give `{}`.
pub open spec fn call_mcp_tool_call_args(tool: &Tool) -> JsonView {
    match tool {
        Tool::CallMcpTool(c) => call_mcp_tool_args(*c),
        _ => JsonView::Object(Seq::empty()),
    }
}

/// The text a result of this tool is sent as; other results are refused.
pub open spec fn call_mcp_tool_result_encoded(result: &ToolResult, r: Result<String, Arc<AIApiError>>) -> bool {
    match result {
        ToolResult::CallMcpTool(o) => r matches Ok(s) && s@ == call_mcp_tool_result_text(*o),
        _ => r matches Err(e) && e.is_other("call_mcp_tool: result variant mismatch"@),
    }
}

/// What the model is told the tool does.
pub open spec fn call_mcp_tool_description() -> Seq<char> {
    "Invoke a tool exposed by a connected MCP server. \
 The args are an arbitrary JSON object specific to the tool."@
}

/// The tool's argument schema.
pub open spec fn call_mcp_tool_schema_value() -> JsonView {
    JsonView::Object(
        seq![
            ("type"@, JsonView::Str("object"@)),
            (
                "properties"@,
                JsonView::Object(
                    seq![
                        (
                            "name"@,
                            JsonView::Object(
                                seq![
                                    ("type"@, JsonView::Str("string"@)),
                                    ("description"@, JsonView::Str("The name of the MCP tool to invoke."@)),
                                ],
                            ),
                        ),
                        (
                            "args"@,
                            JsonView::Object(
                                seq![
                                    ("type"@, JsonView::Str("object"@)),
                                    ("description"@, JsonView::Str("Tool-specific arguments as a JSON object."@)),
                                    ("additionalProperties"@, JsonView::Bool(true)),
                                ],
                            ),
                        ),
                        (
                            "server_id"@,
                            JsonView::Object(
                                seq![
                                    ("type"@, JsonView::Str("string"@)),
                                    ("description"@, JsonView::Str("Optional ID of the MCP server that exposes this tool."@)),
                                ],
                            ),
                        ),
                    ],
                ),
            ),
            (
                "required"@,
                JsonView::Array(
                    seq![
                        JsonView::Str("name"@),
                        JsonView::Str("args"@),
                    ],
                ),
            ),
        ],
    )
}

/// `s` is the tool's argument schema.
pub open spec fn call_mcp_tool_schema(s: JsonView) -> bool {
    s == call_mcp_tool_schema_value()
}

/// Decoding the arguments an MCP tool call is encoded to gives the call
/// back, for a call without arguments for the tool (the encoding sends
/// only the name and the server id, and missing arguments are empty).
pub proof fn lemma_call_mcp_tool_round_trip(c: CallMcpTool, args: Json, r: Result<Tool, Arc<AIApiError>>)
    requires
        c.args matches Some(st) && st.fields@.len() == 0,
        args@ == call_mcp_tool_args(c),
        call_mcp_tool_decoded(args, r),
    ensures
        r matches Ok(Tool::CallMcpTool(d)) && d.name@ == c.name@ && d.server_id@ == c.server_id@
            && (d.args matches Some(st) && st.fields@.len() == 0),
{
    reveal_strlit("name");
    reveal_strlit("server_id");
    reveal_strlit("args");
    reveal_with_fuel(json::lookup, 3);
    let es = call_mcp_tool_args(c)->Object_0;
    assert(es.drop_first()[0] == es[1]);
    assert("name"@[0] != "server_id"@[0]);
    assert("name"@[0] != "args"@[0]);
    assert("server_id"@[0] != "args"@[0]);
    assert(args@.get_str("server_id"@) == Some(c.server_id@));
    assert(args@.get("args"@) is None);
    if let Ok(Tool::CallMcpTool(d)) = r {
        let st = d.args->Some_0;
        assert(crate::proto::calls::mcp_fields_view(st.fields@).len() == 0);
        if st.fields@.len() > 0 {
            assert(crate::proto::calls::mcp_fields_view(st.fields@).len() > 0);
        }
    }
}

impl CallMcpToolTool {
    pub fn name(&self) -> (r: &'static str)
        ensures
            r@ == "call_mcp_tool"@,
    {
        "call_mcp_tool"
    }

    pub fn description(&self) -> (r: &'static str)
        ensures
            r@ == call_mcp_tool_description(),
    {
        "Invoke a tool exposed by a connected MCP server. \
         The args are an arbitrary JSON object specific to the tool."
    }

    /// JSON Schema of the arguments.
    pub fn parameters_schema(&self) -> (r: Json)
        ensures
            call_mcp_tool_schema(r@),
    {
        let mut o1: Vec<(String, Json)> = Vec::new();
        push_entry(&mut o1, "type", json_str("string"));
        push_entry(&mut o1, "description", json_str("The name of the MCP tool to invoke."));
        assert(json::view_entries(o1@) =~= seq![("type"@, JsonView::Str("string"@)), ("description"@, JsonView::Str("The name of the MCP tool to invoke."@))]);
        let j2 = Json::Object(o1);
        let ghost j2_v = j2@;
        let mut o3: Vec<(String, Json)> = Vec::new();
        push_entry(&mut o3, "type", json_str("object"));
        push_entry(&mut o3, "description", json_str("Tool-specific arguments as a JSON object."));
        push_entry(&mut o3, "additionalProperties", Json::Bool(true));
        assert(json::view_entries(o3@) =~= seq![("type"@, JsonView::Str("object"@)), ("description"@, JsonView::Str("Tool-specific arguments as a JSON object."@)), ("additionalProperties"@, JsonView::Bool(true))]);
        let j4 = Json::Object(o3);
        let ghost j4_v = j4@;
        let mut o5: Vec<(String, Json)> = Vec::new();
        push_entry(&mut o5, "type", json_str("string"));
        push_entry(&mut o5, "description", json_str("Optional ID of the MCP server that exposes this tool."));
        assert(json::view_entries(o5@) =~= seq![("type"@, JsonView::Str("string"@)), ("description"@, JsonView::Str("Optional ID of the MCP server that exposes this tool."@))]);
        let j6 = Json::Object(o5);
        let ghost j6_v = j6@;
        let mut o7: Vec<(String, Json)> = Vec::new();
        push_entry(&mut o7, "name", j2);
        push_entry(&mut o7, "args", j4);
        push_entry(&mut o7, "server_id", j6);
        assert(json::view_entries(o7@) =~= seq![("name"@, j2_v), ("args"@, j4_v), ("server_id"@, j6_v)]);
        let j8 = Json::Object(o7);
        let ghost j8_v = j8@;
        let mut a9: Vec<Json> = Vec::new();
        push_item(&mut a9, json_str("name"));
        push_item(&mut a9, json_str("args"));
        assert(json::view_items(a9@) =~= seq![JsonView::Str("name"@), JsonView::Str("args"@)]);
        let j10 = Json::Array(a9);
        let ghost j10_v = j10@;
        let mut o11: Vec<(String, Json)> = Vec::new();
        push_entry(&mut o11, "type", json_str("object"));
        push_entry(&mut o11, "properties", j8);
        push_entry(&mut o11, "required", j10);
        assert(json::view_entries(o11@) =~= seq![("type"@, JsonView::Str("object"@)), ("properties"@, j8_v), ("required"@, j10_v)]);
        let j12 = Json::Object(o11);
        let ghost j12_v = j12@;
        assert(j12_v == call_mcp_tool_schema_value());
        j12
    }

    /// Decodes the JSON arguments: `name` is required; the members of the
    /// `args` object become the tool's arguments (none when `args` is
    /// missing or not an object); `server_id` defaults to empty.
    pub fn decode_call_args(&self, args: Json) -> (r: Result<Tool, Arc<AIApiError>>)
        ensures
            call_mcp_tool_decoded(args, r),
    {
        let name = match get_string(&args, "name") {
            Some(n) => n,
            None => {
                return Err(arg_error("call_mcp_tool: missing required `name` argument"));
            },
        };
        let prost_args = match args.get("args") {
            Some(a) => json_object_to_prost_struct(a),
            None => {
                let empty = Json::Object(Vec::new());
                assert(object_members(empty@) =~= Seq::<(Seq<char>, JsonView)>::empty());
                json_object_to_prost_struct(&empty)
            },
        };
        let server_id = get_string_or_empty(&args, "server_id");
        Ok(Tool::CallMcpTool(CallMcpTool { name, args: Some(prost_args), server_id }))
    }

    /// Encodes a call back into its arguments (name and server).
    pub fn encode_call_args(&self, tool: &Tool) -> (r: Json)
        ensures
            r@ == call_mcp_tool_call_args(tool),
    {
        let mut es: Vec<(String, Json)> = Vec::new();
        match tool {
            Tool::CallMcpTool(c) => {
                push_entry(&mut es, "name", Json::Str(c.name.clone()));
                push_entry(&mut es, "server_id", Json::Str(c.server_id.clone()));
                assert(json::view_entries(es@) =~= call_mcp_tool_args(*c)->Object_0);
            },
            _ => {
                assert(json::view_entries(es@) =~= Seq::<(Seq<char>, JsonView)>::empty());
            },
        }
        Json::Object(es)
    }

    /// The text sent back to the model for a result of this tool.
    pub fn encode_result_text(&self, result: &ToolResult) -> (r: Result<String, Arc<AIApiError>>)
        ensures
            call_mcp_tool_result_encoded(result, r),
    {
        match result {
            ToolResult::CallMcpTool(o) => match o {
                Some(CallMcpToolOutcome::Success(rs)) => {
                    let mut parts: Vec<String> = Vec::new();
                    let mut i: usize = 0;
                    while i < rs.len()
                        invariant
                            i <= rs.len(),
                            text::string_views(parts@) == mcp_output_texts(rs@.take(i as int)),
                        decreases rs.len() - i,
                    {
                        assert(rs@.take(i + 1).drop_last() =~= rs@.take(i as int));
                        match &rs[i].result {
                            Some(c) => {
                                let ghost before = parts@;
                                let t = mcp_output_string(c);
                                let ghost tv = t@;
                                parts.push(t);
                                assert(text::string_views(parts@) =~= text::string_views(before).push(tv));
                            },
                            None => {},
                        }
                        i = i + 1;
                    }
                    assert(rs@.take(rs.len() as int) =~= rs@);
                    Ok(join(&parts, "\n"))
                },
                Some(CallMcpToolOutcome::Error(e)) => Ok(error_string(e)),
                None => Ok(no_result()),
            },
            _ => Err(arg_error("call_mcp_tool: result variant mismatch")),
        }
    }

    pub fn matches_proto_call(&self, tool: &Tool) -> (r: bool)
        ensures
            r == (tool is CallMcpTool),
    {
        match tool {
            Tool::CallMcpTool(_) => true,
            _ => false,
        }
    }

    pub fn matches_proto_result(&self, result: &ToolResult) -> (r: bool)
        ensures
            r == (result is CallMcpTool),
    {
        match result {
            ToolResult::CallMcpTool(_) => true,
            _ => false,
        }
    }
}

// ---------------------------------------------------------------------------
// UseComputer
// ---------------------------------------------------------------------------

/// The content of one computer action, with strings as sequences.
pub enum ActionView {
    MouseDown { button: MouseButton, at: Coordinates },
    MouseMove { to: Coordinates },
    TypeText { text: Seq<char> },
    Wait { duration: ProtoDuration },
}

/// The content of a decoded action (`None` for shapes decoding never makes).
pub open spec fn action_view(a: ComputerAction) -> Option<ActionView> {
    match a.kind {
        Some(ComputerActionKind::MouseDown { button, at: Some(c) }) => Some(
            ActionView::MouseDown { button, at: c },
        ),
        Some(ComputerActionKind::MouseMove { to: Some(c) }) => Some(ActionView::MouseMove { to: c }),
        Some(ComputerActionKind::TypeText { text }) => Some(ActionView::TypeText { text: text@ }),
        Some(ComputerActionKind::Wait { duration: Some(d) }) => Some(ActionView::Wait { duration: d }),
        _ => None,
    }
}

/// The mouse button an action names; anything but `right` or `middle` is
/// the left button.
pub open spec fn button_of(b: Option<Seq<char>>) -> MouseButton {
    match b {
        Some(t) => if t == "right"@ {
            MouseButton::Right
        } else if t == "middle"@ {
            MouseButton::Middle
        } else {
            MouseButton::Left
        },
        None => MouseButton::Left,
    }
}

/// The `x`/`y` of an action, each defaulting to 0 and cut to 32 bits.
pub open spec fn coords_of(a: JsonView) -> Coordinates {
    Coordinates {
        x: crate::tools::read_search::i64_or_zero(a.get_i64("x"@)) as i32,
        y: crate::tools::read_search::i64_or_zero(a.get_i64("y"@)) as i32,
    }
}

pub open spec fn unsupported_action_message(t: Seq<char>) -> Seq<char> {
    "use_computer: unsupported action type `"@ + t + "`; MVP supports: click, mouse_move, type, wait"@
}

/// One action decoded, or the message of the error it raises.
pub open spec fn action_of(a: JsonView) -> Result<Option<ActionView>, Seq<char>> {
    match a.get_str("type"@) {
        None => Err("use_computer: action missing `type` field"@),
        Some(t) => if t == "click"@ {
            Ok(Some(ActionView::MouseDown { button: button_of(a.get_str("button"@)), at: coords_of(a) }))
        } else if t == "mouse_move"@ {
            Ok(Some(ActionView::MouseMove { to: coords_of(a) }))
        } else if t == "type"@ {
            Ok(Some(ActionView::TypeText { text: json::str_or_empty(a.get_str("text"@)) }))
        } else if t == "wait"@ {
            Ok(
                Some(
                    ActionView::Wait {
                        duration: tools::duration_of_ms(
                            crate::tools::read_search::i64_or_zero(a.get_i64("duration_ms"@)),
                        ),
                    },
                ),
            )
        } else {
            Err(unsupported_action_message(t))
        },
    }
}

/// All actions decoded in order, or the error of the first that fails.
pub open spec fn actions_of(items: Seq<JsonView>) -> Result<Seq<Option<ActionView>>, Seq<char>>
    decreases items.len(),
{
    if items.len() == 0 {
        Ok(Seq::empty())
    } else {
        match actions_of(items.drop_last()) {
            Err(m) => Err(m),
            Ok(rest) => match action_of(items.last()) {
                Ok(a) => Ok(rest.push(a)),
                Err(m) => Err(m),
            },
        }
    }
}

pub open spec fn actions_view(actions: Seq<ComputerAction>) -> Seq<Option<ActionView>> {
    actions.map_values(|a: ComputerAction| action_view(a))
}

pub open spec fn use_computer_args(c: UseComputer) -> JsonView {
    JsonView::Object(
        seq![
            ("action_summary"@, JsonView::Str(c.action_summary@)),
            ("action_count"@, JsonView::Number(json::NumView::PosInt(c.actions@.len() as u64))),
        ],
    )
}

pub open spec fn coordinates_text(c: Coordinates) -> Seq<char> {
    "("@ + text::decimal(c.x as int) + ","@ + text::decimal(c.y as int) + ")"@
}

pub open spec fn use_computer_result_text(o: Option<UseComputerOutcome>) -> Seq<char> {
    match o {
        Some(UseComputerOutcome::Success { cursor_position }) => "screenshot taken, cursor at "@
            + match cursor_position {
            Some(c) => coordinates_text(c),
            None => "unknown"@,
        },
        Some(UseComputerOutcome::Error(e)) => tools::error_text(e),
        None => "(no result)"@,
    }
}

/// The mouse button an action's `"button"` names.
pub fn parse_mouse_button(action_val: &Json) -> (r: MouseButton)
    ensures
        r == button_of(action_val@.get_str("button"@)),
{
    match get_str(action_val, "button") {
        Some(b) => if str_eq(b, "right") {
            MouseButton::Right
        } else if str_eq(b, "middle") {
            MouseButton::Middle
        } else {
            MouseButton::Left
        },
        None => MouseButton::Left,
    }
}

fn i64_or_zero(v: Option<i64>) -> (r: i64)
    ensures
        r == crate::tools::read_search::i64_or_zero(v),
{
    match v {
        Some(x) => x,
        None => 0,
    }
}

fn coords(a: &Json) -> (r: Coordinates)
    ensures
        r == coords_of(a@),
{
    Coordinates { x: i64_or_zero(get_i64(a, "x")) as i32, y: i64_or_zero(get_i64(a, "y")) as i32 }
}

/// Decodes one action.
fn decode_action(a: &Json) -> (r: Result<ComputerAction, Arc<AIApiError>>)
    ensures
        match r {
            Ok(x) => action_of(a@) == Ok::<Option<ActionView>, Seq<char>>(action_view(x)),
            Err(e) => action_of(a@) matches Err(m) && e.is_other(m),
        },
{
    let t = match get_str(a, "type") {
        Some(t) => t,
        None => {
            return Err(arg_error("use_computer: action missing `type` field"));
        },
    };
    let kind = if str_eq(t, "click") {
        ComputerActionKind::MouseDown { button: parse_mouse_button(a), at: Some(coords(a)) }
    } else if str_eq(t, "mouse_move") {
        ComputerActionKind::MouseMove { to: Some(coords(a)) }
    } else if str_eq(t, "type") {
        ComputerActionKind::TypeText { text: json::get_string_or_empty(a, "text") }
    } else if str_eq(t, "wait") {
        ComputerActionKind::Wait {
            duration: Some(tools::duration_from_ms(i64_or_zero(get_i64(a, "duration_ms")))),
        }
    } else {
        let mut m = text::owned("use_computer: unsupported action type `");
        m.append(t);
        m.append("`; MVP supports: click, mouse_move, type, wait");
        assert(m@ =~= unsupported_action_message(t@));
        return Err(Arc::new(AIApiError::Other(m)));
    };
    Ok(ComputerAction { kind: Some(kind) })
}

fn push_coordinates(out: &mut String, c: &Coordinates)
    ensures
        final(out)@ == old(out)@ + coordinates_text(*c),
{
    out.append("(");
    push_i64(out, c.x as i64);
    out.append(",");
    push_i64(out, c.y as i64);
    out.append(")");
    assert(final(out)@ =~= old(out)@ + coordinates_text(*c));
}

/// What decoding a call\'s JSON arguments gives, or when it fails.
pub open spec fn use_computer_decoded(args: Json, r: Result<Tool, Arc<AIApiError>>) -> bool {
    match r {
        Ok(Tool::UseComputer(c)) => {
            &&& args@.get_str("action_summary"@) == Some(c.action_summary@)
            &&& args@.get_array("actions"@) matches Some(items) && actions_of(items) == Ok::<
                Seq<Option<ActionView>>,
                Seq<char>,
            >(actions_view(c.actions@))
        },
        Ok(_) => false,
        Err(e) => if args@.get_str("action_summary"@) is None {
            e.is_other("use_computer: missing required `action_summary` argument"@)
        } else if args@.get_array("actions"@) is None {
            e.is_other("use_computer: missing required `actions` argument"@)
        } else {
            args@.get_array("actions"@) matches Some(items) && actions_of(items) matches Err(
                m,
            ) && e.is_other(m)
        },
    }
}


/// The JSON arguments a call of this tool is encoded as; other calls give `{}`.
pub open spec fn use_computer_call_args(tool: &Tool) -> JsonView {
    match tool {
        Tool::UseComputer(c) => use_computer_args(*c),
        _ => JsonView::Object(Seq::empty()),
    }
}

/// The text a result of this tool is sent as; other results are refused.
pub open spec fn use_computer_result_encoded(result: &ToolResult, r: Result<String, Arc<AIApiError>>) -> bool {
    match result {
        ToolResult::UseComputer(o) => r matches Ok(s) && s@ == use_computer_result_text(*o),
        _ => r matches Err(e) && e.is_other("use_computer: result variant mismatch"@),
    }
}

/// What the model is told the tool does.
pub open spec fn use_computer_description() -> Seq<char> {
    "Send mouse/keyboard actions to the computer (click, type, drag, scroll, screenshot)."@
}

/// The tool's argument schema.
pub open spec fn use_computer_schema_value() -> JsonView {
    JsonView::Object(
        seq![
            ("type"@, JsonView::Str("object"@)),
            (
                "properties"@,
                JsonView::Object(
                    seq![
                        (
                            "actions"@,
                            JsonView::Object(
                                seq![
                                    ("type"@, JsonView::Str("array"@)),
                                    ("description"@, JsonView::Str("List of actions to perform on the computer."@)),
                                    (
                                        "items"@,
                                        JsonView::Object(
                                            seq![
                                                ("type"@, JsonView::Str("object"@)),
                                                (
                                                    "properties"@,
                                                    JsonView::Object(
                                                        seq![
                                                            (
                                                                "type"@,
                                                                JsonView::Object(
                                                                    seq![
                                                                        ("type"@, JsonView::Str("string"@)),
                                                                        (
                                                                            "enum"@,
                                                                            JsonView::Array(
                                                                                seq![
                                                                                    JsonView::Str("click"@),
                                                                                    JsonView::Str("type"@),
                                                                                    JsonView::Str("wait"@),
                                                                                    JsonView::Str("mouse_move"@),
                                                                                    JsonView::Str("mouse_down"@),
                                                                                    JsonView::Str("mouse_up"@),
                                                                                    JsonView::Str("scroll"@),
                                                                                    JsonView::Str("key_down"@),
                                                                                    JsonView::Str("key_up"@),
                                                                                ],
                                                                            ),
                                                                        ),
                                                                        ("description"@, JsonView::Str("The type of action."@)),
                                                                    ],
                                                                ),
                                                            ),
                                                            (
                                                                "x"@,
                                                                JsonView::Object(
                                                                    seq![
                                                                        ("type"@, JsonView::Str("integer"@)),
                                                                        ("description"@, JsonView::Str("X coordinate (for click, mouse_move, etc.)."@)),
                                                                    ],
                                                                ),
                                                            ),
                                                            (
                                                                "y"@,
                                                                JsonView::Object(
                                                                    seq![
                                                                        ("type"@, JsonView::Str("integer"@)),
                                                                        ("description"@, JsonView::Str("Y coordinate (for click, mouse_move, etc.)."@)),
                                                                    ],
                                                                ),
                                                            ),
                                                            (
                                                                "text"@,
                                                                JsonView::Object(
                                                                    seq![
                                                                        ("type"@, JsonView::Str("string"@)),
                                                                        ("description"@, JsonView::Str("Text to type (for type action)."@)),
                                                                    ],
                                                                ),
                                                            ),
                                                            (
                                                                "duration_ms"@,
                                                                JsonView::Object(
                                                                    seq![
                                                                        ("type"@, JsonView::Str("integer"@)),
                                                                        ("description"@, JsonView::Str("Duration in milliseconds (for wait action)."@)),
                                                                    ],
                                                                ),
                                                            ),
                                                            (
                                                                "button"@,
                                                                JsonView::Object(
                                                                    seq![
                                                                        ("type"@, JsonView::Str("string"@)),
                                                                        (
                                                                            "enum"@,
                                                                            JsonView::Array(
                                                                                seq![
                                                                                    JsonView::Str("left"@),
                                                                                    JsonView::Str("right"@),
                                                                                    JsonView::Str("middle"@),
                                                                                ],
                                                                            ),
                                                                        ),
                                                                        ("description"@, JsonView::Str("Mouse button (for click/mouse_down/mouse_up)."@)),
                                                                    ],
                                                                ),
                                                            ),
                                                        ],
                                                    ),
                                                ),
                                                (
                                                    "required"@,
                                                    JsonView::Array(
                                                        seq![
                                                            JsonView::Str("type"@),
                                                        ],
                                                    ),
                                                ),
                                            ],
                                        ),
                                    ),
                                ],
                            ),
                        ),
                        (
                            "action_summary"@,
                            JsonView::Object(
                                seq![
                                    ("type"@, JsonView::Str("string"@)),
                                    ("description"@, JsonView::Str("User-facing description of what the actions are doing."@)),
                                ],
                            ),
                        ),
                    ],
                ),
            ),
            (
                "required"@,
                JsonView::Array(
                    seq![
                        JsonView::Str("actions"@),
                        JsonView::Str("action_summary"@),
                    ],
                ),
            ),
        ],
    )
}

/// `s` is the tool's argument schema.
pub open spec fn use_computer_schema(s: JsonView) -> bool {
    s == use_computer_schema_value()
}

impl UseComputerTool {
    pub fn name(&self) -> (r: &'static str)
        ensures
            r@ == "use_computer"@,
    {
        "use_computer"
    }

    pub fn description(&self) -> (r: &'static str)
        ensures
            r@ == use_computer_description(),
    {
        "Send mouse/keyboard actions to the computer (click, type, drag, scroll, screenshot)."
    }

    /// JSON Schema of the arguments.
    #[verifier::rlimit(40)]
    #[verifier::spinoff_prover]
    pub fn parameters_schema(&self) -> (r: Json)
        ensures
            use_computer_schema(r@),
    {
        let mut a1: Vec<Json> = Vec::new();
        push_item(&mut a1, json_str("click"));
        push_item(&mut a1, json_str("type"));
        push_item(&mut a1, json_str("wait"));
        push_item(&mut a1, json_str("mouse_move"));
        push_item(&mut a1, json_str("mouse_down"));
        push_item(&mut a1, json_str("mouse_up"));
        push_item(&mut a1, json_str("scroll"));
        push_item(&mut a1, json_str("key_down"));
        push_item(&mut a1, json_str("key_up"));
        assert(json::view_items(a1@) =~= seq![JsonView::Str("click"@), JsonView::Str("type"@), JsonView::Str("wait"@), JsonView::Str("mouse_move"@), JsonView::Str("mouse_down"@), JsonView::Str("mouse_up"@), JsonView::Str("scroll"@), JsonView::Str("key_down"@), JsonView::Str("key_up"@)]);
        let j2 = Json::Array(a1);
        let ghost j2_v = j2@;
        let mut o3: Vec<(String, Json)> = Vec::new();
        push_entry(&mut o3, "type", json_str("string"));
        push_entry(&mut o3, "enum", j2);
        push_entry(&mut o3, "description", json_str("The type of action."));
        assert(json::view_entries(o3@) =~= seq![("type"@, JsonView::Str("string"@)), ("enum"@, j2_v), ("description"@, JsonView::Str("The type of action."@))]);
        let j4 = Json::Object(o3);
        let ghost j4_v = j4@;
        let mut o5: Vec<(String, Json)> = Vec::new();
        push_entry(&mut o5, "type", json_str("integer"));
        push_entry(&mut o5, "description", json_str("X coordinate (for click, mouse_move, etc.)."));
        assert(json::view_entries(o5@) =~= seq![("type"@, JsonView::Str("integer"@)), ("description"@, JsonView::Str("X coordinate (for click, mouse_move, etc.)."@))]);
        let j6 = Json::Object(o5);
        let ghost j6_v = j6@;
        let mut o7: Vec<(String, Json)> = Vec::new();
        push_entry(&mut o7, "type", json_str("integer"));
        push_entry(&mut o7, "description", json_str("Y coordinate (for click, mouse_move, etc.)."));
        assert(json::view_entries(o7@) =~= seq![("type"@, JsonView::Str("integer"@)), ("description"@, JsonView::Str("Y coordinate (for click, mouse_move, etc.)."@))]);
        let j8 = Json::Object(o7);
        let ghost j8_v = j8@;
        let mut o9: Vec<(String, Json)> = Vec::new();
        push_entry(&mut o9, "type", json_str("string"));
        push_entry(&mut o9, "description", json_str("Text to type (for type action)."));
        assert(json::view_entries(o9@) =~= seq![("type"@, JsonView::Str("string"@)), ("description"@, JsonView::Str("Text to type (for type action)."@))]);
        let j10 = Json::Object(o9);
        let ghost j10_v = j10@;
        let mut o11: Vec<(String, Json)> = Vec::new();
        push_entry(&mut o11, "type", json_str("integer"));
        push_entry(&mut o11, "description", json_str("Duration in milliseconds (for wait action)."));
        assert(json::view_entries(o11@) =~= seq![("type"@, JsonView::Str("integer"@)), ("description"@, JsonView::Str("Duration in milliseconds (for wait action)."@))]);
        let j12 = Json::Object(o11);
        let ghost j12_v = j12@;
        let mut a13: Vec<Json> = Vec::new();
        push_item(&mut a13, json_str("left"));
        push_item(&mut a13, json_str("right"));
        push_item(&mut a13, json_str("middle"));
        assert(json::view_items(a13@) =~= seq![JsonView::Str("left"@), JsonView::Str("right"@), JsonView::Str("middle"@)]);
        let j14 = Json::Array(a13);
        let ghost j14_v = j14@;
        let mut o15: Vec<(String, Json)> = Vec::new();
        push_entry(&mut o15, "type", json_str("string"));
        push_entry(&mut o15, "enum", j14);
        push_entry(&mut o15, "description", json_str("Mouse button (for click/mouse_down/mouse_up)."));
        assert(json::view_entries(o15@) =~= seq![("type"@, JsonView::Str("string"@)), ("enum"@, j14_v), ("description"@, JsonView::Str("Mouse button (for click/mouse_down/mouse_up)."@))]);
        let j16 = Json::Object(o15);
        let ghost j16_v = j16@;
        let mut o17: Vec<(String, Json)> = Vec::new();
        push_entry(&mut o17, "type", j4);
        push_entry(&mut o17, "x", j6);
        push_entry(&mut o17, "y", j8);
        push_entry(&mut o17, "text", j10);
        push_entry(&mut o17, "duration_ms", j12);
        push_entry(&mut o17, "button", j16);
        assert(json::view_entries(o17@) =~= seq![("type"@, j4_v), ("x"@, j6_v), ("y"@, j8_v), ("text"@, j10_v), ("duration_ms"@, j12_v), ("button"@, j16_v)]);
        let j18 = Json::Object(o17);
        let ghost j18_v = j18@;
        let mut a19: Vec<Json> = Vec::new();
        push_item(&mut a19, json_str("type"));
        assert(json::view_items(a19@) =~= seq![JsonView::Str("type"@)]);
        let j20 = Json::Array(a19);
        let ghost j20_v = j20@;
        let mut o21: Vec<(String, Json)> = Vec::new();
        push_entry(&mut o21, "type", json_str("object"));
        push_entry(&mut o21, "properties", j18);
        push_entry(&mut o21, "required", j20);
        assert(json::view_entries(o21@) =~= seq![("type"@, JsonView::Str("object"@)), ("properties"@, j18_v), ("required"@, j20_v)]);
        let j22 = Json::Object(o21);
        let ghost j22_v = j22@;
        let mut o23: Vec<(String, Json)> = Vec::new();
        push_entry(&mut o23, "type", json_str("array"));
        push_entry(&mut o23, "description", json_str("List of actions to perform on the computer."));
        push_entry(&mut o23, "items", j22);
        assert(json::view_entries(o23@) =~= seq![("type"@, JsonView::Str("array"@)), ("description"@, JsonView::Str("List of actions to perform on the computer."@)), ("items"@, j22_v)]);
        let j24 = Json::Object(o23);
        let ghost j24_v = j24@;
        let mut o25: Vec<(String, Json)> = Vec::new();
        push_entry(&mut o25, "type", json_str("string"));
        push_entry(&mut o25, "description", json_str("User-facing description of what the actions are doing."));
        assert(json::view_entries(o25@) =~= seq![("type"@, JsonView::Str("string"@)), ("description"@, JsonView::Str("User-facing description of what the actions are doing."@))]);
        let j26 = Json::Object(o25);
        let ghost j26_v = j26@;
        let mut o27: Vec<(String, Json)> = Vec::new();
        push_entry(&mut o27, "actions", j24);
        push_entry(&mut o27, "action_summary", j26);
        assert(json::view_entries(o27@) =~= seq![("actions"@, j24_v), ("action_summary"@, j26_v)]);
        let j28 = Json::Object(o27);
        let ghost j28_v = j28@;
        let mut a29: Vec<Json> = Vec::new();
        push_item(&mut a29, json_str("actions"));
        push_item(&mut a29, json_str("action_summary"));
        assert(json::view_items(a29@) =~= seq![JsonView::Str("actions"@), JsonView::Str("action_summary"@)]);
        let j30 = Json::Array(a29);
        let ghost j30_v = j30@;
        let mut o31: Vec<(String, Json)> = Vec::new();
        push_entry(&mut o31, "type", json_str("object"));
        push_entry(&mut o31, "properties", j28);
        push_entry(&mut o31, "required", j30);
        assert(json::view_entries(o31@) =~= seq![("type"@, JsonView::Str("object"@)), ("properties"@, j28_v), ("required"@, j30_v)]);
        let j32 = Json::Object(o31);
        let ghost j32_v = j32@;
        assert(j32_v == use_computer_schema_value());
        j32
    }

    /// Decodes the JSON arguments: `action_summary` and `actions` are
    /// required, and every action must decode (`click`, `mouse_move`,
    /// `type` or `wait`); the first action that does not gives the error.
    pub fn decode_call_args(&self, args: Json) -> (r: Result<Tool, Arc<AIApiError>>)
        ensures
            use_computer_decoded(args, r),
    {
        let action_summary = match get_string(&args, "action_summary") {
            Some(s) => s,
            None => {
                return Err(arg_error("use_computer: missing required `action_summary` argument"));
            },
        };
        let items = match get_array(&args, "actions") {
            Some(a) => a,
            None => {
                return Err(arg_error("use_computer: missing required `actions` argument"));
            },
        };
        proof {
            json::lemma_view_items_len(items@);
        }
        let ghost vs = json::view_items(items@);
        let mut actions: Vec<ComputerAction> = Vec::new();
        assert(actions_view(actions@) =~= Seq::<Option<ActionView>>::empty());
        assert(vs.take(0) =~= Seq::<JsonView>::empty());
        let mut i: usize = 0;
        while i < items.len()
            invariant
                i <= items.len(),
                vs == json::view_items(items@),
                vs.len() == items.len(),
                forall|k: int| 0 <= k < items.len() ==> #[trigger] vs[k] == items@[k]@,
                actions_of(vs.take(i as int)) == Ok::<Seq<Option<ActionView>>, Seq<char>>(
                    actions_view(actions@),
                ),
                args@.get_array("actions"@) == Some(vs),
                args@.get_str("action_summary"@) == Some(action_summary@),
            decreases items.len() - i,
        {
            assert(vs.take(i + 1).drop_last() =~= vs.take(i as int));
            assert(vs.take(i + 1).last() == vs[i as int]);
            assert(vs[i as int] == items@[i as int]@);
            match decode_action(&items[i]) {
                Ok(a) => {
                    let ghost before = actions@;
                    let ghost av = action_view(a);
                    actions.push(a);
                    assert(actions_view(actions@) =~= actions_view(before).push(av));
                },
                Err(e) => {
                    proof {
                        lemma_actions_error_persists(vs, i as int);
                    }
                    return Err(e);
                },
            }
            i = i + 1;
        }
        assert(vs.take(items.len() as int) =~= vs);
        Ok(Tool::UseComputer(UseComputer { actions, action_summary }))
    }

    /// Encodes a call back into its arguments (summary and action count).
    pub fn encode_call_args(&self, tool: &Tool) -> (r: Json)
        ensures
            r@ == use_computer_call_args(tool),
    {
        let mut es: Vec<(String, Json)> = Vec::new();
        match tool {
            Tool::UseComputer(c) => {
                push_entry(&mut es, "action_summary", Json::Str(c.action_summary.clone()));
                push_entry(
                    &mut es,
                    "action_count",
                    Json::Number(JsonNumber::PosInt(c.actions.len() as u64)),
                );
                assert(json::view_entries(es@) =~= use_computer_args(*c)->Object_0);
            },
            _ => {
                assert(json::view_entries(es@) =~= Seq::<(Seq<char>, JsonView)>::empty());
            },
        }
        Json::Object(es)
    }

    /// The text sent back to the model for a result of this tool.
    pub fn encode_result_text(&self, result: &ToolResult) -> (r: Result<String, Arc<AIApiError>>)
        ensures
            use_computer_result_encoded(result, r),
    {
        match result {
            ToolResult::UseComputer(o) => match o {
                Some(UseComputerOutcome::Success { cursor_position }) => {
                    let mut out = text::owned("screenshot taken, cursor at ");
                    match cursor_position {
                        Some(c) => push_coordinates(&mut out, c),
                        None => out.append("unknown"),
                    }
                    assert(out@ =~= use_computer_result_text(*o));
                    Ok(out)
                },
                Some(UseComputerOutcome::Error(e)) => Ok(error_string(e)),
                None => Ok(no_result()),
            },
            _ => Err(arg_error("use_computer: result variant mismatch")),
        }
    }

    pub fn matches_proto_call(&self, tool: &Tool) -> (r: bool)
        ensures
            r == (tool is UseComputer),
    {
        match tool {
            Tool::UseComputer(_) => true,
            _ => false,
        }
    }

    pub fn matches_proto_result(&self, result: &ToolResult) -> (r: bool)
        ensures
            r == (result is UseComputer),
    {
        match result {
            ToolResult::UseComputer(_) => true,
            _ => false,
        }
    }
}

/// Once an action fails, decoding the whole list fails with that error.
proof fn lemma_actions_error_persists(items: Seq<JsonView>, i: int)
    requires
        0 <= i < items.len(),
        actions_of(items.take(i)) is Ok,
        action_of(items[i]) is Err,
    ensures
        actions_of(items) == Err::<Seq<Option<ActionView>>, Seq<char>>(action_of(items[i])->Err_0),
{
    lemma_actions_error_upto(items, i, items.len() as int);
    assert(items.take(items.len() as int) =~= items);
}

proof fn lemma_actions_error_upto(items: Seq<JsonView>, i: int, n: int)
    requires
        0 <= i < n <= items.len(),
        actions_of(items.take(i)) is Ok,
        action_of(items[i]) is Err,
    ensures
        actions_of(items.take(n)) == Err::<Seq<Option<ActionView>>, Seq<char>>(
            action_of(items[i])->Err_0,
        ),
    decreases n - i,
{
    if n == i + 1 {
        assert(items.take(n).drop_last() =~= items.take(i));
        assert(items.take(n).last() == items[i]);
    } else {
        lemma_actions_error_upto(items, i, n - 1);
        assert(items.take(n).drop_last() =~= items.take(n - 1));
    }
}

// ---------------------------------------------------------------------------
// RequestComputerUse
// ---------------------------------------------------------------------------

pub open spec fn request_computer_use_args(c: RequestComputerUse) -> JsonView {
    JsonView::Object(seq![("task_summary"@, JsonView::Str(c.task_summary@))])
}

pub open spec fn request_computer_use_result_text(o: Option<RequestComputerUseOutcome>) -> Seq<char> {
    match o {
        Some(RequestComputerUseOutcome::Approved { screen_dimensions }) => "approved, screen_dimensions: "@
            + match screen_dimensions {
            Some(d) => text::decimal(d.width_px as int) + "x"@ + text::decimal(d.height_px as int),
            None => "unknown"@,
        },
        Some(RequestComputerUseOutcome::Rejected) => "user_rejected"@,
        Some(RequestComputerUseOutcome::Error(e)) => tools::error_text(e),
        None => "(no result)"@,
    }
}

/// What decoding a call\'s JSON arguments gives, or when it fails.
pub open spec fn request_computer_use_decoded(args: Json, r: Result<Tool, Arc<AIApiError>>) -> bool {
    match r {
        Ok(Tool::RequestComputerUse(c)) => args@.get_str("task_summary"@) == Some(c.task_summary@)
            && c.screenshot_params is None,
        Ok(_) => false,
        Err(e) => args@.get_str("task_summary"@) is None && e.is_other(
            "request_computer_use: missing required `task_summary` argument"@,
        ),
    }
}

/// Every argument object that conforms to the schema this tool is offered
/// with decodes: the schema requires `task_summary`, with the types decoding takes.
pub proof fn lemma_request_computer_use_schema_conforming_args_decode(args: Json, r: Result<Tool, Arc<AIApiError>>)
    requires
        crate::tools::conforms_to_schema(args@, request_computer_use_schema_value()),
        request_computer_use_decoded(args, r),
    ensures
        r is Ok,
{
    reveal_strlit("array");
    reveal_strlit("boolean");
    reveal_strlit("integer");
    reveal_strlit("number");
    reveal_strlit("object");
    reveal_strlit("properties");
    reveal_strlit("required");
    reveal_strlit("string");
    reveal_strlit("task_summary");
    reveal_strlit("type");
    assert("type"@[0] != "properties"@[0]);
    assert("type"@[0] != "required"@[0]);
    assert("properties"@[0] != "required"@[0]);
    assert("string"@[0] != "array"@[0]);
    assert("string"@[0] != "object"@[0]);
    assert("string"@[0] != "boolean"@[0]);
    assert("string"@[0] != "integer"@[0]);
    assert("string"@[0] != "number"@[0]);
    assert("array"@[0] != "object"@[0]);
    assert("array"@[0] != "boolean"@[0]);
    assert("array"@[0] != "integer"@[0]);
    assert("array"@[0] != "number"@[0]);
    assert("object"@[0] != "boolean"@[0]);
    assert("object"@[0] != "integer"@[0]);
    assert("object"@[0] != "number"@[0]);
    assert("boolean"@[0] != "integer"@[0]);
    assert("boolean"@[0] != "number"@[0]);
    assert("integer"@[0] != "number"@[0]);
    reveal_with_fuel(crate::json::lookup, 3);
    reveal_with_fuel(crate::json::strings_of, 2);
    let sch = request_computer_use_schema_value();
    let es = sch->Object_0;
    assert(es.drop_first()[0] == es[1]);
    assert(es.drop_first().drop_first()[0] == es[2]);
    let req = seq![JsonView::Str("task_summary"@)];
    assert(sch.get_array("required"@) == Some(req));
    assert(req.take(0) =~= Seq::<JsonView>::empty());
    assert(req.take(1).drop_last() =~= req.take(0));
    assert(req.take(1) =~= req);
    assert(crate::tools::required_members(sch) =~= seq!["task_summary"@]);
    let ps = es[1].1->Object_0;
    assert(crate::tools::described_members(sch) == ps);
    assert(ps[0].0 == "task_summary"@);
    assert(ps[0].1.get_str("type"@) == Some("string"@));
    crate::tools::lemma_required_member_typed(args@, sch, 0, 0);
    assert(args@.get("task_summary"@)->0 is Str);
    assert(args@.get_str("task_summary"@) is Some);
}


/// The JSON arguments a call of this tool is encoded as; other calls give `{}`.
pub open spec fn request_computer_use_call_args(tool: &Tool) -> JsonView {
    match tool {
        Tool::RequestComputerUse(c) => request_computer_use_args(*c),
        _ => JsonView::Object(Seq::empty()),
    }
}

/// The text a result of this tool is sent as; other results are refused.
pub open spec fn request_computer_use_result_encoded(result: &ToolResult, r: Result<String, Arc<AIApiError>>) -> bool {
    match result {
        ToolResult::RequestComputerUse(o) => r matches Ok(s) && s@
            == request_computer_use_result_text(*o),
        _ => r matches Err(e) && e.is_other("request_computer_use: result variant mismatch"@),
    }
}

/// What the model is told the tool does.
pub open spec fn request_computer_use_description() -> Seq<char> {
    "Ask the user for permission to drive their computer (mouse/keyboard)."@
}

/// The tool's argument schema.
pub open spec fn request_computer_use_schema_value() -> JsonView {
    JsonView::Object(
        seq![
            ("type"@, JsonView::Str("object"@)),
            (
                "properties"@,
                JsonView::Object(
                    seq![
                        (
                            "task_summary"@,
                            JsonView::Object(
                                seq![
                                    ("type"@, JsonView::Str("string"@)),
                                    ("description"@, JsonView::Str("A brief description of what the agent wants to do with computer use."@)),
                                ],
                            ),
                        ),
                    ],
                ),
            ),
            (
                "required"@,
                JsonView::Array(
                    seq![
                        JsonView::Str("task_summary"@),
                    ],
                ),
            ),
        ],
    )
}

/// `s` is the tool's argument schema.
pub open spec fn request_computer_use_schema(s: JsonView) -> bool {
    s == request_computer_use_schema_value()
}

impl RequestComputerUseTool {
    pub fn name(&self) -> (r: &'static str)
        ensures
            r@ == "request_computer_use"@,
    {
        "request_computer_use"
    }

    pub fn description(&self) -> (r: &'static str)
        ensures
            r@ == request_computer_use_description(),
    {
        "Ask the user for permission to drive their computer (mouse/keyboard)."
    }

    /// JSON Schema of the arguments.
    pub fn parameters_schema(&self) -> (r: Json)
        ensures
            request_computer_use_schema(r@),
    {
        let mut o1: Vec<(String, Json)> = Vec::new();
        push_entry(&mut o1, "type", json_str("string"));
        push_entry(&mut o1, "description", json_str("A brief description of what the agent wants to do with computer use."));
        assert(json::view_entries(o1@) =~= seq![("type"@, JsonView::Str("string"@)), ("description"@, JsonView::Str("A brief description of what the agent wants to do with computer use."@))]);
        let j2 = Json::Object(o1);
        let ghost j2_v = j2@;
        let mut o3: Vec<(String, Json)> = Vec::new();
        push_entry(&mut o3, "task_summary", j2);
        assert(json::view_entries(o3@) =~= seq![("task_summary"@, j2_v)]);
        let j4 = Json::Object(o3);
        let ghost j4_v = j4@;
        let mut a5: Vec<Json> = Vec::new();
        push_item(&mut a5, json_str("task_summary"));
        assert(json::view_items(a5@) =~= seq![JsonView::Str("task_summary"@)]);
        let j6 = Json::Array(a5);
        let ghost j6_v = j6@;
        let mut o7: Vec<(String, Json)> = Vec::new();
        push_entry(&mut o7, "type", json_str("object"));
        push_entry(&mut o7, "properties", j4);
        push_entry(&mut o7, "required", j6);
        assert(json::view_entries(o7@) =~= seq![("type"@, JsonView::Str("object"@)), ("properties"@, j4_v), ("required"@, j6_v)]);
        let j8 = Json::Object(o7);
        let ghost j8_v = j8@;
        assert(j8_v == request_computer_use_schema_value());
        j8
    }

    /// Decodes the JSON arguments: `task_summary` is required.
    pub fn decode_call_args(&self, args: Json) -> (r: Result<Tool, Arc<AIApiError>>)
        ensures
            request_computer_use_decoded(args, r),
    {
        let task_summary = match get_string(&args, "task_summary") {
            Some(s) => s,
            None => {
                return Err(
                    arg_error("request_computer_use: missing required `task_summary` argument"),
                );
            },
        };
        Ok(Tool::RequestComputerUse(RequestComputerUse { task_summary, screenshot_params: None }))
    }

    /// Encodes a call back into its arguments.
    pub fn encode_call_args(&self, tool: &Tool) -> (r: Json)
        ensures
            r@ == request_computer_use_call_args(tool),
    {
        let mut es: Vec<(String, Json)> = Vec::new();
        match tool {
            Tool::RequestComputerUse(c) => {
                push_entry(&mut es, "task_summary", Json::Str(c.task_summary.clone()));
                assert(json::view_entries(es@) =~= request_computer_use_args(*c)->Object_0);
            },
            _ => {
                assert(json::view_entries(es@) =~= Seq::<(Seq<char>, JsonView)>::empty());
            },
        }
        Json::Object(es)
    }

    /// The text sent back to the model for a result of this tool.
    pub fn encode_result_text(&self, result: &ToolResult) -> (r: Result<String, Arc<AIApiError>>)
        ensures
            request_computer_use_result_encoded(result, r),
    {
        match result {
            ToolResult::RequestComputerUse(o) => match o {
                Some(RequestComputerUseOutcome::Approved { screen_dimensions }) => {
                    let mut out = text::owned("approved, screen_dimensions: ");
                    match screen_dimensions {
                        Some(d) => {
                            push_i64(&mut out, d.width_px as i64);
                            out.append("x");
                            push_i64(&mut out, d.height_px as i64);
                        },
                        None => out.append("unknown"),
                    }
                    assert(out@ =~= request_computer_use_result_text(*o));
                    Ok(out)
                },
                Some(RequestComputerUseOutcome::Rejected) => Ok(text::owned("user_rejected")),
                Some(RequestComputerUseOutcome::Error(e)) => Ok(error_string(e)),
                None => Ok(no_result()),
            },
            _ => Err(arg_error("request_computer_use: result variant mismatch")),
        }
    }

    pub fn matches_proto_call(&self, tool: &Tool) -> (r: bool)
        ensures
            r == (tool is RequestComputerUse),
    {
        match tool {
            Tool::RequestComputerUse(_) => true,
            _ => false,
        }
    }

    pub fn matches_proto_result(&self, result: &ToolResult) -> (r: bool)
        ensures
            r == (result is RequestComputerUse),
    {
        match result {
            ToolResult::RequestComputerUse(_) => true,
            _ => false,
        }
    }
}

// ---------------------------------------------------------------------------
// InsertReviewComments
// ---------------------------------------------------------------------------

/// A comment as sequences: id, author, body, and where it is anchored
/// (file path, and diff hunk with side).
pub type CommentView = (Seq<char>, Seq<char>, Seq<char>, Option<(Seq<char>, Option<(Seq<char>, i32)>)>);

pub open spec fn comment_view(c: ReviewComment) -> CommentView {
    (
        c.comment_id@,
        c.author@,
        c.comment_body@,
        match c.location {
            Some(l) => Some(
                (
                    l.file_path@,
                    match l.line {
                        Some(lr) => Some((lr.diff_hunk@, lr.side)),
                        None => None,
                    },
                ),
            ),
            None => None,
        },
    )
}

/// A `comments` entry: missing strings are empty; the comment is anchored
/// (on the new side, 0) unless both `file_path` and `diff_hunk` are empty.
pub open spec fn comment_of(j: JsonView) -> CommentView {
    let fp = json::str_or_empty(j.get_str("file_path"@));
    let dh = json::str_or_empty(j.get_str("diff_hunk"@));
    (
        json::str_or_empty(j.get_str("comment_id"@)),
        json::str_or_empty(j.get_str("author"@)),
        json::str_or_empty(j.get_str("comment_body"@)),
        if fp.len() == 0 && dh.len() == 0 {
            None
        } else {
            Some((fp, Some((dh, 0i32))))
        },
    )
}

pub open spec fn insert_review_comments_args(c: InsertReviewComments) -> JsonView {
    JsonView::Object(
        seq![
            ("repo_path"@, JsonView::Str(c.repo_path@)),
            ("base_branch"@, JsonView::Str(c.base_branch@)),
            ("comment_count"@, JsonView::Number(json::NumView::PosInt(c.comments@.len() as u64))),
        ],
    )
}

pub open spec fn insert_review_comments_result_text(o: Option<InsertReviewCommentsOutcome>) -> Seq<char> {
    match o {
        Some(InsertReviewCommentsOutcome::Success) => "comments inserted"@,
        Some(InsertReviewCommentsOutcome::Error(e)) => tools::error_text(e),
        None => "(no result)"@,
    }
}

fn decode_comment(c: &Json) -> (r: ReviewComment)
    ensures
        comment_view(r) == comment_of(c@),
{
    let comment_id = get_string_or_empty(c, "comment_id");
    let author = get_string_or_empty(c, "author");
    let comment_body = get_string_or_empty(c, "comment_body");
    let file_path = get_string_or_empty(c, "file_path");
    let diff_hunk = get_string_or_empty(c, "diff_hunk");
    let location = if file_path.as_str().is_empty() && diff_hunk.as_str().is_empty() {
        None
    } else {
        Some(CommentLocation { file_path, line: Some(CommentLineRange { diff_hunk, side: 0 }) })
    };
    ReviewComment { comment_id, author, comment_body, location }
}

/// What decoding a call\'s JSON arguments gives, or when it fails.
pub open spec fn insert_review_comments_decoded(args: Json, r: Result<Tool, Arc<AIApiError>>) -> bool {
    match r {
        Ok(Tool::InsertReviewComments(c)) => {
            &&& args@.get_str("repo_path"@) == Some(c.repo_path@)
            &&& c.base_branch@ == json::str_or_empty(args@.get_str("base_branch"@))
            &&& args@.get_array("comments"@) matches Some(items) && c.comments@.map_values(
                |x: ReviewComment| comment_view(x),
            ) == items.map_values(|j: JsonView| comment_of(j))
        },
        Ok(_) => false,
        Err(e) => if args@.get_str("repo_path"@) is None {
            e.is_other("insert_review_comments: missing required `repo_path` argument"@)
        } else {
            args@.get_array("comments"@) is None && e.is_other(
                "insert_review_comments: missing required `comments` argument"@,
            )
        },
    }
}

/// Every argument object that conforms to the schema this tool is offered
/// with decodes: the schema requires `repo_path` and `comments`, with the types decoding takes.
pub proof fn lemma_insert_review_comments_schema_conforming_args_decode(args: Json, r: Result<Tool, Arc<AIApiError>>)
    requires
        crate::tools::conforms_to_schema(args@, insert_review_comments_schema_value()),
        insert_review_comments_decoded(args, r),
    ensures
        r is Ok,
{
    reveal_strlit("array");
    reveal_strlit("base_branch");
    reveal_strlit("boolean");
    reveal_strlit("comments");
    reveal_strlit("integer");
    reveal_strlit("number");
    reveal_strlit("object");
    reveal_strlit("properties");
    reveal_strlit("repo_path");
    reveal_strlit("required");
    reveal_strlit("string");
    reveal_strlit("type");
    assert("type"@[0] != "properties"@[0]);
    assert("type"@[0] != "required"@[0]);
    assert("properties"@[0] != "required"@[0]);
    assert("string"@[0] != "array"@[0]);
    assert("string"@[0] != "object"@[0]);
    assert("string"@[0] != "boolean"@[0]);
    assert("string"@[0] != "integer"@[0]);
    assert("string"@[0] != "number"@[0]);
    assert("array"@[0] != "object"@[0]);
    assert("array"@[0] != "boolean"@[0]);
    assert("array"@[0] != "integer"@[0]);
    assert("array"@[0] != "number"@[0]);
    assert("object"@[0] != "boolean"@[0]);
    assert("object"@[0] != "integer"@[0]);
    assert("object"@[0] != "number"@[0]);
    assert("boolean"@[0] != "integer"@[0]);
    assert("boolean"@[0] != "number"@[0]);
    assert("integer"@[0] != "number"@[0]);
    reveal_with_fuel(crate::json::lookup, 3);
    reveal_with_fuel(crate::json::strings_of, 3);
    let sch = insert_review_comments_schema_value();
    let es = sch->Object_0;
    assert(es.drop_first()[0] == es[1]);
    assert(es.drop_first().drop_first()[0] == es[2]);
    let req = seq![JsonView::Str("repo_path"@), JsonView::Str("comments"@)];
    assert(sch.get_array("required"@) == Some(req));
    assert(req.take(0) =~= Seq::<JsonView>::empty());
    assert(req.take(1).drop_last() =~= req.take(0));
    assert(req.take(2).drop_last() =~= req.take(1));
    assert(req.take(2) =~= req);
    assert(crate::tools::required_members(sch) =~= seq!["repo_path"@, "comments"@]);
    let ps = es[1].1->Object_0;
    assert(crate::tools::described_members(sch) == ps);
    assert(ps[0].0 == "repo_path"@);
    assert(ps[0].1.get_str("type"@) == Some("string"@));
    crate::tools::lemma_required_member_typed(args@, sch, 0, 0);
    assert(args@.get("repo_path"@)->0 is Str);
    assert(args@.get_str("repo_path"@) is Some);
    assert(ps[2].0 == "comments"@);
    assert(ps[2].1.get_str("type"@) == Some("array"@));
    crate::tools::lemma_required_member_typed(args@, sch, 1, 2);
    assert(args@.get("comments"@)->0 is Array);
    assert(args@.get_array("comments"@) is Some);
}


/// The JSON arguments a call of this tool is encoded as; other calls give `{}`.
pub open spec fn insert_review_comments_call_args(tool: &Tool) -> JsonView {
    match tool {
        Tool::InsertReviewComments(c) => insert_review_comments_args(*c),
        _ => JsonView::Object(Seq::empty()),
    }
}

/// The text a result of this tool is sent as; other results are refused.
pub open spec fn insert_review_comments_result_encoded(result: &ToolResult, r: Result<String, Arc<AIApiError>>) -> bool {
    match result {
        ToolResult::InsertReviewComments(o) => r matches Ok(s) && s@
            == insert_review_comments_result_text(*o),
        _ => r matches Err(e) && e.is_other("insert_review_comments: result variant mismatch"@),
    }
}

/// What the model is told the tool does.
pub open spec fn insert_review_comments_description() -> Seq<char> {
    "Insert PR review comments on a code review."@
}

/// The tool's argument schema.
pub open spec fn insert_review_comments_schema_value() -> JsonView {
    JsonView::Object(
        seq![
            ("type"@, JsonView::Str("object"@)),
            (
                "properties"@,
                JsonView::Object(
                    seq![
                        (
                            "repo_path"@,
                            JsonView::Object(
                                seq![
                                    ("type"@, JsonView::Str("string"@)),
                                    ("description"@, JsonView::Str("Path to the local git repository."@)),
                                ],
                            ),
                        ),
                        (
                            "base_branch"@,
                            JsonView::Object(
                                seq![
                                    ("type"@, JsonView::Str("string"@)),
                                    ("description"@, JsonView::Str("The base branch to compare against (e.g. main, master)."@)),
                                ],
                            ),
                        ),
                        (
                            "comments"@,
                            JsonView::Object(
                                seq![
                                    ("type"@, JsonView::Str("array"@)),
                                    ("description"@, JsonView::Str("List of review comments to insert."@)),
                                    (
                                        "items"@,
                                        JsonView::Object(
                                            seq![
                                                ("type"@, JsonView::Str("object"@)),
                                                (
                                                    "properties"@,
                                                    JsonView::Object(
                                                        seq![
                                                            (
                                                                "comment_id"@,
                                                                JsonView::Object(
                                                                    seq![
                                                                        ("type"@, JsonView::Str("string"@)),
                                                                    ],
                                                                ),
                                                            ),
                                                            (
                                                                "author"@,
                                                                JsonView::Object(
                                                                    seq![
                                                                        ("type"@, JsonView::Str("string"@)),
                                                                    ],
                                                                ),
                                                            ),
                                                            (
                                                                "comment_body"@,
                                                                JsonView::Object(
                                                                    seq![
                                                                        ("type"@, JsonView::Str("string"@)),
                                                                        ("description"@, JsonView::Str("The body of the review comment."@)),
                                                                    ],
                                                                ),
                                                            ),
                                                            (
                                                                "file_path"@,
                                                                JsonView::Object(
                                                                    seq![
                                                                        ("type"@, JsonView::Str("string"@)),
                                                                        ("description"@, JsonView::Str("Path of the file the comment is attached to."@)),
                                                                    ],
                                                                ),
                                                            ),
                                                            (
                                                                "diff_hunk"@,
                                                                JsonView::Object(
                                                                    seq![
                                                                        ("type"@, JsonView::Str("string"@)),
                                                                        ("description"@, JsonView::Str("The diff hunk the comment is attached to."@)),
                                                                    ],
                                                                ),
                                                            ),
                                                        ],
                                                    ),
                                                ),
                                                (
                                                    "required"@,
                                                    JsonView::Array(
                                                        seq![
                                                            JsonView::Str("comment_body"@),
                                                        ],
                                                    ),
                                                ),
                                            ],
                                        ),
                                    ),
                                ],
                            ),
                        ),
                    ],
                ),
            ),
            (
                "required"@,
                JsonView::Array(
                    seq![
                        JsonView::Str("repo_path"@),
                        JsonView::Str("comments"@),
                    ],
                ),
            ),
        ],
    )
}

/// `s` is the tool's argument schema.
pub open spec fn insert_review_comments_schema(s: JsonView) -> bool {
    s == insert_review_comments_schema_value()
}

impl InsertReviewCommentsTool {
    pub fn name(&self) -> (r: &'static str)
        ensures
            r@ == "insert_review_comments"@,
    {
        "insert_review_comments"
    }

    pub fn description(&self) -> (r: &'static str)
        ensures
            r@ == insert_review_comments_description(),
    {
        "Insert PR review comments on a code review."
    }

    /// JSON Schema of the arguments.
    pub fn parameters_schema(&self) -> (r: Json)
        ensures
            insert_review_comments_schema(r@),
    {
        let mut o1: Vec<(String, Json)> = Vec::new();
        push_entry(&mut o1, "type", json_str("string"));
        push_entry(&mut o1, "description", json_str("Path to the local git repository."));
        assert(json::view_entries(o1@) =~= seq![("type"@, JsonView::Str("string"@)), ("description"@, JsonView::Str("Path to the local git repository."@))]);
        let j2 = Json::Object(o1);
        let ghost j2_v = j2@;
        let mut o3: Vec<(String, Json)> = Vec::new();
        push_entry(&mut o3, "type", json_str("string"));
        push_entry(&mut o3, "description", json_str("The base branch to compare against (e.g. main, master)."));
        assert(json::view_entries(o3@) =~= seq![("type"@, JsonView::Str("string"@)), ("description"@, JsonView::Str("The base branch to compare against (e.g. main, master)."@))]);
        let j4 = Json::Object(o3);
        let ghost j4_v = j4@;
        let mut o5: Vec<(String, Json)> = Vec::new();
        push_entry(&mut o5, "type", json_str("string"));
        assert(json::view_entries(o5@) =~= seq![("type"@, JsonView::Str("string"@))]);
        let j6 = Json::Object(o5);
        let ghost j6_v = j6@;
        let mut o7: Vec<(String, Json)> = Vec::new();
        push_entry(&mut o7, "type", json_str("string"));
        assert(json::view_entries(o7@) =~= seq![("type"@, JsonView::Str("string"@))]);
        let j8 = Json::Object(o7);
        let ghost j8_v = j8@;
        let mut o9: Vec<(String, Json)> = Vec::new();
        push_entry(&mut o9, "type", json_str("string"));
        push_entry(&mut o9, "description", json_str("The body of the review comment."));
        assert(json::view_entries(o9@) =~= seq![("type"@, JsonView::Str("string"@)), ("description"@, JsonView::Str("The body of the review comment."@))]);
        let j10 = Json::Object(o9);
        let ghost j10_v = j10@;
        let mut o11: Vec<(String, Json)> = Vec::new();
        push_entry(&mut o11, "type", json_str("string"));
        push_entry(&mut o11, "description", json_str("Path of the file the comment is attached to."));
        assert(json::view_entries(o11@) =~= seq![("type"@, JsonView::Str("string"@)), ("description"@, JsonView::Str("Path of the file the comment is attached to."@))]);
        let j12 = Json::Object(o11);
        let ghost j12_v = j12@;
        let mut o13: Vec<(String, Json)> = Vec::new();
        push_entry(&mut o13, "type", json_str("string"));
        push_entry(&mut o13, "description", json_str("The diff hunk the comment is attached to."));
        assert(json::view_entries(o13@) =~= seq![("type"@, JsonView::Str("string"@)), ("description"@, JsonView::Str("The diff hunk the comment is attached to."@))]);
        let j14 = Json::Object(o13);
        let ghost j14_v = j14@;
        let mut o15: Vec<(String, Json)> = Vec::new();
        push_entry(&mut o15, "comment_id", j6);
        push_entry(&mut o15, "author", j8);
        push_entry(&mut o15, "comment_body", j10);
        push_entry(&mut o15, "file_path", j12);
        push_entry(&mut o15, "diff_hunk", j14);
        assert(json::view_entries(o15@) =~= seq![("comment_id"@, j6_v), ("author"@, j8_v), ("comment_body"@, j10_v), ("file_path"@, j12_v), ("diff_hunk"@, j14_v)]);
        let j16 = Json::Object(o15);
        let ghost j16_v = j16@;
        let mut a17: Vec<Json> = Vec::new();
        push_item(&mut a17, json_str("comment_body"));
        assert(json::view_items(a17@) =~= seq![JsonView::Str("comment_body"@)]);
        let j18 = Json::Array(a17);
        let ghost j18_v = j18@;
        let mut o19: Vec<(String, Json)> = Vec::new();
        push_entry(&mut o19, "type", json_str("object"));
        push_entry(&mut o19, "properties", j16);
        push_entry(&mut o19, "required", j18);
        assert(json::view_entries(o19@) =~= seq![("type"@, JsonView::Str("object"@)), ("properties"@, j16_v), ("required"@, j18_v)]);
        let j20 = Json::Object(o19);
        let ghost j20_v = j20@;
        let mut o21: Vec<(String, Json)> = Vec::new();
        push_entry(&mut o21, "type", json_str("array"));
        push_entry(&mut o21, "description", json_str("List of review comments to insert."));
        push_entry(&mut o21, "items", j20);
        assert(json::view_entries(o21@) =~= seq![("type"@, JsonView::Str("array"@)), ("description"@, JsonView::Str("List of review comments to insert."@)), ("items"@, j20_v)]);
        let j22 = Json::Object(o21);
        let ghost j22_v = j22@;
        let mut o23: Vec<(String, Json)> = Vec::new();
        push_entry(&mut o23, "repo_path", j2);
        push_entry(&mut o23, "base_branch", j4);
        push_entry(&mut o23, "comments", j22);
        assert(json::view_entries(o23@) =~= seq![("repo_path"@, j2_v), ("base_branch"@, j4_v), ("comments"@, j22_v)]);
        let j24 = Json::Object(o23);
        let ghost j24_v = j24@;
        let mut a25: Vec<Json> = Vec::new();
        push_item(&mut a25, json_str("repo_path"));
        push_item(&mut a25, json_str("comments"));
        assert(json::view_items(a25@) =~= seq![JsonView::Str("repo_path"@), JsonView::Str("comments"@)]);
        let j26 = Json::Array(a25);
        let ghost j26_v = j26@;
        let mut o27: Vec<(String, Json)> = Vec::new();
        push_entry(&mut o27, "type", json_str("object"));
        push_entry(&mut o27, "properties", j24);
        push_entry(&mut o27, "required", j26);
        assert(json::view_entries(o27@) =~= seq![("type"@, JsonView::Str("object"@)), ("properties"@, j24_v), ("required"@, j26_v)]);
        let j28 = Json::Object(o27);
        let ghost j28_v = j28@;
        assert(j28_v == insert_review_comments_schema_value());
        j28
    }

    /// Decodes the JSON arguments: `repo_path` and `comments` are
    /// required; `base_branch` defaults to empty; every entry of
    /// `comments` becomes a comment.
    pub fn decode_call_args(&self, args: Json) -> (r: Result<Tool, Arc<AIApiError>>)
        ensures
            insert_review_comments_decoded(args, r),
    {
        let repo_path = match get_string(&args, "repo_path") {
            Some(p) => p,
            None => {
                return Err(arg_error("insert_review_comments: missing required `repo_path` argument"));
            },
        };
        let base_branch = get_string_or_empty(&args, "base_branch");
        let items = match get_array(&args, "comments") {
            Some(a) => a,
            None => {
                return Err(arg_error("insert_review_comments: missing required `comments` argument"));
            },
        };
        proof {
            json::lemma_view_items_len(items@);
        }
        let ghost vs = json::view_items(items@);
        let ghost target = vs.map_values(|j: JsonView| comment_of(j));
        let mut comments: Vec<ReviewComment> = Vec::new();
        let mut i: usize = 0;
        while i < items.len()
            invariant
                i <= items.len(),
                vs == json::view_items(items@),
                vs.len() == items.len(),
                target == vs.map_values(|j: JsonView| comment_of(j)),
                forall|k: int| 0 <= k < items.len() ==> #[trigger] vs[k] == items@[k]@,
                comments@.map_values(|x: ReviewComment| comment_view(x)) == target.take(i as int),
            decreases items.len() - i,
        {
            let c = decode_comment(&items[i]);
            let ghost before = comments@;
            let ghost cv = comment_view(c);
            comments.push(c);
            assert(comments@.map_values(|x: ReviewComment| comment_view(x)) =~= before.map_values(
                |x: ReviewComment| comment_view(x),
            ).push(cv));
            assert(target.take(i + 1) =~= target.take(i as int).push(target[i as int]));
            i = i + 1;
        }
        assert(target.take(items.len() as int) =~= target);
        Ok(Tool::InsertReviewComments(InsertReviewComments { repo_path, base_branch, comments }))
    }

    /// Encodes a call back into its arguments (repository, branch and
    /// comment count).
    pub fn encode_call_args(&self, tool: &Tool) -> (r: Json)
        ensures
            r@ == insert_review_comments_call_args(tool),
    {
        let mut es: Vec<(String, Json)> = Vec::new();
        match tool {
            Tool::InsertReviewComments(c) => {
                push_entry(&mut es, "repo_path", Json::Str(c.repo_path.clone()));
                push_entry(&mut es, "base_branch", Json::Str(c.base_branch.clone()));
                push_entry(
                    &mut es,
                    "comment_count",
                    Json::Number(JsonNumber::PosInt(c.comments.len() as u64)),
                );
                assert(json::view_entries(es@) =~= insert_review_comments_args(*c)->Object_0);
            },
            _ => {
                assert(json::view_entries(es@) =~= Seq::<(Seq<char>, JsonView)>::empty());
            },
        }
        Json::Object(es)
    }

    /// The text sent back to the model for a result of this tool.
    pub fn encode_result_text(&self, result: &ToolResult) -> (r: Result<String, Arc<AIApiError>>)
        ensures
            insert_review_comments_result_encoded(result, r),
    {
        match result {
            ToolResult::InsertReviewComments(o) => match o {
                Some(InsertReviewCommentsOutcome::Success) => Ok(text::owned("comments inserted")),
                Some(InsertReviewCommentsOutcome::Error(e)) => Ok(error_string(e)),
                None => Ok(no_result()),
            },
            _ => Err(arg_error("insert_review_comments: result variant mismatch")),
        }
    }

    pub fn matches_proto_call(&self, tool: &Tool) -> (r: bool)
        ensures
            r == (tool is InsertReviewComments),
    {
        match tool {
            Tool::InsertReviewComments(_) => true,
            _ => false,
        }
    }

    pub fn matches_proto_result(&self, result: &ToolResult) -> (r: bool)
        ensures
            r == (result is InsertReviewComments),
    {
        match result {
            ToolResult::InsertReviewComments(_) => true,
            _ => false,
        }
    }
}

// ---------------------------------------------------------------------------
// UploadFileArtifact
// ---------------------------------------------------------------------------

/// The `path` member of the `file` member.
pub open spec fn file_path_arg(args: JsonView) -> Option<Seq<char>> {
    match args.get("file"@) {
        Some(f) => f.get_str("path"@),
        None => None,
    }
}

pub open spec fn upload_file_artifact_args(c: UploadFileArtifact) -> JsonView {
    JsonView::Object(
        seq![
            (
                "file"@,
                JsonView::Object(
                    seq![
                        (
                            "path"@,
                            JsonView::Str(
                                match c.file {
                                    Some(f) => f.file_path@,
                                    None => Seq::empty(),
                                },
                            ),
                        ),
                    ],
                ),
            ),
            ("description"@, JsonView::Str(c.description@)),
        ],
    )
}

pub open spec fn upload_file_artifact_result_text(o: Option<UploadFileArtifactOutcome>) -> Seq<char> {
    match o {
        Some(UploadFileArtifactOutcome::Success { artifact_uid, size_bytes }) => "artifact_uid: "@
            + artifact_uid@ + ", size_bytes: "@ + text::decimal(size_bytes as int),
        Some(UploadFileArtifactOutcome::Error(e)) => tools::error_text(e),
        None => "(no result)"@,
    }
}

/// What decoding a call\'s JSON arguments gives, or when it fails.
pub open spec fn upload_file_artifact_decoded(args: Json, r: Result<Tool, Arc<AIApiError>>) -> bool {
    match r {
        Ok(Tool::UploadFileArtifact(c)) => {
            &&& c.file matches Some(f) && file_path_arg(args@) == Some(f.file_path@)
            &&& args@.get_str("description"@) == Some(c.description@)
        },
        Ok(_) => false,
        Err(e) => if file_path_arg(args@) is None {
            e.is_other("upload_file_artifact: missing required `file.path` argument"@)
        } else {
            args@.get_str("description"@) is None && e.is_other(
                "upload_file_artifact: missing required `description` argument"@,
            )
        },
    }
}

/// The JSON arguments a call of this tool is encoded as; other calls give `{}`.
pub open spec fn upload_file_artifact_call_args(tool: &Tool) -> JsonView {
    match tool {
        Tool::UploadFileArtifact(c) => upload_file_artifact_args(*c),
        _ => JsonView::Object(Seq::empty()),
    }
}

/// The text a result of this tool is sent as; other results are refused.
pub open spec fn upload_file_artifact_result_encoded(result: &ToolResult, r: Result<String, Arc<AIApiError>>) -> bool {
    match result {
        ToolResult::UploadFileArtifact(o) => r matches Ok(s) && s@
            == upload_file_artifact_result_text(*o),
        _ => r matches Err(e) && e.is_other("upload_file_artifact: result variant mismatch"@),
    }
}

/// What the model is told the tool does.
pub open spec fn upload_file_artifact_description() -> Seq<char> {
    "Upload a local file as a conversation artifact."@
}

/// The tool's argument schema.
pub open spec fn upload_file_artifact_schema_value() -> JsonView {
    JsonView::Object(
        seq![
            ("type"@, JsonView::Str("object"@)),
            (
                "properties"@,
                JsonView::Object(
                    seq![
                        (
                            "file"@,
                            JsonView::Object(
                                seq![
                                    ("type"@, JsonView::Str("object"@)),
                                    ("description"@, JsonView::Str("The file to upload."@)),
                                    (
                                        "properties"@,
                                        JsonView::Object(
                                            seq![
                                                (
                                                    "path"@,
                                                    JsonView::Object(
                                                        seq![
                                                            ("type"@, JsonView::Str("string"@)),
                                                            ("description"@, JsonView::Str("Absolute path to the local file."@)),
                                                        ],
                                                    ),
                                                ),
                                            ],
                                        ),
                                    ),
                                    (
                                        "required"@,
                                        JsonView::Array(
                                            seq![
                                                JsonView::Str("path"@),
                                            ],
                                        ),
                                    ),
                                ],
                            ),
                        ),
                        (
                            "description"@,
                            JsonView::Object(
                                seq![
                                    ("type"@, JsonView::Str("string"@)),
                                    ("description"@, JsonView::Str("Human-readable description of the artifact."@)),
                                ],
                            ),
                        ),
                    ],
                ),
            ),
            (
                "required"@,
                JsonView::Array(
                    seq![
                        JsonView::Str("file"@),
                        JsonView::Str("description"@),
                    ],
                ),
            ),
        ],
    )
}

/// `s` is the tool's argument schema.
pub open spec fn upload_file_artifact_schema(s: JsonView) -> bool {
    s == upload_file_artifact_schema_value()
}

impl UploadFileArtifactTool {
    pub fn name(&self) -> (r: &'static str)
        ensures
            r@ == "upload_file_artifact"@,
    {
        "upload_file_artifact"
    }

    pub fn description(&self) -> (r: &'static str)
        ensures
            r@ == upload_file_artifact_description(),
    {
        "Upload a local file as a conversation artifact."
    }

    /// JSON Schema of the arguments.
    pub fn parameters_schema(&self) -> (r: Json)
        ensures
            upload_file_artifact_schema(r@),
    {
        let mut o1: Vec<(String, Json)> = Vec::new();
        push_entry(&mut o1, "type", json_str("string"));
        push_entry(&mut o1, "description", json_str("Absolute path to the local file."));
        assert(json::view_entries(o1@) =~= seq![("type"@, JsonView::Str("string"@)), ("description"@, JsonView::Str("Absolute path to the local file."@))]);
        let j2 = Json::Object(o1);
        let ghost j2_v = j2@;
        let mut o3: Vec<(String, Json)> = Vec::new();
        push_entry(&mut o3, "path", j2);
        assert(json::view_entries(o3@) =~= seq![("path"@, j2_v)]);
        let j4 = Json::Object(o3);
        let ghost j4_v = j4@;
        let mut a5: Vec<Json> = Vec::new();
        push_item(&mut a5, json_str("path"));
        assert(json::view_items(a5@) =~= seq![JsonView::Str("path"@)]);
        let j6 = Json::Array(a5);
        let ghost j6_v = j6@;
        let mut o7: Vec<(String, Json)> = Vec::new();
        push_entry(&mut o7, "type", json_str("object"));
        push_entry(&mut o7, "description", json_str("The file to upload."));
        push_entry(&mut o7, "properties", j4);
        push_entry(&mut o7, "required", j6);
        assert(json::view_entries(o7@) =~= seq![("type"@, JsonView::Str("object"@)), ("description"@, JsonView::Str("The file to upload."@)), ("properties"@, j4_v), ("required"@, j6_v)]);
        let j8 = Json::Object(o7);
        let ghost j8_v = j8@;
        let mut o9: Vec<(String, Json)> = Vec::new();
        push_entry(&mut o9, "type", json_str("string"));
        push_entry(&mut o9, "description", json_str("Human-readable description of the artifact."));
        assert(json::view_entries(o9@) =~= seq![("type"@, JsonView::Str("string"@)), ("description"@, JsonView::Str("Human-readable description of the artifact."@))]);
        let j10 = Json::Object(o9);
        let ghost j10_v = j10@;
        let mut o11: Vec<(String, Json)> = Vec::new();
        push_entry(&mut o11, "file", j8);
        push_entry(&mut o11, "description", j10);
        assert(json::view_entries(o11@) =~= seq![("file"@, j8_v), ("description"@, j10_v)]);
        let j12 = Json::Object(o11);
        let ghost j12_v = j12@;
        let mut a13: Vec<Json> = Vec::new();
        push_item(&mut a13, json_str("file"));
        push_item(&mut a13, json_str("description"));
        assert(json::view_items(a13@) =~= seq![JsonView::Str("file"@), JsonView::Str("description"@)]);
        let j14 = Json::Array(a13);
        let ghost j14_v = j14@;
        let mut o15: Vec<(String, Json)> = Vec::new();
        push_entry(&mut o15, "type", json_str("object"));
        push_entry(&mut o15, "properties", j12);
        push_entry(&mut o15, "required", j14);
        assert(json::view_entries(o15@) =~= seq![("type"@, JsonView::Str("object"@)), ("properties"@, j12_v), ("required"@, j14_v)]);
        let j16 = Json::Object(o15);
        let ghost j16_v = j16@;
        assert(j16_v == upload_file_artifact_schema_value());
        j16
    }

    /// Decodes the JSON arguments: `file.path` and `description` are
    /// required.
    pub fn decode_call_args(&self, args: Json) -> (r: Result<Tool, Arc<AIApiError>>)
        ensures
            upload_file_artifact_decoded(args, r),
    {
        let file_path = match args.get("file") {
            Some(f) => get_string(f, "path"),
            None => None,
        };
        let file_path = match file_path {
            Some(p) => p,
            None => {
                return Err(arg_error("upload_file_artifact: missing required `file.path` argument"));
            },
        };
        let description = match get_string(&args, "description") {
            Some(d) => d,
            None => {
                return Err(
                    arg_error("upload_file_artifact: missing required `description` argument"),
                );
            },
        };
        Ok(
            Tool::UploadFileArtifact(
                UploadFileArtifact { file: Some(FilePathReference { file_path }), description },
            ),
        )
    }

    /// Encodes a call back into its arguments.
    pub fn encode_call_args(&self, tool: &Tool) -> (r: Json)
        ensures
            r@ == upload_file_artifact_call_args(tool),
    {
        let mut es: Vec<(String, Json)> = Vec::new();
        match tool {
            Tool::UploadFileArtifact(c) => {
                let mut f: Vec<(String, Json)> = Vec::new();
                let path = match &c.file {
                    Some(r) => r.file_path.clone(),
                    None => String::new(),
                };
                push_entry(&mut f, "path", Json::Str(path));
                push_entry(&mut es, "file", Json::Object(f));
                push_entry(&mut es, "description", Json::Str(c.description.clone()));
                assert(json::view_entries(es@) =~= upload_file_artifact_args(*c)->Object_0);
            },
            _ => {
                assert(json::view_entries(es@) =~= Seq::<(Seq<char>, JsonView)>::empty());
            },
        }
        Json::Object(es)
    }

    /// The text sent back to the model for a result of this tool.
    pub fn encode_result_text(&self, result: &ToolResult) -> (r: Result<String, Arc<AIApiError>>)
        ensures
            upload_file_artifact_result_encoded(result, r),
    {
        match result {
            ToolResult::UploadFileArtifact(o) => match o {
                Some(UploadFileArtifactOutcome::Success { artifact_uid, size_bytes }) => {
                    let mut out = text::owned("artifact_uid: ");
                    out.append(artifact_uid.as_str());
                    out.append(", size_bytes: ");
                    push_u64(&mut out, *size_bytes);
                    assert(out@ =~= upload_file_artifact_result_text(*o));
                    Ok(out)
                },
                Some(UploadFileArtifactOutcome::Error(e)) => Ok(error_string(e)),
                None => Ok(no_result()),
            },
            _ => Err(arg_error("upload_file_artifact: result variant mismatch")),
        }
    }

    pub fn matches_proto_call(&self, tool: &Tool) -> (r: bool)
        ensures
            r == (tool is UploadFileArtifact),
    {
        match tool {
            Tool::UploadFileArtifact(_) => true,
            _ => false,
        }
    }

    pub fn matches_proto_result(&self, result: &ToolResult) -> (r: bool)
        ensures
            r == (result is UploadFileArtifact),
    {
        match result {
            ToolResult::UploadFileArtifact(_) => true,
            _ => false,
        }
    }
}

} // verus!
