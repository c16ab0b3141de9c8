//! Edit/write tools: ApplyFileDiffs, EditDocuments, CreateDocuments,
//! WriteToLongRunningShellCommand.

use std::sync::Arc;

use vstd::prelude::*;
use vstd::string::*;

use crate::error::AIApiError;
use crate::json::{self, get_array, get_str, get_string, json_str, push_entry, push_item, Json, JsonView};
use crate::proto::calls::{
    ApplyFileDiffs, CreateDocuments, DeleteFile, DocumentDiff, EditDocuments, FileDiff, NewDocument,
    NewFile, Tool, WriteMode, WriteModeKind, WriteToLongRunningShellCommand,
};
use crate::proto::results::{ApplyFileDiffsOutcome, DocumentsOutcome, ToolResult};
use crate::text::{self, from_utf8_lossy, join, str_eq, utf8_bytes};
use crate::tools::read_search::command_io_string;
use crate::tools::{
    self, arg_error, error_string, no_result,
};

verus! {

pub struct ApplyFileDiffsTool;

pub struct EditDocumentsTool;

pub struct CreateDocumentsTool;

pub struct WriteToLongRunningShellCommandTool;

pub const APPLY_FILE_DIFFS: ApplyFileDiffsTool = ApplyFileDiffsTool;

pub const EDIT_DOCUMENTS: EditDocumentsTool = EditDocumentsTool;

pub const CREATE_DOCUMENTS: CreateDocumentsTool = CreateDocumentsTool;

pub const WRITE_TO_LONG_RUNNING_SHELL_COMMAND: WriteToLongRunningShellCommandTool =
    WriteToLongRunningShellCommandTool;

/// The mapped elements of an optional array; none when it is absent.
pub open spec fn filter_map_opt<B>(
    items: Option<Seq<JsonView>>,
    f: spec_fn(JsonView) -> Option<B>,
) -> Seq<B> {
    match items {
        Some(a) => json::filter_map(a, f),
        None => Seq::empty(),
    }
}

/// Three string members, all required.
pub open spec fn three_strs(d: JsonView, a: Seq<char>, b: Seq<char>, c: Seq<char>) -> Option<
    (Seq<char>, Seq<char>, Seq<char>),
> {
    match (d.get_str(a), d.get_str(b), d.get_str(c)) {
        (Some(x), Some(y), Some(z)) => Some((x, y, z)),
        _ => None,
    }
}

/// Two string members, both required.
pub open spec fn two_strs(d: JsonView, a: Seq<char>, b: Seq<char>) -> Option<(Seq<char>, Seq<char>)> {
    match (d.get_str(a), d.get_str(b)) {
        (Some(x), Some(y)) => Some((x, y)),
        _ => None,
    }
}

// ---------------------------------------------------------------------------
// ApplyFileDiffs
// ---------------------------------------------------------------------------

pub open spec fn file_diff_fn() -> spec_fn(JsonView) -> Option<(Seq<char>, Seq<char>, Seq<char>)> {
    |d: JsonView| three_strs(d, "file_path"@, "search"@, "replace"@)
}

pub open spec fn new_file_fn() -> spec_fn(JsonView) -> Option<(Seq<char>, Seq<char>)> {
    |d: JsonView| two_strs(d, "file_path"@, "content"@)
}

pub open spec fn delete_file_fn() -> spec_fn(JsonView) -> Option<Seq<char>> {
    |d: JsonView| d.get_str("file_path"@)
}

pub open spec fn file_diffs_view(ds: Seq<FileDiff>) -> Seq<(Seq<char>, Seq<char>, Seq<char>)> {
    ds.map_values(|d: FileDiff| (d.file_path@, d.search@, d.replace@))
}

pub open spec fn new_files_view(fs: Seq<NewFile>) -> Seq<(Seq<char>, Seq<char>)> {
    fs.map_values(|f: NewFile| (f.file_path@, f.content@))
}

pub open spec fn deleted_files_view(fs: Seq<DeleteFile>) -> Seq<Seq<char>> {
    fs.map_values(|f: DeleteFile| f.file_path@)
}

/// The decoded call for the given arguments, when `summary` is present.
pub open spec fn decoded_apply_file_diffs(args: JsonView, c: ApplyFileDiffs) -> bool {
    &&& args.get_str("summary"@) == Some(c.summary@)
    &&& file_diffs_view(c.diffs@) == filter_map_opt(args.get_array("diffs"@), file_diff_fn())
    &&& new_files_view(c.new_files@) == filter_map_opt(args.get_array("new_files"@), new_file_fn())
    &&& deleted_files_view(c.deleted_files@) == filter_map_opt(
        args.get_array("deleted_files"@),
        delete_file_fn(),
    )
}

pub open spec fn triple_object(
    ka: Seq<char>,
    kb: Seq<char>,
    kc: Seq<char>,
    a: Seq<char>,
    b: Seq<char>,
    c: Seq<char>,
) -> JsonView {
    JsonView::Object(
        seq![(ka, JsonView::Str(a)), (kb, JsonView::Str(b)), (kc, JsonView::Str(c))],
    )
}

pub open spec fn apply_file_diffs_args(c: ApplyFileDiffs) -> JsonView {
    JsonView::Object(
        seq![
            ("summary"@, JsonView::Str(c.summary@)),
            (
                "diffs"@,
                JsonView::Array(
                    c.diffs@.map_values(
                        |d: FileDiff|
                            triple_object(
                                "file_path"@,
                                "search"@,
                                "replace"@,
                                d.file_path@,
                                d.search@,
                                d.replace@,
                            ),
                    ),
                ),
            ),
        ],
    )
}

/// The paths of the updated files that carry one, in order.
pub open spec fn updated_paths(us: Seq<crate::proto::results::UpdatedFile>) -> Seq<Seq<char>>
    decreases us.len(),
{
    if us.len() == 0 {
        Seq::empty()
    } else {
        let rest = updated_paths(us.drop_last());
        match us.last().file {
            Some(f) => rest.push(f.file_path@),
            None => rest,
        }
    }
}

pub open spec fn apply_file_diffs_result_text(o: Option<ApplyFileDiffsOutcome>) -> Seq<char> {
    match o {
        Some(ApplyFileDiffsOutcome::Success { updated_files_v2, deleted_files }) => "updated_files: "@
            + text::joined(updated_paths(updated_files_v2@), ", "@) + "\ndeleted_files: "@
            + text::joined(crate::tools::read_search::file_paths(deleted_files@), ", "@),
        Some(ApplyFileDiffsOutcome::Error(e)) => tools::error_text(e),
        None => "(no result)"@,
    }
}

fn decode_file_diffs(items: Option<&Vec<Json>>) -> (r: Vec<FileDiff>)
    ensures
        file_diffs_view(r@) == filter_map_opt(
            match items {
                Some(a) => Some(json::view_items(a@)),
                None => None,
            },
            file_diff_fn(),
        ),
{
    let mut out: Vec<FileDiff> = Vec::new();
    match items {
        Some(a) => {
            proof {
                json::lemma_view_items_len(a@);
            }
            let ghost vs = json::view_items(a@);
            assert(file_diffs_view(out@) =~= json::filter_map(vs.take(0), file_diff_fn()));
            let mut i: usize = 0;
            while i < a.len()
                invariant
                    i <= a.len(),
                    vs == json::view_items(a@),
                    vs.len() == a.len(),
                    forall|k: int| 0 <= k < a.len() ==> #[trigger] vs[k] == a@[k]@,
                    file_diffs_view(out@) == json::filter_map(vs.take(i as int), file_diff_fn()),
                decreases a.len() - i,
            {
                proof {
                    json::lemma_filter_map_step(vs, file_diff_fn(), i as int);
                }
                let d = &a[i];
                match (get_string(d, "file_path"), get_string(d, "search"), get_string(d, "replace")) {
                    (Some(file_path), Some(search), Some(replace)) => {
                        let ghost before = out@;
                        let ghost v = (file_path@, search@, replace@);
                        out.push(FileDiff { file_path, search, replace });
                        assert(file_diffs_view(out@) =~= file_diffs_view(before).push(v));
                    },
                    _ => {},
                }
                i = i + 1;
            }
            assert(vs.take(a.len() as int) =~= vs);
        },
        None => {
            assert(file_diffs_view(out@) =~= Seq::<(Seq<char>, Seq<char>, Seq<char>)>::empty());
        },
    }
    out
}

fn decode_new_files(items: Option<&Vec<Json>>) -> (r: Vec<NewFile>)
    ensures
        new_files_view(r@) == filter_map_opt(
            match items {
                Some(a) => Some(json::view_items(a@)),
                None => None,
            },
            new_file_fn(),
        ),
{
    let mut out: Vec<NewFile> = Vec::new();
    match items {
        Some(a) => {
            proof {
                json::lemma_view_items_len(a@);
            }
            let ghost vs = json::view_items(a@);
            assert(new_files_view(out@) =~= json::filter_map(vs.take(0), new_file_fn()));
            let mut i: usize = 0;
            while i < a.len()
                invariant
                    i <= a.len(),
                    vs == json::view_items(a@),
                    vs.len() == a.len(),
                    forall|k: int| 0 <= k < a.len() ==> #[trigger] vs[k] == a@[k]@,
                    new_files_view(out@) == json::filter_map(vs.take(i as int), new_file_fn()),
                decreases a.len() - i,
            {
                proof {
                    json::lemma_filter_map_step(vs, new_file_fn(), i as int);
                }
                let d = &a[i];
                match (get_string(d, "file_path"), get_string(d, "content")) {
                    (Some(file_path), Some(content)) => {
                        let ghost before = out@;
                        let ghost v = (file_path@, content@);
                        out.push(NewFile { file_path, content });
                        assert(new_files_view(out@) =~= new_files_view(before).push(v));
                    },
                    _ => {},
                }
                i = i + 1;
            }
            assert(vs.take(a.len() as int) =~= vs);
        },
        None => {
            assert(new_files_view(out@) =~= Seq::<(Seq<char>, Seq<char>)>::empty());
        },
    }
    out
}

fn decode_deleted_files(items: Option<&Vec<Json>>) -> (r: Vec<DeleteFile>)
    ensures
        deleted_files_view(r@) == filter_map_opt(
            match items {
                Some(a) => Some(json::view_items(a@)),
                None => None,
            },
            delete_file_fn(),
        ),
{
    let mut out: Vec<DeleteFile> = Vec::new();
    match items {
        Some(a) => {
            proof {
                json::lemma_view_items_len(a@);
            }
            let ghost vs = json::view_items(a@);
            assert(deleted_files_view(out@) =~= json::filter_map(vs.take(0), delete_file_fn()));
            let mut i: usize = 0;
            while i < a.len()
                invariant
                    i <= a.len(),
                    vs == json::view_items(a@),
                    vs.len() == a.len(),
                    forall|k: int| 0 <= k < a.len() ==> #[trigger] vs[k] == a@[k]@,
                    deleted_files_view(out@) == json::filter_map(vs.take(i as int), delete_file_fn()),
                decreases a.len() - i,
            {
                proof {
                    json::lemma_filter_map_step(vs, delete_file_fn(), i as int);
                }
                match get_string(&a[i], "file_path") {
                    Some(file_path) => {
                        let ghost before = out@;
                        let ghost v = file_path@;
                        out.push(DeleteFile { file_path });
                        assert(deleted_files_view(out@) =~= deleted_files_view(before).push(v));
                    },
                    None => {},
                }
                i = i + 1;
            }
            assert(vs.take(a.len() as int) =~= vs);
        },
        None => {
            assert(deleted_files_view(out@) =~= Seq::<Seq<char>>::empty());
        },
    }
    out
}

/// `{ka: a, kb: b, kc: c}`.
fn triple(ka: &str, kb: &str, kc: &str, a: &String, b: &String, c: &String) -> (r: Json)
    ensures
        r@ == triple_object(ka@, kb@, kc@, a@, b@, c@),
{
    let mut e: Vec<(String, Json)> = Vec::new();
    push_entry(&mut e, ka, Json::Str(a.clone()));
    push_entry(&mut e, kb, Json::Str(b.clone()));
    push_entry(&mut e, kc, Json::Str(c.clone()));
    assert(json::view_entries(e@) =~= triple_object(ka@, kb@, kc@, a@, b@, c@)->Object_0);
    Json::Object(e)
}

/// What decoding a call\'s JSON arguments gives, or when it fails.
pub open spec fn apply_file_diffs_decoded(args: Json, r: Result<Tool, Arc<AIApiError>>) -> bool {
    match r {
        Ok(Tool::ApplyFileDiffs(c)) => decoded_apply_file_diffs(args@, c),
        Ok(_) => false,
        Err(e) => args@.get_str("summary"@) is None && e.is_other(
            "apply_file_diffs: missing required `summary` argument"@,
        ),
    }
}

/// Every argument object that conforms to the schema this tool is offered
/// with decodes: the schema requires `summary`, with the types decoding takes.
pub proof fn lemma_apply_file_diffs_schema_conforming_args_decode(args: Json, r: Result<Tool, Arc<AIApiError>>)
    requires
        crate::tools::conforms_to_schema(args@, apply_file_diffs_schema_value()),
        apply_file_diffs_decoded(args, r),
    ensures
        r is Ok,
{
    reveal_strlit("array");
    reveal_strlit("boolean");
    reveal_strlit("deleted_files");
    reveal_strlit("diffs");
    reveal_strlit("integer");
    reveal_strlit("new_files");
    reveal_strlit("number");
    reveal_strlit("object");
    reveal_strlit("properties");
    reveal_strlit("required");
    reveal_strlit("string");
    reveal_strlit("summary");
    reveal_strlit("type");
    assert("type"@[0] != "properties"@[0]);
    assert("type"@[0] != "required"@[0]);
    assert("properties"@[0] != "required"@[0]);
    assert("string"@[0] != "array"@[0]);
    assert("string"@[0] != "object"@[0]);
    assert("string"@[0] != "boolean"@[0]);
    assert("string"@[0] != "integer"@[0]);
    assert("string"@[0] != "number"@[0]);
    assert("array"@[0] != "object"@[0]);
    assert("array"@[0] != "boolean"@[0]);
    assert("array"@[0] != "integer"@[0]);
    assert("array"@[0] != "number"@[0]);
    assert("object"@[0] != "boolean"@[0]);
    assert("object"@[0] != "integer"@[0]);
    assert("object"@[0] != "number"@[0]);
    assert("boolean"@[0] != "integer"@[0]);
    assert("boolean"@[0] != "number"@[0]);
    assert("integer"@[0] != "number"@[0]);
    reveal_with_fuel(crate::json::lookup, 3);
    reveal_with_fuel(crate::json::strings_of, 2);
    let sch = apply_file_diffs_schema_value();
    let es = sch->Object_0;
    assert(es.drop_first()[0] == es[1]);
    assert(es.drop_first().drop_first()[0] == es[2]);
    let req = seq![JsonView::Str("summary"@)];
    assert(sch.get_array("required"@) == Some(req));
    assert(req.take(0) =~= Seq::<JsonView>::empty());
    assert(req.take(1).drop_last() =~= req.take(0));
    assert(req.take(1) =~= req);
    assert(crate::tools::required_members(sch) =~= seq!["summary"@]);
    let ps = es[1].1->Object_0;
    assert(crate::tools::described_members(sch) == ps);
    assert(ps[0].0 == "summary"@);
    assert(ps[0].1.get_str("type"@) == Some("string"@));
    crate::tools::lemma_required_member_typed(args@, sch, 0, 0);
    assert(args@.get("summary"@)->0 is Str);
    assert(args@.get_str("summary"@) is Some);
}


/// The JSON arguments a call of this tool is encoded as; other calls give `{}`.
pub open spec fn apply_file_diffs_call_args(tool: &Tool) -> JsonView {
    match tool {
        Tool::ApplyFileDiffs(c) => apply_file_diffs_args(*c),
        _ => JsonView::Object(Seq::empty()),
    }
}

/// The text a result of this tool is sent as; other results are refused.
pub open spec fn apply_file_diffs_result_encoded(result: &ToolResult, r: Result<String, Arc<AIApiError>>) -> bool {
    match result {
        ToolResult::ApplyFileDiffs(o) => r matches Ok(s) && s@ == apply_file_diffs_result_text(*o),
        _ => r matches Err(e) && e.is_other("apply_file_diffs: result variant mismatch"@),
    }
}

/// What the model is told the tool does.
pub open spec fn apply_file_diffs_description() -> Seq<char> {
    "Edit, create, or delete files via search/replace diffs."@
}

/// The tool's argument schema.
pub open spec fn apply_file_diffs_schema_value() -> JsonView {
    JsonView::Object(
        seq![
            ("type"@, JsonView::Str("object"@)),
            (
                "properties"@,
                JsonView::Object(
                    seq![
                        (
                            "summary"@,
                            JsonView::Object(
                                seq![
                                    ("type"@, JsonView::Str("string"@)),
                                    ("description"@, JsonView::Str("A short description of all the changes being made."@)),
                                ],
                            ),
                        ),
                        (
                            "diffs"@,
                            JsonView::Object(
                                seq![
                                    ("type"@, JsonView::Str("array"@)),
                                    ("description"@, JsonView::Str("Search/replace diffs to apply to existing files."@)),
                                    (
                                        "items"@,
                                        JsonView::Object(
                                            seq![
                                                ("type"@, JsonView::Str("object"@)),
                                                (
                                                    "properties"@,
                                                    JsonView::Object(
                                                        seq![
                                                            (
                                                                "file_path"@,
                                                                JsonView::Object(
                                                                    seq![
                                                                        ("type"@, JsonView::Str("string"@)),
                                                                        ("description"@, JsonView::Str("Path of the file to edit."@)),
                                                                    ],
                                                                ),
                                                            ),
                                                            (
                                                                "search"@,
                                                                JsonView::Object(
                                                                    seq![
                                                                        ("type"@, JsonView::Str("string"@)),
                                                                        ("description"@, JsonView::Str("The exact content to find and replace."@)),
                                                                    ],
                                                                ),
                                                            ),
                                                            (
                                                                "replace"@,
                                                                JsonView::Object(
                                                                    seq![
                                                                        ("type"@, JsonView::Str("string"@)),
                                                                        ("description"@, JsonView::Str("The content that replaces the search string."@)),
                                                                    ],
                                                                ),
                                                            ),
                                                        ],
                                                    ),
                                                ),
                                                (
                                                    "required"@,
                                                    JsonView::Array(
                                                        seq![
                                                            JsonView::Str("file_path"@),
                                                            JsonView::Str("search"@),
                                                            JsonView::Str("replace"@),
                                                        ],
                                                    ),
                                                ),
                                            ],
                                        ),
                                    ),
                                ],
                            ),
                        ),
                        (
                            "new_files"@,
                            JsonView::Object(
                                seq![
                                    ("type"@, JsonView::Str("array"@)),
                                    ("description"@, JsonView::Str("New files to create."@)),
                                    (
                                        "items"@,
                                        JsonView::Object(
                                            seq![
                                                ("type"@, JsonView::Str("object"@)),
                                                (
                                                    "properties"@,
                                                    JsonView::Object(
                                                        seq![
                                                            (
                                                                "file_path"@,
                                                                JsonView::Object(
                                                                    seq![
                                                                        ("type"@, JsonView::Str("string"@)),
                                                                        ("description"@, JsonView::Str("Path of the new file."@)),
                                                                    ],
                                                                ),
                                                            ),
                                                            (
                                                                "content"@,
                                                                JsonView::Object(
                                                                    seq![
                                                                        ("type"@, JsonView::Str("string"@)),
                                                                        ("description"@, JsonView::Str("Contents of the new file."@)),
                                                                    ],
                                                                ),
                                                            ),
                                                        ],
                                                    ),
                                                ),
                                                (
                                                    "required"@,
                                                    JsonView::Array(
                                                        seq![
                                                            JsonView::Str("file_path"@),
                                                            JsonView::Str("content"@),
                                                        ],
                                                    ),
                                                ),
                                            ],
                                        ),
                                    ),
                                ],
                            ),
                        ),
                        (
                            "deleted_files"@,
                            JsonView::Object(
                                seq![
                                    ("type"@, JsonView::Str("array"@)),
                                    ("description"@, JsonView::Str("Files to delete."@)),
                                    (
                                        "items"@,
                                        JsonView::Object(
                                            seq![
                                                ("type"@, JsonView::Str("object"@)),
                                                (
                                                    "properties"@,
                                                    JsonView::Object(
                                                        seq![
                                                            (
                                                                "file_path"@,
                                                                JsonView::Object(
                                                                    seq![
                                                                        ("type"@, JsonView::Str("string"@)),
                                                                        ("description"@, JsonView::Str("Path of the file to delete."@)),
                                                                    ],
                                                                ),
                                                            ),
                                                        ],
                                                    ),
                                                ),
                                                (
                                                    "required"@,
                                                    JsonView::Array(
                                                        seq![
                                                            JsonView::Str("file_path"@),
                                                        ],
                                                    ),
                                                ),
                                            ],
                                        ),
                                    ),
                                ],
                            ),
                        ),
                    ],
                ),
            ),
            (
                "required"@,
                JsonView::Array(
                    seq![
                        JsonView::Str("summary"@),
                    ],
                ),
            ),
        ],
    )
}

/// `s` is the tool's argument schema.
pub open spec fn apply_file_diffs_schema(s: JsonView) -> bool {
    s == apply_file_diffs_schema_value()
}

/// The three string members of a three-member object with distinct keys.
proof fn lemma_three_strs_of_triple(ka: Seq<char>, kb: Seq<char>, kc: Seq<char>, a: Seq<char>, b: Seq<char>, c: Seq<char>)
    requires
        ka != kb,
        ka != kc,
        kb != kc,
    ensures
        three_strs(triple_object(ka, kb, kc, a, b, c), ka, kb, kc) == Some((a, b, c)),
{
    reveal_with_fuel(json::lookup, 3);
    let es = triple_object(ka, kb, kc, a, b, c)->Object_0;
    assert(es.drop_first()[0] == es[1]);
    assert(es.drop_first().drop_first()[0] == es[2]);
}

/// The two string members of a two-member object with distinct keys.
proof fn lemma_two_strs_of_pair(ka: Seq<char>, kb: Seq<char>, a: Seq<char>, b: Seq<char>)
    requires
        ka != kb,
    ensures
        two_strs(pair_object(ka, kb, a, b), ka, kb) == Some((a, b)),
{
    reveal_with_fuel(json::lookup, 2);
    let es = pair_object(ka, kb, a, b)->Object_0;
    assert(es.drop_first()[0] == es[1]);
}

/// Decoding a file edit keeps every new file whose entry has a path and a
/// content, in order: each decoded new file's path is its entry's
/// `file_path` member and its content the entry's `content` member.
pub proof fn lemma_apply_file_diffs_new_files_from_members(
    args: Json,
    r: Result<Tool, Arc<AIApiError>>,
    nfs: Seq<JsonView>,
)
    requires
        apply_file_diffs_decoded(args, r),
        r is Ok,
        args@.get_array("new_files"@) == Some(nfs),
        forall|i: int| 0 <= i < nfs.len() ==> (#[trigger] nfs[i]).get_str("file_path"@) is Some
            && nfs[i].get_str("content"@) is Some,
    ensures
        r matches Ok(Tool::ApplyFileDiffs(c)) && c.new_files@.len() == nfs.len() && forall|i: int|
            0 <= i < nfs.len() ==> {
                &&& Some((#[trigger] c.new_files@[i]).file_path@) == nfs[i].get_str("file_path"@)
                &&& Some(c.new_files@[i].content@) == nfs[i].get_str("content"@)
            },
{
    assert forall|i: int| 0 <= i < nfs.len() implies (#[trigger] new_file_fn()(nfs[i])) is Some by {
        assert(nfs[i].get_str("file_path"@) is Some && nfs[i].get_str("content"@) is Some);
    }
    json::lemma_filter_map_all_some(nfs, new_file_fn());
    if let Ok(Tool::ApplyFileDiffs(c)) = r {
        let v = new_files_view(c.new_files@);
        assert(v.len() == c.new_files@.len());
        assert forall|i: int| 0 <= i < nfs.len() implies {
            &&& Some((#[trigger] c.new_files@[i]).file_path@) == nfs[i].get_str("file_path"@)
            &&& Some(c.new_files@[i].content@) == nfs[i].get_str("content"@)
        } by {
            assert(Some(json::filter_map(nfs, new_file_fn())[i]) == new_file_fn()(nfs[i]));
            assert(v[i] == (c.new_files@[i].file_path@, c.new_files@[i].content@));
        }
    }
}

/// Decoding the arguments a write to a long-running command is encoded to
/// gives the same command id back, and as input the UTF-8 bytes of the
/// text the input was sent as (the input itself, when it is valid UTF-8).
pub proof fn lemma_write_to_long_running_shell_command_round_trip(
    c: WriteToLongRunningShellCommand,
    args: Json,
    r: Result<Tool, Arc<AIApiError>>,
)
    requires
        args@ == write_to_long_running_shell_command_call_args(&Tool::WriteToLongRunningShellCommand(c)),
        write_to_long_running_shell_command_decoded(args, r),
    ensures
        r matches Ok(Tool::WriteToLongRunningShellCommand(d)) && d.command_id@ == c.command_id@
            && d.input@ == vstd::utf8::encode_utf8(text::utf8_lossy_text(c.input@)),
{
    reveal_strlit("command_id");
    reveal_strlit("input");
    assert("command_id"@[0] != "input"@[0]);
    reveal_with_fuel(json::lookup, 2);
    let es = write_args(c)->Object_0;
    assert(es.drop_first()[0] == es[1]);
    assert(args@.get_str("command_id"@) == Some(c.command_id@));
    assert(args@.get_str("input"@) == Some(text::utf8_lossy_text(c.input@)));
}

/// Decoding the arguments a document edit is encoded to gives the same
/// edits back.
pub proof fn lemma_edit_documents_round_trip(c: EditDocuments, args: Json, r: Result<Tool, Arc<AIApiError>>)
    requires
        args@ == edit_documents_args(c),
        edit_documents_decoded(args, r),
    ensures
        r matches Ok(Tool::EditDocuments(d)) && document_diffs_view(d.diffs@) == document_diffs_view(
            c.diffs@,
        ),
{
    reveal_strlit("document_id");
    reveal_strlit("search");
    reveal_strlit("replace");
    assert("document_id"@[0] != "search"@[0]);
    assert("document_id"@[0] != "replace"@[0]);
    assert("search"@[0] != "replace"@[0]);
    let g = |d: DocumentDiff|
        triple_object("document_id"@, "search"@, "replace"@, d.document_id@, d.search@, d.replace@);
    let h = |d: DocumentDiff| (d.document_id@, d.search@, d.replace@);
    assert forall|i: int| 0 <= i < c.diffs@.len() implies document_diff_fn()(
        g(#[trigger] c.diffs@[i]),
    ) == Some(h(c.diffs@[i])) by {
        let d = c.diffs@[i];
        lemma_three_strs_of_triple(
            "document_id"@,
            "search"@,
            "replace"@,
            d.document_id@,
            d.search@,
            d.replace@,
        );
    }
    json::lemma_filter_map_of_images(c.diffs@, g, document_diff_fn(), h);
    assert(edit_documents_args(c) == JsonView::Object(seq![("diffs"@, JsonView::Array(c.diffs@.map_values(g)))]));
}

/// Decoding the arguments a document creation is encoded to gives the
/// same documents back.
pub proof fn lemma_create_documents_round_trip(c: CreateDocuments, args: Json, r: Result<Tool, Arc<AIApiError>>)
    requires
        args@ == create_documents_args(c),
        create_documents_decoded(args, r),
    ensures
        r matches Ok(Tool::CreateDocuments(d)) && new_documents_view(d.new_documents@)
            == new_documents_view(c.new_documents@),
{
    reveal_strlit("title");
    reveal_strlit("content");
    assert("title"@[0] != "content"@[0]);
    let g = |d: NewDocument| pair_object("title"@, "content"@, d.title@, d.content@);
    let h = |d: NewDocument| (d.title@, d.content@);
    assert forall|i: int| 0 <= i < c.new_documents@.len() implies new_document_fn()(
        g(#[trigger] c.new_documents@[i]),
    ) == Some(h(c.new_documents@[i])) by {
        let d = c.new_documents@[i];
        lemma_two_strs_of_pair("title"@, "content"@, d.title@, d.content@);
    }
    json::lemma_filter_map_of_images(c.new_documents@, g, new_document_fn(), h);
    assert(create_documents_args(c) == JsonView::Object(
        seq![("new_documents"@, JsonView::Array(c.new_documents@.map_values(g)))],
    ));
}

/// Decoding the arguments a file edit is encoded to gives the same
/// summary and diffs back, for an edit that creates and deletes no file
/// (the encoding sends only the summary and the diffs).
pub proof fn lemma_apply_file_diffs_round_trip(c: ApplyFileDiffs, args: Json, r: Result<Tool, Arc<AIApiError>>)
    requires
        c.new_files@.len() == 0,
        c.deleted_files@.len() == 0,
        args@ == apply_file_diffs_args(c),
        apply_file_diffs_decoded(args, r),
    ensures
        r matches Ok(Tool::ApplyFileDiffs(d)) && d.summary@ == c.summary@ && file_diffs_view(d.diffs@)
            == file_diffs_view(c.diffs@) && d.new_files@.len() == 0 && d.deleted_files@.len() == 0,
{
    reveal_strlit("summary");
    reveal_strlit("diffs");
    reveal_strlit("new_files");
    reveal_strlit("deleted_files");
    reveal_strlit("file_path");
    reveal_strlit("search");
    reveal_strlit("replace");
    reveal_with_fuel(json::lookup, 3);
    assert("file_path"@[0] != "search"@[0]);
    assert("file_path"@[0] != "replace"@[0]);
    assert("search"@[0] != "replace"@[0]);
    assert("summary"@[0] != "diffs"@[0]);
    assert("summary"@[0] != "new_files"@[0]);
    assert("summary"@[0] != "deleted_files"@[0]);
    assert("diffs"@[0] != "new_files"@[0]);
    assert("diffs"@[1] != "deleted_files"@[1]);
    let g = |d: FileDiff|
        triple_object("file_path"@, "search"@, "replace"@, d.file_path@, d.search@, d.replace@);
    let h = |d: FileDiff| (d.file_path@, d.search@, d.replace@);
    assert forall|i: int| 0 <= i < c.diffs@.len() implies file_diff_fn()(g(#[trigger] c.diffs@[i]))
        == Some(h(c.diffs@[i])) by {
        let d = c.diffs@[i];
        lemma_three_strs_of_triple("file_path"@, "search"@, "replace"@, d.file_path@, d.search@, d.replace@);
    }
    json::lemma_filter_map_of_images(c.diffs@, g, file_diff_fn(), h);
    let es = apply_file_diffs_args(c)->Object_0;
    assert(es.drop_first()[0] == es[1]);
    assert(es[1] == ("diffs"@, JsonView::Array(c.diffs@.map_values(g))));
    assert(args@.get_array("diffs"@) == Some(c.diffs@.map_values(g)));
    assert(args@.get_array("new_files"@) is None);
    assert(args@.get_array("deleted_files"@) is None);
    if let Ok(Tool::ApplyFileDiffs(d)) = r {
        assert(d.new_files@ =~= Seq::<NewFile>::empty()) by {
            assert(new_files_view(d.new_files@).len() == 0);
        }
        assert(d.deleted_files@ =~= Seq::<DeleteFile>::empty()) by {
            assert(deleted_files_view(d.deleted_files@).len() == 0);
        }
    }
}

impl ApplyFileDiffsTool {
    pub fn name(&self) -> (r: &'static str)
        ensures
            r@ == "apply_file_diffs"@,
    {
        "apply_file_diffs"
    }

    pub fn description(&self) -> (r: &'static str)
        ensures
            r@ == apply_file_diffs_description(),
    {
        "Edit, create, or delete files via search/replace diffs."
    }

    /// JSON Schema of the arguments.
    #[verifier::rlimit(40)]
    #[verifier::spinoff_prover]
    pub fn parameters_schema(&self) -> (r: Json)
        ensures
            apply_file_diffs_schema(r@),
    {
        let mut o1: Vec<(String, Json)> = Vec::new();
        push_entry(&mut o1, "type", json_str("string"));
        push_entry(&mut o1, "description", json_str("A short description of all the changes being made."));
        assert(json::view_entries(o1@) =~= seq![("type"@, JsonView::Str("string"@)), ("description"@, JsonView::Str("A short description of all the changes being made."@))]);
        let j2 = Json::Object(o1);
        let ghost j2_v = j2@;
        let mut o3: Vec<(String, Json)> = Vec::new();
        push_entry(&mut o3, "type", json_str("string"));
        push_entry(&mut o3, "description", json_str("Path of the file to edit."));
        assert(json::view_entries(o3@) =~= seq![("type"@, JsonView::Str("string"@)), ("description"@, JsonView::Str("Path of the file to edit."@))]);
        let j4 = Json::Object(o3);
        let ghost j4_v = j4@;
        let mut o5: Vec<(String, Json)> = Vec::new();
        push_entry(&mut o5, "type", json_str("string"));
        push_entry(&mut o5, "description", json_str("The exact content to find and replace."));
        assert(json::view_entries(o5@) =~= seq![("type"@, JsonView::Str("string"@)), ("description"@, JsonView::Str("The exact content to find and replace."@))]);
        let j6 = Json::Object(o5);
        let ghost j6_v = j6@;
        let mut o7: Vec<(String, Json)> = Vec::new();
        push_entry(&mut o7, "type", json_str("string"));
        push_entry(&mut o7, "description", json_str("The content that replaces the search string."));
        assert(json::view_entries(o7@) =~= seq![("type"@, JsonView::Str("string"@)), ("description"@, JsonView::Str("The content that replaces the search string."@))]);
        let j8 = Json::Object(o7);
        let ghost j8_v = j8@;
        let mut o9: Vec<(String, Json)> = Vec::new();
        push_entry(&mut o9, "file_path", j4);
        push_entry(&mut o9, "search", j6);
        push_entry(&mut o9, "replace", j8);
        assert(json::view_entries(o9@) =~= seq![("file_path"@, j4_v), ("search"@, j6_v), ("replace"@, j8_v)]);
        let j10 = Json::Object(o9);
        let ghost j10_v = j10@;
        let mut a11: Vec<Json> = Vec::new();
        push_item(&mut a11, json_str("file_path"));
        push_item(&mut a11, json_str("search"));
        push_item(&mut a11, json_str("replace"));
        assert(json::view_items(a11@) =~= seq![JsonView::Str("file_path"@), JsonView::Str("search"@), JsonView::Str("replace"@)]);
        let j12 = Json::Array(a11);
        let ghost j12_v = j12@;
        let mut o13: Vec<(String, Json)> = Vec::new();
        push_entry(&mut o13, "type", json_str("object"));
        push_entry(&mut o13, "properties", j10);
        push_entry(&mut o13, "required", j12);
        assert(json::view_entries(o13@) =~= seq![("type"@, JsonView::Str("object"@)), ("properties"@, j10_v), ("required"@, j12_v)]);
        let j14 = Json::Object(o13);
        let ghost j14_v = j14@;
        let mut o15: Vec<(String, Json)> = Vec::new();
        push_entry(&mut o15, "type", json_str("array"));
        push_entry(&mut o15, "description", json_str("Search/replace diffs to apply to existing files."));
        push_entry(&mut o15, "items", j14);
        assert(json::view_entries(o15@) =~= seq![("type"@, JsonView::Str("array"@)), ("description"@, JsonView::Str("Search/replace diffs to apply to existing files."@)), ("items"@, j14_v)]);
        let j16 = Json::Object(o15);
        let ghost j16_v = j16@;
        let mut o17: Vec<(String, Json)> = Vec::new();
        push_entry(&mut o17, "type", json_str("string"));
        push_entry(&mut o17, "description", json_str("Path of the new file."));
        assert(json::view_entries(o17@) =~= seq![("type"@, JsonView::Str("string"@)), ("description"@, JsonView::Str("Path of the new file."@))]);
        let j18 = Json::Object(o17);
        let ghost j18_v = j18@;
        let mut o19: Vec<(String, Json)> = Vec::new();
        push_entry(&mut o19, "type", json_str("string"));
        push_entry(&mut o19, "description", json_str("Contents of the new file."));
        assert(json::view_entries(o19@) =~= seq![("type"@, JsonView::Str("string"@)), ("description"@, JsonView::Str("Contents of the new file."@))]);
        let j20 = Json::Object(o19);
        let ghost j20_v = j20@;
        let mut o21: Vec<(String, Json)> = Vec::new();
        push_entry(&mut o21, "file_path", j18);
        push_entry(&mut o21, "content", j20);
        assert(json::view_entries(o21@) =~= seq![("file_path"@, j18_v), ("content"@, j20_v)]);
        let j22 = Json::Object(o21);
        let ghost j22_v = j22@;
        let mut a23: Vec<Json> = Vec::new();
        push_item(&mut a23, json_str("file_path"));
        push_item(&mut a23, json_str("content"));
        assert(json::view_items(a23@) =~= seq![JsonView::Str("file_path"@), JsonView::Str("content"@)]);
        let j24 = Json::Array(a23);
        let ghost j24_v = j24@;
        let mut o25: Vec<(String, Json)> = Vec::new();
        push_entry(&mut o25, "type", json_str("object"));
        push_entry(&mut o25, "properties", j22);
        push_entry(&mut o25, "required", j24);
        assert(json::view_entries(o25@) =~= seq![("type"@, JsonView::Str("object"@)), ("properties"@, j22_v), ("required"@, j24_v)]);
        let j26 = Json::Object(o25);
        let ghost j26_v = j26@;
        let mut o27: Vec<(String, Json)> = Vec::new();
        push_entry(&mut o27, "type", json_str("array"));
        push_entry(&mut o27, "description", json_str("New files to create."));
        push_entry(&mut o27, "items", j26);
        assert(json::view_entries(o27@) =~= seq![("type"@, JsonView::Str("array"@)), ("description"@, JsonView::Str("New files to create."@)), ("items"@, j26_v)]);
        let j28 = Json::Object(o27);
        let ghost j28_v = j28@;
        let mut o29: Vec<(String, Json)> = Vec::new();
        push_entry(&mut o29, "type", json_str("string"));
        push_entry(&mut o29, "description", json_str("Path of the file to delete."));
        assert(json::view_entries(o29@) =~= seq![("type"@, JsonView::Str("string"@)), ("description"@, JsonView::Str("Path of the file to delete."@))]);
        let j30 = Json::Object(o29);
        let ghost j30_v = j30@;
        let mut o31: Vec<(String, Json)> = Vec::new();
        push_entry(&mut o31, "file_path", j30);
        assert(json::view_entries(o31@) =~= seq![("file_path"@, j30_v)]);
        let j32 = Json::Object(o31);
        let ghost j32_v = j32@;
        let mut a33: Vec<Json> = Vec::new();
        push_item(&mut a33, json_str("file_path"));
        assert(json::view_items(a33@) =~= seq![JsonView::Str("file_path"@)]);
        let j34 = Json::Array(a33);
        let ghost j34_v = j34@;
        let mut o35: Vec<(String, Json)> = Vec::new();
        push_entry(&mut o35, "type", json_str("object"));
        push_entry(&mut o35, "properties", j32);
        push_entry(&mut o35, "required", j34);
        assert(json::view_entries(o35@) =~= seq![("type"@, JsonView::Str("object"@)), ("properties"@, j32_v), ("required"@, j34_v)]);
        let j36 = Json::Object(o35);
        let ghost j36_v = j36@;
        let mut o37: Vec<(String, Json)> = Vec::new();
        push_entry(&mut o37, "type", json_str("array"));
        push_entry(&mut o37, "description", json_str("Files to delete."));
        push_entry(&mut o37, "items", j36);
        assert(json::view_entries(o37@) =~= seq![("type"@, JsonView::Str("array"@)), ("description"@, JsonView::Str("Files to delete."@)), ("items"@, j36_v)]);
        let j38 = Json::Object(o37);
        let ghost j38_v = j38@;
        let mut o39: Vec<(String, Json)> = Vec::new();
        push_entry(&mut o39, "summary", j2);
        push_entry(&mut o39, "diffs", j16);
        push_entry(&mut o39, "new_files", j28);
        push_entry(&mut o39, "deleted_files", j38);
        assert(json::view_entries(o39@) =~= seq![("summary"@, j2_v), ("diffs"@, j16_v), ("new_files"@, j28_v), ("deleted_files"@, j38_v)]);
        let j40 = Json::Object(o39);
        let ghost j40_v = j40@;
        let mut a41: Vec<Json> = Vec::new();
        push_item(&mut a41, json_str("summary"));
        assert(json::view_items(a41@) =~= seq![JsonView::Str("summary"@)]);
        let j42 = Json::Array(a41);
        let ghost j42_v = j42@;
        let mut o43: Vec<(String, Json)> = Vec::new();
        push_entry(&mut o43, "type", json_str("object"));
        push_entry(&mut o43, "properties", j40);
        push_entry(&mut o43, "required", j42);
        assert(json::view_entries(o43@) =~= seq![("type"@, JsonView::Str("object"@)), ("properties"@, j40_v), ("required"@, j42_v)]);
        let j44 = Json::Object(o43);
        let ghost j44_v = j44@;
        assert(j44_v == apply_file_diffs_schema_value());
        j44
    }

    /// Decodes the JSON arguments: `summary` is required; entries of
    /// `diffs`, `new_files` and `deleted_files` that lack a required string
    /// member are skipped, and a missing list is empty.
    pub fn decode_call_args(&self, args: Json) -> (r: Result<Tool, Arc<AIApiError>>)
        ensures
            apply_file_diffs_decoded(args, r),
    {
        let summary = match get_string(&args, "summary") {
            Some(s) => s,
            None => {
                return Err(arg_error("apply_file_diffs: missing required `summary` argument"));
            },
        };
        let diffs = decode_file_diffs(get_array(&args, "diffs"));
        let new_files = decode_new_files(get_array(&args, "new_files"));
        let deleted_files = decode_deleted_files(get_array(&args, "deleted_files"));
        Ok(Tool::ApplyFileDiffs(ApplyFileDiffs { summary, diffs, new_files, deleted_files }))
    }

    /// Encodes a call back into its arguments (the summary and the diffs).
    pub fn encode_call_args(&self, tool: &Tool) -> (r: Json)
        ensures
            r@ == apply_file_diffs_call_args(tool),
    {
        let mut es: Vec<(String, Json)> = Vec::new();
        match tool {
            Tool::ApplyFileDiffs(c) => {
                let ghost target = c.diffs@.map_values(
                    |d: FileDiff|
                        triple_object(
                            "file_path"@,
                            "search"@,
                            "replace"@,
                            d.file_path@,
                            d.search@,
                            d.replace@,
                        ),
                );
                let mut items: Vec<Json> = Vec::new();
                let mut i: usize = 0;
                while i < c.diffs.len()
                    invariant
                        i <= c.diffs.len(),
                        target == c.diffs@.map_values(
                            |d: FileDiff|
                                triple_object(
                                    "file_path"@,
                                    "search"@,
                                    "replace"@,
                                    d.file_path@,
                                    d.search@,
                                    d.replace@,
                                ),
                        ),
                        json::view_items(items@) == target.take(i as int),
                    decreases c.diffs.len() - i,
                {
                    let d = &c.diffs[i];
                    push_item(
                        &mut items,
                        triple("file_path", "search", "replace", &d.file_path, &d.search, &d.replace),
                    );
                    assert(target.take(i + 1) =~= target.take(i as int).push(target[i as int]));
                    i = i + 1;
                }
                assert(target.take(c.diffs.len() as int) =~= target);
                push_entry(&mut es, "summary", Json::Str(c.summary.clone()));
                push_entry(&mut es, "diffs", Json::Array(items));
                assert(json::view_entries(es@) =~= apply_file_diffs_args(*c)->Object_0);
            },
            _ => {
                assert(json::view_entries(es@) =~= Seq::<(Seq<char>, JsonView)>::empty());
            },
        }
        Json::Object(es)
    }

    /// The text sent back to the model for a result of this tool.
    pub fn encode_result_text(&self, result: &ToolResult) -> (r: Result<String, Arc<AIApiError>>)
        ensures
            apply_file_diffs_result_encoded(result, r),
    {
        match result {
            ToolResult::ApplyFileDiffs(o) => match o {
                Some(ApplyFileDiffsOutcome::Success { updated_files_v2, deleted_files }) => {
                    let mut updated: Vec<String> = Vec::new();
                    let mut i: usize = 0;
                    while i < updated_files_v2.len()
                        invariant
                            i <= updated_files_v2.len(),
                            text::string_views(updated@) == updated_paths(updated_files_v2@.take(i as int)),
                        decreases updated_files_v2.len() - i,
                    {
                        assert(updated_files_v2@.take(i + 1).drop_last() =~= updated_files_v2@.take(i as int));
                        match &updated_files_v2[i].file {
                            Some(f) => {
                                let ghost before = updated@;
                                updated.push(f.file_path.clone());
                                assert(text::string_views(updated@) =~= text::string_views(before).push(f.file_path@));
                            },
                            None => {},
                        }
                        i = i + 1;
                    }
                    assert(updated_files_v2@.take(updated_files_v2.len() as int) =~= updated_files_v2@);
                    let mut deleted: Vec<String> = Vec::new();
                    let mut j: usize = 0;
                    while j < deleted_files.len()
                        invariant
                            j <= deleted_files.len(),
                            text::string_views(deleted@) == crate::tools::read_search::file_paths(
                                deleted_files@.take(j as int),
                            ),
                        decreases deleted_files.len() - j,
                    {
                        let ghost before = deleted@;
                        deleted.push(deleted_files[j].file_path.clone());
                        assert(text::string_views(deleted@) =~= text::string_views(before).push(
                            deleted_files@[j as int].file_path@,
                        ));
                        assert(crate::tools::read_search::file_paths(deleted_files@.take(j + 1))
                            =~= crate::tools::read_search::file_paths(deleted_files@.take(j as int)).push(
                            deleted_files@[j as int].file_path@,
                        ));
                        j = j + 1;
                    }
                    assert(deleted_files@.take(deleted_files.len() as int) =~= deleted_files@);
                    let mut out = String::new();
                    out.append("updated_files: ");
                    let u = join(&updated, ", ");
                    out.append(u.as_str());
                    out.append("\ndeleted_files: ");
                    let d = join(&deleted, ", ");
                    out.append(d.as_str());
                    assert(out@ =~= apply_file_diffs_result_text(*o));
                    Ok(out)
                },
                Some(ApplyFileDiffsOutcome::Error(e)) => Ok(error_string(e)),
                None => Ok(no_result()),
            },
            _ => Err(arg_error("apply_file_diffs: result variant mismatch")),
        }
    }

    pub fn matches_proto_call(&self, tool: &Tool) -> (r: bool)
        ensures
            r == (tool is ApplyFileDiffs),
    {
        match tool {
            Tool::ApplyFileDiffs(_) => true,
            _ => false,
        }
    }

    pub fn matches_proto_result(&self, result: &ToolResult) -> (r: bool)
        ensures
            r == (result is ApplyFileDiffs),
    {
        match result {
            ToolResult::ApplyFileDiffs(_) => true,
            _ => false,
        }
    }
}

// ---------------------------------------------------------------------------
// EditDocuments and CreateDocuments
// ---------------------------------------------------------------------------

pub open spec fn document_diff_fn() -> spec_fn(JsonView) -> Option<(Seq<char>, Seq<char>, Seq<char>)> {
    |d: JsonView| three_strs(d, "document_id"@, "search"@, "replace"@)
}

pub open spec fn new_document_fn() -> spec_fn(JsonView) -> Option<(Seq<char>, Seq<char>)> {
    |d: JsonView| two_strs(d, "title"@, "content"@)
}

pub open spec fn document_diffs_view(ds: Seq<DocumentDiff>) -> Seq<(Seq<char>, Seq<char>, Seq<char>)> {
    ds.map_values(|d: DocumentDiff| (d.document_id@, d.search@, d.replace@))
}

pub open spec fn new_documents_view(ds: Seq<NewDocument>) -> Seq<(Seq<char>, Seq<char>)> {
    ds.map_values(|d: NewDocument| (d.title@, d.content@))
}

pub open spec fn edit_documents_args(c: EditDocuments) -> JsonView {
    JsonView::Object(
        seq![
            (
                "diffs"@,
                JsonView::Array(
                    c.diffs@.map_values(
                        |d: DocumentDiff|
                            triple_object(
                                "document_id"@,
                                "search"@,
                                "replace"@,
                                d.document_id@,
                                d.search@,
                                d.replace@,
                            ),
                    ),
                ),
            ),
        ],
    )
}

pub open spec fn pair_object(ka: Seq<char>, kb: Seq<char>, a: Seq<char>, b: Seq<char>) -> JsonView {
    JsonView::Object(seq![(ka, JsonView::Str(a)), (kb, JsonView::Str(b))])
}

pub open spec fn create_documents_args(c: CreateDocuments) -> JsonView {
    JsonView::Object(
        seq![
            (
                "new_documents"@,
                JsonView::Array(
                    c.new_documents@.map_values(
                        |d: NewDocument| pair_object("title"@, "content"@, d.title@, d.content@),
                    ),
                ),
            ),
        ],
    )
}

pub open spec fn document_ids(ds: Seq<crate::proto::results::DocumentRef>) -> Seq<Seq<char>> {
    ds.map_values(|d: crate::proto::results::DocumentRef| d.document_id@)
}

/// `label` followed by the document ids joined with `, `, or the error.
pub open spec fn documents_result_text(label: Seq<char>, o: Option<DocumentsOutcome>) -> Seq<char> {
    match o {
        Some(DocumentsOutcome::Success(ds)) => label + text::joined(document_ids(ds@), ", "@),
        Some(DocumentsOutcome::Error(e)) => tools::error_text(e),
        None => "(no result)"@,
    }
}

fn documents_string(label: &str, o: &Option<DocumentsOutcome>) -> (r: String)
    ensures
        r@ == documents_result_text(label@, *o),
{
    match o {
        Some(DocumentsOutcome::Success(ds)) => {
            let mut ids: Vec<String> = Vec::new();
            let mut i: usize = 0;
            while i < ds.len()
                invariant
                    i <= ds.len(),
                    text::string_views(ids@) == document_ids(ds@.take(i as int)),
                decreases ds.len() - i,
            {
                let ghost before = ids@;
                ids.push(ds[i].document_id.clone());
                assert(text::string_views(ids@) =~= text::string_views(before).push(ds@[i as int].document_id@));
                assert(document_ids(ds@.take(i + 1)) =~= document_ids(ds@.take(i as int)).push(
                    ds@[i as int].document_id@,
                ));
                i = i + 1;
            }
            assert(ds@.take(ds.len() as int) =~= ds@);
            let mut out = text::owned(label);
            let j = join(&ids, ", ");
            out.append(j.as_str());
            out
        },
        Some(DocumentsOutcome::Error(e)) => error_string(e),
        None => no_result(),
    }
}

/// `{ka: a, kb: b}`.
fn pair(ka: &str, kb: &str, a: &String, b: &String) -> (r: Json)
    ensures
        r@ == pair_object(ka@, kb@, a@, b@),
{
    let mut e: Vec<(String, Json)> = Vec::new();
    push_entry(&mut e, ka, Json::Str(a.clone()));
    push_entry(&mut e, kb, Json::Str(b.clone()));
    assert(json::view_entries(e@) =~= pair_object(ka@, kb@, a@, b@)->Object_0);
    Json::Object(e)
}

/// What decoding a call\'s JSON arguments gives, or when it fails.
pub open spec fn edit_documents_decoded(args: Json, r: Result<Tool, Arc<AIApiError>>) -> bool {
    match r {
        Ok(Tool::EditDocuments(c)) => args@.get_array("diffs"@) matches Some(ds)
            && document_diffs_view(c.diffs@) == json::filter_map(ds, document_diff_fn()),
        Ok(_) => false,
        Err(e) => args@.get_array("diffs"@) is None && e.is_other(
            "edit_documents: missing required `diffs` argument"@,
        ),
    }
}

/// Every argument object that conforms to the schema this tool is offered
/// with decodes: the schema requires `diffs`, with the types decoding takes.
pub proof fn lemma_edit_documents_schema_conforming_args_decode(args: Json, r: Result<Tool, Arc<AIApiError>>)
    requires
        crate::tools::conforms_to_schema(args@, edit_documents_schema_value()),
        edit_documents_decoded(args, r),
    ensures
        r is Ok,
{
    reveal_strlit("array");
    reveal_strlit("boolean");
    reveal_strlit("diffs");
    reveal_strlit("integer");
    reveal_strlit("number");
    reveal_strlit("object");
    reveal_strlit("properties");
    reveal_strlit("required");
    reveal_strlit("string");
    reveal_strlit("type");
    assert("type"@[0] != "properties"@[0]);
    assert("type"@[0] != "required"@[0]);
    assert("properties"@[0] != "required"@[0]);
    assert("string"@[0] != "array"@[0]);
    assert("string"@[0] != "object"@[0]);
    assert("string"@[0] != "boolean"@[0]);
    assert("string"@[0] != "integer"@[0]);
    assert("string"@[0] != "number"@[0]);
    assert("array"@[0] != "object"@[0]);
    assert("array"@[0] != "boolean"@[0]);
    assert("array"@[0] != "integer"@[0]);
    assert("array"@[0] != "number"@[0]);
    assert("object"@[0] != "boolean"@[0]);
    assert("object"@[0] != "integer"@[0]);
    assert("object"@[0] != "number"@[0]);
    assert("boolean"@[0] != "integer"@[0]);
    assert("boolean"@[0] != "number"@[0]);
    assert("integer"@[0] != "number"@[0]);
    reveal_with_fuel(crate::json::lookup, 3);
    reveal_with_fuel(crate::json::strings_of, 2);
    let sch = edit_documents_schema_value();
    let es = sch->Object_0;
    assert(es.drop_first()[0] == es[1]);
    assert(es.drop_first().drop_first()[0] == es[2]);
    let req = seq![JsonView::Str("diffs"@)];
    assert(sch.get_array("required"@) == Some(req));
    assert(req.take(0) =~= Seq::<JsonView>::empty());
    assert(req.take(1).drop_last() =~= req.take(0));
    assert(req.take(1) =~= req);
    assert(crate::tools::required_members(sch) =~= seq!["diffs"@]);
    let ps = es[1].1->Object_0;
    assert(crate::tools::described_members(sch) == ps);
    assert(ps[0].0 == "diffs"@);
    assert(ps[0].1.get_str("type"@) == Some("array"@));
    crate::tools::lemma_required_member_typed(args@, sch, 0, 0);
    assert(args@.get("diffs"@)->0 is Array);
    assert(args@.get_array("diffs"@) is Some);
}


/// The JSON arguments a call of this tool is encoded as; other calls give `{}`.
pub open spec fn edit_documents_call_args(tool: &Tool) -> JsonView {
    match tool {
        Tool::EditDocuments(c) => edit_documents_args(*c),
        _ => JsonView::Object(Seq::empty()),
    }
}

/// The text a result of this tool is sent as; other results are refused.
pub open spec fn edit_documents_result_encoded(result: &ToolResult, r: Result<String, Arc<AIApiError>>) -> bool {
    match result {
        ToolResult::EditDocuments(o) => r matches Ok(s) && s@ == documents_result_text(
            "updated_documents: "@,
            *o,
        ),
        _ => r matches Err(e) && e.is_other("edit_documents: result variant mismatch"@),
    }
}

/// What the model is told the tool does.
pub open spec fn edit_documents_description() -> Seq<char> {
    "Edit Warp Drive documents via search/replace."@
}

/// The tool's argument schema.
pub open spec fn edit_documents_schema_value() -> JsonView {
    JsonView::Object(
        seq![
            ("type"@, JsonView::Str("object"@)),
            (
                "properties"@,
                JsonView::Object(
                    seq![
                        (
                            "diffs"@,
                            JsonView::Object(
                                seq![
                                    ("type"@, JsonView::Str("array"@)),
                                    ("description"@, JsonView::Str("Search/replace diffs to apply to Warp Drive documents."@)),
                                    (
                                        "items"@,
                                        JsonView::Object(
                                            seq![
                                                ("type"@, JsonView::Str("object"@)),
                                                (
                                                    "properties"@,
                                                    JsonView::Object(
                                                        seq![
                                                            (
                                                                "document_id"@,
                                                                JsonView::Object(
                                                                    seq![
                                                                        ("type"@, JsonView::Str("string"@)),
                                                                        ("description"@, JsonView::Str("The unique identifier of the document to edit."@)),
                                                                    ],
                                                                ),
                                                            ),
                                                            (
                                                                "search"@,
                                                                JsonView::Object(
                                                                    seq![
                                                                        ("type"@, JsonView::Str("string"@)),
                                                                        ("description"@, JsonView::Str("The exact content to find and replace."@)),
                                                                    ],
                                                                ),
                                                            ),
                                                            (
                                                                "replace"@,
                                                                JsonView::Object(
                                                                    seq![
                                                                        ("type"@, JsonView::Str("string"@)),
                                                                        ("description"@, JsonView::Str("The content that replaces the search string."@)),
                                                                    ],
                                                                ),
                                                            ),
                                                        ],
                                                    ),
                                                ),
                                                (
                                                    "required"@,
                                                    JsonView::Array(
                                                        seq![
                                                            JsonView::Str("document_id"@),
                                                            JsonView::Str("search"@),
                                                            JsonView::Str("replace"@),
                                                        ],
                                                    ),
                                                ),
                                            ],
                                        ),
                                    ),
                                ],
                            ),
                        ),
                    ],
                ),
            ),
            (
                "required"@,
                JsonView::Array(
                    seq![
                        JsonView::Str("diffs"@),
                    ],
                ),
            ),
        ],
    )
}

/// `s` is the tool's argument schema.
pub open spec fn edit_documents_schema(s: JsonView) -> bool {
    s == edit_documents_schema_value()
}

impl EditDocumentsTool {
    pub fn name(&self) -> (r: &'static str)
        ensures
            r@ == "edit_documents"@,
    {
        "edit_documents"
    }

    pub fn description(&self) -> (r: &'static str)
        ensures
            r@ == edit_documents_description(),
    {
        "Edit Warp Drive documents via search/replace."
    }

    /// JSON Schema of the arguments.
    pub fn parameters_schema(&self) -> (r: Json)
        ensures
            edit_documents_schema(r@),
    {
        let mut o1: Vec<(String, Json)> = Vec::new();
        push_entry(&mut o1, "type", json_str("string"));
        push_entry(&mut o1, "description", json_str("The unique identifier of the document to edit."));
        assert(json::view_entries(o1@) =~= seq![("type"@, JsonView::Str("string"@)), ("description"@, JsonView::Str("The unique identifier of the document to edit."@))]);
        let j2 = Json::Object(o1);
        let ghost j2_v = j2@;
        let mut o3: Vec<(String, Json)> = Vec::new();
        push_entry(&mut o3, "type", json_str("string"));
        push_entry(&mut o3, "description", json_str("The exact content to find and replace."));
        assert(json::view_entries(o3@) =~= seq![("type"@, JsonView::Str("string"@)), ("description"@, JsonView::Str("The exact content to find and replace."@))]);
        let j4 = Json::Object(o3);
        let ghost j4_v = j4@;
        let mut o5: Vec<(String, Json)> = Vec::new();
        push_entry(&mut o5, "type", json_str("string"));
        push_entry(&mut o5, "description", json_str("The content that replaces the search string."));
        assert(json::view_entries(o5@) =~= seq![("type"@, JsonView::Str("string"@)), ("description"@, JsonView::Str("The content that replaces the search string."@))]);
        let j6 = Json::Object(o5);
        let ghost j6_v = j6@;
        let mut o7: Vec<(String, Json)> = Vec::new();
        push_entry(&mut o7, "document_id", j2);
        push_entry(&mut o7, "search", j4);
        push_entry(&mut o7, "replace", j6);
        assert(json::view_entries(o7@) =~= seq![("document_id"@, j2_v), ("search"@, j4_v), ("replace"@, j6_v)]);
        let j8 = Json::Object(o7);
        let ghost j8_v = j8@;
        let mut a9: Vec<Json> = Vec::new();
        push_item(&mut a9, json_str("document_id"));
        push_item(&mut a9, json_str("search"));
        push_item(&mut a9, json_str("replace"));
        assert(json::view_items(a9@) =~= seq![JsonView::Str("document_id"@), JsonView::Str("search"@), JsonView::Str("replace"@)]);
        let j10 = Json::Array(a9);
        let ghost j10_v = j10@;
        let mut o11: Vec<(String, Json)> = Vec::new();
        push_entry(&mut o11, "type", json_str("object"));
        push_entry(&mut o11, "properties", j8);
        push_entry(&mut o11, "required", j10);
        assert(json::view_entries(o11@) =~= seq![("type"@, JsonView::Str("object"@)), ("properties"@, j8_v), ("required"@, j10_v)]);
        let j12 = Json::Object(o11);
        let ghost j12_v = j12@;
        let mut o13: Vec<(String, Json)> = Vec::new();
        push_entry(&mut o13, "type", json_str("array"));
        push_entry(&mut o13, "description", json_str("Search/replace diffs to apply to Warp Drive documents."));
        push_entry(&mut o13, "items", j12);
        assert(json::view_entries(o13@) =~= seq![("type"@, JsonView::Str("array"@)), ("description"@, JsonView::Str("Search/replace diffs to apply to Warp Drive documents."@)), ("items"@, j12_v)]);
        let j14 = Json::Object(o13);
        let ghost j14_v = j14@;
        let mut o15: Vec<(String, Json)> = Vec::new();
        push_entry(&mut o15, "diffs", j14);
        assert(json::view_entries(o15@) =~= seq![("diffs"@, j14_v)]);
        let j16 = Json::Object(o15);
        let ghost j16_v = j16@;
        let mut a17: Vec<Json> = Vec::new();
        push_item(&mut a17, json_str("diffs"));
        assert(json::view_items(a17@) =~= seq![JsonView::Str("diffs"@)]);
        let j18 = Json::Array(a17);
        let ghost j18_v = j18@;
        let mut o19: Vec<(String, Json)> = Vec::new();
        push_entry(&mut o19, "type", json_str("object"));
        push_entry(&mut o19, "properties", j16);
        push_entry(&mut o19, "required", j18);
        assert(json::view_entries(o19@) =~= seq![("type"@, JsonView::Str("object"@)), ("properties"@, j16_v), ("required"@, j18_v)]);
        let j20 = Json::Object(o19);
        let ghost j20_v = j20@;
        assert(j20_v == edit_documents_schema_value());
        j20
    }

    /// Decodes the JSON arguments: `diffs` must be an array; entries that
    /// lack a string `document_id`, `search` or `replace` are skipped.
    pub fn decode_call_args(&self, args: Json) -> (r: Result<Tool, Arc<AIApiError>>)
        ensures
            edit_documents_decoded(args, r),
    {
        let a = match get_array(&args, "diffs") {
            Some(a) => a,
            None => {
                return Err(arg_error("edit_documents: missing required `diffs` argument"));
            },
        };
        proof {
            json::lemma_view_items_len(a@);
        }
        let ghost vs = json::view_items(a@);
        let mut out: Vec<DocumentDiff> = Vec::new();
        assert(document_diffs_view(out@) =~= json::filter_map(vs.take(0), document_diff_fn()));
        let mut i: usize = 0;
        while i < a.len()
            invariant
                i <= a.len(),
                vs == json::view_items(a@),
                vs.len() == a.len(),
                forall|k: int| 0 <= k < a.len() ==> #[trigger] vs[k] == a@[k]@,
                document_diffs_view(out@) == json::filter_map(vs.take(i as int), document_diff_fn()),
            decreases a.len() - i,
        {
            proof {
                json::lemma_filter_map_step(vs, document_diff_fn(), i as int);
            }
            let d = &a[i];
            match (get_string(d, "document_id"), get_string(d, "search"), get_string(d, "replace")) {
                (Some(document_id), Some(search), Some(replace)) => {
                    let ghost before = out@;
                    let ghost v = (document_id@, search@, replace@);
                    out.push(DocumentDiff { document_id, search, replace });
                    assert(document_diffs_view(out@) =~= document_diffs_view(before).push(v));
                },
                _ => {},
            }
            i = i + 1;
        }
        assert(vs.take(a.len() as int) =~= vs);
        Ok(Tool::EditDocuments(EditDocuments { diffs: out }))
    }

    /// Encodes a call back into its arguments.
    pub fn encode_call_args(&self, tool: &Tool) -> (r: Json)
        ensures
            r@ == edit_documents_call_args(tool),
    {
        let mut es: Vec<(String, Json)> = Vec::new();
        match tool {
            Tool::EditDocuments(c) => {
                let ghost target = c.diffs@.map_values(
                    |d: DocumentDiff|
                        triple_object(
                            "document_id"@,
                            "search"@,
                            "replace"@,
                            d.document_id@,
                            d.search@,
                            d.replace@,
                        ),
                );
                let mut items: Vec<Json> = Vec::new();
                let mut i: usize = 0;
                while i < c.diffs.len()
                    invariant
                        i <= c.diffs.len(),
                        target == c.diffs@.map_values(
                            |d: DocumentDiff|
                                triple_object(
                                    "document_id"@,
                                    "search"@,
                                    "replace"@,
                                    d.document_id@,
                                    d.search@,
                                    d.replace@,
                                ),
                        ),
                        json::view_items(items@) == target.take(i as int),
                    decreases c.diffs.len() - i,
                {
                    let d = &c.diffs[i];
                    push_item(
                        &mut items,
                        triple("document_id", "search", "replace", &d.document_id, &d.search, &d.replace),
                    );
                    assert(target.take(i + 1) =~= target.take(i as int).push(target[i as int]));
                    i = i + 1;
                }
                assert(target.take(c.diffs.len() as int) =~= target);
                push_entry(&mut es, "diffs", Json::Array(items));
                assert(json::view_entries(es@) =~= edit_documents_args(*c)->Object_0);
            },
            _ => {
                assert(json::view_entries(es@) =~= Seq::<(Seq<char>, JsonView)>::empty());
            },
        }
        Json::Object(es)
    }

    /// The text sent back to the model for a result of this tool.
    pub fn encode_result_text(&self, result: &ToolResult) -> (r: Result<String, Arc<AIApiError>>)
        ensures
            edit_documents_result_encoded(result, r),
    {
        match result {
            ToolResult::EditDocuments(o) => Ok(documents_string("updated_documents: ", o)),
            _ => Err(arg_error("edit_documents: result variant mismatch")),
        }
    }

    pub fn matches_proto_call(&self, tool: &Tool) -> (r: bool)
        ensures
            r == (tool is EditDocuments),
    {
        match tool {
            Tool::EditDocuments(_) => true,
            _ => false,
        }
    }

    pub fn matches_proto_result(&self, result: &ToolResult) -> (r: bool)
        ensures
            r == (result is EditDocuments),
    {
        match result {
            ToolResult::EditDocuments(_) => true,
            _ => false,
        }
    }
}

/// What decoding a call\'s JSON arguments gives, or when it fails.
pub open spec fn create_documents_decoded(args: Json, r: Result<Tool, Arc<AIApiError>>) -> bool {
    match r {
        Ok(Tool::CreateDocuments(c)) => args@.get_array("new_documents"@) matches Some(ds)
            && new_documents_view(c.new_documents@) == json::filter_map(ds, new_document_fn()),
        Ok(_) => false,
        Err(e) => args@.get_array("new_documents"@) is None && e.is_other(
            "create_documents: missing required `new_documents` argument"@,
        ),
    }
}

/// Every argument object that conforms to the schema this tool is offered
/// with decodes: the schema requires `new_documents`, with the types decoding takes.
pub proof fn lemma_create_documents_schema_conforming_args_decode(args: Json, r: Result<Tool, Arc<AIApiError>>)
    requires
        crate::tools::conforms_to_schema(args@, create_documents_schema_value()),
        create_documents_decoded(args, r),
    ensures
        r is Ok,
{
    reveal_strlit("array");
    reveal_strlit("boolean");
    reveal_strlit("integer");
    reveal_strlit("new_documents");
    reveal_strlit("number");
    reveal_strlit("object");
    reveal_strlit("properties");
    reveal_strlit("required");
    reveal_strlit("string");
    reveal_strlit("type");
    assert("type"@[0] != "properties"@[0]);
    assert("type"@[0] != "required"@[0]);
    assert("properties"@[0] != "required"@[0]);
    assert("string"@[0] != "array"@[0]);
    assert("string"@[0] != "object"@[0]);
    assert("string"@[0] != "boolean"@[0]);
    assert("string"@[0] != "integer"@[0]);
    assert("string"@[0] != "number"@[0]);
    assert("array"@[0] != "object"@[0]);
    assert("array"@[0] != "boolean"@[0]);
    assert("array"@[0] != "integer"@[0]);
    assert("array"@[0] != "number"@[0]);
    assert("object"@[0] != "boolean"@[0]);
    assert("object"@[0] != "integer"@[0]);
    assert("object"@[0] != "number"@[0]);
    assert("boolean"@[0] != "integer"@[0]);
    assert("boolean"@[0] != "number"@[0]);
    assert("integer"@[0] != "number"@[0]);
    reveal_with_fuel(crate::json::lookup, 3);
    reveal_with_fuel(crate::json::strings_of, 2);
    let sch = create_documents_schema_value();
    let es = sch->Object_0;
    assert(es.drop_first()[0] == es[1]);
    assert(es.drop_first().drop_first()[0] == es[2]);
    let req = seq![JsonView::Str("new_documents"@)];
    assert(sch.get_array("required"@) == Some(req));
    assert(req.take(0) =~= Seq::<JsonView>::empty());
    assert(req.take(1).drop_last() =~= req.take(0));
    assert(req.take(1) =~= req);
    assert(crate::tools::required_members(sch) =~= seq!["new_documents"@]);
    let ps = es[1].1->Object_0;
    assert(crate::tools::described_members(sch) == ps);
    assert(ps[0].0 == "new_documents"@);
    assert(ps[0].1.get_str("type"@) == Some("array"@));
    crate::tools::lemma_required_member_typed(args@, sch, 0, 0);
    assert(args@.get("new_documents"@)->0 is Array);
    assert(args@.get_array("new_documents"@) is Some);
}


/// The JSON arguments a call of this tool is encoded as; other calls give `{}`.
pub open spec fn create_documents_call_args(tool: &Tool) -> JsonView {
    match tool {
        Tool::CreateDocuments(c) => create_documents_args(*c),
        _ => JsonView::Object(Seq::empty()),
    }
}

/// The text a result of this tool is sent as; other results are refused.
pub open spec fn create_documents_result_encoded(result: &ToolResult, r: Result<String, Arc<AIApiError>>) -> bool {
    match result {
        ToolResult::CreateDocuments(o) => r matches Ok(s) && s@ == documents_result_text(
            "created_documents: "@,
            *o,
        ),
        _ => r matches Err(e) && e.is_other("create_documents: result variant mismatch"@),
    }
}

/// What the model is told the tool does.
pub open spec fn create_documents_description() -> Seq<char> {
    "Create new Warp Drive documents."@
}

/// The tool's argument schema.
pub open spec fn create_documents_schema_value() -> JsonView {
    JsonView::Object(
        seq![
            ("type"@, JsonView::Str("object"@)),
            (
                "properties"@,
                JsonView::Object(
                    seq![
                        (
                            "new_documents"@,
                            JsonView::Object(
                                seq![
                                    ("type"@, JsonView::Str("array"@)),
                                    ("description"@, JsonView::Str("Documents to create."@)),
                                    (
                                        "items"@,
                                        JsonView::Object(
                                            seq![
                                                ("type"@, JsonView::Str("object"@)),
                                                (
                                                    "properties"@,
                                                    JsonView::Object(
                                                        seq![
                                                            (
                                                                "title"@,
                                                                JsonView::Object(
                                                                    seq![
                                                                        ("type"@, JsonView::Str("string"@)),
                                                                        ("description"@, JsonView::Str("The title of the new document."@)),
                                                                    ],
                                                                ),
                                                            ),
                                                            (
                                                                "content"@,
                                                                JsonView::Object(
                                                                    seq![
                                                                        ("type"@, JsonView::Str("string"@)),
                                                                        ("description"@, JsonView::Str("The content of the new document."@)),
                                                                    ],
                                                                ),
                                                            ),
                                                        ],
                                                    ),
                                                ),
                                                (
                                                    "required"@,
                                                    JsonView::Array(
                                                        seq![
                                                            JsonView::Str("title"@),
                                                            JsonView::Str("content"@),
                                                        ],
                                                    ),
                                                ),
                                            ],
                                        ),
                                    ),
                                ],
                            ),
                        ),
                    ],
                ),
            ),
            (
                "required"@,
                JsonView::Array(
                    seq![
                        JsonView::Str("new_documents"@),
                    ],
                ),
            ),
        ],
    )
}

/// `s` is the tool's argument schema.
pub open spec fn create_documents_schema(s: JsonView) -> bool {
    s == create_documents_schema_value()
}

impl CreateDocumentsTool {
    pub fn name(&self) -> (r: &'static str)
        ensures
            r@ == "create_documents"@,
    {
        "create_documents"
    }

    pub fn description(&self) -> (r: &'static str)
        ensures
            r@ == create_documents_description(),
    {
        "Create new Warp Drive documents."
    }

    /// JSON Schema of the arguments.
    pub fn parameters_schema(&self) -> (r: Json)
        ensures
            create_documents_schema(r@),
    {
        let mut o1: Vec<(String, Json)> = Vec::new();
        push_entry(&mut o1, "type", json_str("string"));
        push_entry(&mut o1, "description", json_str("The title of the new document."));
        assert(json::view_entries(o1@) =~= seq![("type"@, JsonView::Str("string"@)), ("description"@, JsonView::Str("The title of the new document."@))]);
        let j2 = Json::Object(o1);
        let ghost j2_v = j2@;
        let mut o3: Vec<(String, Json)> = Vec::new();
        push_entry(&mut o3, "type", json_str("string"));
        push_entry(&mut o3, "description", json_str("The content of the new document."));
        assert(json::view_entries(o3@) =~= seq![("type"@, JsonView::Str("string"@)), ("description"@, JsonView::Str("The content of the new document."@))]);
        let j4 = Json::Object(o3);
        let ghost j4_v = j4@;
        let mut o5: Vec<(String, Json)> = Vec::new();
        push_entry(&mut o5, "title", j2);
        push_entry(&mut o5, "content", j4);
        assert(json::view_entries(o5@) =~= seq![("title"@, j2_v), ("content"@, j4_v)]);
        let j6 = Json::Object(o5);
        let ghost j6_v = j6@;
        let mut a7: Vec<Json> = Vec::new();
        push_item(&mut a7, json_str("title"));
        push_item(&mut a7, json_str("content"));
        assert(json::view_items(a7@) =~= seq![JsonView::Str("title"@), JsonView::Str("content"@)]);
        let j8 = Json::Array(a7);
        let ghost j8_v = j8@;
        let mut o9: Vec<(String, Json)> = Vec::new();
        push_entry(&mut o9, "type", json_str("object"));
        push_entry(&mut o9, "properties", j6);
        push_entry(&mut o9, "required", j8);
        assert(json::view_entries(o9@) =~= seq![("type"@, JsonView::Str("object"@)), ("properties"@, j6_v), ("required"@, j8_v)]);
        let j10 = Json::Object(o9);
        let ghost j10_v = j10@;
        let mut o11: Vec<(String, Json)> = Vec::new();
        push_entry(&mut o11, "type", json_str("array"));
        push_entry(&mut o11, "description", json_str("Documents to create."));
        push_entry(&mut o11, "items", j10);
        assert(json::view_entries(o11@) =~= seq![("type"@, JsonView::Str("array"@)), ("description"@, JsonView::Str("Documents to create."@)), ("items"@, j10_v)]);
        let j12 = Json::Object(o11);
        let ghost j12_v = j12@;
        let mut o13: Vec<(String, Json)> = Vec::new();
        push_entry(&mut o13, "new_documents", j12);
        assert(json::view_entries(o13@) =~= seq![("new_documents"@, j12_v)]);
        let j14 = Json::Object(o13);
        let ghost j14_v = j14@;
        let mut a15: Vec<Json> = Vec::new();
        push_item(&mut a15, json_str("new_documents"));
        assert(json::view_items(a15@) =~= seq![JsonView::Str("new_documents"@)]);
        let j16 = Json::Array(a15);
        let ghost j16_v = j16@;
        let mut o17: Vec<(String, Json)> = Vec::new();
        push_entry(&mut o17, "type", json_str("object"));
        push_entry(&mut o17, "properties", j14);
        push_entry(&mut o17, "required", j16);
        assert(json::view_entries(o17@) =~= seq![("type"@, JsonView::Str("object"@)), ("properties"@, j14_v), ("required"@, j16_v)]);
        let j18 = Json::Object(o17);
        let ghost j18_v = j18@;
        assert(j18_v == create_documents_schema_value());
        j18
    }

    /// Decodes the JSON arguments: `new_documents` must be an array;
    /// entries that lack a string `title` or `content` are skipped.
    pub fn decode_call_args(&self, args: Json) -> (r: Result<Tool, Arc<AIApiError>>)
        ensures
            create_documents_decoded(args, r),
    {
        let a = match get_array(&args, "new_documents") {
            Some(a) => a,
            None => {
                return Err(arg_error("create_documents: missing required `new_documents` argument"));
            },
        };
        proof {
            json::lemma_view_items_len(a@);
        }
        let ghost vs = json::view_items(a@);
        let mut out: Vec<NewDocument> = Vec::new();
        assert(new_documents_view(out@) =~= json::filter_map(vs.take(0), new_document_fn()));
        let mut i: usize = 0;
        while i < a.len()
            invariant
                i <= a.len(),
                vs == json::view_items(a@),
                vs.len() == a.len(),
                forall|k: int| 0 <= k < a.len() ==> #[trigger] vs[k] == a@[k]@,
                new_documents_view(out@) == json::filter_map(vs.take(i as int), new_document_fn()),
            decreases a.len() - i,
        {
            proof {
                json::lemma_filter_map_step(vs, new_document_fn(), i as int);
            }
            let d = &a[i];
            match (get_string(d, "title"), get_string(d, "content")) {
                (Some(title), Some(content)) => {
                    let ghost before = out@;
                    let ghost v = (title@, content@);
                    out.push(NewDocument { title, content });
                    assert(new_documents_view(out@) =~= new_documents_view(before).push(v));
                },
                _ => {},
            }
            i = i + 1;
        }
        assert(vs.take(a.len() as int) =~= vs);
        Ok(Tool::CreateDocuments(CreateDocuments { new_documents: out }))
    }

    /// Encodes a call back into its arguments.
    pub fn encode_call_args(&self, tool: &Tool) -> (r: Json)
        ensures
            r@ == create_documents_call_args(tool),
    {
        let mut es: Vec<(String, Json)> = Vec::new();
        match tool {
            Tool::CreateDocuments(c) => {
                let ghost target = c.new_documents@.map_values(
                    |d: NewDocument| pair_object("title"@, "content"@, d.title@, d.content@),
                );
                let mut items: Vec<Json> = Vec::new();
                let mut i: usize = 0;
                while i < c.new_documents.len()
                    invariant
                        i <= c.new_documents.len(),
                        target == c.new_documents@.map_values(
                            |d: NewDocument| pair_object("title"@, "content"@, d.title@, d.content@),
                        ),
                        json::view_items(items@) == target.take(i as int),
                    decreases c.new_documents.len() - i,
                {
                    let d = &c.new_documents[i];
                    push_item(&mut items, pair("title", "content", &d.title, &d.content));
                    assert(target.take(i + 1) =~= target.take(i as int).push(target[i as int]));
                    i = i + 1;
                }
                assert(target.take(c.new_documents.len() as int) =~= target);
                push_entry(&mut es, "new_documents", Json::Array(items));
                assert(json::view_entries(es@) =~= create_documents_args(*c)->Object_0);
            },
            _ => {
                assert(json::view_entries(es@) =~= Seq::<(Seq<char>, JsonView)>::empty());
            },
        }
        Json::Object(es)
    }

    /// The text sent back to the model for a result of this tool.
    pub fn encode_result_text(&self, result: &ToolResult) -> (r: Result<String, Arc<AIApiError>>)
        ensures
            create_documents_result_encoded(result, r),
    {
        match result {
            ToolResult::CreateDocuments(o) => Ok(documents_string("created_documents: ", o)),
            _ => Err(arg_error("create_documents: result variant mismatch")),
        }
    }

    pub fn matches_proto_call(&self, tool: &Tool) -> (r: bool)
        ensures
            r == (tool is CreateDocuments),
    {
        match tool {
            Tool::CreateDocuments(_) => true,
            _ => false,
        }
    }

    pub fn matches_proto_result(&self, result: &ToolResult) -> (r: bool)
        ensures
            r == (result is CreateDocuments),
    {
        match result {
            ToolResult::CreateDocuments(_) => true,
            _ => false,
        }
    }
}

// ---------------------------------------------------------------------------
// WriteToLongRunningShellCommand
// ---------------------------------------------------------------------------

/// The write mode an argument names; anything else leaves it unset.
pub open spec fn write_mode_of(m: Option<Seq<char>>) -> Option<WriteMode> {
    match m {
        Some(t) => if t == "raw"@ {
            Some(WriteMode { mode: Some(WriteModeKind::Raw) })
        } else if t == "line"@ {
            Some(WriteMode { mode: Some(WriteModeKind::Line) })
        } else if t == "block"@ {
            Some(WriteMode { mode: Some(WriteModeKind::Block) })
        } else {
            None
        },
        None => None,
    }
}

pub open spec fn write_args(c: WriteToLongRunningShellCommand) -> JsonView {
    JsonView::Object(
        seq![
            ("command_id"@, JsonView::Str(c.command_id@)),
            ("input"@, JsonView::Str(text::utf8_lossy_text(c.input@))),
        ],
    )
}

/// What decoding a call\'s JSON arguments gives, or when it fails.
pub open spec fn write_to_long_running_shell_command_decoded(args: Json, r: Result<Tool, Arc<AIApiError>>) -> bool {
    match r {
        Ok(Tool::WriteToLongRunningShellCommand(c)) => {
            &&& args@.get_str("command_id"@) == Some(c.command_id@)
            &&& args@.get_str("input"@) matches Some(i) && c.input@ == vstd::utf8::encode_utf8(i)
            &&& c.mode == write_mode_of(args@.get_str("mode"@))
        },
        Ok(_) => false,
        Err(e) => if args@.get_str("command_id"@) is None {
            e.is_other(
                "write_to_long_running_shell_command: missing required `command_id` argument"@,
            )
        } else {
            args@.get_str("input"@) is None && e.is_other(
                "write_to_long_running_shell_command: missing required `input` argument"@,
            )
        },
    }
}

/// Every argument object that conforms to the schema this tool is offered
/// with decodes: the schema requires `command_id` and `input`, with the types decoding takes.
pub proof fn lemma_write_to_long_running_shell_command_schema_conforming_args_decode(args: Json, r: Result<Tool, Arc<AIApiError>>)
    requires
        crate::tools::conforms_to_schema(args@, write_to_long_running_shell_command_schema_value()),
        write_to_long_running_shell_command_decoded(args, r),
    ensures
        r is Ok,
{
    reveal_strlit("array");
    reveal_strlit("boolean");
    reveal_strlit("command_id");
    reveal_strlit("input");
    reveal_strlit("integer");
    reveal_strlit("mode");
    reveal_strlit("number");
    reveal_strlit("object");
    reveal_strlit("properties");
    reveal_strlit("required");
    reveal_strlit("string");
    reveal_strlit("type");
    assert("type"@[0] != "properties"@[0]);
    assert("type"@[0] != "required"@[0]);
    assert("properties"@[0] != "required"@[0]);
    assert("string"@[0] != "array"@[0]);
    assert("string"@[0] != "object"@[0]);
    assert("string"@[0] != "boolean"@[0]);
    assert("string"@[0] != "integer"@[0]);
    assert("string"@[0] != "number"@[0]);
    assert("array"@[0] != "object"@[0]);
    assert("array"@[0] != "boolean"@[0]);
    assert("array"@[0] != "integer"@[0]);
    assert("array"@[0] != "number"@[0]);
    assert("object"@[0] != "boolean"@[0]);
    assert("object"@[0] != "integer"@[0]);
    assert("object"@[0] != "number"@[0]);
    assert("boolean"@[0] != "integer"@[0]);
    assert("boolean"@[0] != "number"@[0]);
    assert("integer"@[0] != "number"@[0]);
    reveal_with_fuel(crate::json::lookup, 3);
    reveal_with_fuel(crate::json::strings_of, 3);
    let sch = write_to_long_running_shell_command_schema_value();
    let es = sch->Object_0;
    assert(es.drop_first()[0] == es[1]);
    assert(es.drop_first().drop_first()[0] == es[2]);
    let req = seq![JsonView::Str("command_id"@), JsonView::Str("input"@)];
    assert(sch.get_array("required"@) == Some(req));
    assert(req.take(0) =~= Seq::<JsonView>::empty());
    assert(req.take(1).drop_last() =~= req.take(0));
    assert(req.take(2).drop_last() =~= req.take(1));
    assert(req.take(2) =~= req);
    assert(crate::tools::required_members(sch) =~= seq!["command_id"@, "input"@]);
    let ps = es[1].1->Object_0;
    assert(crate::tools::described_members(sch) == ps);
    assert(ps[0].0 == "command_id"@);
    assert(ps[0].1.get_str("type"@) == Some("string"@));
    crate::tools::lemma_required_member_typed(args@, sch, 0, 0);
    assert(args@.get("command_id"@)->0 is Str);
    assert(args@.get_str("command_id"@) is Some);
    assert(ps[1].0 == "input"@);
    assert(ps[1].1.get_str("type"@) == Some("string"@));
    crate::tools::lemma_required_member_typed(args@, sch, 1, 1);
    assert(args@.get("input"@)->0 is Str);
    assert(args@.get_str("input"@) is Some);
}


/// The JSON arguments a call of this tool is encoded as; other calls give `{}`.
pub open spec fn write_to_long_running_shell_command_call_args(tool: &Tool) -> JsonView {
    match tool {
        Tool::WriteToLongRunningShellCommand(c) => write_args(*c),
        _ => JsonView::Object(Seq::empty()),
    }
}

/// The text a result of this tool is sent as; other results are refused.
pub open spec fn write_to_long_running_shell_command_result_encoded(result: &ToolResult, r: Result<String, Arc<AIApiError>>) -> bool {
    match result {
        ToolResult::WriteToLongRunningShellCommand(o) => r matches Ok(s) && s@
            == crate::tools::read_search::command_io_result_text(*o),
        _ => r matches Err(e) && e.is_other(
            "write_to_long_running_shell_command: result variant mismatch"@,
        ),
    }
}

/// What the model is told the tool does.
pub open spec fn write_to_long_running_shell_command_description() -> Seq<char> {
    "Send input to a long-running shell command (REPL or interactive process)."@
}

/// The tool's argument schema.
pub open spec fn write_to_long_running_shell_command_schema_value() -> JsonView {
    JsonView::Object(
        seq![
            ("type"@, JsonView::Str("object"@)),
            (
                "properties"@,
                JsonView::Object(
                    seq![
                        (
                            "command_id"@,
                            JsonView::Object(
                                seq![
                                    ("type"@, JsonView::Str("string"@)),
                                    ("description"@, JsonView::Str("The ID of the long-running command to write to."@)),
                                ],
                            ),
                        ),
                        (
                            "input"@,
                            JsonView::Object(
                                seq![
                                    ("type"@, JsonView::Str("string"@)),
                                    ("description"@, JsonView::Str("The text to send to the running process."@)),
                                ],
                            ),
                        ),
                        (
                            "mode"@,
                            JsonView::Object(
                                seq![
                                    ("type"@, JsonView::Str("string"@)),
                                    (
                                        "enum"@,
                                        JsonView::Array(
                                            seq![
                                                JsonView::Str("raw"@),
                                                JsonView::Str("line"@),
                                                JsonView::Str("block"@),
                                            ],
                                        ),
                                    ),
                                    ("description"@, JsonView::Str("How to write the input: raw bytes, a single line (with enter), or a block (with bracketed paste)."@)),
                                ],
                            ),
                        ),
                    ],
                ),
            ),
            (
                "required"@,
                JsonView::Array(
                    seq![
                        JsonView::Str("command_id"@),
                        JsonView::Str("input"@),
                    ],
                ),
            ),
        ],
    )
}

/// `s` is the tool's argument schema.
pub open spec fn write_to_long_running_shell_command_schema(s: JsonView) -> bool {
    s == write_to_long_running_shell_command_schema_value()
}

impl WriteToLongRunningShellCommandTool {
    pub fn name(&self) -> (r: &'static str)
        ensures
            r@ == "write_to_long_running_shell_command"@,
    {
        "write_to_long_running_shell_command"
    }

    pub fn description(&self) -> (r: &'static str)
        ensures
            r@ == write_to_long_running_shell_command_description(),
    {
        "Send input to a long-running shell command (REPL or interactive process)."
    }

    /// JSON Schema of the arguments.
    pub fn parameters_schema(&self) -> (r: Json)
        ensures
            write_to_long_running_shell_command_schema(r@),
    {
        let mut o1: Vec<(String, Json)> = Vec::new();
        push_entry(&mut o1, "type", json_str("string"));
        push_entry(&mut o1, "description", json_str("The ID of the long-running command to write to."));
        assert(json::view_entries(o1@) =~= seq![("type"@, JsonView::Str("string"@)), ("description"@, JsonView::Str("The ID of the long-running command to write to."@))]);
        let j2 = Json::Object(o1);
        let ghost j2_v = j2@;
        let mut o3: Vec<(String, Json)> = Vec::new();
        push_entry(&mut o3, "type", json_str("string"));
        push_entry(&mut o3, "description", json_str("The text to send to the running process."));
        assert(json::view_entries(o3@) =~= seq![("type"@, JsonView::Str("string"@)), ("description"@, JsonView::Str("The text to send to the running process."@))]);
        let j4 = Json::Object(o3);
        let ghost j4_v = j4@;
        let mut a5: Vec<Json> = Vec::new();
        push_item(&mut a5, json_str("raw"));
        push_item(&mut a5, json_str("line"));
        push_item(&mut a5, json_str("block"));
        assert(json::view_items(a5@) =~= seq![JsonView::Str("raw"@), JsonView::Str("line"@), JsonView::Str("block"@)]);
        let j6 = Json::Array(a5);
        let ghost j6_v = j6@;
        let mut o7: Vec<(String, Json)> = Vec::new();
        push_entry(&mut o7, "type", json_str("string"));
        push_entry(&mut o7, "enum", j6);
        push_entry(&mut o7, "description", json_str("How to write the input: raw bytes, a single line (with enter), or a block (with bracketed paste)."));
        assert(json::view_entries(o7@) =~= seq![("type"@, JsonView::Str("string"@)), ("enum"@, j6_v), ("description"@, JsonView::Str("How to write the input: raw bytes, a single line (with enter), or a block (with bracketed paste)."@))]);
        let j8 = Json::Object(o7);
        let ghost j8_v = j8@;
        let mut o9: Vec<(String, Json)> = Vec::new();
        push_entry(&mut o9, "command_id", j2);
        push_entry(&mut o9, "input", j4);
        push_entry(&mut o9, "mode", j8);
        assert(json::view_entries(o9@) =~= seq![("command_id"@, j2_v), ("input"@, j4_v), ("mode"@, j8_v)]);
        let j10 = Json::Object(o9);
        let ghost j10_v = j10@;
        let mut a11: Vec<Json> = Vec::new();
        push_item(&mut a11, json_str("command_id"));
        push_item(&mut a11, json_str("input"));
        assert(json::view_items(a11@) =~= seq![JsonView::Str("command_id"@), JsonView::Str("input"@)]);
        let j12 = Json::Array(a11);
        let ghost j12_v = j12@;
        let mut o13: Vec<(String, Json)> = Vec::new();
        push_entry(&mut o13, "type", json_str("object"));
        push_entry(&mut o13, "properties", j10);
        push_entry(&mut o13, "required", j12);
        assert(json::view_entries(o13@) =~= seq![("type"@, JsonView::Str("object"@)), ("properties"@, j10_v), ("required"@, j12_v)]);
        let j14 = Json::Object(o13);
        let ghost j14_v = j14@;
        assert(j14_v == write_to_long_running_shell_command_schema_value());
        j14
    }

    /// Decodes the JSON arguments: `command_id` and `input` are required;
    /// the input is sent as its UTF-8 bytes; `mode` is `raw`, `line` or
    /// `block`, and unset otherwise.
    pub fn decode_call_args(&self, args: Json) -> (r: Result<Tool, Arc<AIApiError>>)
        ensures
            write_to_long_running_shell_command_decoded(args, r),
    {
        let command_id = match get_string(&args, "command_id") {
            Some(c) => c,
            None => {
                return Err(
                    arg_error(
                        "write_to_long_running_shell_command: missing required `command_id` argument",
                    ),
                );
            },
        };
        let input_str = match get_str(&args, "input") {
            Some(s) => s,
            None => {
                return Err(
                    arg_error("write_to_long_running_shell_command: missing required `input` argument"),
                );
            },
        };
        let input = utf8_bytes(input_str);
        let mode = match get_str(&args, "mode") {
            Some(m) => if str_eq(m, "raw") {
                Some(WriteMode { mode: Some(WriteModeKind::Raw) })
            } else if str_eq(m, "line") {
                Some(WriteMode { mode: Some(WriteModeKind::Line) })
            } else if str_eq(m, "block") {
                Some(WriteMode { mode: Some(WriteModeKind::Block) })
            } else {
                None
            },
            None => None,
        };
        Ok(
            Tool::WriteToLongRunningShellCommand(
                WriteToLongRunningShellCommand { command_id, input, mode },
            ),
        )
    }

    /// Encodes a call back into its arguments (command id and input text).
    pub fn encode_call_args(&self, tool: &Tool) -> (r: Json)
        ensures
            r@ == write_to_long_running_shell_command_call_args(tool),
    {
        let mut es: Vec<(String, Json)> = Vec::new();
        match tool {
            Tool::WriteToLongRunningShellCommand(c) => {
                push_entry(&mut es, "command_id", Json::Str(c.command_id.clone()));
                push_entry(&mut es, "input", Json::Str(from_utf8_lossy(c.input.as_slice())));
                assert(json::view_entries(es@) =~= write_args(*c)->Object_0);
            },
            _ => {
                assert(json::view_entries(es@) =~= Seq::<(Seq<char>, JsonView)>::empty());
            },
        }
        Json::Object(es)
    }

    /// The text sent back to the model for a result of this tool.
    pub fn encode_result_text(&self, result: &ToolResult) -> (r: Result<String, Arc<AIApiError>>)
        ensures
            write_to_long_running_shell_command_result_encoded(result, r),
    {
        match result {
            ToolResult::WriteToLongRunningShellCommand(o) => Ok(command_io_string(o)),
            _ => Err(arg_error("write_to_long_running_shell_command: result variant mismatch")),
        }
    }

    pub fn matches_proto_call(&self, tool: &Tool) -> (r: bool)
        ensures
            r == (tool is WriteToLongRunningShellCommand),
    {
        match tool {
            Tool::WriteToLongRunningShellCommand(_) => true,
            _ => false,
        }
    }

    pub fn matches_proto_result(&self, result: &ToolResult) -> (r: bool)
        ensures
            r == (result is WriteToLongRunningShellCommand),
    {
        match result {
            ToolResult::WriteToLongRunningShellCommand(_) => true,
            _ => false,
        }
    }
}

} // verus!
