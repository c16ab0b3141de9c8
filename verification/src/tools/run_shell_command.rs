//! RunShellCommand tool: execute a shell command on the user's machine.

use std::sync::Arc;

use vstd::prelude::*;
use vstd::string::*;

use crate::error::AIApiError;
use crate::json::{self, get_bool, get_str, get_string, json_str, push_entry, push_item, Json, JsonView};
use crate::proto::calls::{RiskCategory, RunShellCommand, Tool, WaitUntilCompleteValue};
use crate::proto::results::{CommandFinished, LongRunningCommandSnapshot, RunShellCommandOutcome, ToolResult};
use crate::text::{self, push_i64, str_eq};
use crate::tools::arg_error;

verus! {

pub struct RunShellCommandTool;

/// The shell-command tool.
pub const TOOL: RunShellCommandTool = RunShellCommandTool;

/// The risk category an argument names; anything else is `Unspecified`.
pub open spec fn risk_of(s: Option<Seq<char>>) -> RiskCategory {
    match s {
        Some(t) => if t == "read_only"@ {
            RiskCategory::ReadOnly
        } else if t == "trivial_local_change"@ {
            RiskCategory::TrivialLocalChange
        } else if t == "nontrivial_local_change"@ {
            RiskCategory::NontrivialLocalChange
        } else if t == "external_change"@ {
            RiskCategory::ExternalChange
        } else if t == "risky"@ {
            RiskCategory::Risky
        } else {
            RiskCategory::Unspecified
        },
        None => RiskCategory::Unspecified,
    }
}

/// The argument name of a risk category; `Unspecified` is sent as
/// `read_only`.
pub open spec fn risk_name(r: RiskCategory) -> Seq<char> {
    match r {
        RiskCategory::ReadOnly => "read_only"@,
        RiskCategory::TrivialLocalChange => "trivial_local_change"@,
        RiskCategory::NontrivialLocalChange => "nontrivial_local_change"@,
        RiskCategory::ExternalChange => "external_change"@,
        RiskCategory::Risky => "risky"@,
        RiskCategory::Unspecified => "read_only"@,
    }
}

pub open spec fn bool_or(b: Option<bool>, default: bool) -> bool {
    match b {
        Some(v) => v,
        None => default,
    }
}

/// What a finished command reports: exit code and output.
pub open spec fn finished_text(f: CommandFinished) -> Seq<char> {
    "exit_code: "@ + text::decimal(f.exit_code as int) + "\noutput:\n"@ + f.output@
}

/// What a snapshot of a still-running command reports.
pub open spec fn snapshot_text(s: LongRunningCommandSnapshot) -> Seq<char> {
    "(long-running snapshot, command_id: "@ + s.command_id@ + ")\n"@ + s.output@
}

pub open spec fn run_shell_command_result_text(o: Option<RunShellCommandOutcome>) -> Seq<char> {
    match o {
        Some(RunShellCommandOutcome::CommandFinished(f)) => finished_text(f),
        Some(RunShellCommandOutcome::LongRunningCommandSnapshot(s)) => snapshot_text(s),
        Some(RunShellCommandOutcome::PermissionDenied) => "permission_denied: user did not approve this command"@,
        None => "(no result)"@,
    }
}

/// The decoded call for the given arguments, when `command` is present.
pub open spec fn decoded_run_shell_command(args: JsonView, c: RunShellCommand) -> bool {
    &&& args.get_str("command"@) == Some(c.command@)
    &&& c.risk_category == risk_of(args.get_str("risk_category"@))
    &&& c.uses_pager == bool_or(args.get_bool("uses_pager"@), false)
    &&& c.wait_until_complete_value == Some(
        WaitUntilCompleteValue::WaitUntilComplete(
            bool_or(args.get_bool("wait_until_complete"@), true),
        ),
    )
}

/// The arguments that reproduce a call.
pub open spec fn run_shell_command_args(c: RunShellCommand) -> JsonView {
    JsonView::Object(
        seq![
            ("command"@, JsonView::Str(c.command@)),
            ("risk_category"@, JsonView::Str(risk_name(c.risk_category))),
            ("uses_pager"@, JsonView::Bool(c.uses_pager)),
        ],
    )
}

/// Appends the text of a finished command.
pub fn push_finished(out: &mut String, f: &CommandFinished)
    ensures
        final(out)@ == old(out)@ + finished_text(*f),
{
    out.append("exit_code: ");
    push_i64(out, f.exit_code as i64);
    out.append("\noutput:\n");
    out.append(f.output.as_str());
    assert(final(out)@ =~= old(out)@ + finished_text(*f));
}

/// Appends the text of a running command's snapshot.
pub fn push_snapshot(out: &mut String, s: &LongRunningCommandSnapshot)
    ensures
        final(out)@ == old(out)@ + snapshot_text(*s),
{
    out.append("(long-running snapshot, command_id: ");
    out.append(s.command_id.as_str());
    out.append(")\n");
    out.append(s.output.as_str());
    assert(final(out)@ =~= old(out)@ + snapshot_text(*s));
}

fn parse_risk(s: Option<&str>) -> (r: RiskCategory)
    ensures
        r == risk_of(
            match s {
                Some(t) => Some(t@),
                None => None,
            },
        ),
{
    match s {
        Some(t) => if str_eq(t, "read_only") {
            RiskCategory::ReadOnly
        } else if str_eq(t, "trivial_local_change") {
            RiskCategory::TrivialLocalChange
        } else if str_eq(t, "nontrivial_local_change") {
            RiskCategory::NontrivialLocalChange
        } else if str_eq(t, "external_change") {
            RiskCategory::ExternalChange
        } else if str_eq(t, "risky") {
            RiskCategory::Risky
        } else {
            RiskCategory::Unspecified
        },
        None => RiskCategory::Unspecified,
    }
}

fn risk_str(r: RiskCategory) -> (s: &'static str)
    ensures
        s@ == risk_name(r),
{
    match r {
        RiskCategory::ReadOnly => "read_only",
        RiskCategory::TrivialLocalChange => "trivial_local_change",
        RiskCategory::NontrivialLocalChange => "nontrivial_local_change",
        RiskCategory::ExternalChange => "external_change",
        RiskCategory::Risky => "risky",
        RiskCategory::Unspecified => "read_only",
    }
}

/// What decoding a call\'s JSON arguments gives, or when it fails.
pub open spec fn run_shell_command_decoded(args: Json, r: Result<Tool, Arc<AIApiError>>) -> bool {
    match r {
        Ok(Tool::RunShellCommand(c)) => decoded_run_shell_command(args@, c),
        Ok(_) => false,
        Err(e) => args@.get_str("command"@) is None && e.is_other(
            "run_shell_command: missing required `command` argument"@,
        ),
    }
}

/// Every argument object that conforms to the schema this tool is offered
/// with decodes: the schema requires `command` and `risk_category`, with the types decoding takes.
pub proof fn lemma_run_shell_command_schema_conforming_args_decode(args: Json, r: Result<Tool, Arc<AIApiError>>)
    requires
        crate::tools::conforms_to_schema(args@, run_shell_command_schema_value()),
        run_shell_command_decoded(args, r),
    ensures
        r is Ok,
{
    reveal_strlit("array");
    reveal_strlit("boolean");
    reveal_strlit("command");
    reveal_strlit("integer");
    reveal_strlit("number");
    reveal_strlit("object");
    reveal_strlit("properties");
    reveal_strlit("required");
    reveal_strlit("risk_category");
    reveal_strlit("string");
    reveal_strlit("type");
    reveal_strlit("uses_pager");
    reveal_strlit("wait_until_complete");
    assert("type"@[0] != "properties"@[0]);
    assert("type"@[0] != "required"@[0]);
    assert("properties"@[0] != "required"@[0]);
    assert("string"@[0] != "array"@[0]);
    assert("string"@[0] != "object"@[0]);
    assert("string"@[0] != "boolean"@[0]);
    assert("string"@[0] != "integer"@[0]);
    assert("string"@[0] != "number"@[0]);
    assert("array"@[0] != "object"@[0]);
    assert("array"@[0] != "boolean"@[0]);
    assert("array"@[0] != "integer"@[0]);
    assert("array"@[0] != "number"@[0]);
    assert("object"@[0] != "boolean"@[0]);
    assert("object"@[0] != "integer"@[0]);
    assert("object"@[0] != "number"@[0]);
    assert("boolean"@[0] != "integer"@[0]);
    assert("boolean"@[0] != "number"@[0]);
    assert("integer"@[0] != "number"@[0]);
    reveal_with_fuel(crate::json::lookup, 3);
    reveal_with_fuel(crate::json::strings_of, 3);
    let sch = run_shell_command_schema_value();
    let es = sch->Object_0;
    assert(es.drop_first()[0] == es[1]);
    assert(es.drop_first().drop_first()[0] == es[2]);
    let req = seq![JsonView::Str("command"@), JsonView::Str("risk_category"@)];
    assert(sch.get_array("required"@) == Some(req));
    assert(req.take(0) =~= Seq::<JsonView>::empty());
    assert(req.take(1).drop_last() =~= req.take(0));
    assert(req.take(2).drop_last() =~= req.take(1));
    assert(req.take(2) =~= req);
    assert(crate::tools::required_members(sch) =~= seq!["command"@, "risk_category"@]);
    let ps = es[1].1->Object_0;
    assert(crate::tools::described_members(sch) == ps);
    assert(ps[0].0 == "command"@);
    assert(ps[0].1.get_str("type"@) == Some("string"@));
    crate::tools::lemma_required_member_typed(args@, sch, 0, 0);
    assert(args@.get("command"@)->0 is Str);
    assert(args@.get_str("command"@) is Some);
    assert(ps[1].0 == "risk_category"@);
    assert(ps[1].1.get_str("type"@) == Some("string"@));
    crate::tools::lemma_required_member_typed(args@, sch, 1, 1);
    assert(args@.get("risk_category"@)->0 is Str);
    assert(args@.get_str("risk_category"@) is Some);
}


/// Decoding the arguments a shell command call is encoded to gives the same
/// command, pager use and risk category back (a category left unspecified
/// is sent, and so read back, as read-only).
pub proof fn lemma_run_shell_command_round_trip(c: RunShellCommand, args: Json, r: Result<Tool, Arc<AIApiError>>)
    requires
        args@ == run_shell_command_call_args(&Tool::RunShellCommand(c)),
        run_shell_command_decoded(args, r),
    ensures
        r matches Ok(Tool::RunShellCommand(d)) && d.command@ == c.command@ && d.uses_pager
            == c.uses_pager && d.risk_category == (if c.risk_category == RiskCategory::Unspecified {
            RiskCategory::ReadOnly
        } else {
            c.risk_category
        }),
{
    reveal_strlit("command");
    reveal_strlit("risk_category");
    reveal_strlit("uses_pager");
    reveal_strlit("read_only");
    reveal_strlit("trivial_local_change");
    reveal_strlit("nontrivial_local_change");
    reveal_strlit("external_change");
    reveal_strlit("risky");
    assert("command"@[0] != "risk_category"@[0]);
    assert("command"@[0] != "uses_pager"@[0]);
    assert("risk_category"@[0] != "uses_pager"@[0]);
    assert("read_only"@[0] != "trivial_local_change"@[0]);
    assert("read_only"@[0] != "nontrivial_local_change"@[0]);
    assert("read_only"@[0] != "external_change"@[0]);
    assert("read_only"@[1] != "risky"@[1]);
    assert("trivial_local_change"@[0] != "nontrivial_local_change"@[0]);
    assert("trivial_local_change"@[0] != "external_change"@[0]);
    assert("trivial_local_change"@[0] != "risky"@[0]);
    assert("nontrivial_local_change"@[0] != "external_change"@[0]);
    assert("nontrivial_local_change"@[0] != "risky"@[0]);
    assert("external_change"@[0] != "risky"@[0]);
    reveal_with_fuel(json::lookup, 3);
    let es = run_shell_command_args(c)->Object_0;
    assert(es.drop_first()[0] == es[1]);
    assert(es.drop_first().drop_first()[0] == es[2]);
    assert(args@.get_str("command"@) == Some(c.command@));
    assert(args@.get_str("risk_category"@) == Some(risk_name(c.risk_category)));
    assert(args@.get_bool("uses_pager"@) == Some(c.uses_pager));
}

/// The JSON arguments a call of this tool is encoded as; other calls give `{}`.
pub open spec fn run_shell_command_call_args(tool: &Tool) -> JsonView {
    match tool {
        Tool::RunShellCommand(c) => run_shell_command_args(*c),
        _ => JsonView::Object(Seq::empty()),
    }
}

/// The text a result of this tool is sent as; other results are refused.
pub open spec fn run_shell_command_result_encoded(result: &ToolResult, r: Result<String, Arc<AIApiError>>) -> bool {
    match result {
        ToolResult::RunShellCommand(o) => r matches Ok(s) && s@
            == run_shell_command_result_text(*o),
        _ => r matches Err(e) && e.is_other(
            "run_shell_command: result variant mismatch"@,
        ),
    }
}

/// What the model is told the tool does.
pub open spec fn run_shell_command_description() -> Seq<char> {
    "Execute a shell command on the user's machine and return its output. \
 Use for any operation that needs the local shell — running scripts, \
 querying system state, building, testing. Set risk_category to \
 indicate the command's destructiveness (read_only, trivial_local_change, \
 nontrivial_local_change, external_change, risky)."@
}

/// The tool's argument schema.
pub open spec fn run_shell_command_schema_value() -> JsonView {
    JsonView::Object(
        seq![
            ("type"@, JsonView::Str("object"@)),
            (
                "properties"@,
                JsonView::Object(
                    seq![
                        (
                            "command"@,
                            JsonView::Object(
                                seq![
                                    ("type"@, JsonView::Str("string"@)),
                                    ("description"@, JsonView::Str("The exact shell command to execute."@)),
                                ],
                            ),
                        ),
                        (
                            "risk_category"@,
                            JsonView::Object(
                                seq![
                                    ("type"@, JsonView::Str("string"@)),
                                    (
                                        "enum"@,
                                        JsonView::Array(
                                            seq![
                                                JsonView::Str("read_only"@),
                                                JsonView::Str("trivial_local_change"@),
                                                JsonView::Str("nontrivial_local_change"@),
                                                JsonView::Str("external_change"@),
                                                JsonView::Str("risky"@),
                                            ],
                                        ),
                                    ),
                                    ("description"@, JsonView::Str("How destructive the command is. Use read_only \
                                    for queries (ls, cat, grep), trivial_local_change \
                                    for safe edits, risky for irreversible operations."@)),
                                ],
                            ),
                        ),
                        (
                            "uses_pager"@,
                            JsonView::Object(
                                seq![
                                    ("type"@, JsonView::Str("boolean"@)),
                                    ("description"@, JsonView::Str("True if the command uses an interactive pager (less, more)."@)),
                                ],
                            ),
                        ),
                        (
                            "wait_until_complete"@,
                            JsonView::Object(
                                seq![
                                    ("type"@, JsonView::Str("boolean"@)),
                                    ("description"@, JsonView::Str("True (default) for short-running commands. False for \
                                    long-running commands where the user wants live output."@)),
                                ],
                            ),
                        ),
                    ],
                ),
            ),
            (
                "required"@,
                JsonView::Array(
                    seq![
                        JsonView::Str("command"@),
                        JsonView::Str("risk_category"@),
                    ],
                ),
            ),
        ],
    )
}

/// `s` is the tool's argument schema.
pub open spec fn run_shell_command_schema(s: JsonView) -> bool {
    s == run_shell_command_schema_value()
}

impl RunShellCommandTool {
    pub fn name(&self) -> (r: &'static str)
        ensures
            r@ == "run_shell_command"@,
    {
        "run_shell_command"
    }

    pub fn description(&self) -> (r: &'static str)
        ensures
            r@ == run_shell_command_description(),
    {
        "Execute a shell command on the user's machine and return its output. \
         Use for any operation that needs the local shell — running scripts, \
         querying system state, building, testing. Set risk_category to \
         indicate the command's destructiveness (read_only, trivial_local_change, \
         nontrivial_local_change, external_change, risky)."
    }

    /// JSON Schema of the arguments.
    pub fn parameters_schema(&self) -> (r: Json)
        ensures
            run_shell_command_schema(r@),
    {
        let mut o1: Vec<(String, Json)> = Vec::new();
        push_entry(&mut o1, "type", json_str("string"));
        push_entry(&mut o1, "description", json_str("The exact shell command to execute."));
        assert(json::view_entries(o1@) =~= seq![("type"@, JsonView::Str("string"@)), ("description"@, JsonView::Str("The exact shell command to execute."@))]);
        let j2 = Json::Object(o1);
        let ghost j2_v = j2@;
        let mut a3: Vec<Json> = Vec::new();
        push_item(&mut a3, json_str("read_only"));
        push_item(&mut a3, json_str("trivial_local_change"));
        push_item(&mut a3, json_str("nontrivial_local_change"));
        push_item(&mut a3, json_str("external_change"));
        push_item(&mut a3, json_str("risky"));
        assert(json::view_items(a3@) =~= seq![JsonView::Str("read_only"@), JsonView::Str("trivial_local_change"@), JsonView::Str("nontrivial_local_change"@), JsonView::Str("external_change"@), JsonView::Str("risky"@)]);
        let j4 = Json::Array(a3);
        let ghost j4_v = j4@;
        let mut o5: Vec<(String, Json)> = Vec::new();
        push_entry(&mut o5, "type", json_str("string"));
        push_entry(&mut o5, "enum", j4);
        push_entry(&mut o5, "description", json_str("How destructive the command is. Use read_only \
                                    for queries (ls, cat, grep), trivial_local_change \
                                    for safe edits, risky for irreversible operations."));
        assert(json::view_entries(o5@) =~= seq![("type"@, JsonView::Str("string"@)), ("enum"@, j4_v), ("description"@, JsonView::Str("How destructive the command is. Use read_only \
                                    for queries (ls, cat, grep), trivial_local_change \
                                    for safe edits, risky for irreversible operations."@))]);
        let j6 = Json::Object(o5);
        let ghost j6_v = j6@;
        let mut o7: Vec<(String, Json)> = Vec::new();
        push_entry(&mut o7, "type", json_str("boolean"));
        push_entry(&mut o7, "description", json_str("True if the command uses an interactive pager (less, more)."));
        assert(json::view_entries(o7@) =~= seq![("type"@, JsonView::Str("boolean"@)), ("description"@, JsonView::Str("True if the command uses an interactive pager (less, more)."@))]);
        let j8 = Json::Object(o7);
        let ghost j8_v = j8@;
        let mut o9: Vec<(String, Json)> = Vec::new();
        push_entry(&mut o9, "type", json_str("boolean"));
        push_entry(&mut o9, "description", json_str("True (default) for short-running commands. False for \
                                    long-running commands where the user wants live output."));
        assert(json::view_entries(o9@) =~= seq![("type"@, JsonView::Str("boolean"@)), ("description"@, JsonView::Str("True (default) for short-running commands. False for \
                                    long-running commands where the user wants live output."@))]);
        let j10 = Json::Object(o9);
        let ghost j10_v = j10@;
        let mut o11: Vec<(String, Json)> = Vec::new();
        push_entry(&mut o11, "command", j2);
        push_entry(&mut o11, "risk_category", j6);
        push_entry(&mut o11, "uses_pager", j8);
        push_entry(&mut o11, "wait_until_complete", j10);
        assert(json::view_entries(o11@) =~= seq![("command"@, j2_v), ("risk_category"@, j6_v), ("uses_pager"@, j8_v), ("wait_until_complete"@, j10_v)]);
        let j12 = Json::Object(o11);
        let ghost j12_v = j12@;
        let mut a13: Vec<Json> = Vec::new();
        push_item(&mut a13, json_str("command"));
        push_item(&mut a13, json_str("risk_category"));
        assert(json::view_items(a13@) =~= seq![JsonView::Str("command"@), JsonView::Str("risk_category"@)]);
        let j14 = Json::Array(a13);
        let ghost j14_v = j14@;
        let mut o15: Vec<(String, Json)> = Vec::new();
        push_entry(&mut o15, "type", json_str("object"));
        push_entry(&mut o15, "properties", j12);
        push_entry(&mut o15, "required", j14);
        assert(json::view_entries(o15@) =~= seq![("type"@, JsonView::Str("object"@)), ("properties"@, j12_v), ("required"@, j14_v)]);
        let j16 = Json::Object(o15);
        let ghost j16_v = j16@;
        assert(j16_v == run_shell_command_schema_value());
        j16
    }

    /// Decodes the JSON arguments of a call. `command` is required; an
    /// unknown or missing `risk_category` is `Unspecified`; `uses_pager`
    /// defaults to false and `wait_until_complete` to true.
    pub fn decode_call_args(&self, args: Json) -> (r: Result<Tool, Arc<AIApiError>>)
        ensures
            run_shell_command_decoded(args, r),
    {
        let command = match get_string(&args, "command") {
            Some(c) => c,
            None => {
                return Err(arg_error("run_shell_command: missing required `command` argument"));
            },
        };
        let risk_category = parse_risk(get_str(&args, "risk_category"));
        let uses_pager = match get_bool(&args, "uses_pager") {
            Some(b) => b,
            None => false,
        };
        let wait_until_complete = match get_bool(&args, "wait_until_complete") {
            Some(b) => b,
            None => true,
        };
        Ok(
            Tool::RunShellCommand(
                RunShellCommand {
                    command,
                    risk_category,
                    uses_pager,
                    wait_until_complete_value: Some(
                        WaitUntilCompleteValue::WaitUntilComplete(wait_until_complete),
                    ),
                },
            ),
        )
    }

    /// Encodes a call back into its JSON arguments; any other kind of
    /// call gives an empty object.
    pub fn encode_call_args(&self, tool: &Tool) -> (r: Json)
        ensures
            r@ == run_shell_command_call_args(tool),
    {
        let mut es: Vec<(String, Json)> = Vec::new();
        match tool {
            Tool::RunShellCommand(c) => {
                push_entry(&mut es, "command", Json::Str(c.command.clone()));
                push_entry(&mut es, "risk_category", json_str(risk_str(c.risk_category)));
                push_entry(&mut es, "uses_pager", Json::Bool(c.uses_pager));
                assert(json::view_entries(es@) =~= run_shell_command_args(*c)->Object_0);
            },
            _ => {
                assert(json::view_entries(es@) =~= Seq::<(Seq<char>, JsonView)>::empty());
            },
        }
        Json::Object(es)
    }

    /// The text sent back to the model for a result of this tool.
    pub fn encode_result_text(&self, result: &ToolResult) -> (r: Result<String, Arc<AIApiError>>)
        ensures
            run_shell_command_result_encoded(result, r),
    {
        match result {
            ToolResult::RunShellCommand(o) => {
                let mut out = String::new();
                match o {
                    Some(RunShellCommandOutcome::CommandFinished(f)) => push_finished(&mut out, f),
                    Some(RunShellCommandOutcome::LongRunningCommandSnapshot(s)) => push_snapshot(
                        &mut out,
                        s,
                    ),
                    Some(RunShellCommandOutcome::PermissionDenied) => out.append(
                        "permission_denied: user did not approve this command",
                    ),
                    None => out.append("(no result)"),
                }
                Ok(out)
            },
            _ => Err(arg_error("run_shell_command: result variant mismatch")),
        }
    }

    pub fn matches_proto_call(&self, tool: &Tool) -> (r: bool)
        ensures
            r == (tool is RunShellCommand),
    {
        match tool {
            Tool::RunShellCommand(_) => true,
            _ => false,
        }
    }

    pub fn matches_proto_result(&self, result: &ToolResult) -> (r: bool)
        ensures
            r == (result is RunShellCommand),
    {
        match result {
            ToolResult::RunShellCommand(_) => true,
            _ => false,
        }
    }
}

} // verus!
