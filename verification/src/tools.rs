//! Tool calling: one definition per client-executed tool, and the
//! registry that looks them up by name or by tool-call kind.

use std::sync::Arc;

use vstd::prelude::*;

use crate::error::AIApiError;
use crate::json::{JsonView, NumView};
use crate::proto::results::ToolError;
use vstd::string::*;

pub mod edit_write;
pub mod misc;
pub mod read_search;
pub mod registry;
pub mod run_shell_command;

verus! {

/// `v` is a JSON value of the JSON Schema type named `t` (a type this
/// library's schemas do not use constrains nothing).
pub open spec fn has_schema_type(v: JsonView, t: Seq<char>) -> bool {
    if t == "string"@ {
        v is Str
    } else if t == "array"@ {
        v is Array
    } else if t == "object"@ {
        v is Object
    } else if t == "boolean"@ {
        v is Bool
    } else if t == "integer"@ {
        v matches JsonView::Number(n) && (n is PosInt || n is NegInt)
    } else if t == "number"@ {
        v is Number
    } else {
        true
    }
}

/// The type a property schema gives the elements of an array (`items.type`).
pub open spec fn item_type(p: JsonView) -> Option<Seq<char>> {
    match p.get("items"@) {
        Some(it) => it.get_str("type"@),
        None => None,
    }
}

/// `v` conforms to the property schema `p`: it has `p`'s `type`, and when
/// `p` describes an array whose `items` have a `type`, every element has it.
pub open spec fn conforms_to_property(v: JsonView, p: JsonView) -> bool {
    &&& p.get_str("type"@) is Some ==> has_schema_type(v, p.get_str("type"@)->0)
    &&& (v is Array && item_type(p) is Some) ==> forall|i: int|
        0 <= i < v->Array_0.len() ==> has_schema_type(#[trigger] v->Array_0[i], item_type(p)->0)
}

/// The member names a schema's `required` array lists.
pub open spec fn required_members(schema: JsonView) -> Seq<Seq<char>> {
    match schema.get_array("required"@) {
        Some(req) => crate::json::strings_of(req),
        None => Seq::empty(),
    }
}

/// The members a schema's `properties` object describes.
pub open spec fn described_members(schema: JsonView) -> Seq<(Seq<char>, JsonView)> {
    match schema.get("properties"@) {
        Some(JsonView::Object(ps)) => ps,
        _ => Seq::empty(),
    }
}

/// `args` conforms to the object schema `schema`: it is an object, it has
/// every member that `required` names, and each member that `properties`
/// describes conforms to its description.
pub open spec fn conforms_to_schema(args: JsonView, schema: JsonView) -> bool {
    &&& args is Object
    &&& forall|i: int|
        0 <= i < required_members(schema).len() ==> args.get(#[trigger] required_members(schema)[i])
            is Some
    &&& forall|i: int|
        0 <= i < described_members(schema).len() ==> (args.get(
            (#[trigger] described_members(schema)[i]).0,
        ) is Some ==> conforms_to_property(
            args.get(described_members(schema)[i].0)->0,
            described_members(schema)[i].1,
        ))
}

/// A member that a schema both requires and describes with a `type` is
/// present, with that type, in every argument object that conforms.
pub proof fn lemma_required_member_typed(args: JsonView, schema: JsonView, i: int, j: int)
    requires
        conforms_to_schema(args, schema),
        0 <= i < required_members(schema).len(),
        0 <= j < described_members(schema).len(),
        required_members(schema)[i] == described_members(schema)[j].0,
        described_members(schema)[j].1.get_str("type"@) is Some,
    ensures
        args.get(described_members(schema)[j].0) matches Some(x) && has_schema_type(
            x,
            described_members(schema)[j].1.get_str("type"@)->0,
        ),
{
    assert(args.get(required_members(schema)[i]) is Some);
    assert(conforms_to_property(
        args.get(described_members(schema)[j].0)->0,
        described_members(schema)[j].1,
    ));
}

/// The error returned for a missing or malformed argument.
pub fn arg_error(msg: &str) -> (r: Arc<AIApiError>)
    ensures
        r.is_other(msg@),
{
    Arc::new(AIApiError::other(msg))
}

/// What a tool-reported failure is sent as.
pub open spec fn error_text(e: ToolError) -> Seq<char> {
    "error: "@ + e.message@
}

/// `path:\ncontent`, the form a file's content is sent in.
pub open spec fn file_block(path: Seq<char>, content: Seq<char>) -> Seq<char> {
    path + ":\n"@ + content
}

/// The text for a tool-reported failure.
pub fn error_string(e: &ToolError) -> (r: String)
    ensures
        r@ == error_text(*e),
{
    let mut out = String::new();
    out.append("error: ");
    out.append(e.message.as_str());
    assert(out@ =~= error_text(*e));
    out
}

/// `path:\ncontent`.
pub fn file_block_string(path: &str, content: &str) -> (r: String)
    ensures
        r@ == file_block(path@, content@),
{
    let mut out = crate::text::owned(path);
    out.append(":\n");
    out.append(content);
    assert(out@ =~= file_block(path@, content@));
    out
}

/// The fixed text sent when a result carries no outcome.
pub fn no_result() -> (r: String)
    ensures
        r@ == "(no result)"@,
{
    crate::text::owned("(no result)")
}

/// A count of milliseconds as whole seconds and nanoseconds, both
/// truncated toward zero (so they share the sign of `ms`).
pub open spec fn duration_of_ms(ms: i64) -> crate::proto::calls::ProtoDuration {
    let q: int = if ms >= 0 { ms / 1000 } else { -((-ms) / 1000) };
    crate::proto::calls::ProtoDuration {
        seconds: q as i64,
        nanos: ((ms - q * 1000) * 1_000_000) as i32,
    }
}

/// `Duration { seconds: ms / 1000, nanos: ((ms % 1000) * 1_000_000) as i32 }`.
pub fn duration_from_ms(ms: i64) -> (r: crate::proto::calls::ProtoDuration)
    ensures
        r == duration_of_ms(ms),
{
    let m: i128 = ms as i128;
    let q: i128 = if m >= 0 {
        m / 1000
    } else {
        0 - ((0 - m) / 1000)
    };
    let ghost qi: int = if ms >= 0 { ms / 1000 } else { -((-ms) / 1000) };
    assert(q == qi);
    assert(-1000 < m - q * 1000 < 1000) by (nonlinear_arith)
        requires
            q == (if m >= 0 { m / 1000 } else { -((-m) / 1000) }),
    ;
    assert(i64::MIN <= q <= i64::MAX) by (nonlinear_arith)
        requires
            q == (if m >= 0 { m / 1000 } else { -((-m) / 1000) }),
            i64::MIN <= m <= i64::MAX,
    ;
    let rem: i128 = m - q * 1000;
    crate::proto::calls::ProtoDuration { seconds: q as i64, nanos: (rem * 1_000_000) as i32 }
}

} // verus!
