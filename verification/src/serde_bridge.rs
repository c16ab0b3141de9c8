//! The calls into `serde_json`: reading JSON text into a [`Json`] value and
//! writing a [`Json`] value as JSON text.

use serde_json::Value;
use vstd::prelude::*;

use crate::json::{Json, JsonNumber, JsonView};

verus! {

#[verifier::external_type_specification]
#[verifier::external_body]
pub struct ExSerdeJsonValue(Value);

#[verifier::external_type_specification]
#[verifier::external_body]
pub struct ExSerdeJsonNumber(serde_json::Number);

/// What `serde_json::from_str::<serde_json::Value>` gives for a text: the
/// value, taken as a [`JsonView`], or, when the text is not JSON, the
/// error's alternate (`{:#}`) display text.
pub uninterp spec fn json_parse(text: Seq<char>) -> Result<JsonView, Seq<char>>;

/// The text that `serde_json::to_string` writes for a value.
pub uninterp spec fn json_text(value: JsonView) -> Seq<char>;

/// Converts a `serde_json::Value` into the same value as a [`Json`], one
/// node for one node (used only inside `parse_json`).
#[verifier::external_body]
fn from_serde(v: Value) -> Json {
    match v {
        Value::Null => Json::Null,
        Value::Bool(b) => Json::Bool(b),
        Value::Number(n) => Json::Number(number_from_serde(n)),
        Value::String(s) => Json::Str(s),
        Value::Array(a) => Json::Array(a.into_iter().map(from_serde).collect()),
        Value::Object(m) => Json::Object(m.into_iter().map(|(k, v)| (k, from_serde(v))).collect()),
    }
}

/// Converts a `serde_json::Number` into the same number as a
/// [`JsonNumber`]: an integer when it is one, else its text (used only
/// inside `from_serde`).
#[verifier::external_body]
fn number_from_serde(n: serde_json::Number) -> JsonNumber {
    match (n.as_u64(), n.as_i64()) {
        (Some(u), _) => JsonNumber::PosInt(u),
        (None, Some(i)) => JsonNumber::NegInt(i),
        (None, None) => JsonNumber::Float(n.to_string()),
    }
}

/// Converts a [`Json`] into the same value as a `serde_json::Value`, one
/// node for one node (used only inside `json_to_string`). The text of a
/// `Float` goes back through `serde_json::Number`'s own parser; text that
/// parser refuses (never the case for text that `number_from_serde` wrote)
/// is written as `null`, and nothing is stated of it.
#[verifier::external_body]
fn to_serde(j: &Json) -> Value {
    match j {
        Json::Null => Value::Null,
        Json::Bool(b) => Value::Bool(*b),
        Json::Number(JsonNumber::PosInt(u)) => Value::from(*u),
        Json::Number(JsonNumber::NegInt(i)) => Value::from(*i),
        Json::Number(JsonNumber::Float(t)) => t.parse().map(Value::Number).unwrap_or(Value::Null),
        Json::Str(s) => Value::String(s.clone()),
        Json::Array(a) => Value::Array(a.iter().map(to_serde).collect()),
        Json::Object(es) => Value::Object(es.iter().map(|(k, v)| (k.clone(), to_serde(v))).collect()),
    }
}

/// `serde_json::from_str::<serde_json::Value>(text)`, with the value as a
/// [`Json`] and the error as its `{:#}` text: the result is what
/// [`json_parse`] names for the text.
#[verifier::external_body]
pub(crate) fn parse_json(text: &str) -> (r: Result<Json, String>)
    ensures
        match r {
            Ok(j) => json_parse(text@) == Ok::<JsonView, Seq<char>>(j@),
            Err(m) => json_parse(text@) == Err::<JsonView, Seq<char>>(m@),
        },
{
    match serde_json::from_str::<Value>(text) {
        Ok(v) => Ok(from_serde(v)),
        Err(e) => Err(format!("{e:#}")),
    }
}

/// `serde_json::to_string(&value)`: the result is what [`json_text`]
/// names for the value. Writing a JSON value cannot fail, so the empty
/// fallback is never taken.
#[verifier::external_body]
pub(crate) fn json_to_string(value: &Json) -> (r: String)
    ensures
        r@ == json_text(value@),
{
    serde_json::to_string(&to_serde(value)).unwrap_or_default()
}

impl Json {
    /// Reads JSON text: the value it holds, or why it holds none.
    pub fn parse(text: &str) -> (r: Result<Json, String>)
        ensures
            match r {
                Ok(j) => json_parse(text@) == Ok::<JsonView, Seq<char>>(j@),
                Err(m) => json_parse(text@) == Err::<JsonView, Seq<char>>(m@),
            },
    {
        parse_json(text)
    }

    /// The value written as JSON text.
    pub fn to_json_text(&self) -> (r: String)
        ensures
            r@ == json_text(self@),
    {
        json_to_string(self)
    }
}

} // verus!
