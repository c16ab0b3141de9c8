//! Which backend serves AI requests.

use vstd::prelude::*;

verus! {

/// Selected backend for AI requests.
#[derive(Debug, Clone, Copy, PartialEq, Eq)]
pub enum Protocol {
    /// The hosted multi-agent service (the default).
    Warp,
    /// A user-supplied OpenAI-compatible endpoint.
    OpenAi,
    /// A user-supplied Anthropic Messages endpoint.
    Anthropic,
}

/// The protocol a setting value selects: `openai` and `anthropic` name
/// theirs; anything else, or no value, keeps the hosted service.
pub open spec fn protocol_named(value: Option<Seq<char>>) -> Protocol {
    match value {
        Some(v) => if v == "openai"@ {
            Protocol::OpenAi
        } else if v == "anthropic"@ {
            Protocol::Anthropic
        } else {
            Protocol::Warp
        },
        None => Protocol::Warp,
    }
}

/// The protocol selected by the value of `WARP_AI_PROTOCOL` (`None` when
/// it is unset).
pub fn protocol_from_value(value: Option<&str>) -> (r: Protocol)
    ensures
        r == protocol_named(
            match value {
                Some(v) => Some(v@),
                None => None,
            },
        ),
{
    match value {
        Some(v) => if crate::text::str_eq(v, "openai") {
            Protocol::OpenAi
        } else if crate::text::str_eq(v, "anthropic") {
            Protocol::Anthropic
        } else {
            Protocol::Warp
        },
        None => Protocol::Warp,
    }
}

} // verus!
