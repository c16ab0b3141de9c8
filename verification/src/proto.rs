//! The conversation model that the provider translates to and from:
//! requests, messages, tool calls, tool results and response events.

pub mod calls;
pub mod conversation;
pub mod results;
