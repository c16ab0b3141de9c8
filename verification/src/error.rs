//! The error type of the provider.

use vstd::prelude::*;

verus! {

/// An error raised while translating a request or a response.
#[derive(Debug, Clone, PartialEq, Eq)]
pub enum AIApiError {
    /// A translation or validation failure, with its message.
    Other(String),
    /// A transport failure while streaming, with its message.
    Stream(String),
}

impl AIApiError {
    /// The message the error carries.
    pub open spec fn msg(&self) -> Seq<char> {
        match self {
            AIApiError::Other(m) => m@,
            AIApiError::Stream(m) => m@,
        }
    }

    /// True of an `Other` error whose message is `m`.
    pub open spec fn is_other(&self, m: Seq<char>) -> bool {
        self matches AIApiError::Other(s) && s@ == m
    }

    /// An `Other` error with the given message.
    pub fn other(m: &str) -> (r: Self)
        ensures
            r.is_other(m@),
    {
        AIApiError::Other(crate::text::owned(m))
    }

    /// The message, as text.
    pub fn message(&self) -> (r: &str)
        ensures
            r@ == self.msg(),
    {
        match self {
            AIApiError::Other(m) => m.as_str(),
            AIApiError::Stream(m) => m.as_str(),
        }
    }
}

} // verus!
