//! The AI-provider settings page: the protocol choice, and the
//! "test connection" check of an endpoint.

use vstd::prelude::*;

use crate::config::{built_from_parts, parts_error, OpenAiConfig};
use crate::proto::conversation::{
    InputKind, Request, RequestInput, UserInput, UserInputKind, UserQuery,
};
use crate::text::str_eq;

verus! {

/// The wire protocol the user picks for their endpoint.
#[derive(Debug, Clone, Copy, PartialEq, Eq)]
pub enum AiProtocol {
    OpenAi,
    Anthropic,
}

/// What the settings page is asked to do.
#[derive(Debug, Clone, Copy, PartialEq, Eq)]
pub enum AiProviderPageAction {
    /// The user picked a protocol.
    SelectProtocol(AiProtocol),
    /// The user asked to test the connection.
    TestConnection,
}

/// How the protocol is shown in the picker.
pub open spec fn protocol_label(p: AiProtocol) -> Seq<char> {
    match p {
        AiProtocol::OpenAi => "OpenAI"@,
        AiProtocol::Anthropic => "Anthropic"@,
    }
}

/// How the protocol is stored in the settings.
pub open spec fn protocol_setting(p: AiProtocol) -> Seq<char> {
    match p {
        AiProtocol::OpenAi => "openai"@,
        AiProtocol::Anthropic => "anthropic"@,
    }
}

impl AiProtocol {
    /// The name shown for the protocol.
    pub fn display_name(&self) -> (r: &'static str)
        ensures
            r@ == protocol_label(*self),
    {
        match self {
            AiProtocol::OpenAi => "OpenAI",
            AiProtocol::Anthropic => "Anthropic",
        }
    }

    /// The value the protocol is saved as.
    pub fn setting_value(&self) -> (r: &'static str)
        ensures
            r@ == protocol_setting(*self),
    {
        match self {
            AiProtocol::OpenAi => "openai",
            AiProtocol::Anthropic => "anthropic",
        }
    }
}

/// The picker's entries, in order: a label and the action it sends.
pub fn protocol_options() -> (r: Vec<(&'static str, AiProviderPageAction)>)
    ensures
        r@.len() == 2,
        r@[0].0@ == "OpenAI"@,
        r@[0].1 == AiProviderPageAction::SelectProtocol(AiProtocol::OpenAi),
        r@[1].0@ == "Anthropic"@,
        r@[1].1 == AiProviderPageAction::SelectProtocol(AiProtocol::Anthropic),
{
    let mut r: Vec<(&'static str, AiProviderPageAction)> = Vec::new();
    r.push((AiProtocol::OpenAi.display_name(), AiProviderPageAction::SelectProtocol(AiProtocol::OpenAi)));
    r.push(
        (
            AiProtocol::Anthropic.display_name(),
            AiProviderPageAction::SelectProtocol(AiProtocol::Anthropic),
        ),
    );
    r
}

/// The picker entry selected for a saved protocol value: the second
/// (Anthropic) for `anthropic`, the first otherwise.
pub fn initial_protocol_index(saved: &str) -> (r: usize)
    ensures
        r == (if saved@ == "anthropic"@ {
            1usize
        } else {
            0usize
        }),
{
    if str_eq(saved, "anthropic") {
        1
    } else {
        0
    }
}

/// Where a connection test stands.
#[derive(Debug, Clone, PartialEq, Eq)]
pub enum TestStatus {
    Idle,
    InProgress,
    Success,
    Failure(String),
}

impl Default for TestStatus {
    fn default() -> (r: Self)
        ensures
            r == TestStatus::Idle,
    {
        TestStatus::Idle
    }
}

/// The configuration to test, from what the user typed; a validation
/// failure is the test's outcome, with the error's message.
pub fn test_config(endpoint: String, api_key: String, model: String) -> (r: Result<
    OpenAiConfig,
    TestStatus,
>)
    ensures
        match r {
            Ok(c) => parts_error(api_key@, model@) is None && built_from_parts(
                c,
                endpoint,
                api_key,
                model,
            ),
            Err(s) => {
                &&& parts_error(api_key@, model@) matches Some(m)
                &&& s matches TestStatus::Failure(text)
                &&& text@ == m
            },
        },
{
    match OpenAiConfig::from_parts(endpoint, api_key, model) {
        Ok(c) => Ok(c),
        Err(e) => Err(TestStatus::Failure(crate::text::owned(e.message()))),
    }
}

/// The input is a single query, `text`.
pub open spec fn is_query_only(input: Option<RequestInput>, text: Seq<char>) -> bool {
    &&& input matches Some(i)
    &&& i.kind matches Some(InputKind::UserInputs(uis))
    &&& uis@.len() == 1
    &&& uis@[0].input matches Some(UserInputKind::UserQuery(q))
    &&& q.query@ == text
}

/// The one-query request used to test that an endpoint answers.
pub fn build_ping_request() -> (r: Request)
    ensures
        r.task_context is None,
        r.settings is None,
        r.metadata is None,
        is_query_only(r.input, "ping"@),
{
    let mut uis: Vec<UserInput> = Vec::new();
    uis.push(
        UserInput {
            input: Some(UserInputKind::UserQuery(UserQuery { query: crate::text::owned("ping") })),
        },
    );
    Request {
        task_context: None,
        input: Some(RequestInput { kind: Some(InputKind::UserInputs(uis)) }),
        settings: None,
        metadata: None,
    }
}

/// What the connection test sees next from the endpoint's reply stream.
#[derive(Debug, Clone, PartialEq, Eq)]
pub enum ProbeEvent {
    /// An event arrived.
    Event,
    /// The stream reported an error, with its message.
    Error(String),
    /// The stream ended.
    Closed,
    /// Nothing arrived in time.
    TimedOut,
}

/// How many events in a row, without an error, make a test succeed: the
/// stream's ids and the opening actions.
pub const EVENTS_FOR_SUCCESS: u32 = 3;

/// A connection test in progress: the events seen so far.
pub struct ConnectionProbe {
    events_seen: u32,
}

/// The outcome, if any, of the next thing the test sees after `seen`
/// events: the third event is success; an error, the end of the stream
/// or a timeout is failure with its message; other events mean waiting on.
pub open spec fn probe_outcome(seen: nat, ev: ProbeEvent) -> Option<Result<(), Seq<char>>> {
    match ev {
        ProbeEvent::Event => if seen + 1 >= EVENTS_FOR_SUCCESS {
            Some(Ok(()))
        } else {
            None
        },
        ProbeEvent::Error(m) => Some(Err(m@)),
        ProbeEvent::Closed => Some(Err("Endpoint closed connection without responding"@)),
        ProbeEvent::TimedOut => Some(Err("Connection timed out"@)),
    }
}

impl ConnectionProbe {
    /// Events seen so far.
    pub closed spec fn seen(&self) -> nat {
        self.events_seen as nat
    }

    pub fn new() -> (r: Self)
        ensures
            r.seen() == 0,
    {
        ConnectionProbe { events_seen: 0 }
    }

    /// Takes the next thing seen; returns the test's outcome once decided.
    pub fn on_event(&mut self, ev: ProbeEvent) -> (r: Option<Result<(), String>>)
        ensures
            match r {
                Some(Ok(())) => probe_outcome(old(self).seen(), ev) == Some(Ok::<(), Seq<char>>(())),
                Some(Err(m)) => probe_outcome(old(self).seen(), ev) == Some(Err::<(), Seq<char>>(m@)),
                None => probe_outcome(old(self).seen(), ev) is None,
            },
            final(self).seen() == (if ev is Event && old(self).seen() < EVENTS_FOR_SUCCESS {
                old(self).seen() + 1
            } else {
                old(self).seen()
            }),
    {
        match ev {
            ProbeEvent::Event => {
                if self.events_seen < EVENTS_FOR_SUCCESS {
                    self.events_seen = self.events_seen + 1;
                }
                if self.events_seen >= EVENTS_FOR_SUCCESS {
                    Some(Ok(()))
                } else {
                    None
                }
            },
            ProbeEvent::Error(m) => Some(Err(m)),
            ProbeEvent::Closed => Some(Err(crate::text::owned("Endpoint closed connection without responding"))),
            ProbeEvent::TimedOut => Some(Err(crate::text::owned("Connection timed out"))),
        }
    }
}

/// The status a finished test shows.
pub fn finished_status(outcome: Result<(), String>) -> (r: TestStatus)
    ensures
        match outcome {
            Ok(()) => r == TestStatus::Success,
            Err(m) => r == TestStatus::Failure(m),
        },
{
    match outcome {
        Ok(()) => TestStatus::Success,
        Err(m) => TestStatus::Failure(m),
    }
}

/// The line the settings page shows for a test's status; none while idle.
pub open spec fn status_line(s: TestStatus) -> Option<Seq<char>> {
    match s {
        TestStatus::Idle => None,
        TestStatus::InProgress => Some("Testing\u{2026}"@),
        TestStatus::Success => Some("\u{2713} Connection OK"@),
        TestStatus::Failure(m) => Some("\u{2717} "@ + m@),
    }
}

/// The status line for a test, as shown under the form.
pub fn status_text(s: &TestStatus) -> (r: Option<String>)
    ensures
        match r {
            Some(t) => status_line(*s) == Some(t@),
            None => status_line(*s) is None,
        },
{
    match s {
        TestStatus::Idle => None,
        TestStatus::InProgress => Some(crate::text::owned("Testing\u{2026}")),
        TestStatus::Success => Some(crate::text::owned("\u{2713} Connection OK")),
        TestStatus::Failure(m) => {
            let mut line = crate::text::owned("\u{2717} ");
            line.append(m.as_str());
            Some(line)
        },
    }
}

} // verus!
