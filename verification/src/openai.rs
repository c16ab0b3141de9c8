//! The OpenAI chat-completions protocol: the request body built from a
//! conversation, and the streamed reply turned back into conversation
//! events.

use std::collections::HashMap;
use std::sync::Arc;

use vstd::prelude::*;
use vstd::string::*;

use crate::config::OpenAiConfig;
use crate::error::AIApiError;
use crate::json::{self, get_str, json_str, push_entry, push_item, Json, JsonView};
use crate::proto::calls::Tool;
use crate::proto::conversation::{
    AgentOutput, ClientAction, InputKind, Message, MessageKind, Request, RequestInput,
    ResponseEvent, StreamInit, Task, TaskContext, ToolCall, UserInput, UserInputKind, UserQuery,
};
use crate::serde_bridge::{self, json_to_string};
use crate::text::str_eq;
use crate::tools::registry::{self, ToolDefinition, ToolRegistry};

verus! {

broadcast use vstd::std_specs::hash::group_hash_axioms;

/// The id, function name and argument text of a call, as far as received.
pub type CallText = (Seq<char>, Seq<char>, Seq<char>);

/// One tool call being assembled from streamed fragments.
pub struct AccumulatedToolCall {
    pub id: String,
    pub name: String,
    pub arguments: String,
}

impl View for AccumulatedToolCall {
    type V = CallText;

    open spec fn view(&self) -> CallText {
        (self.id@, self.name@, self.arguments@)
    }
}

/// Member `key` of `/choices/0/delta` of a streamed chunk, as
/// `serde_json::Value::pointer` resolves `/choices/0/delta/<key>` for a
/// `key` that is not a number.
pub open spec fn delta_member(chunk: JsonView, key: Seq<char>) -> Option<JsonView> {
    match chunk.step("choices"@, -1) {
        Some(c) => match c.step("0"@, 0) {
            Some(c0) => match c0.step("delta"@, -1) {
                Some(d) => d.step(key, -1),
                None => None,
            },
            None => None,
        },
        None => None,
    }
}

/// `/choices/0/finish_reason` of a streamed chunk, as a string.
pub open spec fn finish_reason(chunk: JsonView) -> Option<Seq<char>> {
    match chunk.step("choices"@, -1) {
        Some(c) => match c.step("0"@, 0) {
            Some(c0) => json::str_opt(c0.step("finish_reason"@, -1)),
            None => None,
        },
        None => None,
    }
}

fn first_choice(chunk: &Json) -> (r: Option<&Json>)
    ensures
        json::view_ref_opt(r) == match chunk@.step("choices"@, -1) {
            Some(c) => c.step("0"@, 0),
            None => None,
        },
{
    match chunk.step("choices", None) {
        Some(c) => c.step("0", Some(0)),
        None => None,
    }
}

/// `chunk.pointer("/choices/0/delta/<key>")`, for a `key` that is not a number.
fn delta_member_of<'a>(chunk: &'a Json, key: &str) -> (r: Option<&'a Json>)
    ensures
        json::view_ref_opt(r) == delta_member(chunk@, key@),
{
    match first_choice(chunk) {
        Some(c0) => match c0.step("delta", None) {
            Some(d) => d.step(key, None),
            None => None,
        },
        None => None,
    }
}

/// `chunk.pointer("/choices/0/finish_reason").and_then(|v| v.as_str())`.
pub fn finish_reason_of(chunk: &Json) -> (r: Option<&str>)
    ensures
        match r {
            Some(s) => finish_reason(chunk@) == Some(s@),
            None => finish_reason(chunk@) is None,
        },
{
    match first_choice(chunk) {
        Some(c0) => match c0.step("finish_reason", None) {
            Some(f) => f.as_str(),
            None => None,
        },
        None => None,
    }
}

/// A call fragment applied to what was received so far: a non-empty `id`
/// or `function.name` replaces the old one, and `function.arguments` is
/// appended.
pub open spec fn apply_fragment(c: CallText, tc: JsonView) -> CallText {
    let f = tc.get("function"@);
    let id = match tc.get_str("id"@) {
        Some(x) => if x.len() > 0 {
            x
        } else {
            c.0
        },
        None => c.0,
    };
    let name = match json::str_opt(json::get_opt(f, "name"@)) {
        Some(x) => if x.len() > 0 {
            x
        } else {
            c.1
        },
        None => c.1,
    };
    let arguments = match json::str_opt(json::get_opt(f, "arguments"@)) {
        Some(x) => c.2 + x,
        None => c.2,
    };
    (id, name, arguments)
}

/// The call held for index `k`; an empty one when there is none.
pub open spec fn call_at(m: Map<u32, CallText>, k: u32) -> CallText {
    if m.contains_key(k) {
        m[k]
    } else {
        (Seq::empty(), Seq::empty(), Seq::empty())
    }
}

/// One element of a chunk's `tool_calls`: a fragment of the call whose
/// `index` it names (an index is kept to its low 32 bits); an element
/// without an integer `index` is skipped.
pub open spec fn ingest_one(m: Map<u32, CallText>, tc: JsonView) -> Map<u32, CallText> {
    match tc.get_u64("index"@) {
        Some(n) => m.insert(n as u32, apply_fragment(call_at(m, n as u32), tc)),
        None => m,
    }
}

/// The elements of `tool_calls`, one after the other.
pub open spec fn ingest_all(m: Map<u32, CallText>, items: Seq<JsonView>) -> Map<u32, CallText>
    decreases items.len(),
{
    if items.len() == 0 {
        m
    } else {
        ingest_one(ingest_all(m, items.drop_last()), items.last())
    }
}

/// A streamed chunk: its `/choices/0/delta/tool_calls` array, if any.
pub open spec fn ingest(m: Map<u32, CallText>, chunk: JsonView) -> Map<u32, CallText> {
    match json::array_opt(delta_member(chunk, "tool_calls"@)) {
        Some(items) => ingest_all(m, items),
        None => m,
    }
}

/// Each index comes after the one before it.
pub open spec fn strictly_increasing(ks: Seq<u32>) -> bool {
    forall|i: int, j: int| 0 <= i < j < ks.len() ==> ks[i] < ks[j]
}

/// `ks` lists the indices of `m`, each once, in increasing order.
pub open spec fn is_index_order(ks: Seq<u32>, m: Map<u32, CallText>) -> bool {
    &&& strictly_increasing(ks)
    &&& forall|k: u32| #[trigger] ks.contains(k) <==> m.contains_key(k)
}

/// `calls` are the calls of `m` in increasing index order.
pub open spec fn in_index_order(calls: Seq<CallText>, m: Map<u32, CallText>) -> bool {
    exists|ks: Seq<u32>|
        is_index_order(ks, m) && ks.len() == calls.len() && forall|i: int|
            0 <= i < ks.len() ==> #[trigger] calls[i] == m[ks[i]]
}

/// The indices of a map have one increasing order: two lists of them, each
/// strictly increasing and each naming every index once, are the same.
pub proof fn lemma_index_order_unique(ks1: Seq<u32>, ks2: Seq<u32>, m: Map<u32, CallText>)
    requires
        is_index_order(ks1, m),
        is_index_order(ks2, m),
    ensures
        ks1 == ks2,
    decreases ks1.len() + ks2.len(),
{
    if ks1.len() > 0 && ks2.len() > 0 {
        let a = ks1[0];
        let b = ks2[0];
        assert(ks1.contains(a));
        assert(ks2.contains(b));
        assert(m.contains_key(a));
        assert(m.contains_key(b));
        assert(ks2.contains(a));
        assert(ks1.contains(b));
        let ia = choose|i: int| 0 <= i < ks2.len() && ks2[i] == a;
        let ib = choose|i: int| 0 <= i < ks1.len() && ks1[i] == b;
        if ia > 0 {
            assert(ks2[0] < ks2[ia]);
        }
        if ib > 0 {
            assert(ks1[0] < ks1[ib]);
        }
        assert(a == b);
        let m2 = m.remove(a);
        let r1 = ks1.drop_first();
        let r2 = ks2.drop_first();
        assert forall|k: u32| #[trigger] r1.contains(k) <==> m2.contains_key(k) by {
            if r1.contains(k) {
                let i = choose|i: int| 0 <= i < r1.len() && r1[i] == k;
                assert(ks1[i + 1] == k);
                assert(ks1[0] < ks1[i + 1]);
                assert(ks1.contains(k));
            }
            if m2.contains_key(k) {
                assert(ks1.contains(k));
                let i = choose|i: int| 0 <= i < ks1.len() && ks1[i] == k;
                assert(i != 0);
                assert(r1[i - 1] == k);
            }
        }
        assert forall|k: u32| #[trigger] r2.contains(k) <==> m2.contains_key(k) by {
            if r2.contains(k) {
                let i = choose|i: int| 0 <= i < r2.len() && r2[i] == k;
                assert(ks2[i + 1] == k);
                assert(ks2[0] < ks2[i + 1]);
                assert(ks2.contains(k));
            }
            if m2.contains_key(k) {
                assert(ks2.contains(k));
                let i = choose|i: int| 0 <= i < ks2.len() && ks2[i] == k;
                assert(i != 0);
                assert(r2[i - 1] == k);
            }
        }
        assert forall|i: int, j: int| 0 <= i < j < r1.len() implies r1[i] < r1[j] by {
            assert(r1[i] == ks1[i + 1] && r1[j] == ks1[j + 1]);
        }
        assert forall|i: int, j: int| 0 <= i < j < r2.len() implies r2[i] < r2[j] by {
            assert(r2[i] == ks2[i + 1] && r2[j] == ks2[j + 1]);
        }
        lemma_index_order_unique(r1, r2, m2);
        assert(ks1 =~= seq![a] + r1);
        assert(ks2 =~= seq![a] + r2);
    } else if ks1.len() > 0 {
        assert(ks1.contains(ks1[0]));
        assert(ks2.contains(ks1[0]));
    } else if ks2.len() > 0 {
        assert(ks2.contains(ks2[0]));
        assert(ks1.contains(ks2[0]));
    }
}

/// The tool calls of a streamed reply, assembled per stream index until
/// the reply says they are complete.
pub struct ToolCallAccumulator {
    inflight: HashMap<u32, AccumulatedToolCall>,
}

impl View for ToolCallAccumulator {
    type V = Map<u32, CallText>;

    closed spec fn view(&self) -> Map<u32, CallText> {
        self.inflight@.map_values(|c: AccumulatedToolCall| c@)
    }
}

/// The indices held in `m`, in increasing order.
fn sorted_indices(m: &HashMap<u32, AccumulatedToolCall>) -> (ks: Vec<u32>)
    ensures
        strictly_increasing(ks@),
        forall|k: u32| #[trigger] ks@.contains(k) <==> m@.contains_key(k),
{
    let mut ks: Vec<u32> = Vec::new();
    for k in it: m.keys()
        invariant
            strictly_increasing(ks@),
            forall|j: int| 0 <= j < it.index() ==> ks@.contains(*it.seq()[j]),
            forall|x: u32| ks@.contains(x) ==> m@.dom().contains(x),
            it.seq().unref().to_set() == m@.dom(),
            forall|x: u32| #[trigger] m@.dom().contains(x) ==> ks@.contains(x) || exists|j: int|
                it.index() <= j < it.seq().len() && *it.seq()[j] == x,
    {
        let k: u32 = *k;
        let mut i: usize = 0;
        while i < ks.len() && ks[i] < k
            invariant
                i <= ks.len(),
                forall|j: int| 0 <= j < i ==> ks@[j] < k,
            decreases ks.len() - i,
        {
            i = i + 1;
        }
        assert(it.seq().unref().to_set().contains(k)) by {
            assert(it.seq().unref()[it.index() as int] == k);
        }
        assert(m@.dom().contains(k));
        if i < ks.len() && ks[i] == k {
        } else {
            let ghost old_ks = ks@;
            ks.insert(i, k);
            assert forall|x: u32| ks@.contains(x) implies m@.dom().contains(x) by {
                if x != k {
                    let j = choose|j: int| 0 <= j < ks@.len() && ks@[j] == x;
                    if j < i {
                        assert(old_ks[j] == x);
                    } else {
                        assert(old_ks[j - 1] == x);
                    }
                    assert(old_ks.contains(x));
                }
            }
            assert forall|a: int, b: int| 0 <= a < b < ks@.len() implies ks@[a] < ks@[b] by {
                if a > i {
                    assert(old_ks[a - 1] == ks@[a]);
                    assert(old_ks[b - 1] == ks@[b]);
                } else if a == i {
                    assert(old_ks[b - 1] == ks@[b]);
                } else if b > i {
                    assert(old_ks[b - 1] == ks@[b]);
                }
            }
            assert forall|j: int| 0 <= j < it.index() implies ks@.contains(*it.seq()[j]) by {
                let x = *it.seq()[j];
                let p = choose|p: int| 0 <= p < old_ks.len() && old_ks[p] == x;
                if p < i {
                    assert(ks@[p] == x);
                } else {
                    assert(ks@[p + 1] == x);
                }
            }
        }
        assert(ks@.contains(k)) by {
            if i < ks.len() && ks@[i as int] == k {
            } else {
                assert(ks@[i as int] == k);
            }
        }
    }
    ks
}

/// The fragment `tc` applied to `c`.
fn apply_fragment_exec(c: &AccumulatedToolCall, tc: &Json) -> (r: AccumulatedToolCall)
    ensures
        r@ == apply_fragment(c@, tc@),
{
    let id = match get_str(tc, "id") {
        Some(x) => if x.is_empty() {
            c.id.clone()
        } else {
            crate::text::owned(x)
        },
        None => c.id.clone(),
    };
    let f = tc.get("function");
    let name_part = match f {
        Some(fv) => get_str(fv, "name"),
        None => None,
    };
    let name = match name_part {
        Some(x) => if x.is_empty() {
            c.name.clone()
        } else {
            crate::text::owned(x)
        },
        None => c.name.clone(),
    };
    let args_part = match f {
        Some(fv) => get_str(fv, "arguments"),
        None => None,
    };
    let mut arguments = c.arguments.clone();
    match args_part {
        Some(x) => arguments.append(x),
        None => {},
    }
    AccumulatedToolCall { id, name, arguments }
}

impl ToolCallAccumulator {
    /// An accumulator holding no call.
    pub fn new() -> (r: Self)
        ensures
            r@ == Map::<u32, CallText>::empty(),
    {
        let r = ToolCallAccumulator { inflight: HashMap::new() };
        assert(r@ =~= Map::<u32, CallText>::empty());
        r
    }

    fn ingest_element(&mut self, tc: &Json)
        ensures
            final(self)@ == ingest_one(old(self)@, tc@),
    {
        let n = match tc.get("index") {
            Some(v) => match v.as_u64() {
                Some(n) => n,
                None => {
                    return ;
                },
            },
            None => {
                return ;
            },
        };
        #[verifier::truncate]
        let k = n as u32;
        let call = match self.inflight.get(&k) {
            Some(c) => apply_fragment_exec(c, tc),
            None => {
                let empty = AccumulatedToolCall {
                    id: String::new(),
                    name: String::new(),
                    arguments: String::new(),
                };
                apply_fragment_exec(&empty, tc)
            },
        };
        let ghost before = self@;
        self.inflight.insert(k, call);
        assert(self@ =~= before.insert(k, call@));
    }

    /// Takes in one streamed chunk: each element of its
    /// `/choices/0/delta/tool_calls` adds to the call of its `index`.
    pub fn ingest_chunk(&mut self, chunk: &Json)
        ensures
            final(self)@ == ingest(old(self)@, chunk@),
    {
        let tcs = match delta_member_of(chunk, "tool_calls") {
            Some(v) => match v.as_array() {
                Some(a) => a,
                None => {
                    return ;
                },
            },
            None => {
                return ;
            },
        };
        let ghost items = json::view_items(tcs@);
        let ghost s0 = self@;
        proof {
            json::lemma_view_items_len(tcs@);
            assert(items.take(0) =~= Seq::<JsonView>::empty());
        }
        let mut i: usize = 0;
        while i < tcs.len()
            invariant
                i <= tcs.len(),
                items == json::view_items(tcs@),
                items.len() == tcs.len(),
                forall|j: int| 0 <= j < tcs.len() ==> #[trigger] items[j] == tcs[j]@,
                self@ == ingest_all(s0, items.take(i as int)),
            decreases tcs.len() - i,
        {
            self.ingest_element(&tcs[i]);
            proof {
                assert(items.take(i + 1).drop_last() =~= items.take(i as int));
                assert(items.take(i + 1).last() == tcs[i as int]@);
            }
            i = i + 1;
        }
        assert(items.take(tcs.len() as int) =~= items);
    }

    /// Hands out the calls held, in strictly increasing index order, and
    /// empties the accumulator.
    pub fn drain_completed(&mut self) -> (r: Vec<AccumulatedToolCall>)
        ensures
            in_index_order(r@.map_values(|c: AccumulatedToolCall| c@), old(self)@),
            final(self)@ == Map::<u32, CallText>::empty(),
    {
        let ks = sorted_indices(&self.inflight);
        let ghost m = self@;
        let mut out: Vec<AccumulatedToolCall> = Vec::new();
        let mut i: usize = 0;
        while i < ks.len()
            invariant
                i <= ks.len(),
                m == self@,
                is_index_order(ks@, m),
                out@.len() == i,
                forall|j: int| 0 <= j < i ==> #[trigger] out@[j]@ == m[ks@[j]],
            decreases ks.len() - i,
        {
            let k = ks[i];
            assert(ks@.contains(k));
            match self.inflight.get(&k) {
                Some(c) => {
                    let copy = AccumulatedToolCall {
                        id: c.id.clone(),
                        name: c.name.clone(),
                        arguments: c.arguments.clone(),
                    };
                    out.push(copy);
                },
                None => {
                    assert(false);
                },
            }
            i = i + 1;
        }
        self.inflight.clear();
        let ghost calls = out@.map_values(|c: AccumulatedToolCall| c@);
        assert forall|j: int| 0 <= j < ks@.len() implies #[trigger] calls[j] == m[ks@[j]] by {
            assert(calls[j] == out@[j]@);
        }
        assert(self@ =~= Map::<u32, CallText>::empty());
        out
    }
}

impl Default for ToolCallAccumulator {
    fn default() -> (r: Self)
        ensures
            r@ == Map::<u32, CallText>::empty(),
    {
        Self::new()
    }
}


/// `{"role": role, "content": content}`.
pub open spec fn role_message(role: Seq<char>, content: Seq<char>) -> JsonView {
    JsonView::Object(seq![("role"@, JsonView::Str(role)), ("content"@, JsonView::Str(content))])
}

/// An assistant message that calls one tool.
pub open spec fn tool_call_message(id: Seq<char>, name: Seq<char>, arguments: Seq<char>) -> JsonView {
    JsonView::Object(
        seq![
            ("role"@, JsonView::Str("assistant"@)),
            (
                "tool_calls"@,
                JsonView::Array(
                    seq![
                        JsonView::Object(
                            seq![
                                ("id"@, JsonView::Str(id)),
                                ("type"@, JsonView::Str("function"@)),
                                (
                                    "function"@,
                                    JsonView::Object(
                                        seq![
                                            ("name"@, JsonView::Str(name)),
                                            ("arguments"@, JsonView::Str(arguments)),
                                        ],
                                    ),
                                ),
                            ],
                        ),
                    ],
                ),
            ),
        ],
    )
}

/// The message that answers a tool call.
pub open spec fn tool_result_message(id: Seq<char>, content: Seq<char>) -> JsonView {
    JsonView::Object(
        seq![
            ("role"@, JsonView::Str("tool"@)),
            ("tool_call_id"@, JsonView::Str(id)),
            ("content"@, JsonView::Str(content)),
        ],
    )
}

/// The chat messages a message of the conversation history becomes: a
/// query, an answer, or a call of a tool the registry has; nothing else.
pub open spec fn history_entry(tools: Seq<ToolDefinition>, m: Message) -> Seq<JsonView> {
    match m.message {
        Some(MessageKind::UserQuery(uq)) => seq![role_message("user"@, uq.query@)],
        Some(MessageKind::AgentOutput(ao)) => seq![role_message("assistant"@, ao.text@)],
        Some(MessageKind::ToolCall(tc)) => match tc.tool {
            Some(t) => match registry::first_match(tools, |d: ToolDefinition| d.handles_call(t)) {
                Some(d) => seq![
                    tool_call_message(
                        tc.tool_call_id@,
                        d.tool_name(),
                        serde_bridge::json_text(d.call_args(&t)),
                    ),
                ],
                None => Seq::empty(),
            },
            None => Seq::empty(),
        },
        _ => Seq::empty(),
    }
}

pub open spec fn history_of_messages(tools: Seq<ToolDefinition>, ms: Seq<Message>) -> Seq<JsonView>
    decreases ms.len(),
{
    if ms.len() == 0 {
        Seq::empty()
    } else {
        history_of_messages(tools, ms.drop_last()) + history_entry(tools, ms.last())
    }
}

pub open spec fn history_of_tasks(tools: Seq<ToolDefinition>, ts: Seq<Task>) -> Seq<JsonView>
    decreases ts.len(),
{
    if ts.len() == 0 {
        Seq::empty()
    } else {
        history_of_tasks(tools, ts.drop_last()) + history_of_messages(tools, ts.last().messages@)
    }
}

/// The conversation so far, task by task and message by message.
pub open spec fn history(tools: Seq<ToolDefinition>, tc: Option<TaskContext>) -> Seq<JsonView> {
    match tc {
        Some(c) => history_of_tasks(tools, c.tasks@),
        None => Seq::empty(),
    }
}

/// The chat messages one input of the current turn becomes: a query, or
/// the answer to a tool call (a placeholder when no tool of the registry
/// has results of its kind).
pub open spec fn input_entry(tools: Seq<ToolDefinition>, ui: UserInput) -> Seq<JsonView> {
    match ui.input {
        Some(UserInputKind::UserQuery(uq)) => seq![role_message("user"@, uq.query@)],
        Some(UserInputKind::ToolCallResult(tcr)) => match tcr.result {
            Some(res) => match registry::first_match(
                tools,
                |d: ToolDefinition| d.handles_result(res),
            ) {
                Some(_) => seq![tool_result_message(tcr.tool_call_id@, registry::result_text(res))],
                None => seq![
                    tool_result_message(tcr.tool_call_id@, "(unsupported tool result variant)"@),
                ],
            },
            None => Seq::empty(),
        },
        _ => Seq::empty(),
    }
}

pub open spec fn inputs_messages(tools: Seq<ToolDefinition>, uis: Seq<UserInput>) -> Seq<JsonView>
    decreases uis.len(),
{
    if uis.len() == 0 {
        Seq::empty()
    } else {
        inputs_messages(tools, uis.drop_last()) + input_entry(tools, uis.last())
    }
}

/// The chat messages of the current turn.
pub open spec fn current_input(tools: Seq<ToolDefinition>, input: RequestInput) -> Seq<JsonView> {
    match input.kind {
        Some(InputKind::UserInputs(uis)) => inputs_messages(tools, uis@),
        Some(InputKind::UserQuery(uq)) => seq![role_message("user"@, uq.query@)],
        _ => Seq::empty(),
    }
}

/// Some message has the role `user`.
pub open spec fn has_user_message(ms: Seq<JsonView>) -> bool {
    exists|i: int| 0 <= i < ms.len() && (#[trigger] ms[i]).get_str("role"@) == Some("user"@)
}

/// The messages, behind a `(continue)` query when none is from the user.
pub open spec fn with_user_message(ms: Seq<JsonView>) -> Seq<JsonView> {
    if has_user_message(ms) {
        ms
    } else {
        seq![role_message("user"@, "(continue)"@)] + ms
    }
}

/// The chat messages for a request (before the system prompt): the
/// history, then the current input; `None` when the request has no input.
pub open spec fn chat_messages(tools: Seq<ToolDefinition>, request: Request) -> Option<Seq<JsonView>> {
    match request.input {
        Some(input) => Some(
            with_user_message(history(tools, request.task_context) + current_input(tools, input)),
        ),
        None => None,
    }
}

/// Every request that is translated carries a user message.
pub proof fn lemma_chat_messages_have_user(tools: Seq<ToolDefinition>, request: Request)
    ensures
        chat_messages(tools, request) matches Some(ms) ==> has_user_message(ms),
{
    if let Some(input) = request.input {
        let ms = history(tools, request.task_context) + current_input(tools, input);
        if !has_user_message(ms) {
            let w = with_user_message(ms);
            assert(w[0] == role_message("user"@, "(continue)"@));
            assert(w[0].get_str("role"@) == Some("user"@));
        }
    }
}

fn role_message_json(role: &str, content: &str) -> (r: Json)
    ensures
        r@ == role_message(role@, content@),
{
    let mut es: Vec<(String, Json)> = Vec::new();
    push_entry(&mut es, "role", json_str(role));
    push_entry(&mut es, "content", json_str(content));
    assert(json::view_entries(es@) =~= role_message(role@, content@)->Object_0);
    Json::Object(es)
}

fn tool_call_message_json(id: &str, name: &str, arguments: &str) -> (r: Json)
    ensures
        r@ == tool_call_message(id@, name@, arguments@),
{
    let mut f: Vec<(String, Json)> = Vec::new();
    push_entry(&mut f, "name", json_str(name));
    push_entry(&mut f, "arguments", json_str(arguments));
    let ghost fv = json::view_entries(f@);
    let mut call: Vec<(String, Json)> = Vec::new();
    push_entry(&mut call, "id", json_str(id));
    push_entry(&mut call, "type", json_str("function"));
    push_entry(&mut call, "function", Json::Object(f));
    let ghost cv = json::view_entries(call@);
    let mut calls: Vec<Json> = Vec::new();
    push_item(&mut calls, Json::Object(call));
    let ghost csv = json::view_items(calls@);
    let mut es: Vec<(String, Json)> = Vec::new();
    push_entry(&mut es, "role", json_str("assistant"));
    push_entry(&mut es, "tool_calls", Json::Array(calls));
    assert(fv =~= seq![("name"@, JsonView::Str(name@)), ("arguments"@, JsonView::Str(arguments@))]);
    assert(cv =~= seq![
        ("id"@, JsonView::Str(id@)),
        ("type"@, JsonView::Str("function"@)),
        ("function"@, JsonView::Object(fv)),
    ]);
    assert(csv =~= seq![JsonView::Object(cv)]);
    assert(json::view_entries(es@) =~= tool_call_message(id@, name@, arguments@)->Object_0);
    Json::Object(es)
}

fn tool_result_message_json(id: &str, content: &str) -> (r: Json)
    ensures
        r@ == tool_result_message(id@, content@),
{
    let mut es: Vec<(String, Json)> = Vec::new();
    push_entry(&mut es, "role", json_str("tool"));
    push_entry(&mut es, "tool_call_id", json_str(id));
    push_entry(&mut es, "content", json_str(content));
    assert(json::view_entries(es@) =~= tool_result_message(id@, content@)->Object_0);
    Json::Object(es)
}

fn push_history_entry(out: &mut Vec<Json>, m: &Message, registry: &ToolRegistry)
    ensures
        json::view_items(final(out)@) == json::view_items(old(out)@) + history_entry(registry@, *m),
{
    let ghost before = json::view_items(out@);
    match &m.message {
        Some(MessageKind::UserQuery(uq)) => {
            push_item(out, role_message_json("user", uq.query.as_str()));
        },
        Some(MessageKind::AgentOutput(ao)) => {
            push_item(out, role_message_json("assistant", ao.text.as_str()));
        },
        Some(MessageKind::ToolCall(tc)) => {
            match &tc.tool {
                Some(t) => match registry.tool_for_proto(t) {
                    Some(d) => {
                        let args = d.encode_call_args(t);
                        let text = json_to_string(&args);
                        push_item(
                            out,
                            tool_call_message_json(tc.tool_call_id.as_str(), d.name(), text.as_str()),
                        );
                    },
                    None => {},
                },
                None => {},
            }
        },
        _ => {},
    }
    assert(json::view_items(out@) =~= before + history_entry(registry@, *m));
}

fn push_input_entry(out: &mut Vec<Json>, ui: &UserInput, registry: &ToolRegistry)
    ensures
        json::view_items(final(out)@) == json::view_items(old(out)@) + input_entry(registry@, *ui),
{
    let ghost before = json::view_items(out@);
    match &ui.input {
        Some(UserInputKind::UserQuery(uq)) => {
            push_item(out, role_message_json("user", uq.query.as_str()));
        },
        Some(UserInputKind::ToolCallResult(tcr)) => {
            match &tcr.result {
                Some(res) => match registry.tool_for_proto_result(res) {
                    Some(d) => {
                        proof {
                            registry::lemma_first_match_satisfies(
                                registry@,
                                |x: ToolDefinition| x.handles_result(*res),
                            );
                            registry::lemma_handles_only_own_kind(d, Tool::Other, *res);
                        }
                        let content = match d.encode_result_text(res) {
                            Ok(c) => c,
                            Err(e) => {
                                proof {
                                    registry::lemma_own_result_encodes(d, *res, Err(e));
                                }
                                return ;
                            },
                        };
                        proof {
                            registry::lemma_own_result_encodes(d, *res, Ok(content));
                        }
                        push_item(
                            out,
                            tool_result_message_json(tcr.tool_call_id.as_str(), content.as_str()),
                        );
                    },
                    None => {
                        push_item(
                            out,
                            tool_result_message_json(
                                tcr.tool_call_id.as_str(),
                                "(unsupported tool result variant)",
                            ),
                        );
                    },
                },
                None => {},
            }
        },
        _ => {},
    }
    assert(json::view_items(out@) =~= before + input_entry(registry@, *ui));
}


proof fn lemma_view_items_append(a: Seq<Json>, b: Seq<Json>)
    ensures
        json::view_items(a + b) == json::view_items(a) + json::view_items(b),
    decreases a.len(),
{
    if a.len() == 0 {
        assert(a + b =~= b);
        assert(json::view_items(a) =~= Seq::<JsonView>::empty());
        assert(json::view_items(a) + json::view_items(b) =~= json::view_items(b));
    } else {
        assert((a + b).drop_first() =~= a.drop_first() + b);
        lemma_view_items_append(a.drop_first(), b);
        assert(json::view_items(a + b) =~= json::view_items(a) + json::view_items(b));
    }
}

/// The messages of past tasks, then those of the current input, behind
/// a `(continue)` query when none is from the user. Fails only when the
/// request has no input.
pub fn build_messages_from_request(request: &Request, registry: &ToolRegistry) -> (r: Result<
    Vec<Json>,
    Arc<AIApiError>,
>)
    ensures
        match r {
            Ok(ms) => chat_messages(registry@, *request) == Some(json::view_items(ms@)),
            Err(e) => request.input is None && e.is_other("OpenAI adapter: Request.input is missing"@),
        },
{
    let mut out: Vec<Json> = Vec::new();
    match &request.task_context {
        Some(tc) => {
            let mut ti: usize = 0;
            while ti < tc.tasks.len()
                invariant
                    ti <= tc.tasks.len(),
                    json::view_items(out@) == history_of_tasks(registry@, tc.tasks@.take(ti as int)),
                decreases tc.tasks.len() - ti,
            {
                let task = &tc.tasks[ti];
                let ghost base = json::view_items(out@);
                let mut mi: usize = 0;
                while mi < task.messages.len()
                    invariant
                        mi <= task.messages.len(),
                        json::view_items(out@) == base + history_of_messages(
                            registry@,
                            task.messages@.take(mi as int),
                        ),
                    decreases task.messages.len() - mi,
                {
                    push_history_entry(&mut out, &task.messages[mi], registry);
                    proof {
                        let ms = task.messages@;
                        assert(ms.take(mi + 1).drop_last() =~= ms.take(mi as int));
                        assert(ms.take(mi + 1).last() == ms[mi as int]);
                    }
                    mi = mi + 1;
                }
                proof {
                    let ts = tc.tasks@;
                    assert(task.messages@.take(task.messages.len() as int) =~= task.messages@);
                    assert(ts.take(ti + 1).drop_last() =~= ts.take(ti as int));
                    assert(ts.take(ti + 1).last() == ts[ti as int]);
                }
                ti = ti + 1;
            }
            assert(tc.tasks@.take(tc.tasks.len() as int) =~= tc.tasks@);
        },
        None => {
            assert(json::view_items(out@) =~= Seq::<JsonView>::empty());
        },
    }
    let input = match &request.input {
        Some(i) => i,
        None => {
            return Err(Arc::new(AIApiError::other("OpenAI adapter: Request.input is missing")));
        },
    };
    let ghost hist = json::view_items(out@);
    match &input.kind {
        Some(InputKind::UserInputs(uis)) => {
            let mut i: usize = 0;
            while i < uis.len()
                invariant
                    i <= uis.len(),
                    json::view_items(out@) == hist + inputs_messages(registry@, uis@.take(i as int)),
                decreases uis.len() - i,
            {
                push_input_entry(&mut out, &uis[i], registry);
                proof {
                    assert(uis@.take(i + 1).drop_last() =~= uis@.take(i as int));
                    assert(uis@.take(i + 1).last() == uis@[i as int]);
                }
                i = i + 1;
            }
            assert(uis@.take(uis.len() as int) =~= uis@);
        },
        Some(InputKind::UserQuery(uq)) => {
            push_item(&mut out, role_message_json("user", uq.query.as_str()));
        },
        _ => {},
    }
    let ghost all = json::view_items(out@);
    assert(all == hist + current_input(registry@, *input));
    let mut seen_user = false;
    let mut i: usize = 0;
    proof {
        json::lemma_view_items_len(out@);
    }
    while i < out.len()
        invariant
            i <= out.len(),
            all == json::view_items(out@),
            all.len() == out.len(),
            forall|k: int| 0 <= k < out.len() ==> #[trigger] all[k] == out@[k]@,
            seen_user ==> has_user_message(all),
            !seen_user ==> forall|k: int| 0 <= k < i ==> (#[trigger] all[k]).get_str("role"@) != Some("user"@),
        decreases out.len() - i,
    {
        match get_str(&out[i], "role") {
            Some(role) => if str_eq(role, "user") {
                assert(all[i as int].get_str("role"@) == Some("user"@));
                seen_user = true;
            },
            None => {},
        }
        i = i + 1;
    }
    if !seen_user {
        let cont = role_message_json("user", "(continue)");
        let ghost cv = cont@;
        let ghost old_out = out@;
        out.insert(0, cont);
        proof {
            assert(out@ =~= seq![cont] + old_out);
            lemma_view_items_append(seq![cont], old_out);
            assert(seq![cont].drop_first() =~= Seq::<Json>::empty());
            assert(json::view_items(Seq::<Json>::empty()) =~= Seq::<JsonView>::empty());
            assert(json::view_items(seq![cont]) =~= seq![cv]);
        }
    }
    Ok(out)
}


/// The system prompt that opens every conversation.
pub const SYSTEM_PROMPT: &'static str = "You are a helpful AI assistant integrated into a \
    terminal application. Respond clearly and concisely. Do not invoke tools \
    or external commands — just provide a textual answer.";

/// The tools offered to the model for `request`: those of the registry whose
/// kind the client declared in `settings.supported_tools`, in registry order.
pub open spec fn offered_tools(request: Request) -> Seq<ToolDefinition> {
    match request.settings {
        Some(s) => registry::supported_only(registry::all_tools(), s.supported_tools@),
        None => Seq::empty(),
    }
}

/// `t` is the `tools[]` array with one entry per tool of `tools`, in order.
pub open spec fn offers_tools(t: JsonView, tools: Seq<ToolDefinition>) -> bool {
    &&& t matches JsonView::Array(items)
    &&& items.len() == tools.len()
    &&& forall|i: int| 0 <= i < items.len() ==> registry::is_tool_entry(tools[i], #[trigger] items[i])
}

/// `body` is the chat-completions request for `model` with `messages`
/// after the system prompt, streamed, with a `tools` entry offering `tools`
/// exactly when there is at least one.
pub open spec fn is_request_body(
    body: JsonView,
    model: Seq<char>,
    messages: Seq<JsonView>,
    tools: Seq<ToolDefinition>,
) -> bool {
    &&& body matches JsonView::Object(es)
    &&& es.len() == (if tools.len() > 0 { 4int } else { 3int })
    &&& es[0] == ("model"@, JsonView::Str(model))
    &&& es[1] == ("stream"@, JsonView::Bool(true))
    &&& es[2] == (
        "messages"@,
        JsonView::Array(seq![role_message("system"@, SYSTEM_PROMPT@)] + messages),
    )
    &&& tools.len() > 0 ==> es[3].0 == "tools"@ && offers_tools(es[3].1, tools)
}

/// Translates conversation requests to the chat-completions protocol for
/// one configured endpoint.
pub struct OpenAiAdapter {
    config: OpenAiConfig,
}

impl OpenAiAdapter {
    /// The configuration the adapter was made with.
    pub closed spec fn configured(&self) -> OpenAiConfig {
        self.config
    }

    pub fn new(config: OpenAiConfig) -> (r: Self)
        ensures
            r.configured() == config,
    {
        OpenAiAdapter { config }
    }

    pub fn config(&self) -> (r: &OpenAiConfig)
        ensures
            *r == self.configured(),
    {
        &self.config
    }

    /// The chat-completions body for a request: the model, `stream: true`,
    /// the system prompt and the conversation's messages, and the tools whose
    /// kind the client declared, when there is any. Fails only when the
    /// request has no input.
    pub fn build_request_body(&self, request: &Request) -> (r: Result<Json, Arc<AIApiError>>)
        ensures
            match r {
                Ok(body) => chat_messages(registry::all_tools(), *request) matches Some(ms)
                    && is_request_body(body@, self.configured().model@, ms, offered_tools(*request)),
                Err(e) => request.input is None && e.is_other(
                    "OpenAI adapter: Request.input is missing"@,
                ),
            },
    {
        let registry = ToolRegistry::default();
        let mut messages = match build_messages_from_request(request, &registry) {
            Ok(ms) => ms,
            Err(e) => {
                return Err(e);
            },
        };
        let system = role_message_json("system", SYSTEM_PROMPT);
        let ghost sv = system@;
        let ghost rest = messages@;
        messages.insert(0, system);
        proof {
            assert(messages@ =~= seq![system] + rest);
            lemma_view_items_append(seq![system], rest);
            assert(seq![system].drop_first() =~= Seq::<Json>::empty());
            assert(json::view_items(Seq::<Json>::empty()) =~= Seq::<JsonView>::empty());
            assert(json::view_items(seq![system]) =~= seq![sv]);
        }
        let mut body: Vec<(String, Json)> = Vec::new();
        push_entry(&mut body, "model", Json::Str(self.config.model.clone()));
        push_entry(&mut body, "stream", Json::Bool(true));
        let ghost mv = json::view_items(messages@);
        push_entry(&mut body, "messages", Json::Array(messages));
        let ghost base = json::view_entries(body@);
        assert(base =~= seq![
            ("model"@, JsonView::Str(self.config.model@)),
            ("stream"@, JsonView::Bool(true)),
            ("messages"@, JsonView::Array(mv)),
        ]);
        match &request.settings {
            Some(settings) => {
                if settings.supported_tools.len() > 0 {
                    let supported = registry.filter_to_supported(settings.supported_tools.as_slice());
                    let tools_json = supported.openai_tools_json();
                    let non_empty = match &tools_json {
                        Json::Array(arr) => arr.len() > 0,
                        _ => false,
                    };
                    proof {
                        if let Json::Array(arr) = &tools_json {
                            json::lemma_view_items_len(arr@);
                        }
                    }
                    if non_empty {
                        push_entry(&mut body, "tools", tools_json);
                    }
                } else {
                    proof {
                        registry::lemma_supported_only_none(registry::all_tools(), settings.supported_tools@);
                    }
                }
            },
            None => {},
        }
        Ok(Json::Object(body))
    }
}

/// `str::trim_end_matches` with `'/'`: `s` without the slashes it ends with.
pub open spec fn trim_trailing_slashes(s: Seq<char>) -> Seq<char>
    decreases s.len(),
{
    if s.len() > 0 && s.last() == '/' {
        trim_trailing_slashes(s.drop_last())
    } else {
        s
    }
}

/// Dropping the slashes that `s` ends with leaves its first `n` characters,
/// when those after them are all slashes and the one before them is not.
proof fn lemma_trim_trailing_slashes_at(s: Seq<char>, n: int)
    requires
        0 <= n <= s.len(),
        forall|k: int| n <= k < s.len() ==> s[k] == '/',
        n > 0 ==> s[n - 1] != '/',
    ensures
        trim_trailing_slashes(s) == s.subrange(0, n),
    decreases s.len(),
{
    if s.len() > n {
        lemma_trim_trailing_slashes_at(s.drop_last(), n);
        assert(s.drop_last().subrange(0, n) =~= s.subrange(0, n));
    } else {
        assert(s.subrange(0, n) =~= s);
    }
}

/// `s` without the slashes it ends with, as `s.trim_end_matches('/')` gives.
fn without_trailing_slashes(s: &str) -> (r: &str)
    ensures
        r@ == trim_trailing_slashes(s@),
{
    let mut n = s.unicode_len();
    while n > 0 && s.get_char(n - 1) == '/'
        invariant
            n <= s@.len(),
            forall|k: int| n <= k < s@.len() ==> s@[k] == '/',
        decreases n,
    {
        n = n - 1;
    }
    proof {
        lemma_trim_trailing_slashes_at(s@, n as int);
    }
    s.substring_char(0, n)
}

/// `<endpoint>/chat/completions`, with the endpoint's trailing slashes
/// dropped.
pub fn chat_completions_url(endpoint: &str) -> (r: String)
    ensures
        r@ == trim_trailing_slashes(endpoint@) + "/chat/completions"@,
{
    let mut url = crate::text::owned(without_trailing_slashes(endpoint));
    url.append("/chat/completions");
    url
}

/// The URL of the model list: `<endpoint>/models`, where a blank endpoint
/// is [`OpenAiConfig::DEFAULT_ENDPOINT`] and trailing slashes are dropped.
/// Fails when the API key is blank.
pub fn models_url(endpoint: &str, api_key: &str) -> (r: Result<String, Arc<AIApiError>>)
    ensures
        match r {
            Ok(url) => !crate::text::is_blank(api_key@) && url@ == (if crate::text::is_blank(
                endpoint@,
            ) {
                crate::config::default_endpoint()
            } else {
                trim_trailing_slashes(endpoint@)
            }) + "/models"@,
            Err(e) => crate::text::is_blank(api_key@) && e.is_other(
                "AI Provider API key is required"@,
            ),
        },
{
    if crate::text::trim_is_empty(api_key) {
        return Err(Arc::new(AIApiError::other("AI Provider API key is required")));
    }
    let mut url = if crate::text::trim_is_empty(endpoint) {
        crate::text::owned("https://api.openai.com/v1")
    } else {
        crate::text::owned(without_trailing_slashes(endpoint))
    };
    url.append("/models");
    Ok(url)
}

/// The `id` strings of the elements of `data`, in order; elements with no
/// string `id` are skipped.
pub open spec fn model_ids(data: Seq<JsonView>) -> Seq<Seq<char>>
    decreases data.len(),
{
    if data.len() == 0 {
        Seq::empty()
    } else {
        model_ids(data.drop_last()) + match data.last().get_str("id"@) {
            Some(id) => seq![id],
            None => Seq::empty(),
        }
    }
}

/// The model ids listed by a `/models` reply (`{"data": [{"id": ..}, ..]}`);
/// fails when it lists none.
pub fn models_from_body(body: &Json) -> (r: Result<Vec<String>, Arc<AIApiError>>)
    ensures
        match r {
            Ok(ids) => crate::text::string_views(ids@) == model_ids(
                body@.get_array("data"@).unwrap_or(Seq::empty()),
            ) && ids@.len() > 0,
            Err(e) => model_ids(body@.get_array("data"@).unwrap_or(Seq::empty())).len() == 0
                && e.is_other("fetch_models: endpoint returned no models"@),
        },
{
    let mut ids: Vec<String> = Vec::new();
    let ghost data = body@.get_array("data"@).unwrap_or(Seq::empty());
    match json::get_array(body, "data") {
        Some(arr) => {
            proof {
                json::lemma_view_items_len(arr@);
            }
            let mut i: usize = 0;
            while i < arr.len()
                invariant
                    i <= arr.len(),
                    data == json::view_items(arr@),
                    data.len() == arr.len(),
                    forall|k: int| 0 <= k < arr.len() ==> #[trigger] data[k] == arr@[k]@,
                    crate::text::string_views(ids@) == model_ids(data.take(i as int)),
                decreases arr.len() - i,
            {
                let ghost before = ids@;
                match get_str(&arr[i], "id") {
                    Some(id) => {
                        ids.push(crate::text::owned(id));
                    },
                    None => {},
                }
                proof {
                    assert(data.take(i + 1).drop_last() =~= data.take(i as int));
                    assert(data.take(i + 1).last() == arr@[i as int]@);
                    assert(crate::text::string_views(ids@) =~= model_ids(data.take(i + 1)));
                }
                i = i + 1;
            }
            assert(data.take(arr.len() as int) =~= data);
        },
        None => {
            assert(crate::text::string_views(ids@) =~= model_ids(data));
        },
    }
    if ids.len() == 0 {
        return Err(Arc::new(AIApiError::other("fetch_models: endpoint returned no models")));
    }
    Ok(ids)
}


pub open spec fn is_lower_hex_digit(c: char) -> bool {
    ('0' <= c && c <= '9') || ('a' <= c && c <= 'f')
}

/// `s` is a version-4 UUID written hyphenated in lower case.
pub open spec fn is_v4_uuid_text(s: Seq<char>) -> bool {
    &&& s.len() == 36
    &&& forall|i: int|
        #![trigger s[i]]
        0 <= i < 36 ==> if i == 8 || i == 13 || i == 18 || i == 23 {
            s[i] == '-'
        } else {
            is_lower_hex_digit(s[i])
        }
    &&& s[14] == '4'
    &&& (s[19] == '8' || s[19] == '9' || s[19] == 'a' || s[19] == 'b')
}

/// `uuid::Uuid::new_v4().to_string()`: a random version-4 UUID, written
/// hyphenated in lower case. Which UUID comes back is left open.
#[verifier::external_body]
fn new_uuid() -> (r: String)
    ensures
        is_v4_uuid_text(r@),
{
    uuid::Uuid::new_v4().to_string()
}

/// The ids of one streamed reply. The backend of the protocol issues none,
/// so they are made here, or taken from the request when it continues a
/// conversation.
pub struct StreamIds {
    pub conversation_id: String,
    pub request_id: String,
    pub run_id: String,
    pub task_id: String,
    pub message_id: String,
}

/// The conversation id a request carries, if it is not empty.
pub open spec fn carried_conversation_id(request: Request) -> Option<Seq<char>> {
    match request.metadata {
        Some(m) => if m.conversation_id@.len() > 0 {
            Some(m.conversation_id@)
        } else {
            None
        },
        None => None,
    }
}

/// The id of the request's last task, if there is one and it is not empty.
pub open spec fn carried_task_id(request: Request) -> Option<Seq<char>> {
    match request.task_context {
        Some(tc) => if tc.tasks@.len() > 0 && tc.tasks@.last().id@.len() > 0 {
            Some(tc.tasks@.last().id@)
        } else {
            None
        },
        None => None,
    }
}

/// The request continues a conversation: it names one, or carries tasks.
pub open spec fn continues(request: Request) -> bool {
    ||| request.metadata matches Some(m) && m.conversation_id@.len() > 0
    ||| request.task_context matches Some(tc) && tc.tasks@.len() > 0
}

impl StreamIds {
    /// Every id is a fresh version-4 UUID.
    pub open spec fn all_fresh(&self) -> bool {
        &&& is_v4_uuid_text(self.conversation_id@)
        &&& is_v4_uuid_text(self.request_id@)
        &&& is_v4_uuid_text(self.run_id@)
        &&& is_v4_uuid_text(self.task_id@)
        &&& is_v4_uuid_text(self.message_id@)
    }

    /// Fresh ids throughout.
    pub fn new() -> (r: Self)
        ensures
            r.all_fresh(),
    {
        StreamIds {
            conversation_id: new_uuid(),
            request_id: new_uuid(),
            run_id: new_uuid(),
            task_id: new_uuid(),
            message_id: new_uuid(),
        }
    }

    /// The ids for `request`: its conversation id and its last task's id
    /// where it carries them, the `fresh` ones otherwise.
    pub fn for_request_with(request: &Request, fresh: StreamIds) -> (r: Self)
        ensures
            r.conversation_id@ == carried_conversation_id(*request).unwrap_or(
                fresh.conversation_id@,
            ),
            r.task_id@ == carried_task_id(*request).unwrap_or(fresh.task_id@),
            r.request_id == fresh.request_id,
            r.run_id == fresh.run_id,
            r.message_id == fresh.message_id,
    {
        let mut ids = fresh;
        match &request.metadata {
            Some(m) => if !m.conversation_id.as_str().is_empty() {
                ids.conversation_id = m.conversation_id.clone();
            },
            None => {},
        }
        match &request.task_context {
            Some(tc) => if tc.tasks.len() > 0 {
                let last = &tc.tasks[tc.tasks.len() - 1];
                if !last.id.as_str().is_empty() {
                    ids.task_id = last.id.clone();
                }
            },
            None => {},
        }
        ids
    }

    /// The ids for `request`, with fresh UUIDs where it carries none.
    pub fn for_request(request: &Request) -> (r: Self)
        ensures
            match carried_conversation_id(*request) {
                Some(c) => r.conversation_id@ == c,
                None => is_v4_uuid_text(r.conversation_id@),
            },
            match carried_task_id(*request) {
                Some(t) => r.task_id@ == t,
                None => is_v4_uuid_text(r.task_id@),
            },
            is_v4_uuid_text(r.request_id@),
            is_v4_uuid_text(r.run_id@),
            is_v4_uuid_text(r.message_id@),
    {
        Self::for_request_with(request, Self::new())
    }

    /// The request continues a conversation, so its task exists already.
    pub fn is_continuation(request: &Request) -> (r: bool)
        ensures
            r == continues(*request),
    {
        let named = match &request.metadata {
            Some(m) => !m.conversation_id.as_str().is_empty(),
            None => false,
        };
        let has_tasks = match &request.task_context {
            Some(tc) => tc.tasks.len() > 0,
            None => false,
        };
        named || has_tasks
    }
}

/// The event that opens a reply, carrying its ids.
pub fn build_stream_init(ids: &StreamIds) -> (r: ResponseEvent)
    ensures
        r matches ResponseEvent::Init(i) && i.conversation_id@ == ids.conversation_id@
            && i.request_id@ == ids.request_id@ && i.run_id@ == ids.run_id@,
{
    ResponseEvent::Init(
        StreamInit {
            conversation_id: ids.conversation_id.clone(),
            request_id: ids.request_id.clone(),
            run_id: ids.run_id.clone(),
        },
    )
}

/// An event carrying the given actions.
pub fn build_client_actions(actions: Vec<ClientAction>) -> (r: ResponseEvent)
    ensures
        r == ResponseEvent::ClientActions(actions),
{
    ResponseEvent::ClientActions(actions)
}

pub fn action_begin_transaction() -> (r: ClientAction)
    ensures
        r is BeginTransaction,
{
    ClientAction::BeginTransaction
}

pub fn action_commit_transaction() -> (r: ClientAction)
    ensures
        r is CommitTransaction,
{
    ClientAction::CommitTransaction
}

/// Creates a task that has only its id.
pub fn action_create_task(task_id: &str) -> (r: ClientAction)
    ensures
        r matches ClientAction::CreateTask { task } && task.id@ == task_id@
            && task.messages@.len() == 0,
{
    ClientAction::CreateTask { task: Task { id: crate::text::owned(task_id), messages: Vec::new() } }
}

/// Adds messages to a task.
pub fn action_add_messages(task_id: &str, messages: Vec<Message>) -> (r: ClientAction)
    ensures
        r matches ClientAction::AddMessagesToTask { task_id: t, messages: ms } && t@ == task_id@
            && ms == messages,
{
    ClientAction::AddMessagesToTask { task_id: crate::text::owned(task_id), messages }
}

/// `action` appends `delta` to the text of the agent output `message_id`
/// of task `task_id` (the mask `agent_output.text` says to append in place).
pub open spec fn is_append_text(action: ClientAction, task_id: Seq<char>, message_id: Seq<char>, delta: Seq<char>) -> bool {
    &&& action matches ClientAction::AppendToMessageContent { task_id: t, message, mask }
    &&& t@ == task_id
    &&& message.id@ == message_id
    &&& message.task_id@ == task_id
    &&& message.message matches Some(MessageKind::AgentOutput(out))
    &&& out.text@ == delta
    &&& mask@.len() == 1
    &&& mask@[0]@ == "agent_output.text"@
}

/// Appends `delta` to the agent output's text.
pub fn action_append_text(task_id: &str, message_id: &str, delta: &str) -> (r: ClientAction)
    ensures
        is_append_text(r, task_id@, message_id@, delta@),
{
    let message = Message {
        id: crate::text::owned(message_id),
        task_id: crate::text::owned(task_id),
        message: Some(MessageKind::AgentOutput(AgentOutput { text: crate::text::owned(delta) })),
    };
    let mut mask: Vec<String> = Vec::new();
    mask.push(crate::text::owned("agent_output.text"));
    ClientAction::AppendToMessageContent { task_id: crate::text::owned(task_id), message, mask }
}

/// The event that ends a reply normally.
pub fn build_stream_finished_done() -> (r: ResponseEvent)
    ensures
        r is FinishedDone,
{
    ResponseEvent::FinishedDone
}

/// The first query among the inputs.
pub open spec fn first_query(uis: Seq<UserInput>) -> Option<Seq<char>>
    decreases uis.len(),
{
    if uis.len() == 0 {
        None
    } else {
        match uis[0].input {
            Some(UserInputKind::UserQuery(uq)) => Some(uq.query@),
            _ => first_query(uis.drop_first()),
        }
    }
}

/// The query of the current turn; `None` for a turn of tool results only.
pub open spec fn current_query(request: Request) -> Option<Seq<char>> {
    match request.input {
        Some(i) => match i.kind {
            Some(InputKind::UserInputs(uis)) => first_query(uis@),
            _ => None,
        },
        None => None,
    }
}

proof fn lemma_first_query_after(uis: Seq<UserInput>, i: int)
    requires
        0 <= i <= uis.len(),
        forall|j: int| 0 <= j < i ==> !((#[trigger] uis[j]).input matches Some(UserInputKind::UserQuery(_))),
    ensures
        first_query(uis) == first_query(uis.skip(i)),
    decreases i,
{
    if i > 0 {
        assert forall|j: int| 0 <= j < i - 1 implies !((#[trigger] uis.drop_first()[j]).input matches Some(UserInputKind::UserQuery(_))) by {
            assert(uis.drop_first()[j] == uis[j + 1]);
        }
        lemma_first_query_after(uis.drop_first(), i - 1);
        assert(uis.drop_first().skip(i - 1) =~= uis.skip(i));
    } else {
        assert(uis.skip(0) =~= uis);
    }
}

/// The query of the request's current input, if it has one.
pub fn current_user_query_text(request: &Request) -> (r: Option<String>)
    ensures
        match r {
            Some(q) => current_query(*request) == Some(q@),
            None => current_query(*request) is None,
        },
{
    let input = match &request.input {
        Some(i) => i,
        None => {
            return None;
        },
    };
    match &input.kind {
        Some(InputKind::UserInputs(uis)) => {
            let mut i: usize = 0;
            while i < uis.len()
                invariant
                    i <= uis.len(),
                    current_query(*request) == first_query(uis@),
                    forall|j: int| 0 <= j < i ==> !((#[trigger] uis@[j]).input matches Some(UserInputKind::UserQuery(_))),
                decreases uis.len() - i,
            {
                match &uis[i].input {
                    Some(UserInputKind::UserQuery(uq)) => {
                        proof {
                            lemma_first_query_after(uis@, i as int);
                            assert(uis@.skip(i as int)[0] == uis@[i as int]);
                            assert(first_query(uis@.skip(i as int)) == Some(uq.query@));
                        }
                        return Some(uq.query.clone());
                    },
                    _ => {},
                }
                i = i + 1;
            }
            proof {
                lemma_first_query_after(uis@, uis.len() as int);
            }
            None
        },
        _ => None,
    }
}

/// The arguments of an assembled call, read as JSON; an empty object when
/// they are not JSON.
pub open spec fn parsed_arguments(text: Seq<char>) -> JsonView {
    match serde_bridge::json_parse(text) {
        Ok(v) => v,
        Err(_) => JsonView::Object(Seq::empty()),
    }
}

/// The tool named `name` decodes `arguments` into `tool`: `None` when no
/// tool has that name or decoding fails.
pub open spec fn decoded_tool(name: Seq<char>, arguments: Seq<char>, tool: Option<Tool>) -> bool {
    match registry::first_match(registry::all_tools(), |d: ToolDefinition| d.tool_name() == name) {
        Some(d) => exists|args: Json, res: Result<Tool, Arc<AIApiError>>|
            #![trigger d.decodes(args, res)]
            args@ == parsed_arguments(arguments) && d.decodes(args, res) && match res {
                Ok(t) => tool == Some(t),
                Err(_) => tool is None,
            },
        None => tool is None,
    }
}

/// `m` is message `message_id` of task `task_id`, calling the tool an
/// assembled call names, with the call's id.
pub open spec fn is_tool_call_message(m: Message, task_id: Seq<char>, call: CallText, message_id: Seq<char>) -> bool {
    &&& m.id@ == message_id
    &&& m.task_id@ == task_id
    &&& m.message matches Some(MessageKind::ToolCall(tc))
    &&& tc.tool_call_id@ == call.0
    &&& decoded_tool(call.1, call.2, tc.tool)
}

/// `m` records the assembled `call` in task `task_id`, as a message with a
/// fresh id.
pub open spec fn records_call_message(m: Message, task_id: Seq<char>, call: CallText) -> bool {
    exists|mid: Seq<char>| is_v4_uuid_text(mid) && is_tool_call_message(m, task_id, call, mid)
}

/// `action` adds to task `task_id` one message, `message_id`, that calls
/// the tool an assembled call names, with the call's id.
pub open spec fn is_tool_call_action(action: ClientAction, task_id: Seq<char>, call: CallText, message_id: Seq<char>) -> bool {
    &&& action matches ClientAction::AddMessagesToTask { task_id: t, messages }
    &&& t@ == task_id
    &&& messages@.len() == 1
    &&& is_tool_call_message(messages@[0], task_id, call, message_id)
}

/// The message, `message_id` of task `task_id`, that records an assembled
/// tool call: the tool is decoded from the call's name and arguments when
/// the name is known and the arguments decode (unparsable arguments are
/// read as `{}`).
pub fn build_tool_call_message_with(task_id: &str, call: &AccumulatedToolCall, message_id: String) -> (r: Message)
    ensures
        is_tool_call_message(r, task_id@, call@, message_id@),
{
    let registry = ToolRegistry::default();
    let tool = match registry.by_name(call.name.as_str()) {
        Some(d) => {
            let args = match serde_bridge::parse_json(call.arguments.as_str()) {
                Ok(v) => v,
                Err(_) => {
                    let empty = Json::Object(Vec::new());
                    assert(json::view_entries(Seq::<(String, Json)>::empty()) =~= Seq::<(Seq<char>, JsonView)>::empty());
                    empty
                },
            };
            let ghost a = args;
            let res = d.decode_call_args(args);
            let ghost rv = res;
            let tool = match res {
                Ok(t) => Some(t),
                Err(_) => None,
            };
            assert(d.decodes(a, rv));
            tool
        },
        None => None,
    };
    Message {
        id: message_id,
        task_id: crate::text::owned(task_id),
        message: Some(MessageKind::ToolCall(ToolCall { tool_call_id: call.id.clone(), tool })),
    }
}

/// The message that records an assembled tool call in the task, with a
/// fresh id.
pub fn build_tool_call_message(task_id: &str, call: &AccumulatedToolCall) -> (r: Message)
    ensures
        records_call_message(r, task_id@, call@),
{
    let id = new_uuid();
    let ghost mid = id@;
    let r = build_tool_call_message_with(task_id, call, id);
    assert(is_v4_uuid_text(mid) && is_tool_call_message(r, task_id@, call@, mid));
    r
}

/// The action that records an assembled tool call in the task, as message
/// `message_id`.
pub fn build_tool_call_action_with(task_id: &str, call: &AccumulatedToolCall, message_id: String) -> (r: ClientAction)
    ensures
        is_tool_call_action(r, task_id@, call@, message_id@),
{
    let message = build_tool_call_message_with(task_id, call, message_id);
    let mut messages: Vec<Message> = Vec::new();
    messages.push(message);
    ClientAction::AddMessagesToTask { task_id: crate::text::owned(task_id), messages }
}

/// The action that records an assembled tool call in the task, as a
/// message with a fresh id.
pub fn build_tool_call_action(task_id: &str, call: &AccumulatedToolCall) -> (r: ClientAction)
    ensures
        records_call(r, task_id@, call@),
{
    let id = new_uuid();
    let ghost mid = id@;
    let r = build_tool_call_action_with(task_id, call, id);
    assert(is_v4_uuid_text(mid) && is_tool_call_action(r, task_id@, call@, mid));
    r
}

/// The text delta of a streamed chunk: its `/choices/0/delta/content`
/// string, if any. Fails when the chunk is not JSON.
pub fn parse_delta(chunk: &str) -> (r: Result<Option<String>, Arc<AIApiError>>)
    ensures
        match serde_bridge::json_parse(chunk@) {
            Ok(v) => r matches Ok(d) && match d {
                Some(s) => json::str_opt(delta_member(v, "content"@)) == Some(s@),
                None => json::str_opt(delta_member(v, "content"@)) is None,
            },
            Err(m) => r matches Err(e) && e.is_other(
                "OpenAI adapter: failed to parse SSE chunk JSON: "@ + m,
            ),
        },
{
    let v = match serde_bridge::parse_json(chunk) {
        Ok(v) => v,
        Err(m) => {
            let mut msg = crate::text::owned("OpenAI adapter: failed to parse SSE chunk JSON: ");
            msg.append(m.as_str());
            return Err(Arc::new(AIApiError::Other(msg)));
        },
    };
    match delta_member_of(&v, "content") {
        Some(c) => match c.as_str() {
            Some(s) => Ok(Some(crate::text::owned(s))),
            None => Ok(None),
        },
        None => Ok(None),
    }
}


/// `m` is the placeholder agent output, with no text yet, that the
/// reply's text is appended to.
pub open spec fn is_placeholder_message(m: Message, ids: StreamIds) -> bool {
    &&& m.id@ == ids.message_id@
    &&& m.task_id@ == ids.task_id@
    &&& m.message matches Some(MessageKind::AgentOutput(out))
    &&& out.text@.len() == 0
}

/// `m` records the turn's query `text` as message `id` of `task_id`.
pub open spec fn is_query_message(m: Message, id: Seq<char>, task_id: Seq<char>, text: Seq<char>) -> bool {
    &&& m.id@ == id
    &&& m.task_id@ == task_id
    &&& m.message matches Some(MessageKind::UserQuery(uq))
    &&& uq.query@ == text
}

/// The events that open a reply: the stream's ids, then one transaction
/// that starts, creates the task unless the request continues one, and
/// adds the turn's query (as message `query_id`, when there is one) and
/// the placeholder for the reply's text.
pub open spec fn is_opening(events: Seq<ResponseEvent>, request: Request, ids: StreamIds, query_id: Seq<char>) -> bool {
    &&& events.len() == 2
    &&& events[0] matches ResponseEvent::Init(i)
    &&& i.conversation_id@ == ids.conversation_id@
    &&& i.request_id@ == ids.request_id@
    &&& i.run_id@ == ids.run_id@
    &&& events[1] matches ResponseEvent::ClientActions(actions)
    &&& actions@.len() == (if continues(request) { 2int } else { 3int })
    &&& actions@[0] is BeginTransaction
    &&& !continues(request) ==> (actions@[1] matches ClientAction::CreateTask { task }
        && task.id@ == ids.task_id@ && task.messages@.len() == 0)
    &&& actions@.last() matches ClientAction::AddMessagesToTask { task_id, messages }
    &&& task_id@ == ids.task_id@
    &&& match current_query(request) {
        Some(q) => messages@.len() == 2 && is_query_message(messages@[0], query_id, ids.task_id@, q)
            && is_placeholder_message(messages@[1], ids),
        None => messages@.len() == 1 && is_placeholder_message(messages@[0], ids),
    }
}

/// The opening events of a reply to `request`, recording its query (if
/// any) as message `query_id`.
pub fn opening_events_with(request: &Request, ids: &StreamIds, query_id: String) -> (r: Vec<ResponseEvent>)
    ensures
        is_opening(r@, *request, *ids, query_id@),
{
    let mut messages: Vec<Message> = Vec::new();
    match current_user_query_text(request) {
        Some(q) => {
            messages.push(
                Message {
                    id: query_id,
                    task_id: ids.task_id.clone(),
                    message: Some(MessageKind::UserQuery(UserQuery { query: q })),
                },
            );
        },
        None => {},
    }
    messages.push(
        Message {
            id: ids.message_id.clone(),
            task_id: ids.task_id.clone(),
            message: Some(MessageKind::AgentOutput(AgentOutput { text: String::new() })),
        },
    );
    let mut actions: Vec<ClientAction> = Vec::new();
    actions.push(action_begin_transaction());
    if !StreamIds::is_continuation(request) {
        actions.push(action_create_task(ids.task_id.as_str()));
    }
    actions.push(action_add_messages(ids.task_id.as_str(), messages));
    let mut events: Vec<ResponseEvent> = Vec::new();
    events.push(build_stream_init(ids));
    events.push(build_client_actions(actions));
    events
}

/// The opening events of a reply to `request`; its query, if any, gets a
/// fresh message id.
pub fn opening_events(request: &Request, ids: &StreamIds) -> (r: Vec<ResponseEvent>)
    ensures
        exists|qid: Seq<char>| is_v4_uuid_text(qid) && is_opening(r@, *request, *ids, qid),
{
    let qid = new_uuid();
    let ghost q = qid@;
    let r = opening_events_with(request, ids, qid);
    assert(is_v4_uuid_text(q) && is_opening(r@, *request, *ids, q));
    r
}

/// The events that close a reply: the transaction is committed, and the
/// stream is done.
pub fn closing_events() -> (r: Vec<ResponseEvent>)
    ensures
        r@.len() == 2,
        r@[0] matches ResponseEvent::ClientActions(actions) && actions@.len() == 1
            && actions@[0] is CommitTransaction,
        r@[1] is FinishedDone,
{
    let mut actions: Vec<ClientAction> = Vec::new();
    actions.push(action_commit_transaction());
    let mut events: Vec<ResponseEvent> = Vec::new();
    events.push(build_client_actions(actions));
    events.push(build_stream_finished_done());
    events
}

/// `action` records the assembled `call` in the task, as a message with a
/// fresh id.
pub open spec fn records_call(action: ClientAction, task_id: Seq<char>, call: CallText) -> bool {
    exists|mid: Seq<char>| is_v4_uuid_text(mid) && is_tool_call_action(action, task_id, call, mid)
}

/// `actions` record the assembled `calls` in the task: one action adding
/// to the task one message per call, in increasing index order.
pub open spec fn records_calls(actions: Seq<ClientAction>, task_id: Seq<char>, calls: Map<u32, CallText>) -> bool {
    &&& actions.len() == 1
    &&& actions[0] matches ClientAction::AddMessagesToTask { task_id: t, messages }
    &&& t@ == task_id
    &&& exists|ks: Seq<u32>|
        is_index_order(ks, calls) && messages@.len() == ks.len() && forall|i: int|
            0 <= i < ks.len() ==> records_call_message(#[trigger] messages@[i], task_id, calls[ks[i]])
}

/// What one message of the reply stream produces, and the calls left
/// pending after it, for a reply whose text goes to `message_id` of
/// `task_id`:
/// - `[DONE]` ends the data and produces nothing;
/// - text that is not JSON produces the parse error;
/// - a chunk with a text delta produces the action that appends it;
/// - any other chunk adds its tool-call fragments; when it says the calls
///   are complete, the assembled calls (if any) are recorded in the task
///   by one action holding their messages in index order, and none are
///   left pending.
pub open spec fn message_outcome(
    pending: Map<u32, CallText>,
    data: Seq<char>,
    task_id: Seq<char>,
    message_id: Seq<char>,
    r: Option<Result<ResponseEvent, Arc<AIApiError>>>,
    after: Map<u32, CallText>,
) -> bool {
    if data == "[DONE]"@ {
        &&& r is None
        &&& after == pending
    } else {
        match serde_bridge::json_parse(data) {
            Err(m) => {
                &&& after == pending
                &&& r matches Some(Err(e))
                &&& e.is_other("OpenAI adapter: failed to parse SSE chunk JSON: "@ + m)
            },
            Ok(v) => match json::str_opt(delta_member(v, "content"@)) {
                Some(delta) => {
                    &&& after == pending
                    &&& r matches Some(Ok(ResponseEvent::ClientActions(actions)))
                    &&& actions@.len() == 1
                    &&& is_append_text(actions@[0], task_id, message_id, delta)
                },
                None => {
                    let s = ingest(pending, v);
                    if finish_reason(v) == Some("tool_calls"@) {
                        &&& after == Map::<u32, CallText>::empty()
                        &&& if s != Map::<u32, CallText>::empty() {
                            &&& r matches Some(Ok(ResponseEvent::ClientActions(actions)))
                            &&& records_calls(actions@, task_id, s)
                        } else {
                            r is None
                        }
                    } else {
                        &&& r is None
                        &&& after == s
                    }
                },
            },
        }
    }
}

/// A reply being streamed: where its text goes, and the tool calls being
/// assembled from it.
pub struct ReplyStream {
    task_id: String,
    message_id: String,
    calls: ToolCallAccumulator,
}

impl ReplyStream {
    /// The tool calls being assembled, by stream index.
    pub closed spec fn pending(&self) -> Map<u32, CallText> {
        self.calls@
    }

    /// The task the reply belongs to.
    pub closed spec fn task(&self) -> Seq<char> {
        self.task_id@
    }

    /// The agent output the reply's text is appended to.
    pub closed spec fn output_message(&self) -> Seq<char> {
        self.message_id@
    }

    /// A reply for the stream's task and message, with no call pending.
    pub fn new(ids: &StreamIds) -> (r: Self)
        ensures
            r.task() == ids.task_id@,
            r.output_message() == ids.message_id@,
            r.pending() == Map::<u32, CallText>::empty(),
    {
        ReplyStream {
            task_id: ids.task_id.clone(),
            message_id: ids.message_id.clone(),
            calls: ToolCallAccumulator::new(),
        }
    }

    /// Takes in the data of one message of the reply stream; see
    /// [`message_outcome`].
    pub fn on_message(&mut self, data: &str) -> (r: Option<Result<ResponseEvent, Arc<AIApiError>>>)
        ensures
            final(self).task() == old(self).task(),
            final(self).output_message() == old(self).output_message(),
            message_outcome(
                old(self).pending(),
                data@,
                old(self).task(),
                old(self).output_message(),
                r,
                final(self).pending(),
            ),
    {
        if str_eq(data, "[DONE]") {
            return None;
        }
        match parse_delta(data) {
            Ok(Some(delta)) => {
                let action = action_append_text(
                    self.task_id.as_str(),
                    self.message_id.as_str(),
                    delta.as_str(),
                );
                let mut actions: Vec<ClientAction> = Vec::new();
                actions.push(action);
                Some(Ok(build_client_actions(actions)))
            },
            Ok(None) => {
                let chunk = match serde_bridge::parse_json(data) {
                    Ok(c) => c,
                    Err(_) => {
                        return None;
                    },
                };
                self.calls.ingest_chunk(&chunk);
                let is_done = match finish_reason_of(&chunk) {
                    Some(f) => str_eq(f, "tool_calls"),
                    None => false,
                };
                if is_done {
                    let ghost s = self.calls@;
                    let calls = self.calls.drain_completed();
                    let ghost cv = calls@.map_values(|c: AccumulatedToolCall| c@);
                    let ghost ks = choose|ks: Seq<u32>|
                        is_index_order(ks, s) && ks.len() == cv.len() && forall|i: int|
                            0 <= i < ks.len() ==> #[trigger] cv[i] == s[ks[i]];
                    proof {
                        if s != Map::<u32, CallText>::empty() {
                            let k = choose|k: u32| s.contains_key(k);
                            if !s.contains_key(k) {
                                assert(s =~= Map::<u32, CallText>::empty());
                            }
                            assert(ks.contains(k));
                        }
                        if ks.len() > 0 {
                            assert(ks.contains(ks[0]));
                            assert(s.contains_key(ks[0]));
                        }
                    }
                    if calls.len() > 0 {
                        let ghost tid = self.task_id@;
                        let mut messages: Vec<Message> = Vec::new();
                        let mut i: usize = 0;
                        while i < calls.len()
                            invariant
                                i <= calls.len(),
                                messages@.len() == i,
                                ks.len() == calls@.len(),
                                cv == calls@.map_values(|c: AccumulatedToolCall| c@),
                                tid == self.task_id@,
                                forall|j: int| 0 <= j < ks.len() ==> #[trigger] cv[j] == s[ks[j]],
                                forall|j: int| 0 <= j < i ==> records_call_message(#[trigger] messages@[j], tid, s[ks[j]]),
                            decreases calls.len() - i,
                        {
                            assert(cv[i as int] == calls@[i as int]@);
                            let m = build_tool_call_message(self.task_id.as_str(), &calls[i]);
                            messages.push(m);
                            i = i + 1;
                        }
                        let ghost ms = messages@;
                        let add = action_add_messages(self.task_id.as_str(), messages);
                        let mut actions: Vec<ClientAction> = Vec::new();
                        actions.push(add);
                        assert(records_calls(actions@, tid, s)) by {
                            assert(actions@[0] == add);
                        }
                        return Some(Ok(build_client_actions(actions)));
                    }
                }
                None
            },
            Err(e) => Some(Err(e)),
        }
    }
}

/// `data` are the messages of a reply stream, taken in one after the other
/// with `pending` calls before the first: `outs` are what each produced, in
/// order, and `after` the calls left pending after the last.
pub open spec fn run_messages(
    pending: Map<u32, CallText>,
    data: Seq<Seq<char>>,
    task_id: Seq<char>,
    message_id: Seq<char>,
    outs: Seq<Option<Result<ResponseEvent, Arc<AIApiError>>>>,
    after: Map<u32, CallText>,
) -> bool
    decreases data.len(),
{
    if data.len() == 0 {
        outs.len() == 0 && after == pending
    } else {
        &&& outs.len() == data.len()
        &&& exists|between: Map<u32, CallText>|
            run_messages(pending, data.drop_last(), task_id, message_id, outs.drop_last(), between)
                && message_outcome(between, data.last(), task_id, message_id, outs.last(), after)
    }
}

/// The events that the messages put on the stream: what each produced, in
/// order, skipping those that produced nothing.
pub open spec fn emitted(outs: Seq<Option<Result<ResponseEvent, Arc<AIApiError>>>>) -> Seq<
    Result<ResponseEvent, Arc<AIApiError>>,
>
    decreases outs.len(),
{
    if outs.len() == 0 {
        Seq::empty()
    } else {
        match outs.last() {
            Some(e) => emitted(outs.drop_last()).push(e),
            None => emitted(outs.drop_last()),
        }
    }
}

/// The whole reply stream: the opening events, what the messages emitted,
/// then the closing events.
pub open spec fn reply_stream(
    opening: Seq<ResponseEvent>,
    outs: Seq<Option<Result<ResponseEvent, Arc<AIApiError>>>>,
    closing: Seq<ResponseEvent>,
) -> Seq<Result<ResponseEvent, Arc<AIApiError>>> {
    opening.map_values(|e: ResponseEvent| Ok::<ResponseEvent, Arc<AIApiError>>(e)) + emitted(outs)
        + closing.map_values(|e: ResponseEvent| Ok::<ResponseEvent, Arc<AIApiError>>(e))
}

/// Taking in one more message extends a run: each [`ReplyStream::on_message`]
/// call continues the run of the calls before it.
pub proof fn lemma_run_messages_step(
    pending: Map<u32, CallText>,
    data: Seq<Seq<char>>,
    task_id: Seq<char>,
    message_id: Seq<char>,
    outs: Seq<Option<Result<ResponseEvent, Arc<AIApiError>>>>,
    between: Map<u32, CallText>,
    next: Seq<char>,
    out: Option<Result<ResponseEvent, Arc<AIApiError>>>,
    after: Map<u32, CallText>,
)
    requires
        run_messages(pending, data, task_id, message_id, outs, between),
        message_outcome(between, next, task_id, message_id, out, after),
    ensures
        run_messages(pending, data.push(next), task_id, message_id, outs.push(out), after),
{
    let d = data.push(next);
    let o = outs.push(out);
    assert(d.drop_last() =~= data);
    assert(o.drop_last() =~= outs);
    assert(outs.len() == data.len());
    assert(d.last() == next);
    assert(o.last() == out);
    assert(run_messages(pending, d.drop_last(), task_id, message_id, o.drop_last(), between));
    assert(message_outcome(between, d.last(), task_id, message_id, o.last(), after));
}

/// `data[i]` is a chunk whose `/choices/0/delta/content` is the text
/// `deltas[i]`.
pub open spec fn text_chunks(data: Seq<Seq<char>>, deltas: Seq<Seq<char>>) -> bool {
    &&& data.len() == deltas.len()
    &&& forall|i: int| 0 <= i < data.len() ==> {
        &&& #[trigger] data[i] != "[DONE]"@
        &&& serde_bridge::json_parse(data[i]) matches Ok(v)
        &&& json::str_opt(delta_member(v, "content"@)) == Some(deltas[i])
    }
}

/// A reply whose messages all carry text: each message emits exactly the
/// action that appends its text to the reply's message, in order, and no
/// call is left pending beyond those before.
pub proof fn lemma_text_reply_emits_appends(
    pending: Map<u32, CallText>,
    data: Seq<Seq<char>>,
    deltas: Seq<Seq<char>>,
    task_id: Seq<char>,
    message_id: Seq<char>,
    outs: Seq<Option<Result<ResponseEvent, Arc<AIApiError>>>>,
    after: Map<u32, CallText>,
)
    requires
        run_messages(pending, data, task_id, message_id, outs, after),
        text_chunks(data, deltas),
    ensures
        after == pending,
        emitted(outs).len() == data.len(),
        forall|i: int| 0 <= i < data.len() ==> {
            &&& #[trigger] emitted(outs)[i] matches Ok(ResponseEvent::ClientActions(actions))
            &&& actions@.len() == 1
            &&& is_append_text(actions@[0], task_id, message_id, deltas[i])
        },
    decreases data.len(),
{
    if data.len() > 0 {
        let between = choose|between: Map<u32, CallText>|
            run_messages(pending, data.drop_last(), task_id, message_id, outs.drop_last(), between)
                && message_outcome(between, data.last(), task_id, message_id, outs.last(), after);
        let n = data.len() - 1;
        assert forall|i: int| 0 <= i < data.drop_last().len() implies {
            &&& #[trigger] data.drop_last()[i] != "[DONE]"@
            &&& serde_bridge::json_parse(data.drop_last()[i]) matches Ok(v)
            &&& json::str_opt(delta_member(v, "content"@)) == Some(deltas.drop_last()[i])
        } by {
            assert(data.drop_last()[i] == data[i]);
            assert(deltas.drop_last()[i] == deltas[i]);
        }
        lemma_text_reply_emits_appends(
            pending,
            data.drop_last(),
            deltas.drop_last(),
            task_id,
            message_id,
            outs.drop_last(),
            between,
        );
        assert(data.last() == data[n]);
        assert(data[n] != "[DONE]"@);
        assert(deltas.last() == deltas[n]);
    }
}

/// The calls left pending after one message of the reply stream, as
/// [`message_outcome`] describes it.
pub open spec fn pending_after(pending: Map<u32, CallText>, data: Seq<char>) -> Map<u32, CallText> {
    if data == "[DONE]"@ {
        pending
    } else {
        match serde_bridge::json_parse(data) {
            Err(_) => pending,
            Ok(v) => match json::str_opt(delta_member(v, "content"@)) {
                Some(_) => pending,
                None => if finish_reason(v) == Some("tool_calls"@) {
                    Map::empty()
                } else {
                    ingest(pending, v)
                },
            },
        }
    }
}

/// Whether one message puts an event on the stream: a parse error, a text
/// delta, or the end of tool calls of which at least one was assembled.
pub open spec fn emits(pending: Map<u32, CallText>, data: Seq<char>) -> bool {
    &&& data != "[DONE]"@
    &&& match serde_bridge::json_parse(data) {
        Err(_) => true,
        Ok(v) => match json::str_opt(delta_member(v, "content"@)) {
            Some(_) => true,
            None => finish_reason(v) == Some("tool_calls"@) && ingest(pending, v) != Map::<
                u32,
                CallText,
            >::empty(),
        },
    }
}

/// `e` is the event one message puts on the stream.
pub open spec fn is_event_of(
    pending: Map<u32, CallText>,
    data: Seq<char>,
    task_id: Seq<char>,
    message_id: Seq<char>,
    e: Result<ResponseEvent, Arc<AIApiError>>,
) -> bool {
    message_outcome(pending, data, task_id, message_id, Some(e), pending_after(pending, data))
}

/// The calls left pending after the messages `data`, one after the other.
pub open spec fn pending_after_all(pending: Map<u32, CallText>, data: Seq<Seq<char>>) -> Map<u32, CallText>
    decreases data.len(),
{
    if data.len() == 0 {
        pending
    } else {
        pending_after(pending_after_all(pending, data.drop_last()), data.last())
    }
}

/// `events` are the events the messages `data` put on the stream, in the
/// order of the messages: one for each message that emits, none for the
/// others (`[DONE]`, chunks with no text that do not end tool calls).
pub open spec fn events_of(
    pending: Map<u32, CallText>,
    data: Seq<Seq<char>>,
    task_id: Seq<char>,
    message_id: Seq<char>,
    events: Seq<Result<ResponseEvent, Arc<AIApiError>>>,
) -> bool
    decreases data.len(),
{
    if data.len() == 0 {
        events.len() == 0
    } else {
        let before = pending_after_all(pending, data.drop_last());
        if emits(before, data.last()) {
            &&& events.len() > 0
            &&& events_of(pending, data.drop_last(), task_id, message_id, events.drop_last())
            &&& is_event_of(before, data.last(), task_id, message_id, events.last())
        } else {
            events_of(pending, data.drop_last(), task_id, message_id, events)
        }
    }
}

/// What one message produces splits into the calls left pending, whether
/// it emits, and the event it emits.
proof fn lemma_message_outcome_parts(
    pending: Map<u32, CallText>,
    data: Seq<char>,
    task_id: Seq<char>,
    message_id: Seq<char>,
    r: Option<Result<ResponseEvent, Arc<AIApiError>>>,
    after: Map<u32, CallText>,
)
    requires
        message_outcome(pending, data, task_id, message_id, r, after),
    ensures
        after == pending_after(pending, data),
        (r is Some) == emits(pending, data),
        r matches Some(e) ==> is_event_of(pending, data, task_id, message_id, e),
{
}

/// Any run of the reply stream's messages leaves the calls that the messages
/// determine pending, and emits exactly the events of the emitting
/// messages, in order.
pub proof fn lemma_run_messages_events(
    pending: Map<u32, CallText>,
    data: Seq<Seq<char>>,
    task_id: Seq<char>,
    message_id: Seq<char>,
    outs: Seq<Option<Result<ResponseEvent, Arc<AIApiError>>>>,
    after: Map<u32, CallText>,
)
    requires
        run_messages(pending, data, task_id, message_id, outs, after),
    ensures
        after == pending_after_all(pending, data),
        events_of(pending, data, task_id, message_id, emitted(outs)),
    decreases data.len(),
{
    if data.len() > 0 {
        let between = choose|between: Map<u32, CallText>|
            run_messages(pending, data.drop_last(), task_id, message_id, outs.drop_last(), between)
                && message_outcome(between, data.last(), task_id, message_id, outs.last(), after);
        lemma_run_messages_events(pending, data.drop_last(), task_id, message_id, outs.drop_last(), between);
        lemma_message_outcome_parts(between, data.last(), task_id, message_id, outs.last(), after);
        let em = emitted(outs);
        if let Some(e) = outs.last() {
            assert(em == emitted(outs.drop_last()).push(e));
            assert(em.drop_last() =~= emitted(outs.drop_last()));
            assert(em.last() == e);
        }
    }
}

/// The whole stream of a reply: its opening events (the stream's ids, then
/// the transaction that starts, creates the task unless it continues one,
/// and adds the query and the placeholder for the text), then the events
/// its messages emit, in order (text appended, tool calls recorded, parse
/// errors; nothing for `[DONE]` or chunks that carry neither), then the
/// commit of the transaction and the end of the stream.
pub proof fn lemma_reply_stream(
    request: Request,
    ids: StreamIds,
    query_id: Seq<char>,
    opening: Seq<ResponseEvent>,
    data: Seq<Seq<char>>,
    outs: Seq<Option<Result<ResponseEvent, Arc<AIApiError>>>>,
    after: Map<u32, CallText>,
    closing: Seq<ResponseEvent>,
)
    requires
        is_opening(opening, request, ids, query_id),
        run_messages(Map::empty(), data, ids.task_id@, ids.message_id@, outs, after),
        closing.len() == 2,
        closing[0] matches ResponseEvent::ClientActions(actions) && actions@.len() == 1
            && actions@[0] is CommitTransaction,
        closing[1] is FinishedDone,
    ensures
        after == pending_after_all(Map::empty(), data),
        events_of(Map::empty(), data, ids.task_id@, ids.message_id@, emitted(outs)),
        reply_stream(opening, outs, closing).len() == emitted(outs).len() + 4,
        forall|i: int| 0 <= i < 2 ==> #[trigger] reply_stream(opening, outs, closing)[i] == Ok::<
            ResponseEvent,
            Arc<AIApiError>,
        >(opening[i]),
        forall|j: int| 0 <= j < emitted(outs).len() ==> #[trigger] reply_stream(opening, outs, closing)[j
            + 2] == emitted(outs)[j],
        reply_stream(opening, outs, closing)[emitted(outs).len() + 2int] == Ok::<
            ResponseEvent,
            Arc<AIApiError>,
        >(closing[0]),
        reply_stream(opening, outs, closing)[emitted(outs).len() + 3int] == Ok::<
            ResponseEvent,
            Arc<AIApiError>,
        >(closing[1]),
{
    lemma_run_messages_events(Map::empty(), data, ids.task_id@, ids.message_id@, outs, after);
}

} // verus!
