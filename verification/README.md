# ai_provider

The provider side of a terminal's AI assistant when it talks to an
OpenAI-compatible chat-completions endpoint: the conversation is turned
into a request body, the model's streamed reply is turned back into
conversation events, and the tools the model may call are described,
decoded and answered.

The library in `src/` is verified with Verus:

- `json.rs`, `serde_bridge.rs` — a JSON value type with its mathematical
  view, and the two calls into `serde_json` (reading and writing text).
- `text.rs` — string helpers (comparison, decimal rendering, blank tests).
- `config.rs` — endpoint configuration and the runtime configuration slot.
- `proto.rs` and `proto/` — the conversation, tool-call and tool-result
  values the assistant exchanges with the client.
- `tools.rs` and `tools/` — one definition per tool (name, description,
  argument schema, decoding of calls, encoding of calls and results) and
  the registry that finds them, with its laws.
- `openai.rs` — the request body, the assembly of streamed tool calls,
  and the step function that turns each streamed message into events.
- `protocol.rs`, `settings.rs`, `warp_adapter.rs` — backend selection, the
  settings page's decisions, and the adapter for the hosted service.

`app/` holds what is not verified: environment variables, the process-wide
configuration lock, HTTP and server-sent events, and the async provider
trait. `tests/` runs the library on concrete values.
