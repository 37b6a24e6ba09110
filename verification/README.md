# agentic_core

The verified core of a gateway that stands between clients of a Responses API and a model
server. It decides which tools the model is shown, who runs each call, and how what the model
answers looks to the client: custom tools, namespaces, MCP servers, web search and tool search
are all plain functions to the model server.

- `src/` is the library. Every function states what it returns over views of its arguments.
  Calls into `serde_json`, `indexmap`, `chrono`, `ring` and `base64` stand behind a few small
  functions in `json.rs`, `in_flight.rs`, `ids.rs` and `agents.rs`.
- `tests/` runs the library on concrete requests, events and responses.
- `app/` is what talks to the network: the HTTP and websocket endpoints, the streams of the
  model server, MCP connections and the search provider.

| Part | Modules |
| --- | --- |
| Data and JSON | `data`, `json`, `text`, `tables`, `items`, `tools`, `payload`, `events`, `error`, `wire*` |
| Declarations | `names`, `codex`, `custom`, `definitions`, `readiness`, `request`, `normalize`, `ownership` |
| Tool search | `search`, `tool_search`, `withholding` |
| Gateway tools | `mcp`, `web_search`, `executors`, `handler`, `registry` |
| Streams | `accumulator`, `in_flight`, `custom_input`, `function_sse`, `upstream`, `pending_calls` |
| Requests and agents | `convert`, `gateway`, `agents`, `ids` |
