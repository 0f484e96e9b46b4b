# grok_search_rs

An MCP server that answers JSON-RPC over standard input and output and
offers web search, page fetching and site mapping tools. The library in
`src/` holds the server's logic with Verus contracts; `app/` holds the
program around it (argument handling, files, the network and the event
loop).

## Layout

- `src/text.rs` — string operations with their meaning over `Seq<char>`.
- `src/json.rs` — the JSON document model the library reads and builds.
- `src/error.rs` — error kinds, their JSON-RPC codes and display text.
- `src/config.rs` — configuration from environment pairs and the config
  file (environment wins), URL normalization, file locations, diagnostics.
- `src/cli.rs` — command selection, HTTP bind address, the setup guide.
- `src/mcp.rs` — request dispatch, tool argument reading, reply shapes and
  the tool list.
- `src/providers/http.rs` — reply status handling and the server-sent-event
  decoder (framing, event parsing, text deltas, the final value).
- `src/providers/tavily.rs` — the key ring with round-robin rotation and
  failover decisions, request bodies, and result normalization.
- `src/sources/` — GitHub, StackExchange and Wikipedia: URL matching,
  request construction, reply assembly and Markdown rendering.
- `app/` — `main`, config file reading, the HTTP client, the Tavily
  provider and the specialist fetchers, which call into the library.

## What the program serves

The program answers `initialize`, `ping`, `tools/list` and the `web_map`
tool (through Tavily). The search service behind `web_search`,
`get_sources`, `web_fetch` and `doctor`, the OAuth commands and the HTTP
transport are not part of this build; those tools and commands answer with
an error saying so.
