# agentic-api (verified core)

The gateway's tool-handling core, written in Verus: request input items,
response and event status values, MCP tool declarations, admission of
request-declared MCP server URLs against a host allowlist, the pool of
connected MCP clients, MCP tool handlers and the tool registry.

- `src/` is the verified library. Every public function states what it
  returns in its contract; the laws of the library are public proof
  functions beside the functions they relate.
- `app/` is the unverified side: the rmcp client and its async connection
  loop, executing MCP calls, serde forms of the library's types, and the
  HTTP server's CORS configuration and WebSocket tracking.
- `tests/` runs the library on concrete values.
