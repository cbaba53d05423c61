//! MCP tools: server admission and client pool, tool handlers, the registry
//! and the `read_mcp_resource` function.

pub mod client;
pub mod codex_mcp_resource;
pub mod handler;
pub mod pool;
pub mod read_resource;
pub mod registry;
