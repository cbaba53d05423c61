//! Verified core of the agentic gateway: wire enums, request item types,
//! MCP tool declarations, server-URL admission and the MCP client pool.

pub mod config;
pub mod event;
pub mod executors;
pub mod input;
pub mod item;
pub mod json;
pub mod mcp;
pub mod normalize;
pub mod output;
pub mod text;
pub mod tools;
