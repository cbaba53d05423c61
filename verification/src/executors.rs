//! The per-server registry of gateway-owned tool executors.

use vstd::prelude::*;

use crate::mcp::handler::McpHandler;
use crate::tools::ToolType;

verus! {

/// A tool executor owned by the gateway; its kind decides its slot.
pub trait GatewayExecutor {
    /// The kind of tool this executor runs.
    spec fn executor_type(&self) -> ToolType;

    /// The kind of tool this executor runs.
    fn tool_type(&self) -> (r: ToolType)
        ensures
            r == self.executor_type(),
    ;
}

impl<C> GatewayExecutor for McpHandler<C> {
    open spec fn executor_type(&self) -> ToolType {
        ToolType::Mcp
    }

    fn tool_type(&self) -> (r: ToolType) {
        ToolType::Mcp
    }
}

/// Shared, per-server registry of gateway-owned tool executors: one slot for
/// MCP, one for web search. MCP handlers usually depend on the request's MCP
/// declarations and are built per request unless one is pre-registered.
pub struct GatewayExecutors<E> {
    mcp: Option<E>,
    web_search: Option<E>,
}

impl<E: GatewayExecutor> GatewayExecutors<E> {
    /// The pre-registered MCP executor.
    pub closed spec fn mcp_slot(&self) -> Option<E> {
        self.mcp
    }

    /// The web search executor.
    pub closed spec fn web_search_slot(&self) -> Option<E> {
        self.web_search
    }

    /// No executors at all.
    pub fn new() -> (r: Self)
        ensures
            r.mcp_slot() is None,
            r.web_search_slot() is None,
    {
        GatewayExecutors { mcp: None, web_search: None }
    }

    /// The startup registry: the web search executor made from the
    /// environment, and no pre-registered MCP executor.
    pub fn from_env(web_search: E) -> (r: Self)
        ensures
            r.mcp_slot() is None,
            r.web_search_slot() == Some(web_search),
    {
        GatewayExecutors { mcp: None, web_search: Some(web_search) }
    }

    /// Puts `executor` in the slot of its kind, replacing what was there;
    /// an executor of another kind has no slot and is dropped.
    pub fn insert(&mut self, executor: E)
        ensures
            executor.executor_type() == ToolType::Mcp ==> final(self).mcp_slot() == Some(executor)
                && final(self).web_search_slot() == old(self).web_search_slot(),
            executor.executor_type() == ToolType::WebSearch ==> final(self).web_search_slot() == Some(
                executor,
            ) && final(self).mcp_slot() == old(self).mcp_slot(),
            executor.executor_type() != ToolType::Mcp && executor.executor_type() != ToolType::WebSearch
                ==> final(self).mcp_slot() == old(self).mcp_slot() && final(self).web_search_slot()
                == old(self).web_search_slot(),
    {
        match executor.tool_type() {
            ToolType::Mcp => self.mcp = Some(executor),
            ToolType::WebSearch => self.web_search = Some(executor),
            _ => {},
        }
    }

    /// The web search executor.
    pub fn web_search_handler(&self) -> (r: Option<&E>)
        ensures
            match self.web_search_slot() {
                Some(e) => r matches Some(f) && *f == e,
                None => r is None,
            },
    {
        self.web_search.as_ref()
    }

    /// The pre-registered MCP executor, which takes precedence over a
    /// handler built from the request's MCP declarations.
    pub fn registered_mcp_handler(&self) -> (r: Option<&E>)
        ensures
            match self.mcp_slot() {
                Some(e) => r matches Some(f) && *f == e,
                None => r is None,
            },
    {
        self.mcp.as_ref()
    }
}

} // verus!
