//! Plugin and tool-server orchestration for the Catalyst editor.
//!
//! The crate keeps the bookkeeping of external tool servers that speak a
//! JSON-RPC capability protocol: their registry, lifecycle state machine,
//! request/response correlation, tool invocation rules and health
//! classification. Process spawning, pipes and clocks live with the caller,
//! which feeds events in and carries out the actions handed back.
pub mod ai_assistant;
pub mod connection;
pub mod error;
pub mod health;
pub mod lifecycle;
pub mod manager;
pub mod mcp_server;
pub mod plugin_api;
pub mod protocol;
pub mod registry;
pub mod sidebar;
pub mod wire;
