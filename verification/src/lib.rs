//! Signal-driven task orchestrator for MCP servers.

pub mod answers;
pub mod error;
pub mod event;
pub mod json;
pub mod laws;
pub mod mcp_client;
pub mod mcp_server;
pub mod nonce;
pub mod orchestrator;
pub mod pid;
pub mod promises;
pub mod reminder;
pub mod rpc;
pub mod signal;
pub mod task;
pub mod text;
pub mod tools;
pub mod views;
