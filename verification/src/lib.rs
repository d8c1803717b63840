//! Session memory relay for AI coding tools.

pub mod text;
pub mod decimal;
pub mod json;
pub mod clock;
pub mod failure;
pub mod paths;
pub mod config;
pub mod workspace;
pub mod client;
pub mod context;
pub mod scope;
pub mod tool_list;
pub mod mcp;
pub mod memory;
pub mod server;
pub mod ingest_antigravity;
pub mod session_hook;
pub mod commands;
pub mod detect;
pub mod sql;
