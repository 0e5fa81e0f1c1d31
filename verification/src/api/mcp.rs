//! The MCP surface: sessions, limits, prompts, resources and tools for agents.

pub mod catalogue;
pub mod contents;
pub mod error;
pub mod filters;
pub mod handler;
pub mod messages;
pub mod origin;
pub mod prompts;
pub mod rate_limit;
pub mod read_runs;
pub mod resources;
pub mod server;
pub mod session_store;
pub mod tool_bodies;
pub mod tool_runs;
pub mod tools;
