//! The control-plane API: who may call what, and what is answered.

pub mod audit_walk;
pub mod auth;
pub mod bootstrap;
pub mod connect_rpc;
pub mod encode;
pub mod event_walk;
pub mod mcp;
pub mod operations;
pub mod paging;
pub mod plugins;
pub mod queries;
pub mod reply;
pub mod scopes;
pub mod server;
pub mod ui;
pub mod ui_ticket;
pub mod walk;
pub mod wire;
