//! What the operations are for, stated on what goes in and what comes out.
//!
//! A contract says what one function returns, often through a function of the mathematical model.
//! The laws here tie those models to each other and to the values that callers see.

pub mod answers;
pub mod auth;
pub mod calls;
pub mod catalogue;
pub mod checks;
pub mod connect;
pub mod limits;
pub mod mcp_queries;
pub mod pages;
pub mod plugins;
pub mod policy;
pub mod prompts;
pub mod queries;
pub mod reads;
pub mod scopes;
pub mod surface;
pub mod text;
pub mod values;
pub mod wire;
