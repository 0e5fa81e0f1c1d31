//! The rules of the OxidHome control plane: who may call what, what is asked of the stores, and
//! what is answered over HTTP, Connect and MCP.
//!
//! Nothing here reads a socket, a file or a clock. A caller hands in what it read and performs
//! what it is told, in the order in which it is told.

use vstd::prelude::*;

pub mod api;
pub mod auth;
pub mod exclusive_lock;
pub mod host_impl;
pub mod json;
pub mod json_value;
pub mod laws;
pub mod order;
pub mod overrides;
pub mod state;
pub mod text;
pub mod text_map;

pub use crate::auth::{Actor, ActorKind};

verus! {

/// The SDK version that this host ships with. A plugin names its own in its manifest, and the
/// two are compared before the plugin is loaded. Before 1.0 each minor version stands alone.
pub const OXIDHOME_SDK_VERSION: &'static str = "0.2.0";

/// The oldest SDK version that a plugin may be built against.
pub const MIN_SUPPORTED_SDK_VERSION: &'static str = "0.2.0";

} // verus!
