//! What the host keeps for the resources that plugins hold.

use vstd::prelude::*;

verus! {

/// Stands for a running media pipeline that the host owns.
#[derive(Debug, Clone, Copy, PartialEq, Eq, Structural)]
pub struct HostPipelineHandle;

/// Stands for the host's writer into a pipe of a plugin.
#[derive(Debug, Clone, Copy, PartialEq, Eq, Structural)]
pub struct HostPipeWriter;

/// Stands for a loaded model.
#[derive(Debug, Clone, Copy, PartialEq, Eq, Structural)]
pub struct HostModel;

} // verus!
