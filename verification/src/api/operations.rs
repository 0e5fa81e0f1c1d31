//! The operations of the API, and the scope that each of them asks for.

use vstd::prelude::*;

use crate::api::scopes::{
    is_check, require_scope, Scope, ScopeDenied, AUDIT_READ, DEVICES_COMMAND, DEVICES_LIST,
    DEVICES_READ, EVENTS_READ, EVENTS_TAIL, INSTANCES_LIST, LOGS_READ, PLUGINS_INSTALL,
    PLUGINS_LIST, PLUGINS_START, PLUGINS_STOP, PLUGINS_UI, PLUGINS_UNINSTALL,
};
use crate::auth::Actor;

verus! {

/// An operation that a caller with a token can ask for, over HTTP or Connect.
#[derive(Debug, Clone, Copy, PartialEq, Eq, Structural)]
pub enum Operation {
    ListInstances,
    ListDevices,
    ReadDeviceState,
    SendCommand,
    TailEvents,
    QueryEvents,
    QueryLogs,
    QueryAudit,
    ListPlugins,
    ReadPluginSchema,
    InstallPlugin,
    StartPlugin,
    StopPlugin,
    UninstallPlugin,
    OpenPluginUi,
}

/// The scope that an operation asks for.
pub open spec fn operation_scope(operation: Operation) -> Seq<char> {
    match operation {
        Operation::ListInstances => INSTANCES_LIST@,
        Operation::ListDevices => DEVICES_LIST@,
        Operation::ReadDeviceState => DEVICES_READ@,
        Operation::SendCommand => DEVICES_COMMAND@,
        Operation::TailEvents => EVENTS_TAIL@,
        Operation::QueryEvents => EVENTS_READ@,
        Operation::QueryLogs => LOGS_READ@,
        Operation::QueryAudit => AUDIT_READ@,
        Operation::ListPlugins | Operation::ReadPluginSchema => PLUGINS_LIST@,
        Operation::InstallPlugin => PLUGINS_INSTALL@,
        Operation::StartPlugin => PLUGINS_START@,
        Operation::StopPlugin => PLUGINS_STOP@,
        Operation::UninstallPlugin => PLUGINS_UNINSTALL@,
        Operation::OpenPluginUi => PLUGINS_UI@,
    }
}

impl Operation {
    /// The scope that the operation asks for.
    pub fn scope(self) -> (r: Scope)
        ensures
            r.0@ == operation_scope(self),
    {
        match self {
            Operation::ListInstances => Scope::new(INSTANCES_LIST),
            Operation::ListDevices => Scope::new(DEVICES_LIST),
            Operation::ReadDeviceState => Scope::new(DEVICES_READ),
            Operation::SendCommand => Scope::new(DEVICES_COMMAND),
            Operation::TailEvents => Scope::new(EVENTS_TAIL),
            Operation::QueryEvents => Scope::new(EVENTS_READ),
            Operation::QueryLogs => Scope::new(LOGS_READ),
            Operation::QueryAudit => Scope::new(AUDIT_READ),
            Operation::ListPlugins | Operation::ReadPluginSchema => Scope::new(PLUGINS_LIST),
            Operation::InstallPlugin => Scope::new(PLUGINS_INSTALL),
            Operation::StartPlugin => Scope::new(PLUGINS_START),
            Operation::StopPlugin => Scope::new(PLUGINS_STOP),
            Operation::UninstallPlugin => Scope::new(PLUGINS_UNINSTALL),
            Operation::OpenPluginUi => Scope::new(PLUGINS_UI),
        }
    }
}

/// Checks whether a caller may ask for an operation.
pub fn require_operation(actor: &Actor, operation: Operation) -> (r: Result<(), ScopeDenied>)
    ensures
        is_check(r, operation_scope(operation), actor@.scopes),
{
    require_scope(actor, operation.scope())
}

} // verus!
