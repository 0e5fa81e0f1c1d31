//! Resources: what an agent may read, and what it gets.
//!
//! Every read leaves a row on the audit ledger, and a read whose row cannot be written is refused.

use vstd::prelude::*;

use crate::api::auth::decision_of;
use crate::api::mcp::error::{
    is_error, mcp_error, McpError, INTERNAL_ERROR_CODE, INVALID_PARAMS_CODE, RESOURCE_BUSY_CODE,
    RESOURCE_NOT_FOUND_CODE, RESOURCE_TOO_LARGE_CODE, SCOPE_DENIED_CODE,
};
use crate::api::scopes::{
    require_scope, scope_satisfied, Scope, BLOBS_READ, DEVICES_LIST, EVENTS_READ, LOGS_READ,
    PLUGINS_LIST, STATUS_READ,
};
use crate::auth::Actor;
use crate::state::{AuditEntry, AuditModel};
use crate::text::{
    cat2, cat3, find_char, opt_str, opt_to_owned, split_once, split_once_at, strip_prefix,
    strip_prefix_of,
};

verus! {

/// What the ledger says of the kind of caller.
pub const MCP_ACTOR_KIND: &'static str = "mcp";

/// The most ledger writes at a time.
pub const AUDIT_QUEUE_MAX: usize = 32;

/// The most store queries at a time.
pub const STORE_QUERY_MAX: usize = 8;

// ---------------------------------------------------------------------
// The catalogue
// ---------------------------------------------------------------------

/// An entry of the catalogue: a resource, or a family of resources with places in its address.
#[derive(Debug, Clone, Copy)]
pub struct ResourceInfo {
    pub uri: &'static str,
    pub name: &'static str,
    pub title: &'static str,
    pub description: &'static str,
    pub mime: Option<&'static str>,
}

/// What an entry of the catalogue says.
pub struct InfoModel {
    pub uri: Seq<char>,
    pub name: Seq<char>,
    pub title: Seq<char>,
    pub description: Seq<char>,
    pub mime: Option<Seq<char>>,
}

impl View for ResourceInfo {
    type V = InfoModel;

    open spec fn view(&self) -> InfoModel {
        InfoModel {
            uri: self.uri@,
            name: self.name@,
            title: self.title@,
            description: self.description@,
            mime: opt_str(self.mime),
        }
    }
}

/// The views of a list of entries.
pub open spec fn info_models(list: Seq<ResourceInfo>) -> Seq<InfoModel> {
    list.map_values(|i: ResourceInfo| i@)
}

/// What `oxidhome://devices` is.
pub const DEVICES_RESOURCE_DESCRIPTION: &'static str =
    "JSON list of every device registered with the host — id, owning instance, human-readable name. Mirrors `oxidhome device list`.";

/// What `oxidhome://plugins` is.
pub const PLUGINS_RESOURCE_DESCRIPTION: &'static str =
    "JSON list of every plugin known to the host: installed manifests plus running-but-not-installed instances, each with its live instance count. Mirrors `oxidhome plugin list`.";

/// What `oxidhome://events` is.
pub const EVENTS_RESOURCE_DESCRIPTION: &'static str =
    "JSON list of historical events — capability changes, button presses, inference results, custom plugin events. Accepts URI-query filters: `?since=<duration>&until=<duration>&device=<id>&instance=<id>&plugin=<id>&topic=<exact>&topic_prefix=<prefix>&after_id=<u64>&before_id=<u64>&limit=<u32>`. Durations use `Ns|Nm|Nh|Nd` suffixes (`60s`, `5m`, `2h`, `1d`) and resolve relative to `now`. Mirrors `GET /api/v1/events` semantically.";

/// What `oxidhome://logs` is.
pub const LOGS_RESOURCE_DESCRIPTION: &'static str =
    "JSON list of historical log rows from the durable `LogStore`. Accepts URI-query filters: `?since=<duration>&until=<duration>&level=<Trace|Debug|Info|Warn|Error>&instance=<id>&plugin=<id>&device=<id>&target=<exact>&target_prefix=<prefix>&span_path_prefix=<prefix>&limit=<u32>`. Durations use `Ns|Nm|Nh|Nd` suffixes and resolve relative to `now`. Mirrors `GET /api/v1/logs` semantically.";

/// What `oxidhome://status` is.
pub const STATUS_RESOURCE_DESCRIPTION: &'static str =
    "JSON snapshot of host readiness: crate `version`, `uptime_ms` since the Engine was constructed (monotonic), whether the shared `SQLite` handle answers a ping (`ok`), plus counts of installed plugins, running instances, and registered devices. Callers wanting a plain HTTP probe should hit `GET /api/v1/readyz`; this resource is the MCP-agent-friendly equivalent with a broader body.";

/// What `oxidhome://devices/{device_id}` is.
pub const DEVICE_DETAIL_RESOURCE_DESCRIPTION: &'static str =
    "JSON detail for a single device — its full registration record (name, manufacturer, model, capabilities). Mirrors `oxidhome device show <device-id>`.";

/// What `oxidhome://plugins/{plugin_id}` is.
pub const PLUGIN_DETAIL_RESOURCE_DESCRIPTION: &'static str =
    "JSON detail for a single installed plugin — version, manifest digest, singleton flag, plus live instances. Mirrors `oxidhome plugin show <plugin-id>`.";

/// What `oxidhome://blobs/{instance_id}/{name}` is.
pub const BLOB_RESOURCE_DESCRIPTION: &'static str =
    "Raw bytes for a named blob owned by a running plugin instance (e.g. `snapshot.jpg` under a camera instance). Response is a base64-encoded `BlobResourceContents` with the mime type recorded by the plugin at write time.";

/// The resources with a fixed address.
pub open spec fn list_resources_models() -> Seq<InfoModel> {
    seq![
        InfoModel {
            uri: "oxidhome://devices"@,
            name: "devices"@,
            title: "All devices"@,
            description: DEVICES_RESOURCE_DESCRIPTION@,
            mime: Some("application/json"@),
        },
        InfoModel {
            uri: "oxidhome://plugins"@,
            name: "plugins"@,
            title: "Installed plugins"@,
            description: PLUGINS_RESOURCE_DESCRIPTION@,
            mime: Some("application/json"@),
        },
        InfoModel {
            uri: "oxidhome://events"@,
            name: "events"@,
            title: "Event history"@,
            description: EVENTS_RESOURCE_DESCRIPTION@,
            mime: Some("application/json"@),
        },
        InfoModel {
            uri: "oxidhome://logs"@,
            name: "logs"@,
            title: "Log history"@,
            description: LOGS_RESOURCE_DESCRIPTION@,
            mime: Some("application/json"@),
        },
        InfoModel {
            uri: "oxidhome://status"@,
            name: "status"@,
            title: "Host status"@,
            description: STATUS_RESOURCE_DESCRIPTION@,
            mime: Some("application/json"@),
        },
    ]
}

/// The resources with a fixed address.
pub fn list_resources() -> (r: Vec<ResourceInfo>)
    ensures
        info_models(r@) == list_resources_models(),
{
    let mut out: Vec<ResourceInfo> = Vec::new();
    out.push(
        ResourceInfo {
            uri: "oxidhome://devices",
            name: "devices",
            title: "All devices",
            description: DEVICES_RESOURCE_DESCRIPTION,
            mime: Some("application/json"),
        },
    );
    out.push(
        ResourceInfo {
            uri: "oxidhome://plugins",
            name: "plugins",
            title: "Installed plugins",
            description: PLUGINS_RESOURCE_DESCRIPTION,
            mime: Some("application/json"),
        },
    );
    out.push(
        ResourceInfo {
            uri: "oxidhome://events",
            name: "events",
            title: "Event history",
            description: EVENTS_RESOURCE_DESCRIPTION,
            mime: Some("application/json"),
        },
    );
    out.push(
        ResourceInfo {
            uri: "oxidhome://logs",
            name: "logs",
            title: "Log history",
            description: LOGS_RESOURCE_DESCRIPTION,
            mime: Some("application/json"),
        },
    );
    out.push(
        ResourceInfo {
            uri: "oxidhome://status",
            name: "status",
            title: "Host status",
            description: STATUS_RESOURCE_DESCRIPTION,
            mime: Some("application/json"),
        },
    );
    assert(info_models(out@) =~= list_resources_models());
    out
}

/// The families of resources.
pub open spec fn list_resource_templates_models() -> Seq<InfoModel> {
    seq![
        InfoModel {
            uri: "oxidhome://devices/{device_id}"@,
            name: "device.detail"@,
            title: "One device"@,
            description: DEVICE_DETAIL_RESOURCE_DESCRIPTION@,
            mime: Some("application/json"@),
        },
        InfoModel {
            uri: "oxidhome://plugins/{plugin_id}"@,
            name: "plugin.detail"@,
            title: "One plugin"@,
            description: PLUGIN_DETAIL_RESOURCE_DESCRIPTION@,
            mime: Some("application/json"@),
        },
        InfoModel {
            uri: "oxidhome://blobs/{instance_id}/{name}"@,
            name: "blob"@,
            title: "Plugin-owned blob"@,
            description: BLOB_RESOURCE_DESCRIPTION@,
            mime: None,
        },
    ]
}

/// The families of resources.
pub fn list_resource_templates() -> (r: Vec<ResourceInfo>)
    ensures
        info_models(r@) == list_resource_templates_models(),
{
    let mut out: Vec<ResourceInfo> = Vec::new();
    out.push(
        ResourceInfo {
            uri: "oxidhome://devices/{device_id}",
            name: "device.detail",
            title: "One device",
            description: DEVICE_DETAIL_RESOURCE_DESCRIPTION,
            mime: Some("application/json"),
        },
    );
    out.push(
        ResourceInfo {
            uri: "oxidhome://plugins/{plugin_id}",
            name: "plugin.detail",
            title: "One plugin",
            description: PLUGIN_DETAIL_RESOURCE_DESCRIPTION,
            mime: Some("application/json"),
        },
    );
    out.push(
        ResourceInfo {
            uri: "oxidhome://blobs/{instance_id}/{name}",
            name: "blob",
            title: "Plugin-owned blob",
            description: BLOB_RESOURCE_DESCRIPTION,
            mime: None,
        },
    );
    assert(info_models(out@) =~= list_resource_templates_models());
    out
}

// ---------------------------------------------------------------------
// Addresses
// ---------------------------------------------------------------------

/// What an address asks for.
#[derive(Debug)]
pub enum ResourceKind {
    DevicesList,
    DevicesDetail(String),
    PluginsList,
    PluginsDetail(String),
    /// The event history, with the query of the address.
    Events(String),
    /// The logs, with the query of the address.
    Logs(String),
    Status,
    /// A blob: the instance and the name, as they are written in the address.
    Blob(String, String),
}

/// What an address asks for.
pub enum KindModel {
    DevicesList,
    DevicesDetail(Seq<char>),
    PluginsList,
    PluginsDetail(Seq<char>),
    Events(Seq<char>),
    Logs(Seq<char>),
    Status,
    Blob(Seq<char>, Seq<char>),
}

impl View for ResourceKind {
    type V = KindModel;

    open spec fn view(&self) -> KindModel {
        match *self {
            ResourceKind::DevicesList => KindModel::DevicesList,
            ResourceKind::DevicesDetail(id) => KindModel::DevicesDetail(id@),
            ResourceKind::PluginsList => KindModel::PluginsList,
            ResourceKind::PluginsDetail(id) => KindModel::PluginsDetail(id@),
            ResourceKind::Events(query) => KindModel::Events(query@),
            ResourceKind::Logs(query) => KindModel::Logs(query@),
            ResourceKind::Status => KindModel::Status,
            ResourceKind::Blob(instance, name) => KindModel::Blob(instance@, name@),
        }
    }
}

/// Where an address leads.
#[derive(Debug)]
pub enum Route {
    /// Nowhere, and why.
    Nowhere { family: &'static str, reason: String },
    Found { family: &'static str, scope: &'static str, kind: ResourceKind },
}

/// Where an address leads.
pub enum RouteModel {
    Nowhere { family: Seq<char>, reason: Seq<char> },
    Found { family: Seq<char>, scope: Seq<char>, kind: KindModel },
}

impl View for Route {
    type V = RouteModel;

    open spec fn view(&self) -> RouteModel {
        match *self {
            Route::Nowhere { family, reason } => RouteModel::Nowhere {
                family: family@,
                reason: reason@,
            },
            Route::Found { family, scope, kind } => RouteModel::Found {
                family: family@,
                scope: scope@,
                kind: kind@,
            },
        }
    }
}

/// A resource that an address leads to.
pub open spec fn found(family: Seq<char>, scope: Seq<char>, kind: KindModel) -> RouteModel {
    RouteModel::Found { family, scope, kind }
}

/// An address that leads nowhere.
pub open spec fn unregistered(uri: Seq<char>) -> RouteModel {
    RouteModel::Nowhere {
        family: "unknown"@,
        reason: "no MCP resource is registered for "@ + uri,
    }
}

/// Whether a text can be the id in an address: it is not empty and has no slash.
pub open spec fn is_id(text: Seq<char>) -> bool {
    text.len() > 0 && !text.contains('/')
}

/// Where the path of an address leads. `id` is what follows the first slash of the path.
pub open spec fn path_route(
    uri: Seq<char>,
    family: Seq<char>,
    id: Option<Seq<char>>,
    query: Seq<char>,
) -> RouteModel {
    match id {
        None => if family == "devices"@ {
            found("devices"@, DEVICES_LIST@, KindModel::DevicesList)
        } else if family == "plugins"@ {
            found("plugins"@, PLUGINS_LIST@, KindModel::PluginsList)
        } else if family == "events"@ {
            found("events"@, EVENTS_READ@, KindModel::Events(query))
        } else if family == "logs"@ {
            found("logs"@, LOGS_READ@, KindModel::Logs(query))
        } else if family == "status"@ {
            found("status"@, STATUS_READ@, KindModel::Status)
        } else {
            unregistered(uri)
        },
        Some(id) => if family == "devices"@ && is_id(id) {
            found("devices.detail"@, DEVICES_LIST@, KindModel::DevicesDetail(id))
        } else if family == "plugins"@ && is_id(id) {
            found("plugins.detail"@, PLUGINS_LIST@, KindModel::PluginsDetail(id))
        } else if family == "blobs"@ {
            match split_once_at(id, '/') {
                Some((instance, name)) if instance.len() > 0 && name.len() > 0 => found(
                    "blobs"@,
                    BLOBS_READ@,
                    KindModel::Blob(instance, name),
                ),
                _ => RouteModel::Nowhere {
                    family: "blobs"@,
                    reason: "blobs URI must be oxidhome://blobs/<instance_id>/<name>; got "@ + uri,
                },
            }
        } else {
            unregistered(uri)
        },
    }
}

/// Where an address leads.
pub open spec fn route_of(uri: Seq<char>) -> RouteModel {
    match strip_prefix_of(uri, "oxidhome://"@) {
        None => RouteModel::Nowhere {
            family: "unknown"@,
            reason: "URI "@ + uri + " does not use the oxidhome:// scheme"@,
        },
        Some(rest) => {
            let (path, query) = match split_once_at(rest, '?') {
                Some(parts) => parts,
                None => (rest, ""@),
            };
            match split_once_at(path, '/') {
                Some((family, id)) => path_route(uri, family, Some(id), query),
                None => path_route(uri, path, None, query),
            }
        },
    }
}

/// Whether a text can be the id in an address.
fn can_be_id(text: &str) -> (r: bool)
    ensures
        r == is_id(text@),
{
    text.unicode_len() > 0 && find_char(text, '/').is_none()
}

/// Says that an address leads nowhere.
fn nowhere(uri: &str) -> (r: Route)
    ensures
        r@ == unregistered(uri@),
{
    Route::Nowhere {
        family: "unknown",
        reason: cat2("no MCP resource is registered for ", uri),
    }
}

/// Finds where an address leads.
pub fn route(uri: &str) -> (r: Route)
    ensures
        r@ == route_of(uri@),
{
    let rest = match strip_prefix(uri, "oxidhome://") {
        Some(rest) => rest,
        None => {
            return Route::Nowhere {
                family: "unknown",
                reason: cat3("URI ", uri, " does not use the oxidhome:// scheme"),
            };
        },
    };
    let (path, query) = match split_once(rest, '?') {
        Some(parts) => parts,
        None => (rest, ""),
    };
    match split_once(path, '/') {
        None => {
            if path.eq("devices") {
                Route::Found {
                    family: "devices",
                    scope: DEVICES_LIST,
                    kind: ResourceKind::DevicesList,
                }
            } else if path.eq("plugins") {
                Route::Found {
                    family: "plugins",
                    scope: PLUGINS_LIST,
                    kind: ResourceKind::PluginsList,
                }
            } else if path.eq("events") {
                Route::Found {
                    family: "events",
                    scope: EVENTS_READ,
                    kind: ResourceKind::Events(query.to_owned()),
                }
            } else if path.eq("logs") {
                Route::Found {
                    family: "logs",
                    scope: LOGS_READ,
                    kind: ResourceKind::Logs(query.to_owned()),
                }
            } else if path.eq("status") {
                Route::Found { family: "status", scope: STATUS_READ, kind: ResourceKind::Status }
            } else {
                nowhere(uri)
            }
        },
        Some((family, id)) => {
            if family.eq("devices") && can_be_id(id) {
                Route::Found {
                    family: "devices.detail",
                    scope: DEVICES_LIST,
                    kind: ResourceKind::DevicesDetail(id.to_owned()),
                }
            } else if family.eq("plugins") && can_be_id(id) {
                Route::Found {
                    family: "plugins.detail",
                    scope: PLUGINS_LIST,
                    kind: ResourceKind::PluginsDetail(id.to_owned()),
                }
            } else if family.eq("blobs") {
                if let Some((instance, name)) = split_once(id, '/') {
                    if instance.unicode_len() > 0 && name.unicode_len() > 0 {
                        return Route::Found {
                            family: "blobs",
                            scope: BLOBS_READ,
                            kind: ResourceKind::Blob(instance.to_owned(), name.to_owned()),
                        };
                    }
                }
                Route::Nowhere {
                    family: "blobs",
                    reason: cat2(
                        "blobs URI must be oxidhome://blobs/<instance_id>/<name>; got ",
                        uri,
                    ),
                }
            } else {
                nowhere(uri)
            }
        },
    }
}

// ---------------------------------------------------------------------
// Outcomes
// ---------------------------------------------------------------------

/// How a read ended.
#[allow(inconsistent_fields)]
#[derive(Debug)]
pub enum ReadOutcome {
    OkText { body: String, mime: &'static str },
    OkBlob { blob_b64: String, mime: Option<String> },
    NotFound(String),
    /// The request itself is malformed.
    InvalidParams(String),
    /// The answer would be too large.
    TooLarge(String),
    /// The host is busy; trying again helps.
    Busy(String),
    /// The caller lacks a scope.
    Denied { required: &'static str },
    Internal(String),
}

/// The HTTP status that goes with an outcome on the ledger.
pub open spec fn outcome_status(outcome: ReadOutcome) -> u16 {
    match outcome {
        ReadOutcome::OkText { .. } => 200,
        ReadOutcome::OkBlob { .. } => 200,
        ReadOutcome::NotFound(_) => 404,
        ReadOutcome::InvalidParams(_) => 400,
        ReadOutcome::TooLarge(_) => 413,
        ReadOutcome::Busy(_) => 503,
        ReadOutcome::Denied { .. } => 403,
        ReadOutcome::Internal(_) => 500,
    }
}

/// The scope that an outcome names on the ledger.
pub open spec fn outcome_scope(outcome: ReadOutcome) -> Option<Seq<char>> {
    match outcome {
        ReadOutcome::Denied { required } => Some(required@),
        _ => None,
    }
}

/// The contents of a resource.
#[allow(inconsistent_fields)]
#[derive(Debug)]
pub enum Contents {
    Text { body: String, mime: &'static str },
    Blob { blob_b64: String, mime: Option<String> },
}

/// A resource as it is handed out.
#[derive(Debug)]
pub struct ReadResult {
    pub uri: String,
    pub contents: Contents,
}

/// Whether a result is what a caller gets for an outcome. It never names the scope that a caller
/// lacks.
pub open spec fn is_read_result(
    r: Result<ReadResult, McpError>,
    outcome: ReadOutcome,
    uri: Seq<char>,
) -> bool {
    match outcome {
        ReadOutcome::OkText { body, mime } => r is Ok && r->Ok_0.uri@ == uri && r->Ok_0.contents
            == (Contents::Text { body, mime }),
        ReadOutcome::OkBlob { blob_b64, mime } => r is Ok && r->Ok_0.uri@ == uri
            && r->Ok_0.contents == (Contents::Blob { blob_b64, mime }),
        ReadOutcome::NotFound(reason) => r is Err && is_error(
            r->Err_0,
            RESOURCE_NOT_FOUND_CODE,
            reason@,
        ),
        ReadOutcome::InvalidParams(reason) => r is Err && is_error(
            r->Err_0,
            INVALID_PARAMS_CODE,
            reason@,
        ),
        ReadOutcome::TooLarge(reason) => r is Err && is_error(
            r->Err_0,
            RESOURCE_TOO_LARGE_CODE,
            reason@,
        ),
        ReadOutcome::Busy(reason) => r is Err && is_error(r->Err_0, RESOURCE_BUSY_CODE, reason@),
        ReadOutcome::Denied { .. } => r is Err && is_error(
            r->Err_0,
            SCOPE_DENIED_CODE,
            "scope denied for MCP resource"@,
        ),
        ReadOutcome::Internal(reason) => r is Err && is_error(
            r->Err_0,
            INTERNAL_ERROR_CODE,
            reason@,
        ),
    }
}

impl ReadOutcome {
    /// What the caller gets.
    pub fn into_result(self, uri: &str) -> (r: Result<ReadResult, McpError>)
        ensures
            is_read_result(r, self, uri@),
    {
        match self {
            ReadOutcome::OkText { body, mime } => Ok(
                ReadResult { uri: uri.to_owned(), contents: Contents::Text { body, mime } },
            ),
            ReadOutcome::OkBlob { blob_b64, mime } => Ok(
                ReadResult { uri: uri.to_owned(), contents: Contents::Blob { blob_b64, mime } },
            ),
            ReadOutcome::NotFound(reason) => Err(mcp_error(RESOURCE_NOT_FOUND_CODE, reason)),
            ReadOutcome::InvalidParams(reason) => Err(mcp_error(INVALID_PARAMS_CODE, reason)),
            ReadOutcome::TooLarge(reason) => Err(mcp_error(RESOURCE_TOO_LARGE_CODE, reason)),
            ReadOutcome::Busy(reason) => Err(mcp_error(RESOURCE_BUSY_CODE, reason)),
            ReadOutcome::Denied { required: _ } => Err(
                mcp_error(SCOPE_DENIED_CODE, "scope denied for MCP resource".to_owned()),
            ),
            ReadOutcome::Internal(reason) => Err(mcp_error(INTERNAL_ERROR_CODE, reason)),
        }
    }

    /// The HTTP status that goes with the outcome on the ledger.
    pub fn status(&self) -> (r: u16)
        ensures
            r == outcome_status(*self),
    {
        match self {
            ReadOutcome::OkText { .. } => 200,
            ReadOutcome::OkBlob { .. } => 200,
            ReadOutcome::NotFound(_) => 404,
            ReadOutcome::InvalidParams(_) => 400,
            ReadOutcome::TooLarge(_) => 413,
            ReadOutcome::Busy(_) => 503,
            ReadOutcome::Denied { .. } => 403,
            ReadOutcome::Internal(_) => 500,
        }
    }

    /// What the ledger says of the outcome: the same that it says of any answer with this status.
    pub fn decision(&self) -> (r: &'static str)
        ensures
            r@ == decision_of(outcome_status(*self)),
    {
        match self {
            ReadOutcome::OkText { .. } => "allow",
            ReadOutcome::OkBlob { .. } => "allow",
            ReadOutcome::NotFound(_) => "deny",
            ReadOutcome::Denied { .. } => "deny",
            ReadOutcome::InvalidParams(_) => "deny",
            ReadOutcome::TooLarge(_) => "deny",
            ReadOutcome::Internal(_) => "error",
            ReadOutcome::Busy(_) => "error",
        }
    }

    /// The scope that the outcome names on the ledger.
    pub fn required_scope(&self) -> (r: Option<&'static str>)
        ensures
            opt_str(r) == outcome_scope(*self),
    {
        match self {
            ReadOutcome::Denied { required } => Some(*required),
            _ => None,
        }
    }
}

/// The row of a read.
pub open spec fn read_row(
    token_id: Seq<char>,
    family: Seq<char>,
    outcome: ReadOutcome,
) -> AuditModel {
    AuditModel {
        id: 0,
        intent_ms: 0,
        finalized_ms: None,
        token_id,
        actor_kind: MCP_ACTOR_KIND@,
        method: "MCP"@,
        path: "mcp.resource."@ + family,
        status: outcome_status(outcome),
        decision: decision_of(outcome_status(outcome)),
        required_scope: outcome_scope(outcome),
        execution_outcome: None,
        domain_error: None,
        credential_fp: None,
    }
}

/// The row of a read.
pub fn new_audit_entry(token_id: &str, family: &str, outcome: &ReadOutcome) -> (r: AuditEntry)
    ensures
        r@ == read_row(token_id@, family@, *outcome),
{
    AuditEntry {
        id: 0,
        intent_ms: 0,
        finalized_ms: None,
        token_id: token_id.to_owned(),
        actor_kind: MCP_ACTOR_KIND.to_owned(),
        method: "MCP".to_owned(),
        path: cat2("mcp.resource.", family),
        status: outcome.status(),
        decision: outcome.decision().to_owned(),
        required_scope: opt_to_owned(outcome.required_scope()),
        execution_outcome: None,
        domain_error: None,
        credential_fp: None,
    }
}

// ---------------------------------------------------------------------
// The way of a read
// ---------------------------------------------------------------------

/// The answer when too many ledger writes are under way. It leaves no row itself: that would
/// defeat the bound.
pub fn audit_queue_full() -> (r: McpError)
    ensures
        is_error(
            r,
            RESOURCE_BUSY_CODE,
            "MCP audit-write queue saturated; retry shortly"@,
        ),
{
    mcp_error(
        RESOURCE_BUSY_CODE,
        "MCP audit-write queue saturated; retry shortly".to_owned(),
    )
}

/// How a read begins.
#[derive(Debug)]
pub enum ReadStart {
    /// It ends right away.
    Done { family: &'static str, outcome: ReadOutcome },
    /// This is to be read.
    Build { family: &'static str, kind: ResourceKind },
}

/// Whether a start is that of a read by a caller with these scopes. Nothing is read for a caller
/// that lacks the scope.
pub open spec fn is_read_start(r: ReadStart, uri: Seq<char>, held: Seq<Seq<char>>) -> bool {
    match route_of(uri) {
        RouteModel::Nowhere { family, reason } => match r {
            ReadStart::Done { family: f, outcome: ReadOutcome::NotFound(given) } => f@ == family
                && given@ == reason,
            _ => false,
        },
        RouteModel::Found { family, scope, kind } => match r {
            ReadStart::Done { family: f, outcome: ReadOutcome::Denied { required } } => f@
                == family && required@ == scope && !scope_satisfied(scope, held),
            ReadStart::Build { family: f, kind: k } => f@ == family && k@ == kind
                && scope_satisfied(scope, held),
            _ => false,
        },
    }
}

/// Begins a read.
pub fn start_read(uri: &str, actor: &Actor) -> (r: ReadStart)
    ensures
        is_read_start(r, uri@, actor@.scopes),
{
    match route(uri) {
        Route::Nowhere { family, reason } => ReadStart::Done {
            family,
            outcome: ReadOutcome::NotFound(reason),
        },
        Route::Found { family, scope, kind } => match require_scope(actor, Scope::new(scope)) {
            Ok(()) => ReadStart::Build { family, kind },
            Err(denied) => ReadStart::Done {
                family,
                outcome: ReadOutcome::Denied { required: denied.required },
            },
        },
    }
}

/// How the write of a ledger row ended.
#[derive(Debug, Clone, Copy, PartialEq, Eq, Structural)]
pub enum LedgerWrite {
    Written,
    Failed,
    Broken,
}

/// Whether this is what the caller of a read gets once the row was written, or was not.
pub open spec fn is_read_finish(
    r: Result<ReadResult, McpError>,
    write: LedgerWrite,
    outcome: ReadOutcome,
    uri: Seq<char>,
) -> bool {
    match write {
        LedgerWrite::Written => is_read_result(r, outcome, uri),
        LedgerWrite::Failed => r is Err && is_error(
            r->Err_0,
            INTERNAL_ERROR_CODE,
            "audit-log write failed; MCP resource read refused"@,
        ),
        LedgerWrite::Broken => r is Err && is_error(
            r->Err_0,
            INTERNAL_ERROR_CODE,
            "audit-log write task panicked; MCP resource read refused"@,
        ),
    }
}

/// What the caller of a read gets once the row was written, or was not.
pub fn finish_read(write: LedgerWrite, outcome: ReadOutcome, uri: &str) -> (r: Result<
    ReadResult,
    McpError,
>)
    ensures
        is_read_finish(r, write, outcome, uri@),
{
    match write {
        LedgerWrite::Written => outcome.into_result(uri),
        LedgerWrite::Failed => Err(
            mcp_error(
                INTERNAL_ERROR_CODE,
                "audit-log write failed; MCP resource read refused".to_owned(),
            ),
        ),
        LedgerWrite::Broken => Err(
            mcp_error(
                INTERNAL_ERROR_CODE,
                "audit-log write task panicked; MCP resource read refused".to_owned(),
            ),
        ),
    }
}

/// A caller without the scope of a resource reads nothing of it.
pub proof fn law_reads_need_their_scope(
    r: ReadStart,
    uri: Seq<char>,
    held: Seq<Seq<char>>,
    family: Seq<char>,
    scope: Seq<char>,
    kind: KindModel,
)
    requires
        is_read_start(r, uri, held),
        route_of(uri) == found(family, scope, kind),
        !scope_satisfied(scope, held),
    ensures
        r is Done,
        r->outcome is Denied,
{
}

} // verus!
