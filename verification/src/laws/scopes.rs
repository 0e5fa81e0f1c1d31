//! Which scope each operation needs, over HTTP and over MCP.

use vstd::prelude::*;

use crate::api::mcp::catalogue::{
    annotations_of, only_reads, required_of, tool_name, tool_of, tool_scope, ToolKind,
};
use crate::api::mcp::error::McpError;
use crate::api::mcp::prompts::{
    is_prompt_result, missing_scope_of, prompt_name, prompt_of, prompt_scopes, prompt_text_of,
    ArgValue, PromptKind, PromptResult,
};
use crate::api::mcp::resources::{
    is_read_start, path_route, route_of, KindModel, ReadOutcome, ReadStart, RouteModel,
};
use crate::api::mcp::tools::{is_begin, CallAction, CallStage};
use crate::api::operations::{operation_scope, Operation};
use crate::api::scopes::scope_satisfied;
use crate::text::{lemma_split_head, split_once_at, strip_prefix_of};

verus! {

// ---------------------------------------------------------------------
// Scopes
// ---------------------------------------------------------------------

/// A caller may do what it holds the very name of, or everything where it holds `*`.
pub proof fn law_scopes_are_held_by_name(required: Seq<char>, held: Seq<Seq<char>>)
    ensures
        scope_satisfied(required, held) <==> exists|i: int|
            0 <= i < held.len() && (#[trigger] held[i] == required || held[i] == "*"@),
{
    if held.contains("*"@) {
        let i = choose|i: int| 0 <= i < held.len() && held[i] == "*"@;
        assert(held[i] == required || held[i] == "*"@);
    }
    if held.contains(required) {
        let i = choose|i: int| 0 <= i < held.len() && held[i] == required;
        assert(held[i] == required || held[i] == "*"@);
    }
}

/// The name of the scope that each operation needs.
pub proof fn law_operations_need_these_scopes(operation: Operation)
    ensures
        operation_scope(operation) == (match operation {
            Operation::ListInstances => "instances:list"@,
            Operation::ListDevices => "devices:list"@,
            Operation::ReadDeviceState => "devices:read"@,
            Operation::SendCommand => "devices:command"@,
            Operation::TailEvents => "events:tail"@,
            Operation::QueryEvents => "events:read"@,
            Operation::QueryLogs => "logs:read"@,
            Operation::QueryAudit => "audit:read"@,
            Operation::ListPlugins => "plugins:list"@,
            Operation::ReadPluginSchema => "plugins:list"@,
            Operation::InstallPlugin => "plugins:install"@,
            Operation::StartPlugin => "plugins:start"@,
            Operation::StopPlugin => "plugins:stop"@,
            Operation::UninstallPlugin => "plugins:uninstall"@,
            Operation::OpenPluginUi => "plugins:ui"@,
        }),
{
}

/// The names of the scopes are all different, so that holding one grants nothing else.
proof fn lemma_scope_names_differ()
    ensures
        "instances:list"@.len() == 14,
        "devices:list"@.len() == 12,
        "devices:read"@.len() == 12,
        "devices:command"@.len() == 15,
        "events:tail"@.len() == 11,
        "events:read"@.len() == 11,
        "logs:read"@.len() == 9,
        "audit:read"@.len() == 10,
        "plugins:list"@.len() == 12,
        "plugins:install"@.len() == 15,
        "plugins:start"@.len() == 13,
        "plugins:stop"@.len() == 12,
        "plugins:uninstall"@.len() == 17,
        "plugins:ui"@.len() == 10,
        "*"@.len() == 1,
        "devices:list"@ != "devices:read"@,
        "devices:list"@ != "plugins:list"@,
        "devices:list"@ != "plugins:stop"@,
        "devices:read"@ != "plugins:list"@,
        "devices:read"@ != "plugins:stop"@,
        "plugins:list"@ != "plugins:stop"@,
        "devices:command"@ != "plugins:install"@,
        "events:tail"@ != "events:read"@,
        "audit:read"@ != "plugins:ui"@,
{
    reveal_strlit("instances:list");
    reveal_strlit("devices:list");
    reveal_strlit("devices:read");
    reveal_strlit("devices:command");
    reveal_strlit("events:tail");
    reveal_strlit("events:read");
    reveal_strlit("logs:read");
    reveal_strlit("audit:read");
    reveal_strlit("plugins:list");
    reveal_strlit("plugins:install");
    reveal_strlit("plugins:start");
    reveal_strlit("plugins:stop");
    reveal_strlit("plugins:uninstall");
    reveal_strlit("plugins:ui");
    reveal_strlit("*");
    assert("devices:list"@[8] == 'l' && "devices:read"@[8] == 'r');
    assert("devices:list"@[0] == 'd' && "plugins:list"@[0] == 'p' && "plugins:stop"@[0] == 'p');
    assert("devices:read"@[0] == 'd');
    assert("plugins:list"@[8] == 'l' && "plugins:stop"@[8] == 's');
    assert("devices:command"@[0] == 'd' && "plugins:install"@[0] == 'p');
    assert("events:tail"@[7] == 't' && "events:read"@[7] == 'r');
    assert("audit:read"@[0] == 'a' && "plugins:ui"@[0] == 'p');
}

/// A caller that holds one scope may do what that scope is for, and nothing that another is for.
pub proof fn law_one_scope_grants_one_thing(held: Operation, wanted: Operation)
    ensures
        scope_satisfied(operation_scope(wanted), seq![operation_scope(held)]) <==> operation_scope(
            wanted,
        ) == operation_scope(held),
        operation_scope(wanted) == operation_scope(held) ==> held == wanted || (held
            == Operation::ListPlugins && wanted == Operation::ReadPluginSchema) || (held
            == Operation::ReadPluginSchema && wanted == Operation::ListPlugins),
{
    law_operations_need_these_scopes(held);
    law_operations_need_these_scopes(wanted);
    lemma_scope_names_differ();
    let one = seq![operation_scope(held)];
    assert(one[0] == operation_scope(held));
    law_scopes_are_held_by_name(operation_scope(wanted), one);
}

// ---------------------------------------------------------------------
// Tools
// ---------------------------------------------------------------------

/// The operation over HTTP that does what a tool does.
pub open spec fn operation_of(tool: ToolKind) -> Operation {
    match tool {
        ToolKind::DeviceSendCommand => Operation::SendCommand,
        ToolKind::LogsQuery => Operation::QueryLogs,
        ToolKind::PluginsList => Operation::ListPlugins,
        ToolKind::PluginsShow => Operation::ListPlugins,
        ToolKind::PluginsStop => Operation::StopPlugin,
        ToolKind::PluginsStart => Operation::StartPlugin,
        ToolKind::PluginsInstall => Operation::InstallPlugin,
        ToolKind::PluginsUninstall => Operation::UninstallPlugin,
        ToolKind::EventsHistory => Operation::QueryEvents,
    }
}

/// A tool needs the scope of the operation that does the same over HTTP. So a token may do by one
/// way what it may do by the other.
pub proof fn law_tools_need_the_scope_of_their_operation(tool: ToolKind)
    ensures
        tool_scope(tool) == operation_scope(operation_of(tool)),
        tool_scope(tool) == (match tool {
            ToolKind::DeviceSendCommand => "devices:command"@,
            ToolKind::LogsQuery => "logs:read"@,
            ToolKind::PluginsList => "plugins:list"@,
            ToolKind::PluginsShow => "plugins:list"@,
            ToolKind::PluginsStop => "plugins:stop"@,
            ToolKind::PluginsStart => "plugins:start"@,
            ToolKind::PluginsInstall => "plugins:install"@,
            ToolKind::PluginsUninstall => "plugins:uninstall"@,
            ToolKind::EventsHistory => "events:read"@,
        }),
{
    law_operations_need_these_scopes(operation_of(tool));
}

/// A caller that holds the scope of one operation, and no other, may call exactly the tools that
/// do that operation.
pub proof fn law_one_scope_opens_its_tools(held: Operation, tool: ToolKind)
    ensures
        scope_satisfied(tool_scope(tool), seq![operation_scope(held)]) <==> operation_scope(held)
            == operation_scope(operation_of(tool)),
        scope_satisfied(tool_scope(tool), seq!["logs:read"@]) <==> tool == ToolKind::LogsQuery,
        scope_satisfied(tool_scope(tool), seq!["events:read"@]) <==> tool
            == ToolKind::EventsHistory,
        scope_satisfied(tool_scope(tool), seq!["devices:command"@]) <==> tool
            == ToolKind::DeviceSendCommand,
        scope_satisfied(tool_scope(tool), seq!["plugins:list"@]) <==> tool == ToolKind::PluginsList
            || tool == ToolKind::PluginsShow,
        scope_satisfied(tool_scope(tool), seq!["plugins:stop"@]) <==> tool == ToolKind::PluginsStop,
        scope_satisfied(tool_scope(tool), seq!["plugins:start"@]) <==> tool
            == ToolKind::PluginsStart,
        scope_satisfied(tool_scope(tool), seq!["plugins:install"@]) <==> tool
            == ToolKind::PluginsInstall,
        scope_satisfied(tool_scope(tool), seq!["plugins:uninstall"@]) <==> tool
            == ToolKind::PluginsUninstall,
{
    law_tools_need_the_scope_of_their_operation(tool);
    law_one_scope_grants_one_thing(held, operation_of(tool));
    law_one_scope_grants_one_thing(Operation::QueryLogs, operation_of(tool));
    law_one_scope_grants_one_thing(Operation::QueryEvents, operation_of(tool));
    law_one_scope_grants_one_thing(Operation::SendCommand, operation_of(tool));
    law_one_scope_grants_one_thing(Operation::ListPlugins, operation_of(tool));
    law_one_scope_grants_one_thing(Operation::StopPlugin, operation_of(tool));
    law_one_scope_grants_one_thing(Operation::StartPlugin, operation_of(tool));
    law_one_scope_grants_one_thing(Operation::InstallPlugin, operation_of(tool));
    law_one_scope_grants_one_thing(Operation::UninstallPlugin, operation_of(tool));
    law_operations_need_these_scopes(Operation::QueryLogs);
    law_operations_need_these_scopes(Operation::QueryEvents);
    law_operations_need_these_scopes(Operation::SendCommand);
    law_operations_need_these_scopes(Operation::ListPlugins);
    law_operations_need_these_scopes(Operation::StopPlugin);
    law_operations_need_these_scopes(Operation::StartPlugin);
    law_operations_need_these_scopes(Operation::InstallPlugin);
    law_operations_need_these_scopes(Operation::UninstallPlugin);
}

/// A call of a tool goes on to the ledger exactly when the caller holds the scope of the operation
/// that the tool does; otherwise the row names that scope.
pub proof fn law_calls_need_the_scope_of_their_operation(
    r: (CallStage, CallAction),
    tool: ToolKind,
    token_id: Seq<char>,
    held: Seq<Seq<char>>,
)
    requires
        is_begin(r, tool_name(tool), token_id, held, true),
        tool_of(tool_name(tool)) == Some(tool),
    ensures
        r.1 is WriteIntent <==> scope_satisfied(operation_scope(operation_of(tool)), held),
        !(r.1 is WriteIntent) ==> r.1 is WriteRow && (r.1->WriteRow_0)@.status == 403
            && (r.1->WriteRow_0)@.required_scope == Some(operation_scope(operation_of(tool)))
            && (r.1->WriteRow_0)@.token_id == token_id,
        r.1 is WriteIntent ==> r.0 == (CallStage::AwaitIntent { tool }),
        r.1 is WriteIntent ==> (r.1->WriteIntent_0)@.decision == "pending"@
            && (r.1->WriteIntent_0)@.token_id == token_id && (r.1->WriteIntent_0)@.path
            == "mcp.tool."@ + tool_name(tool),
{
    law_tools_need_the_scope_of_their_operation(tool);
}

/// A call that the ledger cannot take is refused before anything else, and one of an unknown tool
/// is on the ledger as such.
pub proof fn law_calls_need_the_ledger(
    r: (CallStage, CallAction),
    name: Seq<char>,
    token_id: Seq<char>,
    held: Seq<Seq<char>>,
    ledger_free: bool,
)
    requires
        is_begin(r, name, token_id, held, ledger_free),
    ensures
        !ledger_free ==> r.0 is Done && (r.1 matches CallAction::Answer(answer) && answer matches Err(
            err,
        ) && err.code == -32004),
        ledger_free && tool_of(name) is None ==> (r.1 matches CallAction::WriteRow(row)
            && row@.status == 404 && row@.token_id == token_id && row@.path == "mcp.tool."@
            + "unknown"@),
        ledger_free ==> r.1 is WriteRow || r.1 is WriteIntent,
{
}

/// The name under which each tool is called.
pub proof fn law_tools_have_these_names(tool: ToolKind)
    ensures
        tool_name(tool) == (match tool {
            ToolKind::DeviceSendCommand => "device.send_command"@,
            ToolKind::LogsQuery => "logs.query"@,
            ToolKind::PluginsList => "plugins.list"@,
            ToolKind::PluginsShow => "plugins.show"@,
            ToolKind::PluginsStop => "plugins.stop"@,
            ToolKind::PluginsStart => "plugins.start"@,
            ToolKind::PluginsInstall => "plugins.install"@,
            ToolKind::PluginsUninstall => "plugins.uninstall"@,
            ToolKind::EventsHistory => "events.history"@,
        }),
{
}

/// A tool that is found is the one with that name.
pub proof fn law_found_tools_have_the_name(name: Seq<char>)
    ensures
        tool_of(name) matches Some(tool) ==> tool_name(tool) == name,
{
}

/// A tool is announced as one that only reads exactly when its scope is for reading or listing,
/// and as destructive exactly when it is not; the command to a device is announced as neither.
pub proof fn law_announced_effects_follow_the_scope(tool: ToolKind)
    ensures
        only_reads(tool) <==> tool_scope(tool) == "logs:read"@ || tool_scope(tool)
            == "events:read"@ || tool_scope(tool) == "plugins:list"@,
        annotations_of(tool) matches Some(hints) ==> hints.read_only == only_reads(tool)
            && hints.destructive == !only_reads(tool) && !hints.open_world,
        annotations_of(tool) is None <==> tool_scope(tool) == "devices:command"@,
{
    law_tools_need_the_scope_of_their_operation(tool);
    lemma_scope_names_differ();
}

/// The arguments that a tool cannot do without.
pub proof fn law_tools_require_these_arguments(tool: ToolKind)
    ensures
        required_of(tool) == (match tool {
            ToolKind::DeviceSendCommand => seq!["device_id"@, "capability"@, "action"@],
            ToolKind::PluginsShow => seq!["plugin_id"@],
            ToolKind::PluginsStop => seq!["plugin_id"@],
            ToolKind::PluginsStart => seq!["plugin_id"@],
            ToolKind::PluginsUninstall => seq!["plugin_id"@],
            ToolKind::PluginsInstall => seq!["source_dir"@],
            ToolKind::LogsQuery => Seq::<Seq<char>>::empty(),
            ToolKind::EventsHistory => Seq::<Seq<char>>::empty(),
            ToolKind::PluginsList => Seq::<Seq<char>>::empty(),
        }),
{
}

// ---------------------------------------------------------------------
// Resources
// ---------------------------------------------------------------------

/// The operation over HTTP that reads what a resource holds, where there is one.
pub open spec fn operation_of_resource(kind: KindModel) -> Option<Operation> {
    match kind {
        KindModel::DevicesList => Some(Operation::ListDevices),
        KindModel::DevicesDetail(_) => Some(Operation::ListDevices),
        KindModel::PluginsList => Some(Operation::ListPlugins),
        KindModel::PluginsDetail(_) => Some(Operation::ListPlugins),
        KindModel::Events(_) => Some(Operation::QueryEvents),
        KindModel::Logs(_) => Some(Operation::QueryLogs),
        KindModel::Status => None,
        KindModel::Blob(_, _) => None,
    }
}

/// A resource needs the scope of the operation that reads the same over HTTP; the status and the
/// blobs have scopes of their own.
pub proof fn law_resources_need_the_scope_of_their_operation(uri: Seq<char>)
    ensures
        route_of(uri) matches RouteModel::Found { family, scope, kind } ==> {
            &&& operation_of_resource(kind) matches Some(operation) ==> scope == operation_scope(
                operation,
            )
            &&& kind is Status ==> scope == "status:read"@
            &&& kind is Blob ==> scope == "blobs:read"@
        },
{
}

/// The tools and the resources that answer the same need the same scope.
pub proof fn law_tools_and_resources_agree(uri: Seq<char>)
    ensures
        route_of(uri) matches RouteModel::Found { family, scope, kind } ==> {
            &&& kind is Logs ==> scope == tool_scope(ToolKind::LogsQuery)
            &&& kind is Events ==> scope == tool_scope(ToolKind::EventsHistory)
            &&& kind is PluginsList ==> scope == tool_scope(ToolKind::PluginsList)
            &&& kind is PluginsDetail ==> scope == tool_scope(ToolKind::PluginsShow)
        },
{
    law_resources_need_the_scope_of_their_operation(uri);
    law_tools_need_the_scope_of_their_operation(ToolKind::LogsQuery);
    law_tools_need_the_scope_of_their_operation(ToolKind::EventsHistory);
    law_tools_need_the_scope_of_their_operation(ToolKind::PluginsList);
    law_tools_need_the_scope_of_their_operation(ToolKind::PluginsShow);
}

/// Where an address of this host leads whose path has no slash.
proof fn lemma_flat_route(path: Seq<char>, query: Seq<char>)
    requires
        !path.contains('/'),
        !path.contains('?'),
    ensures
        route_of("oxidhome://"@ + path) == path_route("oxidhome://"@ + path, path, None, ""@),
        route_of("oxidhome://"@ + path.push('?') + query) == path_route(
            "oxidhome://"@ + path.push('?') + query,
            path,
            None,
            query,
        ),
{
    let bare = "oxidhome://"@ + path;
    let full = "oxidhome://"@ + path.push('?') + query;
    lemma_after_prefix("oxidhome://"@, path);
    assert(full =~= "oxidhome://"@ + (path.push('?') + query));
    lemma_after_prefix("oxidhome://"@, path.push('?') + query);
    lemma_not_split(path, '?');
    lemma_not_split(path, '/');
    lemma_split_head(path, '?', query);
}

/// Where an address of this host leads whose path has a slash.
proof fn lemma_deep_route(family: Seq<char>, id: Seq<char>)
    requires
        !family.contains('/'),
        !family.contains('?'),
        !id.contains('?'),
    ensures
        route_of("oxidhome://"@ + family.push('/') + id) == path_route(
            "oxidhome://"@ + family.push('/') + id,
            family,
            Some(id),
            ""@,
        ),
{
    let path = family.push('/') + id;
    assert("oxidhome://"@ + family.push('/') + id =~= "oxidhome://"@ + path);
    lemma_after_prefix("oxidhome://"@, path);
    assert(!path.contains('?')) by {
        assert forall|i: int| 0 <= i < path.len() implies path[i] != '?' by {
            if i < family.len() {
                assert(path[i] == family[i]);
            } else if i > family.len() {
                assert(path[i] == id[i - family.len() - 1]);
            }
        }
    }
    lemma_not_split(path, '?');
    lemma_split_head(family, '/', id);
}

/// What follows a prefix is what was put after it.
proof fn lemma_after_prefix(prefix: Seq<char>, rest: Seq<char>)
    ensures
        strip_prefix_of(prefix + rest, prefix) == Some(rest),
{
    assert((prefix + rest).subrange(0, prefix.len() as int) =~= prefix);
    assert((prefix + rest).skip(prefix.len() as int) =~= rest);
}

/// A text without a character is not split at it.
proof fn lemma_not_split(text: Seq<char>, c: char)
    requires
        !text.contains(c),
    ensures
        split_once_at(text, c) is None,
{
    text.index_of_first_ensures(c);
}

/// The addresses of the lists, the histories and the status lead there; what follows a `?` is
/// handed to the histories as it is.
pub proof fn law_flat_addresses_lead_there(query: Seq<char>)
    ensures
        route_of("oxidhome://"@ + "devices"@) == (RouteModel::Found {
            family: "devices"@,
            scope: "devices:list"@,
            kind: KindModel::DevicesList,
        }),
        route_of("oxidhome://"@ + "plugins"@) == (RouteModel::Found {
            family: "plugins"@,
            scope: "plugins:list"@,
            kind: KindModel::PluginsList,
        }),
        route_of("oxidhome://"@ + "status"@) == (RouteModel::Found {
            family: "status"@,
            scope: "status:read"@,
            kind: KindModel::Status,
        }),
        route_of("oxidhome://"@ + "events"@.push('?') + query) == (RouteModel::Found {
            family: "events"@,
            scope: "events:read"@,
            kind: KindModel::Events(query),
        }),
        route_of("oxidhome://"@ + "logs"@.push('?') + query) == (RouteModel::Found {
            family: "logs"@,
            scope: "logs:read"@,
            kind: KindModel::Logs(query),
        }),
{
    reveal_strlit("devices");
    reveal_strlit("plugins");
    reveal_strlit("status");
    reveal_strlit("events");
    reveal_strlit("logs");
    assert("devices"@[0] == 'd' && "plugins"@[0] == 'p' && "events"@[0] == 'e' && "status"@[0]
        == 's');
    lemma_flat_route("devices"@, query);
    lemma_flat_route("plugins"@, query);
    lemma_flat_route("status"@, query);
    lemma_flat_route("events"@, query);
    lemma_flat_route("logs"@, query);
}

/// The address of a device, of a plugin or of a blob leads to that one.
pub proof fn law_deep_addresses_lead_there(id: Seq<char>, name: Seq<char>)
    requires
        id.len() > 0,
        !id.contains('/'),
        !id.contains('?'),
        name.len() > 0,
        !name.contains('?'),
    ensures
        route_of("oxidhome://"@ + "devices"@.push('/') + id) == (RouteModel::Found {
            family: "devices.detail"@,
            scope: "devices:list"@,
            kind: KindModel::DevicesDetail(id),
        }),
        route_of("oxidhome://"@ + "plugins"@.push('/') + id) == (RouteModel::Found {
            family: "plugins.detail"@,
            scope: "plugins:list"@,
            kind: KindModel::PluginsDetail(id),
        }),
        route_of("oxidhome://"@ + "blobs"@.push('/') + (id.push('/') + name)) == (
        RouteModel::Found {
            family: "blobs"@,
            scope: "blobs:read"@,
            kind: KindModel::Blob(id, name),
        }),
{
    reveal_strlit("devices");
    reveal_strlit("plugins");
    reveal_strlit("blobs");
    assert("devices"@[0] == 'd' && "plugins"@[0] == 'p' && "blobs"@[0] == 'b');
    lemma_deep_route("devices"@, id);
    lemma_deep_route("plugins"@, id);
    let blob = id.push('/') + name;
    assert(!blob.contains('?')) by {
        assert forall|i: int| 0 <= i < blob.len() implies blob[i] != '?' by {
            if i < id.len() {
                assert(blob[i] == id[i]);
            } else if i > id.len() {
                assert(blob[i] == name[i - id.len() - 1]);
            }
        }
    }
    lemma_deep_route("blobs"@, blob);
    lemma_split_head(id, '/', name);
}

/// A read goes on exactly when its address leads somewhere and the caller holds the scope of what
/// is there.
pub proof fn law_reads_go_on_with_their_scope(r: ReadStart, uri: Seq<char>, held: Seq<Seq<char>>)
    requires
        is_read_start(r, uri, held),
    ensures
        r is Build <==> (route_of(uri) matches RouteModel::Found { family, scope, kind }
            && scope_satisfied(scope, held)),
        r matches ReadStart::Build { family, kind } ==> (route_of(uri) matches RouteModel::Found {
            family: f,
            scope,
            kind: k,
        } && kind@ == k && family@ == f),
        r matches ReadStart::Done { family, outcome } ==> match route_of(uri) {
            RouteModel::Nowhere { family: f, reason } => family@ == f && (outcome matches
                ReadOutcome::NotFound(words) && words@ == reason),
            RouteModel::Found { family: f, scope, kind } => family@ == f && (outcome matches
                ReadOutcome::Denied { required } && required@ == scope),
        },
{
}

/// An address with a slash too many or an empty part leads nowhere.
pub proof fn law_broken_addresses_lead_nowhere(id: Seq<char>, name: Seq<char>)
    requires
        !id.contains('?'),
        !name.contains('?'),
    ensures
        id.len() == 0 || id.contains('/') ==> route_of("oxidhome://"@ + "devices"@.push('/') + id)
            is Nowhere && route_of("oxidhome://"@ + "plugins"@.push('/') + id) is Nowhere,
        !id.contains('/') ==> route_of("oxidhome://"@ + "blobs"@.push('/') + id) is Nowhere,
        !id.contains('/') && (id.len() == 0 || name.len() == 0) ==> route_of(
            "oxidhome://"@ + "blobs"@.push('/') + (id.push('/') + name),
        ) is Nowhere,
{
    reveal_strlit("devices");
    reveal_strlit("plugins");
    reveal_strlit("blobs");
    assert("devices"@[0] == 'd' && "plugins"@[0] == 'p' && "blobs"@[0] == 'b');
    lemma_deep_route("devices"@, id);
    lemma_deep_route("plugins"@, id);
    lemma_deep_route("blobs"@, id);
    let both = id.push('/') + name;
    assert(!both.contains('?')) by {
        if both.contains('?') {
            let k = choose|k: int| 0 <= k < both.len() && both[k] == '?';
            if k < id.len() {
                assert(id[k] == '?');
            } else if k > id.len() {
                assert(name[k - id.len() - 1] == '?');
            }
        }
    }
    lemma_deep_route("blobs"@, both);
    if !id.contains('/') {
        lemma_split_head(id, '/', name);
        lemma_not_split(id, '/');
    }
}

// ---------------------------------------------------------------------
// Prompts
// ---------------------------------------------------------------------

/// A caller gets a prompt exactly when it could do what the prompt asks for: query the events and
/// the logs for a summary, list the devices for a draft, query the logs for errors.
pub proof fn law_prompts_need_what_they_ask_for(kind: PromptKind, held: Seq<Seq<char>>)
    ensures
        missing_scope_of(prompt_scopes(kind), held) is None <==> (match kind {
            PromptKind::SummarizeToday => scope_satisfied(
                operation_scope(Operation::QueryEvents),
                held,
            ) && scope_satisfied(operation_scope(Operation::QueryLogs), held),
            PromptKind::DraftAutomation => scope_satisfied(
                operation_scope(Operation::ListDevices),
                held,
            ),
            PromptKind::ExplainRecentErrors => scope_satisfied(
                operation_scope(Operation::QueryLogs),
                held,
            ),
        }),
        prompt_name(kind) == (match kind {
            PromptKind::SummarizeToday => "summarize_today"@,
            PromptKind::DraftAutomation => "draft_automation"@,
            PromptKind::ExplainRecentErrors => "explain_recent_errors"@,
        }),
{
    reveal_with_fuel(missing_scope_of, 3);
    let scopes = prompt_scopes(kind);
    if kind == PromptKind::SummarizeToday {
        assert(scopes.skip(1)[0] == scopes[1]);
    }
}

/// A prompt that is handed out is the one that was asked for, for a caller that may have it; a
/// refusal for a missing scope is the same whichever scope is missing.
pub proof fn law_prompts_are_handed_out_with_their_scope(
    r: Result<PromptResult, McpError>,
    kind: PromptKind,
    args: Option<Map<Seq<char>, ArgValue>>,
    held: Seq<Seq<char>>,
)
    requires
        prompt_of(prompt_name(kind)) == Some(kind),
        is_prompt_result(r, prompt_name(kind), args, held),
        prompt_text_of(kind, args) is Ok,
    ensures
        r is Ok <==> missing_scope_of(prompt_scopes(kind), held) is None,
        r matches Ok(prompt) ==> prompt.text@ == prompt_text_of(kind, args)->Ok_0,
        r matches Err(err) ==> err.code == -32001 && err.message@ == "scope denied for MCP prompt"@,
{
}

} // verus!
