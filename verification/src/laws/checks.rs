//! Who may do what over HTTP, and what they then get.

use vstd::prelude::*;

use crate::api::auth::Completion;
use crate::api::connect_rpc::{is_target_check, RpcError};
use crate::api::mcp::handler::stdio_model;
use crate::api::mcp::tool_bodies::is_device_target;
use crate::api::mcp::tools::ToolOutcome;
use crate::api::paging::{device_runs, is_page_length};
use crate::api::plugins::{is_schema_check, schema_reply, PluginSchemaError};
use crate::api::queries::{
    cursor_of, is_audit_answer, is_audit_page, is_audit_plan, is_event_plan, is_events_answer,
    is_log_plan, is_logs_answer, law_cursor_reads_back, AuditBody, AuditParams, EventsParams,
    QueryError,
};
use crate::api::reply::{Body, BodyModel, Reply};
use crate::api::scopes::{is_check, scope_satisfied, ScopeDenied};
use crate::api::server::{
    are_tail_frames, command_error_reply, is_changes_answer, is_changes_plan, is_command_check,
    is_page_answer, is_page_plan, is_state_answer, is_state_page, AllDevicesStateError,
    AllDevicesStateSnapshot, CommandError, CursorCheck, StatePagePlan,
};
use crate::api::wire::{
    is_sorted_wire, is_wire_event, is_wire_result, DeviceStateSnapshot, WireCommandResult,
    WireEvent,
};
use crate::laws::wire::{law_reported_state_goes_out, same_error, same_value};
use crate::state::{AuditEntry, AuditQuery, CommandResult, DeviceState, Event, EventQuery, LogQuery};
use crate::text::{decimal, opt_str, opt_text};

verus! {

// ---------------------------------------------------------------------
// Scopes
// ---------------------------------------------------------------------

/// A caller passes exactly with the scope that is asked for, and is otherwise told which.
pub proof fn law_checks_tell_the_scope(
    r: Result<(), ScopeDenied>,
    required: Seq<char>,
    held: Seq<Seq<char>>,
)
    requires
        is_check(r, required, held),
    ensures
        r is Ok <==> scope_satisfied(required, held),
        r matches Err(denied) ==> denied.required@ == required,
{
}

/// Who started the process may do everything, under no constraint.
pub proof fn law_the_parent_may_do_everything(required: Seq<char>)
    ensures
        scope_satisfied(required, stdio_model().scopes),
        stdio_model().id == "mcp-stdio-parent-process"@,
        stdio_model().constraints.dom() =~= Set::<Seq<char>>::empty(),
{
    assert(stdio_model().scopes[0] == "*"@);
    assert(stdio_model().scopes.contains("*"@));
}

/// The logs are queried exactly with `logs:read`, and what is asked for is what is planned.
pub proof fn law_logs_need_their_scope(
    r: Result<(LogQuery, usize), QueryError>,
    held: Seq<Seq<char>>,
    query: LogQuery,
    limit: Option<u32>,
)
    requires
        is_logs_answer(r, held, query, limit),
    ensures
        r is Ok <==> scope_satisfied("logs:read"@, held),
        r matches Ok(plan) ==> is_log_plan(plan, query, limit),
        r matches Err(err) ==> (err matches QueryError::Scope(denied) && denied.required@
            == "logs:read"@),
{
}

/// The event history is queried exactly with `events:read`, and what is asked for is what is
/// planned.
pub proof fn law_events_need_their_scope(
    r: Result<(EventQuery, usize), QueryError>,
    held: Seq<Seq<char>>,
    params: EventsParams,
)
    requires
        is_events_answer(r, held, params),
    ensures
        r is Ok <==> scope_satisfied("events:read"@, held),
        r matches Ok(plan) ==> is_event_plan(plan, params),
        r matches Err(err) ==> (err matches QueryError::Scope(denied) && denied.required@
            == "events:read"@),
{
}

/// The ledger is queried exactly with `audit:read` and a cursor that can be read, where there is
/// one. A caller without the scope learns nothing of its cursor.
pub proof fn law_the_ledger_needs_its_scope(
    r: Result<(AuditQuery, usize), QueryError>,
    held: Seq<Seq<char>>,
    own_row: u64,
    params: AuditParams,
)
    requires
        is_audit_answer(r, held, own_row, params),
    ensures
        r is Ok <==> scope_satisfied("audit:read"@, held) && (params.before matches Some(text)
            ==> cursor_of(text@) is Ok),
        r matches Ok(plan) ==> is_audit_plan(plan, params, own_row),
        r matches Err(err) ==> (err is Scope <==> !scope_satisfied("audit:read"@, held)),
        r matches Err(err) ==> err is Scope || err is BadCursor,
        r matches Err(QueryError::Scope(denied)) ==> denied.required@ == "audit:read"@,
{
}

/// The state of a device is read exactly with `devices:read`, and is the one of that device at
/// that revision.
pub proof fn law_states_need_their_scope(
    r: Result<DeviceStateSnapshot, ScopeDenied>,
    held: Seq<Seq<char>>,
    device_id: Seq<char>,
    epoch: Seq<char>,
    revision: u64,
    states: Seq<DeviceState>,
)
    requires
        is_state_answer(r, held, device_id, epoch, revision, states),
    ensures
        r is Ok <==> scope_satisfied("devices:read"@, held),
        r matches Err(denied) ==> denied.required@ == "devices:read"@,
        r matches Ok(snapshot) ==> snapshot.device_id@ == device_id && snapshot.epoch@ == epoch
            && snapshot.revision == revision && is_sorted_wire(states, snapshot.capabilities@),
{
}

/// The state of all devices is read exactly with `devices:read` and a cursor that still holds,
/// where there is one; a page then begins where its cursor ends, at the revision of its cursor.
pub proof fn law_state_pages_need_their_scope(
    r: Result<StatePagePlan, AllDevicesStateError>,
    held: Seq<Seq<char>>,
    cursor: Option<CursorCheck>,
    limit: Option<usize>,
)
    requires
        is_page_answer(r, held, cursor, limit),
    ensures
        r is Ok <==> scope_satisfied("devices:read"@, held) && (cursor matches Some(check)
            ==> check is Valid),
        r matches Err(AllDevicesStateError::Scope(denied)) ==> denied.required@ == "devices:read"@
            && !scope_satisfied("devices:read"@, held),
        scope_satisfied("devices:read"@, held) && cursor == Some(CursorCheck::EpochChanged) ==> (
        r matches Err(err) && err is EpochChanged),
        scope_satisfied("devices:read"@, held) && cursor == Some(CursorCheck::Bad) ==> (r matches
            Err(err) && err is BadCursor),
        r matches Ok(plan) ==> (cursor is None ==> is_page_plan(plan, None, None, limit)),
        r matches Ok(plan) ==> (cursor matches Some(
            CursorCheck::Valid { revision, after_device_id },
        ) ==> is_page_plan(plan, Some(after_device_id@), Some(revision), limit)),
{
}

/// Changes are read exactly with `devices:read`.
pub proof fn law_changes_need_their_scope(
    r: Result<(u64, usize), ScopeDenied>,
    held: Seq<Seq<char>>,
    since_revision: Option<u64>,
    limit: Option<usize>,
)
    requires
        is_changes_answer(r, held, since_revision, limit),
    ensures
        r is Ok <==> scope_satisfied("devices:read"@, held),
        r matches Ok(plan) ==> is_changes_plan(plan, since_revision, limit),
        r matches Err(denied) ==> denied.required@ == "devices:read"@,
{
}

/// A command is dispatched exactly with `devices:command`, to a device whose owner runs, and
/// over the other surfaces to the same devices.
pub proof fn law_commands_need_scope_and_owner(
    r: Result<(), CommandError>,
    rpc: Result<(), RpcError>,
    tool: Result<(), ToolOutcome>,
    held: Seq<Seq<char>>,
    device_id: Seq<char>,
    owner_runs: Option<bool>,
)
    requires
        is_command_check(r, held, owner_runs),
        is_target_check(rpc, owner_runs),
        is_device_target(tool, device_id, owner_runs),
    ensures
        r is Ok <==> scope_satisfied("devices:command"@, held) && owner_runs == Some(true),
        r matches Err(err) ==> command_error_reply(err).status == (if scope_satisfied(
            "devices:command"@,
            held,
        ) {
            404u16
        } else {
            403u16
        }),
        r matches Err(CommandError::Scope(denied)) ==> denied.required@ == "devices:command"@,
        rpc is Ok <==> owner_runs == Some(true),
        tool is Ok <==> owner_runs == Some(true),
        tool matches Err(outcome) ==> outcome is ExecErr,
{
}

/// The manifest of a plugin is read exactly with `plugins:list`, of a plugin that is installed.
pub proof fn law_manifests_need_scope_and_plugin(
    r: Result<(), PluginSchemaError>,
    held: Seq<Seq<char>>,
    installed: bool,
)
    requires
        is_schema_check(r, held, installed),
    ensures
        r is Ok <==> scope_satisfied("plugins:list"@, held) && installed,
        r matches Err(err) ==> schema_reply(err).status == (if scope_satisfied(
            "plugins:list"@,
            held,
        ) {
            404u16
        } else {
            403u16
        }),
        r matches Err(PluginSchemaError::Scope(denied)) ==> denied.required@ == "plugins:list"@,
{
}

// ---------------------------------------------------------------------
// Pages and frames
// ---------------------------------------------------------------------

/// A page of the ledger holds the rows that were read, in their order. A full page says where the
/// next one begins: at its last row; another says that there is none.
pub proof fn law_ledger_pages_follow_each_other(
    page: AuditBody,
    rows: Seq<AuditEntry>,
    limit: usize,
    i: int,
)
    requires
        is_audit_page(page, rows, limit),
        0 <= i < rows.len(),
    ensures
        page.audit.len() == rows.len(),
        page.audit@[i].id == rows[i].id,
        page.audit@[i]@ == rows[i]@,
        page.next_cursor is Some <==> rows.len() == limit,
        page.next_cursor matches Some(text) ==> cursor_of(text@) == Ok::<(i64, u64), Seq<char>>(
            (rows.last().intent_ms, rows.last().id),
        ),
{
    law_cursor_reads_back(rows.last().intent_ms, rows.last().id);
    assert(page.audit@[i]@ == rows[i]@);
    assert(page.audit@[i]@.id == rows[i]@.id);
}

/// A page of states holds each device with its own states, all at one revision: the one of the
/// cursor, or of the store at the first page. It says where the next page begins exactly where
/// devices are left.
pub proof fn law_state_pages_hold_whole_devices(
    page: AllDevicesStateSnapshot,
    limit: usize,
    pinned: Option<u64>,
    epoch: Seq<char>,
    current_revision: u64,
    entries: Seq<DeviceState>,
    i: int,
)
    requires
        is_state_page(page, limit, pinned, epoch, current_revision, entries),
        0 <= i < page.devices.len(),
    ensures
        page.epoch@ == epoch,
        pinned matches Some(revision) ==> page.revision == revision,
        pinned is None ==> page.revision == current_revision,
        is_page_length(device_runs(entries), page.devices.len() as int, limit as nat),
        page.devices@[i].device_id@ == device_runs(entries)[i][0].device_id@,
        page.devices@[i].epoch@ == epoch,
        page.devices@[i].revision == page.revision,
        is_sorted_wire(device_runs(entries)[i], page.devices@[i].capabilities@),
        page.cursor_after is Some <==> page.devices.len() < device_runs(entries).len(),
        page.cursor_after matches Some(id) ==> id@ == page.devices@[page.devices.len()
            - 1].device_id@,
{
}

/// A stream tells of skipped events before the event that follows them, and sends the event
/// whatever was skipped.
pub proof fn law_http_streams_tell_what_they_skip(
    r: (Option<String>, WireEvent),
    event: Event,
    skipped_before: u64,
)
    requires
        are_tail_frames(r, event, skipped_before),
    ensures
        r.0 is Some <==> skipped_before > 0,
        r.0 matches Some(text) ==> text@ == "{\"lagged\":"@ + decimal(skipped_before as nat) + "}"@,
        is_wire_event(r.1, event),
{
}

/// What a plugin answered goes out as it is: done, with the state that it reported last under
/// each key, or failed with its own error.
pub proof fn law_answers_go_out_as_given(r: WireCommandResult, result: CommandResult)
    requires
        is_wire_result(r, result),
    ensures
        r is Done <==> result is Done,
        r is OkWithState <==> result is OkWithState,
        r is Failed <==> result is Failed,
        result matches CommandResult::Failed(err) ==> same_error(r->Failed_error, err),
{
}

/// The state that a plugin reported last under a key goes out under that key.
pub proof fn law_last_reports_go_out(r: WireCommandResult, result: CommandResult, i: int)
    requires
        is_wire_result(r, result),
        result is OkWithState,
        0 <= i < result->OkWithState_0.len(),
        forall|j: int|
            i < j < result->OkWithState_0.len() ==> (#[trigger] result->OkWithState_0@[j]).key@
                != result->OkWithState_0@[i].key@,
    ensures
        r->OkWithState_state@.dom().contains(result->OkWithState_0@[i].key@),
        same_value(
            r->OkWithState_state@[result->OkWithState_0@[i].key@],
            result->OkWithState_0@[i].value,
        ),
{
    law_reported_state_goes_out(result->OkWithState_0@, i);
}

// ---------------------------------------------------------------------
// What a reader sees
// ---------------------------------------------------------------------

/// What is said of the end of a request, and of an answer, is what stands in it.
pub proof fn law_readers_see_what_is_there(end: Completion, reply: Reply)
    ensures
        end@.audit_id == end.audit_id,
        end@.status == end.status,
        end@.decision == end.decision@,
        end@.required_scope == opt_text(end.required_scope),
        end@.execution_outcome == opt_text(end.execution_outcome),
        end@.domain_error == opt_text(end.domain_error),
        reply@.status == reply.status,
        reply@.no_store == reply.no_store,
        reply@.denied_scope == opt_str(reply.denied_scope),
        reply.body matches Body::Text(text) ==> reply@.body == BodyModel::Text(text@),
        reply.body is Fields <==> reply@.body is Fields,
{
}

} // verus!
