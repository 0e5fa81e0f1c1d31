//! What the Connect surface does, and that it does as the others do.

use vstd::prelude::*;

use crate::api::auth::{reply_status, AuthReply, HandlerReport};
use crate::api::connect_rpc::{
    are_overrides, gate_error, host_level, install_rpc_error, is_command_report, is_proto_command,
    is_proto_event, is_proto_log, is_proto_outcome, is_report_of, is_rpc_log_plan, is_rpc_removal,
    is_rpc_start, is_scope_check, is_tail_next, is_tail_received, is_target_check, rpc_status,
    uninstall_rpc_error, HandlerOutcome, ProtoButtonKind, ProtoCommand, ProtoCommandOutcome,
    ProtoEvent, ProtoEventPayload, ProtoLogEvent, ProtoLogLevel, RpcCode, RpcError, TailFrame,
    TailStep,
};
use crate::api::mcp::tool_bodies::is_start_check;
use crate::api::mcp::tools::ToolOutcome;
use crate::api::plugins::{
    is_start_decision, is_uninstall_decision, lifecycle_of_install, lifecycle_of_uninstall,
    lifecycle_reply, PluginLifecycleError, RunningInstance,
};
use crate::api::scopes::scope_satisfied;
use crate::api::server::lagged_text;
use crate::api::wire::{is_wire_event, WireEvent};
use crate::laws::queries::{gravity, log_meets_query};
use crate::laws::wire::{
    law_fields_go_out_one_for_one, law_payloads_go_out_whole, law_values_keep_type_and_content,
    same_error, same_fields, same_payload, same_value,
};
use crate::overrides::json_as_toml;
use crate::state::{
    ButtonEvent, Command, CommandResult, Event, EventPayload, HistoricalLogEvent, InstallError,
    LogLevel, LogQuery, UninstallError, WitError, WitValue,
};
use crate::text::{decimal, opt_str, opt_text};

verus! {

// ---------------------------------------------------------------------
// Callers
// ---------------------------------------------------------------------

/// The HTTP status that each code stands for.
pub proof fn law_codes_have_these_statuses(code: RpcCode)
    ensures
        rpc_status(code) == (match code {
            RpcCode::Unauthenticated => 401u16,
            RpcCode::PermissionDenied => 403u16,
            RpcCode::NotFound => 404u16,
            RpcCode::AlreadyExists => 409u16,
            RpcCode::InvalidArgument => 400u16,
            RpcCode::FailedPrecondition => 400u16,
            RpcCode::Unavailable => 503u16,
            RpcCode::Internal => 500u16,
        }),
{
}

/// A request that is refused before its handler is refused as over HTTP, with the code of the same
/// status.
pub proof fn law_refusals_are_those_of_http(reply: AuthReply)
    ensures
        rpc_status(gate_error(reply).0) == reply_status(reply),
{
}

/// A method may be called exactly with its scope; without it the ledger learns which was missing.
pub proof fn law_methods_need_their_scope(
    r: Result<(), (RpcError, HandlerOutcome)>,
    held: Seq<Seq<char>>,
    required: Seq<char>,
)
    requires
        is_scope_check(r, Some(held), required),
    ensures
        r is Ok <==> scope_satisfied(required, held),
        r matches Err((err, outcome)) ==> err.code == RpcCode::PermissionDenied && outcome.status
            == Some(rpc_status(err.code)) && opt_str(outcome.denied_scope) == Some(required)
            && outcome.domain_error is None,
{
}

/// A call without a caller is a fault of the host, never leave.
pub proof fn law_calls_have_a_caller(
    r: Result<(), (RpcError, HandlerOutcome)>,
    required: Seq<char>,
)
    requires
        is_scope_check(r, None, required),
    ensures
        r matches Err((err, outcome)) && err.code == RpcCode::Internal && outcome.status == Some(
            500u16,
        ) && outcome.denied_scope is None && outcome.domain_error is None,
{
}

/// What the handler left counts before the status of the answer; without it the answer counts.
pub proof fn law_reports_are_the_handlers(
    report: HandlerReport,
    response_status: u16,
    outcome: Option<HandlerOutcome>,
)
    requires
        is_report_of(report, response_status, outcome),
    ensures
        outcome is None ==> report.status == response_status && report.denied_scope is None
            && report.domain_error is None,
        outcome matches Some(o) ==> (o.status matches Some(status) ==> report.status == status) && (
        o.status is None ==> report.status == response_status) && opt_text(report.denied_scope)
            == opt_str(o.denied_scope) && opt_text(report.domain_error) == opt_str(o.domain_error),
{
}

// ---------------------------------------------------------------------
// Commands
// ---------------------------------------------------------------------

/// A plugin gets the command that the caller sent: the capability, the action, and the arguments
/// in their order. A value that is not set is an empty JSON text.
pub proof fn law_rpc_commands_reach_the_plugin_as_sent(out: Command, command: ProtoCommand)
    requires
        is_proto_command(out, command),
    ensures
        out.capability@ == command.capability@,
        out.action@ == command.action@,
        out.args.len() == command.args.len(),
        forall|i: int|
            0 <= i < out.args.len() ==> (#[trigger] out.args@[i]).key@ == command.args@[i].key@ && (
            command.args@[i].value matches Some(v) ==> same_value(v, out.args@[i].value)) && (
            command.args@[i].value is None ==> (out.args@[i].value matches WitValue::JsonVal(t)
                && t@.len() == 0)),
{
    assert forall|i: int| 0 <= i < out.args.len() implies (#[trigger] out.args@[i]).key@
        == command.args@[i].key@ && (command.args@[i].value matches Some(v) ==> same_value(
        v,
        out.args@[i].value,
    )) && (command.args@[i].value is None ==> (out.args@[i].value matches WitValue::JsonVal(t)
        && t@.len() == 0)) by {
        if let Some(v) = command.args@[i].value {
            law_values_keep_type_and_content(out.args@[i].value, v);
        }
    }
}

/// A device is commanded exactly while its owner runs.
pub proof fn law_commands_need_a_running_owner(r: Result<(), RpcError>, owner_runs: Option<bool>)
    requires
        is_target_check(r, owner_runs),
    ensures
        r is Ok <==> owner_runs == Some(true),
        r matches Err(err) ==> rpc_status(err.code) == 404,
{
}

/// A caller gets the answer that the plugin gave, and the ledger learns of an error exactly when
/// the plugin reported one.
pub proof fn law_rpc_answers_are_those_of_the_plugin(
    out: ProtoCommandOutcome,
    report: Option<HandlerOutcome>,
    result: CommandResult,
)
    requires
        is_proto_outcome(out, result),
        is_command_report(report, result),
    ensures
        out is Done <==> result is Done,
        out is OkWithState <==> result is OkWithState,
        result matches CommandResult::OkWithState(list) ==> (out matches
            ProtoCommandOutcome::OkWithState { state } && same_fields(state@, list@)),
        result matches CommandResult::Failed(err) ==> (out matches ProtoCommandOutcome::Failed {
            error,
        } && same_error(error, err)),
        report is Some <==> result is Failed,
        report matches Some(o) ==> o.status is None && o.denied_scope is None && o.domain_error
            is Some,
        result matches CommandResult::Failed(WitError::NotFound(_)) ==> opt_str(
            report->0.domain_error,
        ) == Some("not_found"@),
        result matches CommandResult::Failed(WitError::PermissionDenied(_)) ==> opt_str(
            report->0.domain_error,
        ) == Some("permission_denied"@),
        result matches CommandResult::Failed(WitError::InvalidArgument(_)) ==> opt_str(
            report->0.domain_error,
        ) == Some("invalid_argument"@),
        result matches CommandResult::Failed(WitError::Unavailable(_)) ==> opt_str(
            report->0.domain_error,
        ) == Some("unavailable"@),
        result matches CommandResult::Failed(WitError::Internal(_)) ==> opt_str(
            report->0.domain_error,
        ) == Some("internal"@),
{
    if let (CommandResult::OkWithState(list), ProtoCommandOutcome::OkWithState { state }) = (
        result,
        out,
    ) {
        law_fields_go_out_one_for_one(state@, list@);
    }
}

// ---------------------------------------------------------------------
// Plugins
// ---------------------------------------------------------------------

/// An instance may be started over one surface exactly when it may over the others.
pub proof fn law_all_surfaces_start_alike(
    http: Result<(), PluginLifecycleError>,
    rpc: Result<(), RpcError>,
    mcp: Result<(), ToolOutcome>,
    plugin_id: Seq<char>,
    instance_id: Seq<char>,
    id_is_safe: bool,
    installed: bool,
)
    requires
        is_start_decision(http, instance_id, id_is_safe, installed),
        is_rpc_start(rpc, installed, instance_id, id_is_safe),
        is_start_check(mcp, plugin_id, instance_id, id_is_safe, installed),
    ensures
        http is Ok <==> id_is_safe && installed,
        rpc is Ok <==> id_is_safe && installed,
        mcp is Ok <==> id_is_safe && installed,
        rpc matches Err(err) ==> rpc_status(err.code) == (if installed {
            400u16
        } else {
            404u16
        }),
{
}

/// A plugin may be removed over one surface exactly when it may over the other: while none of its
/// instances runs.
pub proof fn law_all_surfaces_remove_alike(
    http: Result<(), PluginLifecycleError>,
    rpc: Result<(), RpcError>,
    instances: Seq<RunningInstance>,
    plugin_id: Seq<char>,
)
    requires
        is_uninstall_decision(http, instances, plugin_id),
        is_rpc_removal(rpc, instances, plugin_id),
    ensures
        http is Ok <==> rpc is Ok,
        rpc is Ok <==> !(exists|i: int|
            0 <= i < instances.len() && (#[trigger] instances[i]).plugin_id@ == plugin_id),
        rpc matches Err(err) ==> err.code == RpcCode::FailedPrecondition,
{
}

/// An installation or a removal that fails is answered with the status that it has over HTTP; only
/// a bad manifest has the general one for bad arguments.
pub proof fn law_failures_have_the_status_of_http(install: InstallError, uninstall: UninstallError)
    ensures
        !(install is BadManifest) ==> rpc_status(install_rpc_error(install).0) == lifecycle_reply(
            lifecycle_of_install(install),
        ).status,
        install is BadManifest ==> install_rpc_error(install).0 == RpcCode::InvalidArgument,
        rpc_status(uninstall_rpc_error(uninstall).0) == lifecycle_reply(
            lifecycle_of_uninstall(uninstall),
        ).status,
        install_rpc_error(install).0 == RpcCode::AlreadyExists <==> install is AlreadyInstalled,
        install_rpc_error(install).0 == RpcCode::NotFound <==> install is SourceMissing,
        install_rpc_error(install).0 == RpcCode::Unavailable <==> install is NoPluginsRoot,
        uninstall_rpc_error(uninstall).0 == RpcCode::NotFound <==> uninstall is NotInstalled,
{
}

/// Without a text, or with an empty one, nothing is overridden; otherwise the text is what counts.
pub proof fn law_overrides_are_the_callers(
    r: Result<Option<toml::Value>, RpcError>,
    json: Option<Seq<char>>,
)
    requires
        are_overrides(r, json),
    ensures
        json is None ==> r == Ok::<Option<toml::Value>, RpcError>(None),
        json matches Some(text) ==> (text.len() == 0 ==> r == Ok::<Option<toml::Value>, RpcError>(
            None,
        )),
        json matches Some(text) ==> (text.len() > 0 ==> (r is Ok <==> json_as_toml(text) is Ok)),
        json matches Some(text) ==> (text.len() > 0 && r is Ok ==> r == Ok::<
            Option<toml::Value>,
            RpcError,
        >(Some(json_as_toml(text)->Ok_0))),
        r matches Err(err) ==> err.code == RpcCode::InvalidArgument,
{
}

// ---------------------------------------------------------------------
// Logs
// ---------------------------------------------------------------------

/// The level that each number of the protocol stands for.
pub proof fn law_levels_stand_for_themselves(level: ProtoLogLevel)
    ensures
        host_level(level) == (match level {
            ProtoLogLevel::Trace => Some(LogLevel::Trace),
            ProtoLogLevel::Debug => Some(LogLevel::Debug),
            ProtoLogLevel::Info => Some(LogLevel::Info),
            ProtoLogLevel::Warn => Some(LogLevel::Warn),
            ProtoLogLevel::Error => Some(LogLevel::Error),
            ProtoLogLevel::Unspecified => None,
            ProtoLogLevel::Unknown(_) => None,
        }),
{
}

/// Every filter of a log query reaches the store, and a level that is unknown is refused rather
/// than passed over: an entry meets the planned query exactly when it meets the caller's filters
/// and is as grave as the caller asks.
pub proof fn law_rpc_log_filters_reach_the_store(
    r: Result<(LogQuery, usize), RpcError>,
    query: LogQuery,
    min_level: Option<ProtoLogLevel>,
    limit: Option<u32>,
    entry: HistoricalLogEvent,
)
    requires
        is_rpc_log_plan(r, query, min_level, limit),
        query.min_level is None,
    ensures
        r is Err <==> (min_level matches Some(level) && level is Unknown),
        r matches Err(err) ==> err.code == RpcCode::InvalidArgument,
        r matches Ok(plan) ==> (log_meets_query(entry, plan.0) <==> log_meets_query(entry, query)
            && (min_level matches Some(level) ==> (host_level(level) matches Some(least) ==> gravity(
            least,
        ) <= gravity(entry.level)))),
        r matches Ok(plan) ==> (limit is None ==> plan.1 == 100) && (limit matches Some(n) ==> (1
            <= n <= 1_000 ==> plan.1 == n)),
{
}

/// A log entry goes out with all that is stored of it, at its own level.
pub proof fn law_rpc_log_rows_go_out_whole(out: ProtoLogEvent, row: HistoricalLogEvent)
    requires
        is_proto_log(out, row),
    ensures
        out.id == row.id,
        out.ts_unix_ms == row.ts_unix_ms,
        opt_text(out.instance_id) == opt_text(row.instance_id),
        opt_text(out.plugin_id) == opt_text(row.plugin_id),
        opt_text(out.device_id) == opt_text(row.device_id),
        out.target@ == row.target@,
        opt_text(out.span_path) == opt_text(row.span_path),
        out.message@ == row.message@,
        out.fields@ == row.fields@,
        row.level == LogLevel::Trace <==> out.level == ProtoLogLevel::Trace,
        row.level == LogLevel::Debug <==> out.level == ProtoLogLevel::Debug,
        row.level == LogLevel::Info <==> out.level == ProtoLogLevel::Info,
        row.level == LogLevel::Warn <==> out.level == ProtoLogLevel::Warn,
        row.level == LogLevel::Error <==> out.level == ProtoLogLevel::Error,
{
    law_levels_stand_for_themselves(out.level);
}

// ---------------------------------------------------------------------
// Events
// ---------------------------------------------------------------------

/// Whether a payload of the protocol is that of an event.
pub open spec fn is_sent_payload(out: ProtoEventPayload, payload: EventPayload) -> bool {
    match (out, payload) {
        (
            ProtoEventPayload::StateChanged { capability, fields },
            EventPayload::StateChanged(change),
        ) => capability@ == change.capability@ && same_fields(fields@, change.fields@),
        (ProtoEventPayload::Button { kind, delta }, EventPayload::Button(button)) => match button {
            ButtonEvent::Pressed => kind == ProtoButtonKind::Pressed && delta == 0,
            ButtonEvent::Released => kind == ProtoButtonKind::Released && delta == 0,
            ButtonEvent::SinglePress => kind == ProtoButtonKind::SinglePress && delta == 0,
            ButtonEvent::DoublePress => kind == ProtoButtonKind::DoublePress && delta == 0,
            ButtonEvent::LongPress => kind == ProtoButtonKind::LongPress && delta == 0,
            ButtonEvent::Rotated(turned) => kind == ProtoButtonKind::Rotated && delta == turned,
        },
        (
            ProtoEventPayload::Inference { model, payload: found, frame_timestamp_ms },
            EventPayload::Inference(result),
        ) => model@ == result.model@ && found@ == result.payload@ && frame_timestamp_ms
            == result.frame_timestamp,
        (ProtoEventPayload::Custom { topic, payload: content }, EventPayload::Custom(custom)) =>
        topic@ == custom.topic@ && content@ == custom.payload@,
        _ => false,
    }
}

/// A live event goes out with its own device, time and origin, and with its whole payload.
pub proof fn law_rpc_events_go_out_whole(out: ProtoEvent, event: Event)
    requires
        is_proto_event(out, event),
    ensures
        opt_text(out.device_id) == opt_text(event.device),
        out.timestamp_ms == event.timestamp,
        out.origin_plugin_id@ == event.origin_plugin_id@,
        out.origin_instance_id@ == event.origin_instance_id@,
        is_sent_payload(out.payload, event.payload),
{
    if let (
        ProtoEventPayload::StateChanged { capability, fields },
        EventPayload::StateChanged(change),
    ) = (out.payload, event.payload) {
        law_fields_go_out_one_for_one(fields@, change.fields@);
    }
}

/// A live event says the same over both surfaces: who sent it, when, of which device, and what.
pub proof fn law_both_streams_say_the_same(rpc: ProtoEvent, http: WireEvent, event: Event)
    requires
        is_proto_event(rpc, event),
        is_wire_event(http, event),
    ensures
        opt_text(rpc.device_id) == opt_text(http.device_id),
        rpc.timestamp_ms == http.timestamp_ms,
        rpc.origin_plugin_id@ == http.origin_plugin_id@,
        rpc.origin_instance_id@ == http.origin_instance_id@,
        same_payload(http.payload, event.payload) && is_sent_payload(rpc.payload, event.payload),
{
    law_rpc_events_go_out_whole(rpc, event);
    law_payloads_go_out_whole(http.payload, event.payload);
}

/// A stream loses nothing silently: where events were skipped that is told first, in their number,
/// and the event itself follows before anything else is received.
pub proof fn law_streams_tell_what_they_skip(
    event: Event,
    skipped: u64,
    frame: TailFrame,
    pending: Option<Event>,
    next: TailStep,
)
    requires
        is_tail_received(Some((frame, pending)), Some((event, skipped))),
        is_tail_next(next, pending),
    ensures
        skipped == 0 ==> (frame matches TailFrame::Event(out) && is_proto_event(out, event))
            && next is Receive,
        skipped > 0 ==> frame == TailFrame::Lagged(skipped) && (next matches TailStep::Send(
            TailFrame::Event(out),
        ) && is_proto_event(out, event)),
{
}

/// A stream ends exactly when there is no further message.
pub proof fn law_streams_end_with_their_source(
    sent: Option<(TailFrame, Option<Event>)>,
    message: Option<(Event, u64)>,
)
    requires
        is_tail_received(sent, message),
    ensures
        sent is None <==> message is None,
{
}

/// The notice over HTTP tells the number of the events that were skipped.
pub proof fn law_notices_tell_the_number(skipped: u64)
    ensures
        lagged_text(skipped) == "{\"lagged\":"@ + decimal(skipped as nat) + "}"@,
{
}

} // verus!
