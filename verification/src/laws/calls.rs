//! What a tool call does, answers and records.

use vstd::prelude::*;
use vstd::utf8::*;

use crate::api::mcp::catalogue::{tool_name, ToolKind};
use crate::api::mcp::contents::{
    instance_views, instances_of_plugin, is_encoded_body, is_plugin_detail, EncodeEnd, EncodedBody,
    InstalledDetail, InstanceRow, PluginDetail, StoreFailure,
};
use crate::api::mcp::error::McpError;
use crate::api::mcp::messages::{
    byte_numbers, is_capped, is_cut, is_result_json, is_state_object, value_json, TRUNCATED_SUFFIX,
};
use crate::api::mcp::resources::LedgerWrite;
use crate::api::mcp::tool_bodies::{
    is_carried, is_command_outcome, is_dispatch_outcome, is_install_failure, is_store_failure,
    DeviceSendCommandArgs, InstallEnd, StartEnd, UninstallEnd,
};
use crate::api::mcp::tool_runs::{
    is_body_outcome, is_run_begin, is_run_step, RunAction, RunEvent, RunStage, ToolArgs, ToolBody,
};
use crate::api::mcp::tools::{
    audit_note, body_outcome, completed_row, is_call_result, is_call_step, is_finalize,
    is_noted_error, is_noted_result, law_noted_errors_keep_their_data,
    law_noted_errors_name_their_row, meta_members, noted_data, opt_json, tool_domain_error,
    tool_execution, tool_row, tool_status, CallAction, CallEvent, CallResult, CallStage,
    FinalizeInput, ToolContent, ToolOutcome, ToolValue,
};
use crate::api::plugins::{is_plugin_listing, law_listed_instances_run, stopped_of, RunningInstance};
use crate::api::queries::are_event_rows;
use crate::api::wire::{state_map, WireCommandResult};
use crate::json_value::{law_added_member_is_found, member_index, member_of, JsonModel};
use crate::laws::plugins::{law_only_the_plugins_instances_are_stopped, runs_as};
use crate::laws::wire::{law_fields_go_out_one_for_one, same_fields};
use crate::state::{CommandResult, InstallError, UninstallError, ValueModel, WitError};
use crate::text::{opt_str, opt_text, texts};

verus! {

// ---------------------------------------------------------------------
// Answers and rows
// ---------------------------------------------------------------------

/// The code that goes with a status on the ledger.
pub open spec fn code_with_status(status: u16) -> int {
    if status == 400 {
        -32602
    } else if status == 403 {
        -32001
    } else if status == 404 {
        -32601
    } else if status == 413 {
        -32003
    } else if status == 503 {
        -32004
    } else {
        -32603
    }
}

/// What a caller is answered is what the ledger records: an answer that is no error goes with 200,
/// and each error with the status of its code.
pub proof fn law_call_answers_match_the_record(
    r: Result<CallResult, McpError>,
    outcome: ToolOutcome,
)
    requires
        is_call_result(r, outcome),
    ensures
        r is Ok <==> tool_status(outcome) == 200,
        r matches Ok(result) ==> result.meta is None,
        r matches Err(err) ==> err.code == code_with_status(tool_status(outcome)),
        tool_status(outcome) == 200 || tool_status(outcome) == 400 || tool_status(outcome) == 403
            || tool_status(outcome) == 404 || tool_status(outcome) == 413 || tool_status(outcome)
            == 503 || tool_status(outcome) == 500,
{
}

/// Each outcome is told from the others by what the caller is answered, in the words of the
/// outcome; only a missing scope is not named.
pub proof fn law_outcomes_are_answered_in_their_words(
    r: Result<CallResult, McpError>,
    outcome: ToolOutcome,
)
    requires
        is_call_result(r, outcome),
    ensures
        match outcome {
            ToolOutcome::Success { value, .. } => r matches Ok(result) && result.content
                == ToolContent::Structured(value),
            ToolOutcome::ExecErr { message, structured, .. } => r matches Ok(result) && (
            structured is None ==> result.content == ToolContent::ErrorText(message)) && (
            structured matches Some(detail) ==> result.content == ToolContent::StructuredError(
                detail,
            )),
            ToolOutcome::InvalidParams(words) => r matches Err(err) && err.code == -32602
                && err.message@ == words@,
            ToolOutcome::TooLarge(words) => r matches Err(err) && err.code == -32003
                && err.message@ == words@,
            ToolOutcome::Busy(words) => r matches Err(err) && err.code == -32004 && err.message@
                == words@,
            ToolOutcome::UnknownTool(words) => r matches Err(err) && err.code == -32601
                && err.message@ == words@,
            ToolOutcome::Denied { .. } => r matches Err(err) && err.code == -32001 && err.message@
                == "scope denied for MCP tool"@,
            ToolOutcome::Internal(words) => r matches Err(err) && err.code == -32603
                && err.message@ == words@,
        },
{
}

/// Every row of a call names the caller, the tool and the surface.
pub proof fn law_rows_name_caller_and_tool(
    token_id: Seq<char>,
    family: Seq<char>,
    outcome: ToolOutcome,
)
    ensures
        ({
            let row = completed_row(token_id, family, outcome);
            let intent = tool_row(token_id, family, 0, "pending"@, None);
            &&& row.token_id == token_id && intent.token_id == token_id
            &&& row.path == "mcp.tool."@ + family && intent.path == "mcp.tool."@ + family
            &&& row.actor_kind == "mcp"@ && intent.actor_kind == "mcp"@
            &&& row.method == "MCP"@ && intent.method == "MCP"@
            &&& row.status == tool_status(outcome) && intent.status == 0
            &&& intent.decision == "pending"@
            &&& row.required_scope is Some <==> outcome is Denied
            &&& row.execution_outcome is None && row.domain_error is None && row.credential_fp
                is None && row.finalized_ms is None
            &&& intent.required_scope is None && intent.execution_outcome is None
                && intent.domain_error is None && intent.credential_fp is None
                && intent.finalized_ms is None
            &&& outcome matches ToolOutcome::Denied { required } ==> row.required_scope == Some(
                required@,
            )
        }),
{
}

/// What completes a row: allowed where the call was answered, denied where the caller is at fault,
/// and an error where the host is; and what the plugin said, where one was reached.
pub proof fn law_completions_tell_who_is_at_fault(input: FinalizeInput, outcome: ToolOutcome)
    requires
        is_finalize(input, outcome),
    ensures
        input.status == tool_status(outcome),
        input.decision@ == (if outcome is Success || outcome is ExecErr {
            "allow"@
        } else if outcome is Busy || outcome is Internal {
            "error"@
        } else {
            "deny"@
        }),
        outcome matches ToolOutcome::Denied { required } ==> opt_text(input.required_scope) == Some(
            required@,
        ),
        !(outcome is Denied) ==> input.required_scope is None,
        outcome matches ToolOutcome::ExecErr { domain_kind, .. } ==> opt_text(input.domain_error)
            == opt_str(domain_kind),
        opt_text(input.execution_outcome) == Some("success"@) <==> (outcome matches
            ToolOutcome::Success { plugin_reached, .. } && plugin_reached),
        opt_text(input.execution_outcome) == Some("failed"@) <==> (outcome matches
            ToolOutcome::ExecErr { domain_kind, .. } && domain_kind is Some),
{
    reveal_strlit("success");
    reveal_strlit("failed");
    assert("success"@[0] == 's' && "failed"@[0] == 'f');
}

/// The note on an answer names the row of the call and the tool.
pub proof fn law_notes_name_row_and_tool(intent_id: u64, family: Seq<char>)
    ensures
        member_of(audit_note(intent_id, family), "intent_id"@) == Some(
            JsonModel::Int(intent_id as int),
        ),
        member_of(audit_note(intent_id, family), "path"@) == Some(
            JsonModel::Text("mcp.tool."@ + family),
        ),
{
    reveal_strlit("intent_id");
    reveal_strlit("path");
    reveal_with_fuel(member_index, 3);
    assert("intent_id"@.len() != "path"@.len());
}

// ---------------------------------------------------------------------
// What tools are asked to do
// ---------------------------------------------------------------------

/// A command is for the device that the caller names, and the plugin gets what the caller sent:
/// the capability, the action, and the arguments in their order.
pub proof fn law_commands_are_the_callers(
    args: DeviceSendCommandArgs,
    r: (RunStage, RunAction),
    runs: Option<bool>,
)
    requires
        is_run_step(RunStage::AwaitOwner(args), RunEvent::Owner(runs), r),
    ensures
        r.1 is Dispatch <==> runs == Some(true),
        r.1 matches RunAction::Dispatch { device_id, command } ==> device_id@ == args.device_id@
            && command.capability@ == args.capability@ && command.action@ == args.action@
            && same_fields(args.args@, command.args@),
        !(r.1 is Dispatch) ==> (r.1 matches RunAction::End(outcome) && outcome is ExecErr),
{
    if let RunAction::Dispatch { device_id, command } = r.1 {
        law_fields_go_out_one_for_one(args.args@, command.args@);
    }
}

/// A caller that names a device, a plugin, an instance or a directory is served for exactly that.
pub proof fn law_calls_begin_with_what_is_named(
    args: ToolArgs,
    r: (RunStage, RunAction),
    now: i64,
)
    requires
        is_run_begin(r, args, now),
    ensures
        args matches ToolArgs::DeviceSendCommand(Some(Ok(a))) ==> (r.1 matches
            RunAction::FindOwner { device_id } && device_id@ == a.device_id@),
        args matches ToolArgs::PluginsShow(Some(Ok(id))) ==> if id@.len() > 0 {
            r.1 matches RunAction::LookUpPlugin { plugin_id } && plugin_id@ == id@
        } else {
            r.1 matches RunAction::End(outcome) && outcome is InvalidParams
        },
        args matches ToolArgs::PluginsInstall(Some(Ok(dir))) ==> if dir@.len() > 0 {
            r.1 matches RunAction::Install { source_dir } && source_dir@ == dir@
        } else {
            r.1 matches RunAction::End(outcome) && outcome is InvalidParams
        },
        args matches ToolArgs::PluginsUninstall(Some(Ok(id))) ==> if id@.len() > 0 {
            r.1 matches RunAction::PrepareUninstall { plugin_id } && plugin_id@ == id@
        } else {
            r.1 matches RunAction::End(outcome) && outcome is InvalidParams
        },
        args matches ToolArgs::PluginsStop(Some(Ok(a))) ==> if a.plugin_id@.len() > 0 && (
        a.instance_id matches Some(id) ==> id@.len() > 0) {
            r.1 is ListInstances && (r.0 matches RunStage::AwaitInstances { plugin_id, instance_id }
                && plugin_id@ == a.plugin_id@ && opt_text(instance_id) == opt_text(a.instance_id))
        } else {
            r.1 matches RunAction::End(outcome) && outcome is InvalidParams
        },
        args matches ToolArgs::PluginsStart(Some(Ok(a))) ==> if a.plugin_id@.len() > 0 && (
        a.instance_id matches Some(id) ==> id@.len() > 0) {
            r.1 matches RunAction::PrepareStart { plugin_id, instance_id } && plugin_id@
                == a.plugin_id@ && instance_id@ == (match a.instance_id {
                Some(id) => id@,
                None => a.plugin_id@,
            })
        } else {
            r.1 matches RunAction::End(outcome) && outcome is InvalidParams
        },
        args matches ToolArgs::PluginsList(Ok(())) ==> r.1 is ListPlugins,
{
}

/// What a caller named is kept until it is needed: a later step works on the same device, plugin
/// and instance, with the same overrides.
pub proof fn law_calls_keep_what_is_named(
    args: ToolArgs,
    r: (RunStage, RunAction),
    now: i64,
)
    requires
        is_run_begin(r, args, now),
        !(r.1 is End),
    ensures
        args matches ToolArgs::DeviceSendCommand(Some(Ok(a))) ==> r.0 == RunStage::AwaitOwner(a),
        args matches ToolArgs::PluginsShow(Some(Ok(id))) ==> (r.0 matches RunStage::AwaitDetail {
            plugin_id,
        } && plugin_id@ == id@),
        args matches ToolArgs::PluginsUninstall(Some(Ok(id))) ==> (r.0 matches
            RunStage::AwaitRunning { plugin_id } && plugin_id@ == id@),
        args matches ToolArgs::PluginsStart(Some(Ok(a))) ==> (r.0 matches RunStage::AwaitReadiness {
            plugin_id,
            instance_id,
            overrides,
        } && plugin_id@ == a.plugin_id@ && instance_id@ == (match a.instance_id {
            Some(id) => id@,
            None => a.plugin_id@,
        }) && overrides == a.config_overrides),
        args matches ToolArgs::LogsQuery(Ok(_)) ==> r.0 is AwaitLogs && r.1 is QueryLogs,
        args matches ToolArgs::EventsHistory(Ok(_)) ==> r.0 is AwaitEvents && r.1 is QueryEvents,
        args is PluginsInstall ==> r.0 is AwaitInstall,
        args is PluginsList ==> r.0 is AwaitListing,
{
}

/// Arguments that are missing or do not read are refused, and nothing is asked of the host.
pub proof fn law_unread_arguments_are_refused(args: ToolArgs, r: (RunStage, RunAction), now: i64)
    requires
        is_run_begin(r, args, now),
        match args {
            ToolArgs::DeviceSendCommand(a) => !(a matches Some(Ok(_))),
            ToolArgs::LogsQuery(a) => a is Err,
            ToolArgs::EventsHistory(a) => a is Err,
            ToolArgs::PluginsList(a) => a is Err,
            ToolArgs::PluginsShow(a) => !(a matches Some(Ok(_))),
            ToolArgs::PluginsStop(a) => !(a matches Some(Ok(_))),
            ToolArgs::PluginsStart(a) => !(a matches Some(Ok(_))),
            ToolArgs::PluginsInstall(a) => !(a matches Some(Ok(_))),
            ToolArgs::PluginsUninstall(a) => !(a matches Some(Ok(_))),
        },
    ensures
        r.0 is Done,
        r.1 matches RunAction::End(outcome) && outcome is InvalidParams,
{
}

/// Exactly the running instances of the named plugin are stopped, or the one that is named.
pub proof fn law_named_instances_are_stopped(
    plugin_id: String,
    instance_id: Option<String>,
    r: (RunStage, RunAction),
    list: Vec<RunningInstance>,
    id: Seq<char>,
)
    requires
        is_run_step(
            RunStage::AwaitInstances { plugin_id, instance_id },
            RunEvent::Instances(list),
            r,
        ),
    ensures
        r.1 matches RunAction::Stop { instances } && (texts(instances@).contains(id) <==> runs_as(
            list@,
            plugin_id@,
            id,
        ) && (instance_id matches Some(want) ==> id == want@)),
{
    law_only_the_plugins_instances_are_stopped(list@, plugin_id@, opt_text(instance_id), id);
}

/// A plugin is started as the caller asks, and only where the id is safe and the plugin is
/// installed.
pub proof fn law_starts_are_the_callers(
    plugin_id: String,
    instance_id: String,
    overrides: Option<toml::Value>,
    r: (RunStage, RunAction),
    id_is_safe: bool,
    installed: bool,
)
    requires
        is_run_step(
            RunStage::AwaitReadiness { plugin_id, instance_id, overrides },
            RunEvent::Readiness { id_is_safe, installed },
            r,
        ),
    ensures
        r.1 is Start <==> id_is_safe && installed,
        r.1 is Start ==> (r.0 matches RunStage::AwaitStart { plugin_id: p, instance_id: i } && p@
            == plugin_id@ && i@ == instance_id@),
        r.1 matches RunAction::Start { plugin_id: p, instance_id: i, overrides: o } ==> p@
            == plugin_id@ && i@ == instance_id@ && o == overrides,
        !id_is_safe ==> (r.1 matches RunAction::End(outcome) && outcome is InvalidParams),
        id_is_safe && !installed ==> (r.1 matches RunAction::End(outcome) && outcome is ExecErr),
{
}

/// What a start, a removal or an installation came to is what is reported of it: a body with the
/// names of the call where it succeeded, and an outcome that is no success where it did not.
pub proof fn law_ends_are_reported_as_they_were(
    plugin_id: String,
    instance_id: String,
    started: StartEnd,
    removed: UninstallEnd,
    after_start: (RunStage, RunAction),
    after_removal: (RunStage, RunAction),
)
    requires
        is_run_step(
            RunStage::AwaitStart { plugin_id, instance_id },
            RunEvent::Started(started),
            after_start,
        ),
        is_run_step(
            RunStage::AwaitRemoval { plugin_id },
            RunEvent::Removal(removed),
            after_removal,
        ),
    ensures
        started matches StartEnd::Running { state } ==> (after_start.1 matches RunAction::Encode(
            ToolBody::Started { plugin_id: p, instance_id: i, state: s },
        ) && p@ == plugin_id@ && i@ == instance_id@ && s@ == state@),
        !(started is Running) ==> (after_start.1 matches RunAction::End(outcome)
            && outcome is Internal),
        removed is Removed ==> (after_removal.1 matches RunAction::Encode(ToolBody::Uninstalled {
            plugin_id: p,
        }) && p@ == plugin_id@),
        removed matches UninstallEnd::Failed(UninstallError::NotInstalled { .. }) ==> (
        after_removal.1 matches RunAction::End(outcome) && outcome is ExecErr),
        removed matches UninstallEnd::Failed(UninstallError::NoPluginsRoot) ==> (
        after_removal.1 matches RunAction::End(outcome) && outcome is ExecErr),
        removed matches UninstallEnd::Failed(UninstallError::Io(_)) ==> (after_removal.1 matches
            RunAction::End(outcome) && outcome is Internal),
        removed matches UninstallEnd::Failed(UninstallError::Persistence(_)) ==> (
        after_removal.1 matches RunAction::End(outcome) && outcome is Internal),
        removed is Broken ==> (after_removal.1 matches RunAction::End(outcome)
            && outcome is Internal),
{
}

/// The kind that an outcome names in its detail.
pub open spec fn named_kind(outcome: ToolOutcome) -> Option<Seq<char>> {
    match outcome {
        ToolOutcome::ExecErr { structured: Some(detail), .. } => match detail@ {
            JsonModel::Object(members) => if members.len() > 0 && members[0].0 == "kind"@ {
                match members[0].1 {
                    JsonModel::Text(kind) => Some(kind),
                    _ => None,
                }
            } else {
                None
            },
            _ => None,
        },
        _ => None,
    }
}

/// Failures of an installation are told apart by the kind that they name; those of the host are
/// reported without their words.
pub proof fn law_install_failures_are_told_apart(
    r: ToolOutcome,
    end: InstallEnd,
    file: Option<Seq<char>>,
)
    requires
        is_install_failure(r, end, file),
    ensures
        match end {
            InstallEnd::Failed(InstallError::SourceMissing { .. }) => named_kind(r) == Some(
                "source_missing"@,
            ),
            InstallEnd::Failed(InstallError::AlreadyInstalled { .. }) => named_kind(r) == Some(
                "already_installed"@,
            ),
            InstallEnd::Failed(InstallError::BadManifest { .. }) => named_kind(r) == Some(
                "bad_manifest"@,
            ),
            InstallEnd::Failed(InstallError::NoPluginsRoot) => named_kind(r) == Some(
                "no_plugins_root"@,
            ),
            InstallEnd::Failed(InstallError::Io(_)) => r is Internal,
            InstallEnd::Failed(InstallError::Persistence(_)) => r is Internal,
            InstallEnd::Broken => r is Internal,
        },
        tool_domain_error(r) is None,
{
}

/// A store that is busy is told from one that fails.
pub proof fn law_busy_stores_are_told_from_failing_ones(
    r: ToolOutcome,
    failure: StoreFailure,
    what: Seq<char>,
)
    requires
        is_store_failure(r, failure, what),
    ensures
        failure == StoreFailure::Saturated <==> r is Busy,
        failure != StoreFailure::Saturated <==> r is Internal,
{
}

/// What the host gave is what goes into the body of a tool: the log entries, the events, the
/// listing, the detail, what was stopped and what was installed. A store that fails ends the call
/// with what is said of it.
pub proof fn law_tool_bodies_hold_what_the_host_gave(
    before: RunStage,
    event: RunEvent,
    r: (RunStage, RunAction),
)
    requires
        is_run_step(before, event, r),
    ensures
        before is AwaitLogs && (event matches RunEvent::Logs(Ok(_))) ==> r.0 == RunStage::AwaitBody(
            ToolKind::LogsQuery,
        ) && r.1 == RunAction::Encode(ToolBody::Logs { logs: event->Logs_0->Ok_0 }),
        before is AwaitLogs && (event matches RunEvent::Logs(Err(_))) ==> (r.1 matches
            RunAction::End(outcome) && is_store_failure(outcome, event->Logs_0->Err_0, "log"@)),
        before is AwaitEvents && (event matches RunEvent::Events(Ok(_))) ==> r.0
            == RunStage::AwaitBody(ToolKind::EventsHistory) && (r.1 matches RunAction::Encode(
            ToolBody::Events { events },
        ) && are_event_rows(events@, event->Events_0->Ok_0@)),
        before is AwaitEvents && (event matches RunEvent::Events(Err(_))) ==> (r.1 matches
            RunAction::End(outcome) && is_store_failure(outcome, event->Events_0->Err_0, "event"@)),
        before is AwaitListing && event is Listing ==> r.0 == RunStage::AwaitBody(
            ToolKind::PluginsList,
        ) && (r.1 matches RunAction::Encode(ToolBody::Plugins { plugins }) && is_plugin_listing(
            plugins@,
            event->Listing_installed@,
            texts(event->Listing_running@),
        )),
        before is AwaitStops && event is Stops ==> r.0 == RunStage::AwaitBody(ToolKind::PluginsStop)
            && (r.1 matches RunAction::Encode(ToolBody::Stopped { stopped }) && texts(stopped@)
            == stopped_of(event->Stops_0@)),
        before is AwaitInstall && event is Installed ==> r.0 == RunStage::AwaitBody(
            ToolKind::PluginsInstall,
        ) && r.1 == RunAction::Encode(ToolBody::Installed(event->Installed_0)),
        before is AwaitInstall && event is NotInstalled ==> r.0 is Done && (r.1 matches
            RunAction::End(outcome) && is_install_failure(
            outcome,
            event->end,
            opt_text(event->file),
        )),
        before is AwaitAnswer && event is Answered ==> r.0 is Done && (r.1 matches RunAction::End(
            outcome,
        ) && is_dispatch_outcome(outcome, event->Answered_0)),
        before is AwaitBody && event is Encoded ==> r.0 is Done && (r.1 matches RunAction::End(
            outcome,
        ) && is_body_outcome(outcome, event->Encoded_0, before->AwaitBody_0)),
{
}

/// The detail of a plugin is shown exactly where the plugin is installed or an instance of it
/// runs.
pub proof fn law_known_plugins_are_shown(
    plugin_id: String,
    installed: Option<InstalledDetail>,
    rows: Vec<InstanceRow>,
    r: (RunStage, RunAction),
)
    requires
        is_run_step(
            RunStage::AwaitDetail { plugin_id },
            RunEvent::Detail { installed, rows },
            r,
        ),
    ensures
        r.1 is Encode <==> installed is Some || exists|k: int|
            0 <= k < rows.len() && (#[trigger] rows@[k]).plugin_id@ == plugin_id@,
        r.1 matches RunAction::Encode(body) ==> r.0 == RunStage::AwaitBody(ToolKind::PluginsShow)
            && (body matches ToolBody::Plugin(detail) && is_plugin_detail(
            detail,
            plugin_id@,
            installed,
            rows@,
        )),
        !(r.1 is Encode) ==> r.0 is Done && (r.1 matches RunAction::End(outcome)
            && outcome is ExecErr),
{
    lemma_plugin_has_instances(rows@, plugin_id@);
}

/// A plugin has instances exactly where a row has its id.
pub proof fn lemma_plugin_has_instances(rows: Seq<InstanceRow>, id: Seq<char>)
    ensures
        instances_of_plugin(rows, id).len() > 0 <==> exists|k: int|
            0 <= k < rows.len() && (#[trigger] rows[k]).plugin_id@ == id,
    decreases rows.len(),
{
    if rows.len() > 0 {
        let init = rows.drop_last();
        lemma_plugin_has_instances(init, id);
        if instances_of_plugin(init, id).len() > 0 {
            let k = choose|k: int| 0 <= k < init.len() && (#[trigger] init[k]).plugin_id@ == id;
            assert(rows[k].plugin_id@ == id);
        }
        if rows.last().plugin_id@ == id {
            assert(rows[rows.len() - 1].plugin_id@ == id);
        }
        if exists|k: int| 0 <= k < rows.len() && (#[trigger] rows[k]).plugin_id@ == id {
            let k = choose|k: int| 0 <= k < rows.len() && (#[trigger] rows[k]).plugin_id@ == id;
            if k < init.len() {
                assert(init[k].plugin_id@ == id);
            }
        }
    }
}

/// A plugin is removed over this surface exactly while none of its instances runs, and it is the
/// one that was named.
pub proof fn law_removals_wait_for_the_instances(
    plugin_id: String,
    list: Vec<RunningInstance>,
    r: (RunStage, RunAction),
)
    requires
        is_run_step(RunStage::AwaitRunning { plugin_id }, RunEvent::Instances(list), r),
    ensures
        r.1 is Uninstall <==> !(exists|i: int|
            0 <= i < list.len() && (#[trigger] list@[i]).plugin_id@ == plugin_id@),
        r.1 matches RunAction::Uninstall { plugin_id: p } ==> p@ == plugin_id@ && (r.0 matches
            RunStage::AwaitRemoval { plugin_id: q } && q@ == plugin_id@),
        !(r.1 is Uninstall) ==> r.0 is Done && (r.1 matches RunAction::End(outcome)
            && named_kind(outcome) == Some("instances_running"@)),
{
    law_listed_instances_run(list@, plugin_id@);
}

// ---------------------------------------------------------------------
// Answers of plugins
// ---------------------------------------------------------------------

/// A command that the plugin carried out is a success that reached the plugin; one that it refused
/// is recorded under the kind of its error; one that did not reach it is a fault of the host.
pub proof fn law_plugin_answers_are_recorded(r: ToolOutcome, result: Option<CommandResult>)
    requires
        is_dispatch_outcome(r, result),
    ensures
        result is None ==> r is Internal,
        result matches Some(CommandResult::Done) ==> (r matches ToolOutcome::Success {
            plugin_reached,
            ..
        } && plugin_reached),
        result matches Some(CommandResult::OkWithState(_)) ==> (r matches ToolOutcome::Success {
            plugin_reached,
            ..
        } && plugin_reached),
        result matches Some(CommandResult::Failed(err)) ==> tool_domain_error(r) == Some(
            match err {
                WitError::NotFound(_) => "not_found"@,
                WitError::InvalidArgument(_) => "invalid_argument"@,
                WitError::PermissionDenied(_) => "permission_denied"@,
                WitError::Unavailable(_) => "unavailable"@,
                WitError::Internal(_) => "internal"@,
            },
        ) && tool_execution(r) == Some("failed"@),
{
    if let Some(answer) = result {
        let wire = choose|wire: WireCommandResult| #[trigger]
            is_carried(wire, answer) && is_command_outcome(r, wire);
    }
}

/// The answer of a plugin is handed to the caller as JSON: how it ended, the state that it
/// reported, or its error.
pub proof fn law_plugin_answers_are_handed_on(r: ToolOutcome, answer: CommandResult)
    requires
        is_dispatch_outcome(r, Some(answer)),
    ensures
        exists|wire: WireCommandResult| #[trigger]
            is_carried(wire, answer) && (r matches ToolOutcome::Success {
                value: ToolValue::Tree(tree),
                ..
            } ==> is_result_json(tree@, wire)) && (r matches ToolOutcome::ExecErr {
                structured: Some(detail),
                ..
            } ==> is_result_json(detail@, wire)),
        answer is Failed ==> (r matches ToolOutcome::ExecErr { structured, .. } && structured
            is Some),
        !(answer is Failed) ==> (r matches ToolOutcome::Success { value, .. } && value is Tree),
        answer matches CommandResult::OkWithState(list) ==> (r matches ToolOutcome::Success {
            value: ToolValue::Tree(tree),
            ..
        } && exists|members: Seq<(Seq<char>, JsonModel)>| #[trigger]
            is_state_object(members, state_map(list@)) && member_of(tree@, "state"@) == Some(
                JsonModel::Object(members),
            )),
{
    let wire = choose|wire: WireCommandResult| #[trigger]
        is_carried(wire, answer) && is_command_outcome(r, wire);
    assert(is_carried(wire, answer));
    if let CommandResult::OkWithState(list) = answer {
        if let ToolOutcome::Success { value: ToolValue::Tree(tree), .. } = r {
            let members = choose|members: Seq<(Seq<char>, JsonModel)>| #[trigger]
                is_state_object(members, wire->OkWithState_state@) && tree@ == JsonModel::Object(
                    seq![
                        ("kind"@, JsonModel::Text("ok_with_state"@)),
                        ("state"@, JsonModel::Object(members)),
                    ],
                );
            reveal_strlit("kind");
            reveal_strlit("state");
            assert("kind"@[0] == 'k' && "state"@[0] == 's');
            reveal_with_fuel(member_index, 3);
            if let JsonModel::Object(all) = tree@ {
                assert(all.skip(1)[0] == all[1]);
            }
            assert(is_state_object(members, state_map(list@)));
        }
    }
}

/// A message of a plugin of up to 4096 bytes is carried whole, and of a longer one the beginning.
pub proof fn law_messages_are_carried(message: Seq<char>, out: Seq<char>)
    requires
        is_capped(message, out),
    ensures
        encode_utf8(message).len() <= 4096 ==> out == message,
        encode_utf8(message).len() > 4096 ==> exists|n: int|
            0 <= n < message.len() && #[trigger] message.take(n).is_prefix_of(out) && encode_utf8(
                message.take(n),
            ).len() <= 4096,
{
    if encode_utf8(message).len() > 4096 {
        let n = choose|n: int| #[trigger]
            is_cut(message, n) && out == message.take(n)
                + TRUNCATED_SUFFIX@;
        if n == message.len() {
            assert(message.take(n) =~= message);
        }
        assert(message.take(n) =~= out.subrange(0, n));
        assert(message.take(n).is_prefix_of(out));
    }
}

/// The tag beside a value tells its type, and the value is what it was: two values that go out
/// alike are the same.
pub proof fn law_tagged_values_are_told_apart(a: ValueModel, b: ValueModel)
    requires
        value_json(a) == value_json(b),
    ensures
        a == b,
{
    reveal_strlit("Bool");
    reveal_strlit("Int");
    reveal_strlit("Float");
    reveal_strlit("String");
    reveal_strlit("Bytes");
    reveal_strlit("Json");
    assert("Bool"@[0] == 'B' && "Json"@[0] == 'J' && "Float"@[0] == 'F' && "Bytes"@[0] == 'B'
        && "Int"@[0] == 'I' && "String"@[0] == 'S');
    if let (JsonModel::Object(x), JsonModel::Object(y)) = (value_json(a), value_json(b)) {
        assert(x[0] == y[0] && x[1] == y[1]);
        if let (ValueModel::Bytes(p), ValueModel::Bytes(q)) = (a, b) {
            lemma_byte_numbers(p, q);
        }
    }
}

/// Bytes are told by their numbers.
proof fn lemma_byte_numbers(p: Seq<u8>, q: Seq<u8>)
    requires
        byte_numbers(p) == byte_numbers(q),
    ensures
        p == q,
{
    let x = byte_numbers(p);
    let y = byte_numbers(q);
    assert(x.len() == p.len() && y.len() == q.len());
    assert forall|i: int| 0 <= i < p.len() implies p[i] == q[i] by {
        assert(x[i] == JsonModel::Int(p[i] as int));
        assert(y[i] == JsonModel::Int(q[i] as int));
    }
    assert(p =~= q);
}

/// Whether a JSON value is the content of a typed value.
pub open spec fn is_content(content: JsonModel, value: ValueModel) -> bool {
    match value {
        ValueModel::Bool(b) => content == JsonModel::Bool(b),
        ValueModel::Int(i) => content == JsonModel::Int(i as int),
        ValueModel::Float(bits) => content == JsonModel::Float(bits),
        ValueModel::Text(t) => content == JsonModel::Text(t),
        ValueModel::Bytes(bytes) => content matches JsonModel::List(items) && items.len()
            == bytes.len() && forall|i: int|
            0 <= i < bytes.len() ==> #[trigger] items[i] == JsonModel::Int(bytes[i] as int),
        ValueModel::Json(t) => content == JsonModel::Text(t),
    }
}

/// A value goes out as its content with the name of its type beside it.
pub proof fn law_values_carry_these_tags(value: ValueModel)
    ensures
        value_json(value) matches JsonModel::Object(members) && members.len() == 2 && members[0]
            == ("t"@, JsonModel::Text(
            match value {
                ValueModel::Bool(_) => "Bool"@,
                ValueModel::Int(_) => "Int"@,
                ValueModel::Float(_) => "Float"@,
                ValueModel::Text(_) => "String"@,
                ValueModel::Bytes(_) => "Bytes"@,
                ValueModel::Json(_) => "Json"@,
            },
        )) && members[1].0 == "v"@ && is_content(members[1].1, value),
{
    if let ValueModel::Bytes(bytes) = value {
        let items = byte_numbers(bytes);
        assert forall|i: int| 0 <= i < bytes.len() implies #[trigger] items[i] == JsonModel::Int(
            bytes[i] as int,
        ) by {}
    }
}

// ---------------------------------------------------------------------
// Bodies
// ---------------------------------------------------------------------

/// A tool answers with the very text that was written, where that is not too long and is JSON;
/// what is too long is told from what went wrong.
pub proof fn law_tool_bodies_are_what_was_written(
    outcome: ToolOutcome,
    end: EncodeEnd,
    tool: ToolKind,
)
    requires
        is_body_outcome(outcome, end, tool),
    ensures
        outcome matches ToolOutcome::Success { value, plugin_reached } ==> !plugin_reached && (
        value matches ToolValue::Text(text) && end matches EncodeEnd::Written(writer) && encode_utf8(
            text@,
        ) == writer@.bytes && writer@.bytes.len() <= 2_621_440),
        outcome is Success || outcome is TooLarge || outcome is Internal,
        end is CapReached ==> outcome is TooLarge,
        end is Failed ==> outcome is Internal,
        outcome is TooLarge ==> end is CapReached || (end matches EncodeEnd::Written(writer)
            && writer@.bytes.len() > 2_621_440),
{
    let body = choose|body: EncodedBody| #[trigger]
        is_encoded_body(body, end, tool_name(tool)) && outcome == body_outcome(body);
    if let EncodeEnd::Written(writer) = end {
        if valid_utf8(writer@.bytes) {
            decode_utf8_encode_utf8(writer@.bytes);
        }
    }
}

/// The detail of a plugin is that of the installation with the id, if there is one, and lists the
/// instances of that plugin, each with its state.
pub proof fn law_plugin_details_are_the_plugins(
    detail: PluginDetail,
    id: Seq<char>,
    installed: Option<InstalledDetail>,
    rows: Seq<InstanceRow>,
    instance: Seq<char>,
    state: Seq<char>,
)
    requires
        is_plugin_detail(detail, id, installed, rows),
    ensures
        detail.plugin_id@ == id,
        detail.installed <==> installed is Some,
        installed matches Some(i) ==> opt_text(detail.version) == Some(i.version@)
            && detail.singleton == Some(i.singleton) && opt_text(detail.content_digest) == Some(
            i.content_digest@,
        ) && opt_text(detail.installation_uuid) == Some(i.installation_uuid@),
        installed is None ==> detail.version is None && detail.singleton is None
            && detail.content_digest is None && detail.installation_uuid is None,
        instance_views(detail.instances@).contains((instance, state)) <==> exists|k: int|
            0 <= k < rows.len() && (#[trigger] rows[k]).plugin_id@ == id && rows[k].instance_id@
                == instance && rows[k].state@ == state,
{
    lemma_instances_of_plugin(rows, id, instance, state);
}

/// The instances of a plugin are the rows with its id.
proof fn lemma_instances_of_plugin(
    rows: Seq<InstanceRow>,
    id: Seq<char>,
    instance: Seq<char>,
    state: Seq<char>,
)
    ensures
        instances_of_plugin(rows, id).contains((instance, state)) <==> exists|k: int|
            0 <= k < rows.len() && (#[trigger] rows[k]).plugin_id@ == id && rows[k].instance_id@
                == instance && rows[k].state@ == state,
    decreases rows.len(),
{
    if rows.len() > 0 {
        let init = rows.drop_last();
        let before = instances_of_plugin(init, id);
        let all = instances_of_plugin(rows, id);
        lemma_instances_of_plugin(init, id, instance, state);
        if before.contains((instance, state)) {
            let k = choose|k: int|
                0 <= k < init.len() && (#[trigger] init[k]).plugin_id@ == id && init[k].instance_id@
                    == instance && init[k].state@ == state;
            assert(rows[k].plugin_id@ == id);
            let j = choose|j: int| 0 <= j < before.len() && before[j] == (instance, state);
            assert(all[j] == (instance, state));
        }
        if all.contains((instance, state)) && !before.contains((instance, state)) {
            let j = choose|j: int| 0 <= j < all.len() && all[j] == (instance, state);
            if j < before.len() {
                assert(before[j] == (instance, state));
            }
            assert(rows[rows.len() - 1].plugin_id@ == id);
        }
        if exists|k: int|
            0 <= k < rows.len() && (#[trigger] rows[k]).plugin_id@ == id && rows[k].instance_id@
                == instance && rows[k].state@ == state {
            let k = choose|k: int|
                0 <= k < rows.len() && (#[trigger] rows[k]).plugin_id@ == id && rows[k].instance_id@
                    == instance && rows[k].state@ == state;
            if k < init.len() {
                assert(init[k].plugin_id@ == id);
            } else {
                assert(all[before.len() as int] == (instance, state));
            }
        }
    }
}

// ---------------------------------------------------------------------
// The way of a call
// ---------------------------------------------------------------------

/// A call that does not reach its tool is answered once its row is written, with what the row
/// says; where the row cannot be written the call is refused.
pub proof fn law_early_ends_are_written_first(
    outcome: ToolOutcome,
    write: LedgerWrite,
    after: CallStage,
    action: CallAction,
)
    requires
        is_call_step(
            CallStage::AwaitRow { outcome },
            CallEvent::RowWrite(write),
            after,
            action,
        ),
    ensures
        after is Done,
        write is Written ==> (action matches CallAction::Answer(r) && is_call_result(r, outcome)),
        !(write is Written) ==> (action matches CallAction::Answer(r) && r matches Err(err)
            && err.code == -32603),
{
}

/// A tool runs once its intent is on the ledger, and it is the tool that was called; where the
/// intent cannot be written nothing runs.
pub proof fn law_tools_run_once_their_intent_is_written(
    tool: ToolKind,
    event: CallEvent,
    after: CallStage,
    action: CallAction,
)
    requires
        is_call_step(CallStage::AwaitIntent { tool }, event, after, action),
    ensures
        action is RunTool <==> event is IntentWritten,
        event matches CallEvent::IntentWritten(id) ==> action == CallAction::RunTool(tool) && after
            == (CallStage::AwaitTool { tool, intent_id: id }),
        !(event is IntentWritten) ==> after is Done && (action matches CallAction::Answer(r)
            && r matches Err(err) && err.code == -32603),
{
}

/// The member under which an answer names its row, in what goes with it.
pub open spec fn row_note(answer: Result<CallResult, McpError>) -> Option<JsonModel> {
    match answer {
        Ok(result) => member_of(JsonModel::Object(meta_members(result.meta)), "oxidhome.audit"@),
        Err(err) => match err.data {
            Some(data) => member_of(data@, "oxidhome.audit"@),
            None => None,
        },
    }
}

/// When a tool ends its own row is completed, with how it ended, and the answer says the same and
/// names the row.
pub proof fn law_ends_complete_their_row(
    tool: ToolKind,
    intent_id: u64,
    outcome: ToolOutcome,
    after: CallStage,
    action: CallAction,
)
    requires
        is_call_step(
            CallStage::AwaitTool { tool, intent_id },
            CallEvent::Ended(outcome),
            after,
            action,
        ),
    ensures
        after is Done,
        action is Complete,
        action->Complete_intent_id == intent_id,
        is_finalize(action->Complete_input, outcome),
        action->Complete_answer is Ok <==> outcome is Success || outcome is ExecErr,
        action->Complete_answer matches Err(err) ==> err.code == code_with_status(
            tool_status(outcome),
        ),
        action->Complete_answer matches Ok(result) ==> result.meta is Some,
        row_note(action->Complete_answer) == Some(audit_note(intent_id, tool_name(tool))),
        outcome matches ToolOutcome::Success { value, .. } ==> action->Complete_answer->Ok_0.content
            == ToolContent::Structured(value),
        outcome matches ToolOutcome::Internal(reason) ==> action->Complete_answer->Err_0.message@
            == reason@,
        outcome matches ToolOutcome::InvalidParams(reason) ==>
            action->Complete_answer->Err_0.message@ == reason@,
{
    let answer = action->Complete_answer;
    let note = audit_note(intent_id, tool_name(tool));
    let bare = choose|bare: Result<CallResult, McpError>| #[trigger]
        is_call_result(bare, outcome) && match (bare, answer) {
            (Ok(b), Ok(a)) => is_noted_result(a, b, intent_id, tool_name(tool)),
            (Err(b), Err(a)) => is_noted_error(a, b, intent_id, tool_name(tool)),
            _ => false,
        };
    reveal_strlit("oxidhome.audit");
    reveal_strlit("previous");
    assert("oxidhome.audit"@[0] == 'o' && "previous"@[0] == 'p');
    match (bare, answer) {
        (Ok(b), Ok(a)) => {
            law_added_member_is_found(meta_members(b.meta), "oxidhome.audit"@, note, "previous"@);
        },
        (Err(b), Err(a)) => {
            law_noted_errors_name_their_row(opt_json(b.data), note);
        },
        _ => {},
    }
}

/// A note on an error takes nothing from what the error said: the members of an object stay beside
/// it, and anything else is kept as what was there before.
pub proof fn law_notes_take_nothing_away(
    data: JsonModel,
    note: JsonModel,
    name: Seq<char>,
)
    requires
        name != "oxidhome.audit"@,
    ensures
        data is Object ==> member_of(noted_data(Some(data), note), name) == member_of(data, name),
        !(data is Object) ==> member_of(noted_data(Some(data), note), "previous"@) == Some(data),
        member_of(noted_data(None, note), name) is None,
{
    reveal_strlit("oxidhome.audit");
    reveal_strlit("previous");
    assert("oxidhome.audit"@[0] == 'o' && "previous"@[0] == 'p');
    reveal_with_fuel(member_index, 3);
    match data {
        JsonModel::Object(members) => {
            law_noted_errors_keep_their_data(members, note, name);
        },
        _ => {
            if let JsonModel::Object(members) = noted_data(Some(data), note) {
                assert(members.skip(1)[0] == members[1]);
            }
        },
    }
}

} // verus!
